//! The guest-memory ABI. Every guest export called by the host has the
//! signature `(in_ptr: i32, in_len: i32) -> i64` and returns a packed
//! `(ptr << 32) | len` naming a buffer in its own linear memory, `0` for
//! "nothing to return".
use vstd::prelude::*;
use crate::error::AppError;

verus! {

/// Fuel granted to one guest call: enough for any reasonable hook, small
/// enough that an endless loop traps in well under a second.
pub const FUEL_PER_CALL: u64 = 200_000_000;

/// Budget of `host_*` calls per plugin and minute.
pub const RATE_LIMIT_PER_MINUTE: u32 = 120;

/// The `(ptr, len)` a packed export result names; `None` for `0`.
pub open spec fn spec_unpack(packed: i64) -> Option<(i32, i32)> {
    if packed == 0 {
        None
    } else {
        Some(((packed >> 32u64) as i32, (packed & 0xFFFF_FFFFi64) as i32))
    }
}

/// Splits a guest export's packed result into pointer and length.
pub fn unpack_export_result(packed: i64) -> (r: Option<(i32, i32)>)
    ensures
        r == spec_unpack(packed),
{
    if packed == 0 {
        return None;
    }
    let ptr = (packed >> 32u64) as i32;
    let len = (packed & 0xFFFF_FFFFi64) as i32;
    Some((ptr, len))
}

/// A guest that packs a non-empty `(ptr, len)` with non-negative halves
/// the way the ABI says gets exactly that pair back from the host.
pub proof fn lemma_unpack_inverts_packing(ptr: i32, len: i32)
    requires
        ptr >= 0,
        len >= 0,
        ptr != 0 || len != 0,
    ensures
        spec_unpack(((ptr as i64) << 32u64) | (len as i64)) == Some((ptr, len)),
{
    let p = ptr as i64;
    let l = len as i64;
    assert((p << 32u64) | l != 0) by (bit_vector)
        requires
            0 <= p < 0x8000_0000,
            0 <= l < 0x8000_0000,
            p != 0 || l != 0,
    ;
    assert((((p << 32u64) | l) >> 32u64) as i32 == p as i32) by (bit_vector)
        requires
            0 <= p < 0x8000_0000,
            0 <= l < 0x8000_0000,
    ;
    assert((((p << 32u64) | l) & 0xFFFF_FFFFi64) as i32 == l as i32) by (bit_vector)
        requires
            0 <= p < 0x8000_0000,
            0 <= l < 0x8000_0000,
    ;
}

/// Whether `[ptr, ptr + len)` is a well-formed range inside a memory of
/// `mem_len` bytes.
pub open spec fn in_guest_memory(mem_len: nat, ptr: i32, len: i32) -> bool {
    ptr >= 0 && len >= 0 && ptr + len <= mem_len
}

/// The bytes `[ptr, ptr + len)` of a guest memory, or `None` when the
/// guest exports no memory or the range is negative or out of bounds.
pub fn read_guest_bytes(memory: Option<&[u8]>, ptr: i32, len: i32) -> (r: Option<Vec<u8>>)
    ensures
        match memory {
            Some(m) => if in_guest_memory(m@.len(), ptr, len) {
                r matches Some(b) && b@ == m@.subrange(ptr as int, ptr + len)
            } else {
                r is None
            },
            None => r is None,
        },
{
    if ptr < 0 || len < 0 {
        return None;
    }
    match memory {
        Some(m) => copy_range(m, ptr, len),
        None => None,
    }
}

/// `m[ptr..ptr + len]` copied out, when it lies inside `m`.
fn copy_range(m: &[u8], ptr: i32, len: i32) -> (r: Option<Vec<u8>>)
    requires
        ptr >= 0,
        len >= 0,
    ensures
        if in_guest_memory(m@.len(), ptr, len) {
            r matches Some(b) && b@ == m@.subrange(ptr as int, ptr + len)
        } else {
            r is None
        },
{
    let start = ptr as usize;
    let n = len as usize;
    let mlen = m.len();
    if start > mlen || n > mlen - start {
        return None;
    }
    let mut out: Vec<u8> = Vec::new();
    let mut i: usize = 0;
    while i < n
        invariant
            start + n <= mlen,
            mlen == m@.len(),
            i <= n,
            out@ == m@.subrange(start as int, (start + i) as int),
        decreases n - i,
    {
        out.push(m[start + i]);
        i = i + 1;
        assert(out@ =~= m@.subrange(start as int, (start + i) as int));
    }
    Some(out)
}

/// Reads the buffer a guest export named, with the host's error for each
/// way it can be unusable: a negative pointer or length, no exported
/// memory, or a range outside the memory.
pub fn read_from_guest(memory: Option<&[u8]>, ptr: i32, len: i32) -> (r: Result<Vec<u8>, AppError>)
    ensures
        if ptr < 0 || len < 0 {
            r matches Err(AppError::Internal(m)) && m@ == "plugin returned a negative pointer/length"@
        } else {
            match memory {
                None => r matches Err(AppError::Internal(m)) && m@
                    == "plugin does not export 'memory'"@,
                Some(mem) => if in_guest_memory(mem@.len(), ptr, len) {
                    r matches Ok(b) && b@ == mem@.subrange(ptr as int, ptr + len)
                } else {
                    r matches Err(AppError::Internal(m)) && m@
                        == "plugin returned an out-of-bounds buffer"@
                },
            }
        },
{
    if ptr < 0 || len < 0 {
        return Err(AppError::Internal(String::from_str("plugin returned a negative pointer/length")));
    }
    let m = match memory {
        Some(m) => m,
        None => {
            return Err(AppError::Internal(String::from_str("plugin does not export 'memory'")));
        },
    };
    match copy_range(m, ptr, len) {
        Some(b) => Ok(b),
        None => Err(AppError::Internal(String::from_str("plugin returned an out-of-bounds buffer"))),
    }
}

/// What a guest export call amounts to, given its packed result (`None`
/// when the plugin does not export the function: every hook is optional)
/// and the guest's memory afterwards: nothing for a missing export or for
/// `0`, else the buffer the result names.
pub fn export_result(packed: Option<i64>, memory: Option<&[u8]>) -> (r: Result<
    Option<Vec<u8>>,
    AppError,
>)
    ensures
        match packed {
            None => r == Ok::<Option<Vec<u8>>, AppError>(None),
            Some(p) => match spec_unpack(p) {
                None => r == Ok::<Option<Vec<u8>>, AppError>(None),
                Some((ptr, len)) => if ptr >= 0 && len >= 0 && memory is Some && in_guest_memory(
                    memory->0@.len(),
                    ptr,
                    len,
                ) {
                    r matches Ok(Some(b)) && b@ == memory->0@.subrange(ptr as int, ptr + len)
                } else {
                    r matches Err(AppError::Internal(_))
                },
            },
        },
{
    let packed = match packed {
        Some(p) => p,
        None => {
            return Ok(None);
        },
    };
    match unpack_export_result(packed) {
        None => Ok(None),
        Some((ptr, len)) => match read_from_guest(memory, ptr, len) {
            Ok(b) => Ok(Some(b)),
            Err(e) => Err(e),
        },
    }
}

} // verus!
