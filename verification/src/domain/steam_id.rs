//! SteamID64: the 64-bit public identifier of a Steam account.
use vstd::prelude::*;
use crate::text::{
    decimal, lemma_parse_decimal_roundtrip, parse_u64, spec_parse_u64, spec_starts_with,
    starts_with, u64_to_decimal,
    IntParseError,
};

verus! {

/// The prefix of the `openid.claimed_id` URL Steam's OpenID provider
/// returns; the SteamID64 follows it.
pub open spec fn claimed_id_prefix() -> Seq<char> {
    "https://steamcommunity.com/openid/id/"@
}

/// A SteamID64 in its numeric form.
#[derive(Debug, Clone, Copy, PartialEq, Eq, Structural, Hash)]
pub struct SteamId64(pub u64);

/// Why an `openid.claimed_id` did not carry a SteamID64.
#[derive(Debug, Clone, Copy, PartialEq, Eq, Structural)]
pub enum SteamIdError {
    /// The value does not start with Steam's claimed-id URL.
    NotASteamClaimedId,
    /// The part after the URL is not a decimal `u64`.
    InvalidNumber(IntParseError),
}

impl SteamIdError {
    /// A human-readable description.
    pub open spec fn spec_message(self) -> Seq<char> {
        match self {
            SteamIdError::NotASteamClaimedId => "not a Steam OpenID claimed id"@,
            SteamIdError::InvalidNumber(e) => e.spec_message(),
        }
    }

    pub fn message(&self) -> (s: String)
        ensures
            s@ == self.spec_message(),
    {
        match self {
            SteamIdError::NotASteamClaimedId => String::from_str("not a Steam OpenID claimed id"),
            SteamIdError::InvalidNumber(e) => e.message(),
        }
    }
}

impl SteamId64 {
    /// The low 32 bits: the "account id" Steam uses in trade URLs.
    pub open spec fn spec_account_id(self) -> nat {
        (self.0 as nat) % 0x1_0000_0000
    }

    pub fn account_id(&self) -> (r: u32)
        ensures
            r as nat == self.spec_account_id(),
    {
        let v = self.0;
        let r = (v & 0xFFFF_FFFFu64) as u32;
        assert((v & 0xFFFF_FFFFu64) == v % 0x1_0000_0000) by (bit_vector);
        r
    }

    /// The decimal form, as Steam expects it in query strings and forms.
    pub fn to_decimal(&self) -> (s: String)
        ensures
            s@ == decimal(self.0 as nat),
    {
        u64_to_decimal(self.0)
    }

    /// What [`SteamId64::parse_claimed_id`] returns for `s`.
    pub open spec fn spec_parse_claimed_id(s: Seq<char>) -> Result<SteamId64, SteamIdError> {
        if !spec_starts_with(s, claimed_id_prefix()) {
            Err(SteamIdError::NotASteamClaimedId)
        } else {
            match spec_parse_u64(s.subrange(claimed_id_prefix().len() as int, s.len() as int)) {
                Ok(v) => Ok(SteamId64(v)),
                Err(e) => Err(SteamIdError::InvalidNumber(e)),
            }
        }
    }

    /// Extracts the SteamID64 from an OpenID `claimed_id` URL of the form
    /// `https://steamcommunity.com/openid/id/<steamid64>`.
    pub fn parse_claimed_id(s: &str) -> (r: Result<SteamId64, SteamIdError>)
        ensures
            r == Self::spec_parse_claimed_id(s@),
    {
        let prefix = "https://steamcommunity.com/openid/id/";
        proof {
            reveal_strlit("https://steamcommunity.com/openid/id/");
        }
        if !starts_with(s, prefix) {
            return Err(SteamIdError::NotASteamClaimedId);
        }
        let n = s.unicode_len();
        let m = prefix.unicode_len();
        let rest = s.substring_char(m, n);
        match parse_u64(rest) {
            Ok(v) => Ok(SteamId64(v)),
            Err(e) => Err(SteamIdError::InvalidNumber(e)),
        }
    }
}

/// The claimed id Steam sends back for any SteamID64 is read back as that
/// same SteamID64.
pub proof fn lemma_claimed_id_roundtrip(id: SteamId64)
    ensures
        SteamId64::spec_parse_claimed_id(claimed_id_prefix() + decimal(id.0 as nat)) == Ok::<
            SteamId64,
            SteamIdError,
        >(id),
{
    let p = claimed_id_prefix();
    let s = p + decimal(id.0 as nat);
    assert(s.subrange(0, p.len() as int) =~= p);
    assert(s.subrange(p.len() as int, s.len() as int) =~= decimal(id.0 as nat));
    lemma_parse_decimal_roundtrip(id.0);
}

} // verus!
