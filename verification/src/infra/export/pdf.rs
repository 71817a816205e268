//! The text-level decisions of the PDF report: how a cell's text is cut to
//! fit its column, and how the data rows are spread over pages. Drawing
//! the pages (millimetre layout, fonts) happens in the application layer.
use vstd::prelude::*;
use crate::text::push_char;

verus! {

/// The character that marks a shortened cell.
pub const ELLIPSIS: char = '…';

/// `s` cut to at most `max_chars` characters: unchanged when it fits (or
/// when no limit is set, `max_chars == 0`); otherwise its first
/// `max_chars - 1` characters followed by an ellipsis.
pub open spec fn spec_truncate(s: Seq<char>, max_chars: nat) -> Seq<char> {
    if max_chars == 0 || s.len() <= max_chars {
        s
    } else {
        s.take(max_chars - 1).push(ELLIPSIS)
    }
}

/// Shortens `s` so that it spans at most `max_chars` characters.
pub fn truncate(s: &str, max_chars: usize) -> (r: String)
    ensures
        r@ == spec_truncate(s@, max_chars as nat),
{
    let n = s.unicode_len();
    if max_chars == 0 || n <= max_chars {
        return String::from_str(s);
    }
    let keep = max_chars - 1;
    let mut out = String::from_str(s.substring_char(0, keep));
    push_char(&mut out, ELLIPSIS);
    out
}

/// A shortened cell is exactly `max_chars` characters long and ends with
/// the ellipsis; a cell that is not shortened is returned as it was.
pub proof fn lemma_truncate_fits(s: Seq<char>, max_chars: nat)
    ensures
        max_chars > 0 ==> spec_truncate(s, max_chars).len() <= max_chars,
        s.len() > max_chars > 0 ==> {
            &&& spec_truncate(s, max_chars).len() == max_chars
            &&& spec_truncate(s, max_chars).last() == ELLIPSIS
            &&& spec_truncate(s, max_chars).take(max_chars - 1) == s.take(max_chars - 1)
        },
        (max_chars == 0 || s.len() <= max_chars) ==> spec_truncate(s, max_chars) == s,
{
    if s.len() > max_chars > 0 {
        assert(spec_truncate(s, max_chars).take(max_chars - 1) =~= s.take(max_chars - 1));
    }
}

/// The pages of a report holding `n_rows` data rows, `per_page` to a
/// page: as `[start, end)` row ranges, in order. A report without data
/// rows still has one (empty) page, which carries the title and headers.
pub open spec fn page_ranges(n_rows: nat, per_page: nat) -> Seq<(int, int)>
    recommends
        per_page > 0,
{
    if n_rows == 0 {
        seq![(0int, 0int)]
    } else {
        Seq::new(
            ((n_rows + per_page - 1) / per_page as int) as nat,
            |k: int|
                (
                    k * per_page,
                    if (k + 1) * per_page <= n_rows {
                        (k + 1) * per_page
                    } else {
                        n_rows as int
                    },
                ),
        )
    }
}

/// Splits `n_rows` data rows into page ranges of at most `per_page` rows
/// (the last page may hold fewer).
pub fn paginate(n_rows: usize, per_page: usize) -> (pages: Vec<(usize, usize)>)
    requires
        per_page > 0,
    ensures
        pages@.len() == page_ranges(n_rows as nat, per_page as nat).len(),
        forall|k: int|
            0 <= k < pages@.len() ==> (#[trigger] pages@[k]).0 as int == page_ranges(
                n_rows as nat,
                per_page as nat,
            )[k].0 && pages@[k].1 as int == page_ranges(n_rows as nat, per_page as nat)[k].1,
{
    let mut pages: Vec<(usize, usize)> = Vec::new();
    if n_rows == 0 {
        pages.push((0, 0));
        return pages;
    }
    let ghost total: nat = ((n_rows + per_page - 1) / per_page as int) as nat;
    proof {
        lemma_page_count(n_rows as nat, per_page as nat);
    }
    let mut start: usize = 0;
    assert(0 * per_page == 0) by (nonlinear_arith);
    while start < n_rows
        invariant
            per_page > 0,
            n_rows > 0,
            total == ((n_rows + per_page - 1) / per_page as int) as nat,
            start <= n_rows,
            start < n_rows ==> start == pages@.len() * per_page,
            pages@.len() <= total,
            start == n_rows ==> pages@.len() == total,
            start < n_rows ==> pages@.len() < total,
            forall|k: int|
                0 <= k < pages@.len() ==> (#[trigger] pages@[k]).0 as int == k * per_page
                    && pages@[k].1 as int == (if (k + 1) * per_page <= n_rows {
                    (k + 1) * per_page
                } else {
                    n_rows as int
                }),
        decreases n_rows - start,
    {
        let ghost k: int = pages@.len() as int;
        let end: usize = if n_rows - start >= per_page {
            start + per_page
        } else {
            n_rows
        };
        proof {
            lemma_page_index(n_rows as nat, per_page as nat, k);
        }
        pages.push((start, end));
        start = end;
    }
    proof {
        assert forall|k: int| 0 <= k < pages@.len() implies (#[trigger] pages@[k]).0 as int
            == page_ranges(n_rows as nat, per_page as nat)[k].0 && pages@[k].1 as int
            == page_ranges(n_rows as nat, per_page as nat)[k].1 by {}
    }
    pages
}

/// The pages tile the data rows: the first starts at row 0, the last ends
/// after the last row, each starts where the one before it ends, and each
/// holds between one and `per_page` rows. So every row is printed on
/// exactly one page, in order.
pub proof fn lemma_pages_cover_rows(n_rows: nat, per_page: nat)
    requires
        n_rows > 0,
        per_page > 0,
    ensures
        page_ranges(n_rows, per_page).len() >= 1,
        page_ranges(n_rows, per_page)[0].0 == 0,
        page_ranges(n_rows, per_page).last().1 == n_rows,
        forall|k: int|
            0 <= k < page_ranges(n_rows, per_page).len() ==> 0 < (#[trigger] page_ranges(
                n_rows,
                per_page,
            )[k]).1 - page_ranges(n_rows, per_page)[k].0 <= per_page,
        forall|k: int|
            0 <= k < page_ranges(n_rows, per_page).len() - 1 ==> (#[trigger] page_ranges(
                n_rows,
                per_page,
            )[k]).1 == page_ranges(n_rows, per_page)[k + 1].0,
{
    let pages = page_ranges(n_rows, per_page);
    let t = (n_rows + per_page - 1) / per_page as int;
    lemma_page_count(n_rows, per_page);
    assert(0 * per_page == 0) by (nonlinear_arith);
    assert(pages[0].0 == 0);
    assert((t - 1 + 1) * per_page >= n_rows);
    assert forall|k: int| 0 <= k < pages.len() implies 0 < (#[trigger] pages[k]).1 - pages[k].0
        <= per_page by {
        assert(k * per_page < n_rows) by (nonlinear_arith)
            requires
                0 <= k <= t - 1,
                (t - 1) * per_page < n_rows,
                per_page > 0,
        {
            assert(k * per_page <= (t - 1) * per_page);
        }
        lemma_page_index(n_rows, per_page, k);
    }
    assert forall|k: int| 0 <= k < pages.len() - 1 implies (#[trigger] pages[k]).1 == pages[k
        + 1].0 by {
        assert((k + 1) * per_page < n_rows) by (nonlinear_arith)
            requires
                0 <= k + 1 <= t - 1,
                (t - 1) * per_page < n_rows,
                per_page > 0,
        {
            assert((k + 1) * per_page <= (t - 1) * per_page);
        }
    }
}

/// The page count `ceil(n / p)` is positive for `n > 0` and exactly the
/// number of pages that start before `n`.
proof fn lemma_page_count(n: nat, p: nat)
    requires
        n > 0,
        p > 0,
    ensures
        ((n + p - 1) / p as int) >= 1,
        ((n + p - 1) / p as int) * p >= n,
        (((n + p - 1) / p as int) - 1) * p < n,
{
    let t = (n + p - 1) / p as int;
    let r = (n + p - 1) % p as int;
    assert((n + p - 1) == t * p + r && 0 <= r < p) by (nonlinear_arith)
        requires
            p > 0,
            t == (n + p - 1) / p as int,
            r == (n + p - 1) % p as int,
    ;
    assert(t >= 1) by (nonlinear_arith)
        requires
            n + p - 1 == t * p + r,
            0 <= r < p,
            n > 0,
    ;
    assert(t * p >= n) by (nonlinear_arith)
        requires
            n + p - 1 == t * p + r,
            0 <= r < p,
    ;
    assert((t - 1) * p < n) by (nonlinear_arith)
        requires
            n + p - 1 == t * p + r,
            0 <= r,
            p > 0,
    ;
}

/// Page `k` starts at `k * p`; when that is before `n` there are more
/// pages than `k`, and the page after it starts where this one ends.
proof fn lemma_page_index(n: nat, p: nat, k: int)
    requires
        n > 0,
        p > 0,
        k >= 0,
        k * p < n,
    ensures
        k < (n + p - 1) / p as int,
        (k + 1) * p == k * p + p,
        (k + 1) * p >= n ==> k + 1 == (n + p - 1) / p as int,
        (k + 1) * p < n ==> k + 1 < (n + p - 1) / p as int,
{
    lemma_page_count(n, p);
    let t = (n + p - 1) / p as int;
    assert((k + 1) * p == k * p + p) by (nonlinear_arith);
    assert(k < t) by (nonlinear_arith)
        requires
            k * p < n,
            t * p >= n,
            p > 0,
            k >= 0,
    {
        if k >= t {
            assert(k * p >= t * p);
        }
    }
    if (k + 1) * p >= n {
        assert(k + 1 >= t) by (nonlinear_arith)
            requires
                (k + 1) * p >= n,
                (t - 1) * p < n,
                p > 0,
        {
            if k + 1 < t {
                assert((k + 1) * p <= (t - 1) * p);
            }
        }
    } else {
        assert(k + 1 < t) by (nonlinear_arith)
            requires
                (k + 1) * p < n,
                t * p >= n,
                p > 0,
        {
            if k + 1 >= t {
                assert((k + 1) * p >= t * p);
            }
        }
    }
}

} // verus!
