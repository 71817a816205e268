//! Repository helpers: the parts of each repository that decide what to
//! ask the database (query text, bound values) and how to read answers.
pub mod alerts_repo;
pub mod inventory_repo;
pub mod item_meta_repo;
pub mod items_repo;
pub mod kv_cache_repo;
pub mod market_listings_repo;
pub mod plugins_repo;
pub mod price_history_repo;
pub mod tags_repo;
pub mod watchlist_repo;

use vstd::prelude::*;

verus! {

/// `n` SQL positional placeholders separated by commas: `?,?,...,?`.
pub open spec fn placeholders(n: nat) -> Seq<char>
    decreases n,
{
    if n == 0 {
        Seq::empty()
    } else if n == 1 {
        seq!['?']
    } else {
        placeholders((n - 1) as nat) + seq![',', '?']
    }
}

/// Builds `n` comma-separated `?` placeholders for an `IN (...)` list.
pub fn sql_placeholders(n: usize) -> (s: String)
    ensures
        s@ == placeholders(n as nat),
{
    let mut s = String::new();
    let mut i: usize = 0;
    while i < n
        invariant
            i <= n,
            s@ == placeholders(i as nat),
        decreases n - i,
    {
        if i > 0 {
            crate::text::push_char(&mut s, ',');
        }
        crate::text::push_char(&mut s, '?');
        i = i + 1;
        assert(s@ =~= placeholders(i as nat));
    }
    s
}

/// The number of `?` placeholders in a query text.
pub open spec fn placeholder_count(s: Seq<char>) -> nat
    decreases s.len(),
{
    if s.len() == 0 {
        0
    } else {
        placeholder_count(s.drop_last()) + if s.last() == '?' {
            1nat
        } else {
            0nat
        }
    }
}

/// Placeholders of a concatenation add up.
pub proof fn lemma_placeholder_count_concat(a: Seq<char>, b: Seq<char>)
    ensures
        placeholder_count(a + b) == placeholder_count(a) + placeholder_count(b),
    decreases b.len(),
{
    if b.len() == 0 {
        assert(a + b =~= a);
    } else {
        lemma_placeholder_count_concat(a, b.drop_last());
        assert((a + b).drop_last() =~= a + b.drop_last());
    }
}

/// `placeholders(n)` holds exactly `n` placeholders.
pub proof fn lemma_placeholders_count(n: nat)
    ensures
        placeholder_count(placeholders(n)) == n,
    decreases n,
{
    if n == 1 {
        assert(placeholders(1).drop_last() =~= Seq::<char>::empty());
        assert(placeholder_count(Seq::<char>::empty()) == 0);
    } else if n > 1 {
        lemma_placeholders_count((n - 1) as nat);
        lemma_placeholder_count_concat(placeholders((n - 1) as nat), seq![',', '?']);
        assert(placeholder_count(seq![',']) == 0) by {
            assert(seq![','].drop_last() =~= Seq::<char>::empty());
            assert(placeholder_count(Seq::<char>::empty()) == 0);
        }
        assert(placeholder_count(seq![',', '?']) == 1) by {
            assert(seq![',', '?'].drop_last() =~= seq![',']);
        }
    }
}

/// A value bound to a positional SQL parameter.
#[derive(Debug, Clone, PartialEq, Eq)]
pub enum SqlValue {
    Text(String),
    Int(i64),
    Bool(bool),
}

/// The mathematical content of a [`SqlValue`].
pub enum SqlValueView {
    Text(Seq<char>),
    Int(i64),
    Bool(bool),
}

impl View for SqlValue {
    type V = SqlValueView;

    open spec fn view(&self) -> SqlValueView {
        match self {
            SqlValue::Text(s) => SqlValueView::Text(s@),
            SqlValue::Int(i) => SqlValueView::Int(*i),
            SqlValue::Bool(b) => SqlValueView::Bool(*b),
        }
    }
}

} // verus!
