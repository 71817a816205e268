//! Live listings cache (`market_listings`).
use vstd::prelude::*;
use super::{
    lemma_placeholder_count_concat, lemma_placeholders_count, placeholder_count, placeholders,
    sql_placeholders,
};

verus! {

pub struct MarketListingsRepo;

impl MarketListingsRepo {
    /// Query text for the listings of any of `n` defindexes at one quality,
    /// narrowed to one effect id when `with_effect`; `None` when there are
    /// no defindexes, in which case nothing is asked. Placeholders: the
    /// `n` defindexes, the quality, then (if any) the effect id.
    pub open spec fn spec_list_for_defindexes_sql(n: nat, with_effect: bool) -> Option<Seq<char>> {
        if n == 0 {
            None
        } else {
            Some(
                "SELECT * FROM market_listings WHERE defindex IN ("@ + placeholders(n)
                    + ") AND quality = ? "@ + (if with_effect {
                    "AND effect_id = ?"@
                } else {
                    Seq::empty()
                }),
            )
        }
    }

    pub fn list_for_defindexes_sql(n: usize, with_effect: bool) -> (r: Option<String>)
        ensures
            match r {
                Some(s) => Self::spec_list_for_defindexes_sql(n as nat, with_effect) == Some(s@),
                None => Self::spec_list_for_defindexes_sql(n as nat, with_effect) is None,
            },
    {
        if n == 0 {
            return None;
        }
        let mut sql = String::from_str("SELECT * FROM market_listings WHERE defindex IN (");
        let list = sql_placeholders(n);
        sql.append(list.as_str());
        sql.append(") AND quality = ? ");
        if with_effect {
            sql.append("AND effect_id = ?");
        }
        proof {
            if !with_effect {
                assert(sql@ =~= sql@ + Seq::<char>::empty());
            }
        }
        Some(sql)
    }
}

/// The listing query binds exactly as many values as its text has
/// placeholders: the `n` defindexes, the quality, and the effect id when
/// it narrows by one.
pub proof fn lemma_listing_query_binds_every_placeholder(n: nat, with_effect: bool)
    requires
        n > 0,
    ensures
        placeholder_count(MarketListingsRepo::spec_list_for_defindexes_sql(n, with_effect)->0) == n
            + 1 + (if with_effect {
            1int
        } else {
            0int
        }),
{
    reveal_strlit("SELECT * FROM market_listings WHERE defindex IN (");
    reveal_strlit("SELECT * FROM market_lis");
    reveal_strlit("tings WHERE defindex IN (");
    reveal_strlit(") AND quality = ? ");
    reveal_strlit("AND effect_id = ?");
    let a = "SELECT * FROM market_lis"@;
    let b = "tings WHERE defindex IN ("@;
    let head = "SELECT * FROM market_listings WHERE defindex IN ("@;
    let quality = ") AND quality = ? "@;
    let effect = "AND effect_id = ?"@;
    assert(head =~= a + b);
    assert(placeholder_count(a) == 0) by {
        reveal_with_fuel(placeholder_count, 25);
    }
    assert(placeholder_count(b) == 0) by {
        reveal_with_fuel(placeholder_count, 26);
    }
    lemma_placeholder_count_concat(a, b);
    assert(placeholder_count(quality) == 1) by {
        reveal_with_fuel(placeholder_count, 19);
    }
    assert(placeholder_count(effect) == 1) by {
        reveal_with_fuel(placeholder_count, 18);
    }
    assert(placeholder_count(Seq::<char>::empty()) == 0);
    lemma_placeholders_count(n);
    let tail = if with_effect {
        effect
    } else {
        Seq::<char>::empty()
    };
    lemma_placeholder_count_concat(head, placeholders(n));
    lemma_placeholder_count_concat(head + placeholders(n), quality);
    lemma_placeholder_count_concat(head + placeholders(n) + quality, tail);
}

} // verus!
