//! The cached inventory (`inventory_items`).
use vstd::prelude::*;
use super::{
    lemma_placeholder_count_concat, lemma_placeholders_count, placeholder_count, placeholders,
    sql_placeholders,
};

verus! {

/// One asset as the inventory refresh writes it.
#[derive(Debug, Clone, Copy, PartialEq, Eq)]
pub struct UpsertInventoryItem<'a> {
    pub asset_id: &'a str,
    pub item_id: i64,
    pub steam_id: &'a str,
    pub craft_number: Option<i64>,
    pub paint_id: Option<i64>,
    pub strange_count: Option<i64>,
    pub tradable: bool,
    pub marketable: Option<bool>,
    pub last_seen_ts: i64,
    pub raw_json: &'a str,
}

/// An asset already on record, for diffing against a fresh fetch.
#[derive(Debug, Clone, PartialEq, Eq)]
pub struct ExistingAsset {
    pub asset_id: String,
    pub item_id: i64,
    pub raw_json: String,
}

/// An asset joined with its item's catalog columns.
#[derive(Debug, Clone, PartialEq, Eq)]
pub struct InventoryItemView {
    pub asset_id: String,
    pub item_id: i64,
    pub defindex: i64,
    pub name: String,
    pub quality: i64,
    pub effect_id: Option<i64>,
    pub killstreak_tier: i64,
    pub australium: bool,
    pub festivized: bool,
    pub craftable: bool,
    pub craft_number: Option<i64>,
    pub paint_id: Option<i64>,
    pub strange_count: Option<i64>,
    pub tradable: bool,
    pub marketable: Option<bool>,
    pub acquired_ts: Option<i64>,
    pub last_seen_ts: i64,
}

pub struct InventoryRepo;

impl InventoryRepo {
    /// Query text selecting `steam_id`'s assets among `n` asset ids (one
    /// placeholder for the steam id, then one per asset id); `None` when
    /// there are no asset ids, in which case nothing is asked.
    pub open spec fn spec_find_by_asset_ids_sql(n: nat) -> Option<Seq<char>> {
        if n == 0 {
            None
        } else {
            Some(
                "SELECT asset_id, item_id, raw_json FROM inventory_items WHERE steam_id = ? AND asset_id IN ("@
                    + placeholders(n) + ")"@,
            )
        }
    }

    /// Query text deleting `n` assets by id; `None` when there are none.
    pub open spec fn spec_remove_by_asset_ids_sql(n: nat) -> Option<Seq<char>> {
        if n == 0 {
            None
        } else {
            Some("DELETE FROM inventory_items WHERE asset_id IN ("@ + placeholders(n) + ")"@)
        }
    }

    pub fn find_by_asset_ids_sql(n: usize) -> (r: Option<String>)
        ensures
            match r {
                Some(s) => Self::spec_find_by_asset_ids_sql(n as nat) == Some(s@),
                None => Self::spec_find_by_asset_ids_sql(n as nat) is None,
            },
    {
        if n == 0 {
            return None;
        }
        let mut sql = String::from_str(
            "SELECT asset_id, item_id, raw_json FROM inventory_items WHERE steam_id = ? AND asset_id IN (",
        );
        let list = sql_placeholders(n);
        sql.append(list.as_str());
        sql.append(")");
        Some(sql)
    }

    pub fn remove_by_asset_ids_sql(n: usize) -> (r: Option<String>)
        ensures
            match r {
                Some(s) => Self::spec_remove_by_asset_ids_sql(n as nat) == Some(s@),
                None => Self::spec_remove_by_asset_ids_sql(n as nat) is None,
            },
    {
        if n == 0 {
            return None;
        }
        let mut sql = String::from_str("DELETE FROM inventory_items WHERE asset_id IN (");
        let list = sql_placeholders(n);
        sql.append(list.as_str());
        sql.append(")");
        Some(sql)
    }
}

/// The fixed head of the asset-id lookup holds one placeholder, for the
/// steam id.
proof fn lemma_lookup_head_count()
    ensures
        placeholder_count(
            "SELECT asset_id, item_id, raw_json FROM inventory_items WHERE steam_id = ? AND asset_id IN ("@,
        ) == 1,
{
    reveal_strlit(
        "SELECT asset_id, item_id, raw_json FROM inventory_items WHERE steam_id = ? AND asset_id IN (",
    );
    reveal_strlit("SELECT asset_id, item_id, ");
    reveal_strlit("raw_json FROM inventory_");
    reveal_strlit("items WHERE steam_id = ?");
    reveal_strlit(" AND asset_id IN (");
    let a = "SELECT asset_id, item_id, "@;
    let b = "raw_json FROM inventory_"@;
    let c = "items WHERE steam_id = ?"@;
    let d = " AND asset_id IN ("@;
    assert("SELECT asset_id, item_id, raw_json FROM inventory_items WHERE steam_id = ? AND asset_id IN ("@
        =~= a + b + c + d);
    assert(placeholder_count(a) == 0) by {
        reveal_with_fuel(placeholder_count, 27);
    }
    assert(placeholder_count(b) == 0) by {
        reveal_with_fuel(placeholder_count, 25);
    }
    assert(placeholder_count(c) == 1) by {
        reveal_with_fuel(placeholder_count, 25);
    }
    assert(placeholder_count(d) == 0) by {
        reveal_with_fuel(placeholder_count, 19);
    }
    lemma_placeholder_count_concat(a, b);
    lemma_placeholder_count_concat(a + b, c);
    lemma_placeholder_count_concat(a + b + c, d);
}

/// The fixed head of the removal holds no placeholder.
proof fn lemma_removal_head_count()
    ensures
        placeholder_count("DELETE FROM inventory_items WHERE asset_id IN ("@) == 0,
{
    reveal_strlit("DELETE FROM inventory_items WHERE asset_id IN (");
    reveal_strlit("DELETE FROM inventory_ite");
    reveal_strlit("ms WHERE asset_id IN (");
    let a = "DELETE FROM inventory_ite"@;
    let b = "ms WHERE asset_id IN ("@;
    assert("DELETE FROM inventory_items WHERE asset_id IN ("@ =~= a + b);
    assert(placeholder_count(a) == 0) by {
        reveal_with_fuel(placeholder_count, 26);
    }
    assert(placeholder_count(b) == 0) by {
        reveal_with_fuel(placeholder_count, 23);
    }
    lemma_placeholder_count_concat(a, b);
}

/// Each asset query binds exactly as many values as its text has
/// placeholders: the lookup binds the steam id and then each of the `n`
/// asset ids, the removal binds only the asset ids.
pub proof fn lemma_asset_queries_bind_every_placeholder(n: nat)
    requires
        n > 0,
    ensures
        placeholder_count(InventoryRepo::spec_find_by_asset_ids_sql(n)->0) == n + 1,
        placeholder_count(InventoryRepo::spec_remove_by_asset_ids_sql(n)->0) == n,
{
    lemma_lookup_head_count();
    lemma_removal_head_count();
    reveal_strlit(")");
    assert(placeholder_count(")"@) == 0) by {
        reveal_with_fuel(placeholder_count, 2);
    }
    let head = "SELECT asset_id, item_id, raw_json FROM inventory_items WHERE steam_id = ? AND asset_id IN ("@;
    let del = "DELETE FROM inventory_items WHERE asset_id IN ("@;
    lemma_placeholders_count(n);
    lemma_placeholder_count_concat(head, placeholders(n));
    lemma_placeholder_count_concat(head + placeholders(n), ")"@);
    lemma_placeholder_count_concat(del, placeholders(n));
    lemma_placeholder_count_concat(del + placeholders(n), ")"@);
}

} // verus!
