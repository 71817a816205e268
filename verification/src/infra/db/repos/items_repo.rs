//! The `items` catalog: one row per exact item permutation.
use vstd::prelude::*;
use super::{lemma_placeholder_count_concat, placeholder_count, SqlValue, SqlValueView};
use crate::domain::item::{
    lemma_killstreak_id_roundtrip, lemma_quality_id_roundtrip, ItemError, ItemKey, KillstreakTier,
    Quality,
};
use crate::text::{join, join_strs, strs_view};

verus! {

/// One row of the `items` table.
#[derive(Debug, Clone, PartialEq, Eq)]
pub struct ItemRow {
    pub id: i64,
    pub defindex: i64,
    pub name: String,
    pub quality: i64,
    pub effect_id: Option<i64>,
    pub killstreak_tier: i64,
    pub australium: bool,
    pub festivized: bool,
    pub craftable: bool,
    pub image_url: Option<String>,
}

impl ItemRow {
    /// The key a row stands for. Stored integers are narrowed to the key's
    /// widths by truncation (`as` casts); the quality, then the killstreak
    /// tier, must be known ids.
    pub open spec fn spec_key(self) -> Result<ItemKey, ItemError> {
        match Quality::spec_from_id(self.quality as u8) {
            None => Err(ItemError::UnknownQuality(self.quality as u8)),
            Some(q) => match KillstreakTier::spec_from_id(self.killstreak_tier as u8) {
                None => Err(ItemError::UnknownKillstreakTier(self.killstreak_tier as u8)),
                Some(t) => Ok(
                    ItemKey {
                        defindex: self.defindex as u32,
                        quality: q,
                        effect_id: match self.effect_id {
                            Some(e) => Some(e as u32),
                            None => None,
                        },
                        killstreak_tier: t,
                        australium: self.australium,
                        festivized: self.festivized,
                        craftable: self.craftable,
                    },
                ),
            },
        }
    }

    pub fn key(&self) -> (r: Result<ItemKey, ItemError>)
        ensures
            r == self.spec_key(),
    {
        let quality = match Quality::try_from_id(self.quality as u8) {
            Ok(q) => q,
            Err(e) => return Err(e),
        };
        let killstreak_tier = match KillstreakTier::try_from_id(self.killstreak_tier as u8) {
            Ok(t) => t,
            Err(e) => return Err(e),
        };
        let effect_id = match self.effect_id {
            Some(e) => Some(e as u32),
            None => None,
        };
        Ok(
            ItemKey {
                defindex: self.defindex as u32,
                quality,
                effect_id,
                killstreak_tier,
                australium: self.australium,
                festivized: self.festivized,
                craftable: self.craftable,
            },
        )
    }
}

/// Faceted search filters. All facets unset means "no filter specified",
/// which `search` answers with nothing rather than the whole catalog.
#[derive(Debug, Clone, Copy)]
pub struct ItemSearchFilters<'a> {
    pub name: Option<&'a str>,
    pub quality: Option<u8>,
    pub killstreak_tier: Option<u8>,
    pub australium: Option<bool>,
    pub craftable: Option<bool>,
    pub has_effect: Option<bool>,
}

impl<'a> Default for ItemSearchFilters<'a> {
    fn default() -> (f: ItemSearchFilters<'a>)
        ensures
            f.spec_is_empty(),
    {
        ItemSearchFilters {
            name: None,
            quality: None,
            killstreak_tier: None,
            australium: None,
            craftable: None,
            has_effect: None,
        }
    }
}

/// The most rows a search returns.
pub const SEARCH_RESULT_LIMIT: i64 = 50;

/// A one-element clause list when `present`, else none.
pub open spec fn clause_if(present: bool, clause: Seq<char>) -> Seq<Seq<char>> {
    if present {
        seq![clause]
    } else {
        Seq::empty()
    }
}

impl<'a> ItemSearchFilters<'a> {
    pub open spec fn spec_is_empty(self) -> bool {
        &&& self.name is None
        &&& self.quality is None
        &&& self.killstreak_tier is None
        &&& self.australium is None
        &&& self.craftable is None
        &&& self.has_effect is None
    }

    pub fn is_empty(&self) -> (r: bool)
        ensures
            r == self.spec_is_empty(),
    {
        self.name.is_none() && self.quality.is_none() && self.killstreak_tier.is_none()
            && self.australium.is_none() && self.craftable.is_none() && self.has_effect.is_none()
    }

    /// One `WHERE` condition per set facet, in a fixed order.
    pub open spec fn spec_clauses(self) -> Seq<Seq<char>> {
        clause_if(self.name is Some, "name LIKE ?"@) + clause_if(
            self.quality is Some,
            "quality = ?"@,
        ) + clause_if(self.killstreak_tier is Some, "killstreak_tier = ?"@) + clause_if(
            self.australium is Some,
            "australium = ?"@,
        ) + clause_if(self.craftable is Some, "craftable = ?"@) + clause_if(
            self.has_effect == Some(true),
            "effect_id IS NOT NULL"@,
        ) + clause_if(self.has_effect == Some(false), "effect_id IS NULL"@)
    }

    /// The query text: the set facets AND'ed together, ordered by name and
    /// capped at [`SEARCH_RESULT_LIMIT`]; `None` when no facet is set.
    pub open spec fn spec_search_sql(self) -> Option<Seq<char>> {
        if self.spec_is_empty() {
            None
        } else {
            Some(
                "SELECT * FROM items WHERE "@ + join(self.spec_clauses(), " AND "@)
                    + " ORDER BY name LIMIT 50"@,
            )
        }
    }

    /// The values bound to the query's placeholders, in placeholder order.
    /// The name facet matches as a substring (`%name%`); `has_effect` binds
    /// nothing.
    pub open spec fn spec_search_params(self) -> Seq<SqlValueView> {
        (match self.name {
            Some(n) => seq![SqlValueView::Text("%"@ + n@ + "%"@)],
            None => Seq::empty(),
        }) + (match self.quality {
            Some(q) => seq![SqlValueView::Int(q as i64)],
            None => Seq::empty(),
        }) + (match self.killstreak_tier {
            Some(k) => seq![SqlValueView::Int(k as i64)],
            None => Seq::empty(),
        }) + (match self.australium {
            Some(b) => seq![SqlValueView::Bool(b)],
            None => Seq::empty(),
        }) + (match self.craftable {
            Some(b) => seq![SqlValueView::Bool(b)],
            None => Seq::empty(),
        })
    }

    /// The search query text, or `None` when no facet is set.
    pub fn search_sql(&self) -> (r: Option<String>)
        ensures
            match r {
                Some(s) => self.spec_search_sql() == Some(s@),
                None => self.spec_search_sql() is None,
            },
    {
        if self.is_empty() {
            return None;
        }
        let mut clauses: Vec<&str> = Vec::new();
        push_clause_if(&mut clauses, self.name.is_some(), "name LIKE ?");
        push_clause_if(&mut clauses, self.quality.is_some(), "quality = ?");
        push_clause_if(&mut clauses, self.killstreak_tier.is_some(), "killstreak_tier = ?");
        push_clause_if(&mut clauses, self.australium.is_some(), "australium = ?");
        push_clause_if(&mut clauses, self.craftable.is_some(), "craftable = ?");
        push_clause_if(&mut clauses, self.has_effect == Some(true), "effect_id IS NOT NULL");
        push_clause_if(&mut clauses, self.has_effect == Some(false), "effect_id IS NULL");
        assert(strs_view(clauses@) =~= self.spec_clauses());
        let conditions = join_strs(&clauses, " AND ");
        let mut sql = String::from_str("SELECT * FROM items WHERE ");
        sql.append(conditions.as_str());
        sql.append(" ORDER BY name LIMIT 50");
        Some(sql)
    }

    /// The values to bind, in placeholder order.
    pub fn search_params(&self) -> (r: Vec<SqlValue>)
        ensures
            r@.map_values(|v: SqlValue| v@) == self.spec_search_params(),
    {
        let mut params: Vec<SqlValue> = Vec::new();
        if let Some(name) = self.name {
            let mut pattern = String::from_str("%");
            pattern.append(name);
            pattern.append("%");
            params.push(SqlValue::Text(pattern));
        }
        if let Some(q) = self.quality {
            params.push(SqlValue::Int(q as i64));
        }
        if let Some(k) = self.killstreak_tier {
            params.push(SqlValue::Int(k as i64));
        }
        if let Some(b) = self.australium {
            params.push(SqlValue::Bool(b));
        }
        if let Some(b) = self.craftable {
            params.push(SqlValue::Bool(b));
        }
        proof {
            reveal_strlit("%");
        }
        assert(params@.map_values(|v: SqlValue| v@) =~= self.spec_search_params());
        params
    }
}

pub struct ItemsRepo;

fn push_clause_if<'a>(clauses: &mut Vec<&'a str>, present: bool, clause: &'a str)
    ensures
        strs_view(final(clauses)@) == strs_view(old(clauses)@) + clause_if(present, clause@),
{
    if present {
        clauses.push(clause);
    }
    assert(strs_view(clauses@) =~= strs_view(old(clauses)@) + clause_if(present, clause@));
}

/// The `items` columns that identify an item permutation.
#[derive(Debug, Clone, Copy, PartialEq, Eq, Structural)]
pub struct ItemKeyColumns {
    pub defindex: i64,
    pub quality: i64,
    pub effect_id: Option<i64>,
    pub killstreak_tier: i64,
    pub australium: bool,
    pub festivized: bool,
    pub craftable: bool,
}

/// The columns `key` is stored under: each id widened to `i64`.
pub open spec fn spec_key_columns(key: ItemKey) -> ItemKeyColumns {
    ItemKeyColumns {
        defindex: key.defindex as i64,
        quality: key.quality.spec_id() as i64,
        effect_id: match key.effect_id {
            Some(e) => Some(e as i64),
            None => None,
        },
        killstreak_tier: key.killstreak_tier.spec_id() as i64,
        australium: key.australium,
        festivized: key.festivized,
        craftable: key.craftable,
    }
}

/// A row holding `columns` (whatever its id, name and image).
pub open spec fn row_with_columns(
    columns: ItemKeyColumns,
    id: i64,
    name: String,
    image_url: Option<String>,
) -> ItemRow {
    ItemRow {
        id,
        defindex: columns.defindex,
        name,
        quality: columns.quality,
        effect_id: columns.effect_id,
        killstreak_tier: columns.killstreak_tier,
        australium: columns.australium,
        festivized: columns.festivized,
        craftable: columns.craftable,
        image_url,
    }
}

impl ItemsRepo {
    /// The columns an item key is written to and looked up by.
    pub fn key_columns(key: &ItemKey) -> (c: ItemKeyColumns)
        ensures
            c == spec_key_columns(*key),
    {
        ItemKeyColumns {
            defindex: key.defindex as i64,
            quality: key.quality.id() as i64,
            effect_id: match key.effect_id {
                Some(e) => Some(e as i64),
                None => None,
            },
            killstreak_tier: key.killstreak_tier.id() as i64,
            australium: key.australium,
            festivized: key.festivized,
            craftable: key.craftable,
        }
    }

    /// The `effect_id_key` column: the effect id, or -1 for none, so that
    /// the uniqueness index treats "no effect" as one value.
    pub fn effect_id_key(effect_id: Option<i64>) -> (k: i64)
        ensures
            k == (match effect_id {
                Some(e) => e,
                None => -1i64,
            }),
    {
        match effect_id {
            Some(e) => e,
            None => -1,
        }
    }
}

/// A key written to the catalog reads back as the same key: whatever id,
/// name and image the row got, rebuilding the key from its columns gives
/// the key it was stored under.
pub proof fn lemma_stored_key_reads_back(
    key: ItemKey,
    id: i64,
    name: String,
    image_url: Option<String>,
)
    ensures
        row_with_columns(spec_key_columns(key), id, name, image_url).spec_key() == Ok::<
            ItemKey,
            ItemError,
        >(key),
{
    lemma_quality_id_roundtrip(key.quality, 0);
    lemma_killstreak_id_roundtrip(key.killstreak_tier, 0);
    let row = row_with_columns(spec_key_columns(key), id, name, image_url);
    assert(row.quality as u8 == key.quality.spec_id());
    assert(row.killstreak_tier as u8 == key.killstreak_tier.spec_id());
    assert(row.defindex as u32 == key.defindex);
    match key.effect_id {
        Some(e) => {
            assert((e as i64) as u32 == e);
        },
        None => {},
    }
}

/// Each part of a key is stored under the column of the same name (ids
/// widened to `i64`), and a row's key takes each flag from the column of
/// that name and the defindex and effect from theirs; the row's key
/// decodes exactly when its quality and killstreak columns hold known ids.
pub proof fn lemma_columns_by_name(key: ItemKey, row: ItemRow)
    ensures
        spec_key_columns(key).defindex == key.defindex,
        spec_key_columns(key).quality == key.quality.spec_id(),
        spec_key_columns(key).killstreak_tier == key.killstreak_tier.spec_id(),
        spec_key_columns(key).australium == key.australium,
        spec_key_columns(key).festivized == key.festivized,
        spec_key_columns(key).craftable == key.craftable,
        key.effect_id matches Some(e) ==> spec_key_columns(key).effect_id == Some(e as i64),
        key.effect_id is None ==> spec_key_columns(key).effect_id is None,
        row.spec_key() is Ok <==> (row.quality as u8) <= 15 && (row.killstreak_tier as u8) <= 3,
        row.spec_key() matches Ok(k) ==> {
            &&& k.australium == row.australium
            &&& k.festivized == row.festivized
            &&& k.craftable == row.craftable
            &&& k.defindex == row.defindex as u32
            &&& k.quality.spec_id() == row.quality as u8
            &&& k.killstreak_tier.spec_id() == row.killstreak_tier as u8
            &&& (row.effect_id is None <==> k.effect_id is None)
        },
{
    lemma_quality_id_roundtrip(key.quality, row.quality as u8);
    lemma_killstreak_id_roundtrip(key.killstreak_tier, row.killstreak_tier as u8);
}

/// The placeholders of a list of query fragments, added up.
pub open spec fn fragments_placeholder_count(parts: Seq<Seq<char>>) -> nat
    decreases parts.len(),
{
    if parts.len() == 0 {
        0
    } else {
        fragments_placeholder_count(parts.drop_last()) + placeholder_count(parts.last())
    }
}

proof fn lemma_fragments_concat(a: Seq<Seq<char>>, b: Seq<Seq<char>>)
    ensures
        fragments_placeholder_count(a + b) == fragments_placeholder_count(a)
            + fragments_placeholder_count(b),
    decreases b.len(),
{
    if b.len() == 0 {
        assert(a + b =~= a);
    } else {
        lemma_fragments_concat(a, b.drop_last());
        assert((a + b).drop_last() =~= a + b.drop_last());
    }
}

/// Joining with a separator that holds no placeholder keeps the
/// fragments' placeholders and adds none.
proof fn lemma_join_count(parts: Seq<Seq<char>>, sep: Seq<char>)
    requires
        placeholder_count(sep) == 0,
    ensures
        placeholder_count(join(parts, sep)) == fragments_placeholder_count(parts),
    decreases parts.len(),
{
    if parts.len() == 0 {
        assert(placeholder_count(Seq::<char>::empty()) == 0);
    } else if parts.len() == 1 {
        assert(parts.drop_last() =~= Seq::<Seq<char>>::empty());
        assert(fragments_placeholder_count(Seq::<Seq<char>>::empty()) == 0);
    } else {
        lemma_join_count(parts.drop_last(), sep);
        lemma_placeholder_count_concat(join(parts.drop_last(), sep), sep);
        lemma_placeholder_count_concat(join(parts.drop_last(), sep) + sep, parts.last());
    }
}

/// A fragment list holding `clause` or nothing.
proof fn lemma_clause_if_count(present: bool, clause: Seq<char>)
    ensures
        fragments_placeholder_count(clause_if(present, clause)) == if present {
            placeholder_count(clause)
        } else {
            0
        },
{
    assert(fragments_placeholder_count(Seq::<Seq<char>>::empty()) == 0);
    if present {
        assert(clause_if(present, clause).drop_last() =~= Seq::<Seq<char>>::empty());
    }
}

/// The placeholders of the search's fixed fragments: one in each bound
/// facet's condition, none elsewhere.
proof fn lemma_search_fragment_counts()
    ensures
        placeholder_count("name LIKE ?"@) == 1,
        placeholder_count("quality = ?"@) == 1,
        placeholder_count("killstreak_tier = ?"@) == 1,
        placeholder_count("australium = ?"@) == 1,
        placeholder_count("craftable = ?"@) == 1,
        placeholder_count("effect_id IS NOT NULL"@) == 0,
        placeholder_count("effect_id IS NULL"@) == 0,
        placeholder_count(" AND "@) == 0,
        placeholder_count("SELECT * FROM items WHERE "@) == 0,
        placeholder_count(" ORDER BY name LIMIT 50"@) == 0,
{
    reveal_strlit("name LIKE ?");
    reveal_strlit("quality = ?");
    reveal_strlit("killstreak_tier = ?");
    reveal_strlit("australium = ?");
    reveal_strlit("craftable = ?");
    reveal_strlit("effect_id IS NOT NULL");
    reveal_strlit("effect_id IS NULL");
    reveal_strlit(" AND ");
    reveal_strlit("SELECT * FROM items WHERE ");
    reveal_strlit(" ORDER BY name LIMIT 50");
    assert(placeholder_count("name LIKE ?"@) == 1) by {
        reveal_with_fuel(placeholder_count, 12);
    }
    assert(placeholder_count("quality = ?"@) == 1) by {
        reveal_with_fuel(placeholder_count, 12);
    }
    assert(placeholder_count("killstreak_tier = ?"@) == 1) by {
        reveal_with_fuel(placeholder_count, 20);
    }
    assert(placeholder_count("australium = ?"@) == 1) by {
        reveal_with_fuel(placeholder_count, 15);
    }
    assert(placeholder_count("craftable = ?"@) == 1) by {
        reveal_with_fuel(placeholder_count, 14);
    }
    assert(placeholder_count("effect_id IS NOT NULL"@) == 0) by {
        reveal_with_fuel(placeholder_count, 22);
    }
    assert(placeholder_count("effect_id IS NULL"@) == 0) by {
        reveal_with_fuel(placeholder_count, 18);
    }
    assert(placeholder_count(" AND "@) == 0) by {
        reveal_with_fuel(placeholder_count, 6);
    }
    assert(placeholder_count("SELECT * FROM items WHERE "@) == 0) by {
        reveal_with_fuel(placeholder_count, 27);
    }
    assert(placeholder_count(" ORDER BY name LIMIT 50"@) == 0) by {
        reveal_with_fuel(placeholder_count, 24);
    }
}

/// A search binds exactly as many values as its text has placeholders:
/// one per set facet, except `has_effect`, whose condition binds nothing.
pub proof fn lemma_search_binds_every_placeholder(f: ItemSearchFilters)
    requires
        !f.spec_is_empty(),
    ensures
        placeholder_count(f.spec_search_sql()->0) == f.spec_search_params().len(),
{
    lemma_search_fragment_counts();
    let c1 = clause_if(f.name is Some, "name LIKE ?"@);
    let c2 = clause_if(f.quality is Some, "quality = ?"@);
    let c3 = clause_if(f.killstreak_tier is Some, "killstreak_tier = ?"@);
    let c4 = clause_if(f.australium is Some, "australium = ?"@);
    let c5 = clause_if(f.craftable is Some, "craftable = ?"@);
    let c6 = clause_if(f.has_effect == Some(true), "effect_id IS NOT NULL"@);
    let c7 = clause_if(f.has_effect == Some(false), "effect_id IS NULL"@);
    lemma_clause_if_count(f.name is Some, "name LIKE ?"@);
    lemma_clause_if_count(f.quality is Some, "quality = ?"@);
    lemma_clause_if_count(f.killstreak_tier is Some, "killstreak_tier = ?"@);
    lemma_clause_if_count(f.australium is Some, "australium = ?"@);
    lemma_clause_if_count(f.craftable is Some, "craftable = ?"@);
    lemma_clause_if_count(f.has_effect == Some(true), "effect_id IS NOT NULL"@);
    lemma_clause_if_count(f.has_effect == Some(false), "effect_id IS NULL"@);
    lemma_fragments_concat(c1, c2);
    lemma_fragments_concat(c1 + c2, c3);
    lemma_fragments_concat(c1 + c2 + c3, c4);
    lemma_fragments_concat(c1 + c2 + c3 + c4, c5);
    lemma_fragments_concat(c1 + c2 + c3 + c4 + c5, c6);
    lemma_fragments_concat(c1 + c2 + c3 + c4 + c5 + c6, c7);
    assert(f.spec_clauses() == c1 + c2 + c3 + c4 + c5 + c6 + c7);
    lemma_join_count(f.spec_clauses(), " AND "@);
    let prefix = "SELECT * FROM items WHERE "@;
    let conditions = join(f.spec_clauses(), " AND "@);
    lemma_placeholder_count_concat(prefix, conditions);
    lemma_placeholder_count_concat(prefix + conditions, " ORDER BY name LIMIT 50"@);
}

/// An empty filter set never produces a query: searching with no facet
/// returns nothing rather than the whole catalog, and any facet produces
/// one.
pub proof fn lemma_search_needs_a_facet(f: ItemSearchFilters)
    ensures
        f.spec_search_sql() is None <==> f.spec_is_empty(),
{
}

} // verus!
