//! Valve's item schema: item definitions, particle effects and the
//! quality-name table of `GetSchemaOverview`.
use vstd::prelude::*;
use std::collections::HashMap;
use crate::error::AppError;
use crate::text::{decimal, push_decimal, str_eq};

verus! {

/// One base item definition (not an exact permutation; that is
/// `domain::item::ItemKey`).
#[derive(Debug, Clone, PartialEq, Eq)]
pub struct SchemaItem {
    pub defindex: u32,
    pub item_name: String,
    pub item_quality: u8,
    pub item_class: Option<String>,
    pub image_url: Option<String>,
}

/// An Unusual particle effect.
#[derive(Debug, Clone, PartialEq, Eq)]
pub struct ParticleEffect {
    pub id: u32,
    pub name: String,
}

/// The dynamic parts of the schema overview: display names by quality id,
/// and particle effect names by effect id.
#[derive(Debug)]
pub struct SchemaOverview {
    pub quality_names: HashMap<u8, String>,
    pub particles: HashMap<u32, String>,
}

/// The display name `names` gives for internal quality name `internal`
/// (the first entry with that internal name).
pub open spec fn display_name(names: Seq<(String, String)>, internal: Seq<char>) -> Option<String>
    decreases names.len(),
{
    if names.len() == 0 {
        None
    } else if names[0].0@ == internal {
        Some(names[0].1)
    } else {
        display_name(names.drop_first(), internal)
    }
}

/// Quality id to display name, from `qualities[..n]` (internal name, id)
/// cross-referenced with `names` (internal name, display name) by internal
/// name; qualities without a display name are left out, and a later entry
/// for the same id replaces an earlier one.
pub open spec fn quality_name_map(qualities: Seq<(String, u8)>, names: Seq<(String, String)>, n: int) -> Map<u8, String>
    decreases n,
{
    if n <= 0 {
        Map::empty()
    } else {
        let m = quality_name_map(qualities, names, n - 1);
        match display_name(names, qualities[n - 1].0@) {
            Some(d) => m.insert(qualities[n - 1].1, d),
            None => m,
        }
    }
}

/// Effect id to effect name over `particles[..n]`; a later entry for the
/// same id replaces an earlier one.
pub open spec fn particle_map(particles: Seq<ParticleEffect>, n: int) -> Map<u32, String>
    decreases n,
{
    if n <= 0 {
        Map::empty()
    } else {
        particle_map(particles, n - 1).insert(particles[n - 1].id, particles[n - 1].name)
    }
}

fn find_display_name(names: &Vec<(String, String)>, internal: &String) -> (r: Option<String>)
    ensures
        r == display_name(names@, internal@),
{
    let mut i: usize = 0;
    assert(names@.subrange(0, names@.len() as int) =~= names@);
    while i < names.len()
        invariant
            i <= names@.len(),
            display_name(names@, internal@) == display_name(names@.subrange(i as int, names@.len() as int), internal@),
        decreases names@.len() - i,
    {
        assert(names@.subrange(i as int, names@.len() as int).drop_first() =~= names@.subrange(i + 1, names@.len() as int));
        if str_eq(names[i].0.as_str(), internal.as_str()) {
            return Some(names[i].1.clone());
        }
        i = i + 1;
    }
    None
}

/// Builds the overview from `GetSchemaOverview`'s `qualities`
/// (internal name to id), `qualityNames` (internal name to display name)
/// and particle list.
pub fn build_overview(qualities: &Vec<(String, u8)>, names: &Vec<(String, String)>, particles: Vec<ParticleEffect>) -> (r: SchemaOverview)
    ensures
        r.quality_names@ == quality_name_map(qualities@, names@, qualities@.len() as int),
        r.particles@ == particle_map(particles@, particles@.len() as int),
{
    broadcast use vstd::std_specs::hash::group_hash_axioms;

    let mut quality_names: HashMap<u8, String> = HashMap::new();
    let mut i: usize = 0;
    while i < qualities.len()
        invariant
            i <= qualities@.len(),
            quality_names@ == quality_name_map(qualities@, names@, i as int),
        decreases qualities@.len() - i,
    {
        match find_display_name(names, &qualities[i].0) {
            Some(d) => {
                quality_names.insert(qualities[i].1, d);
            },
            None => {},
        }
        i = i + 1;
    }
    let ghost all = particles@;
    let mut particles = particles;
    let mut by_id: HashMap<u32, String> = HashMap::new();
    let n = particles.len();
    let mut k: usize = 0;
    while k < n
        invariant
            n == all.len(),
            k <= n,
            particles@ == all.subrange(k as int, n as int),
            by_id@ == particle_map(all, k as int),
        decreases n - k,
    {
        let p = particles.remove(0);
        assert(p == all[k as int]);
        by_id.insert(p.id, p.name);
        k = k + 1;
    }
    SchemaOverview { quality_names, particles: by_id }
}

/// The state of a walk through the paginated item catalog: the items
/// gathered so far and the cursor of the next page to ask for (`None`
/// once Steam stops returning one).
#[derive(Debug)]
pub struct ItemsPaging {
    pub items: Vec<SchemaItem>,
    pub cursor: Option<u32>,
}

impl ItemsPaging {
    /// The walk starts empty, at cursor 0.
    pub fn start() -> (p: ItemsPaging)
        ensures
            p.items@.len() == 0,
            p.cursor == Some(0u32),
    {
        ItemsPaging { items: Vec::new(), cursor: Some(0) }
    }

    /// Takes in one page: its items follow the ones gathered so far, and
    /// its `next` cursor is where the walk continues.
    pub fn absorb(&mut self, page: Vec<SchemaItem>, next: Option<u32>)
        ensures
            final(self).items@ == old(self).items@ + page@,
            final(self).cursor == next,
    {
        let mut page = page;
        self.items.append(&mut page);
        self.cursor = next;
    }

    /// The error for a page that could not be fetched, naming its cursor.
    pub fn page_error(cursor: u32, detail: &str) -> (e: AppError)
        ensures
            e matches AppError::Network(m) && m@ == "schema items page at "@ + decimal(cursor as nat)
                + ": "@ + detail@,
    {
        let mut m = String::from_str("schema items page at ");
        push_decimal(&mut m, cursor as u64);
        m.append(": ");
        m.append(detail);
        AppError::Network(m)
    }
}

} // verus!
