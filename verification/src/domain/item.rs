//! The item model: an exact tradable permutation of a TF2 item definition.
use vstd::prelude::*;

verus! {

/// Item quality, identified on the wire by Valve's numeric quality id.
#[derive(Debug, Clone, Copy, PartialEq, Eq, Structural, Hash)]
pub enum Quality {
    Normal,
    Genuine,
    Rarity2,
    Vintage,
    Rarity3,
    Unusual,
    Unique,
    Community,
    Valve,
    SelfMade,
    Customized,
    Strange,
    Completed,
    Haunted,
    Collectors,
    DecoratedWeapon,
}

/// Why a numeric id could not be turned into a domain value.
#[derive(Debug, Clone, Copy, PartialEq, Eq, Structural)]
pub enum ItemError {
    UnknownQuality(u8),
    UnknownKillstreakTier(u8),
}

impl Quality {
    /// Valve's numeric id of this quality.
    pub open spec fn spec_id(self) -> u8 {
        match self {
            Quality::Normal => 0,
            Quality::Genuine => 1,
            Quality::Rarity2 => 2,
            Quality::Vintage => 3,
            Quality::Rarity3 => 4,
            Quality::Unusual => 5,
            Quality::Unique => 6,
            Quality::Community => 7,
            Quality::Valve => 8,
            Quality::SelfMade => 9,
            Quality::Customized => 10,
            Quality::Strange => 11,
            Quality::Completed => 12,
            Quality::Haunted => 13,
            Quality::Collectors => 14,
            Quality::DecoratedWeapon => 15,
        }
    }

    /// The quality whose id is `id`, if any.
    pub open spec fn spec_from_id(id: u8) -> Option<Quality> {
        if id == 0 {
            Some(Quality::Normal)
        } else if id == 1 {
            Some(Quality::Genuine)
        } else if id == 2 {
            Some(Quality::Rarity2)
        } else if id == 3 {
            Some(Quality::Vintage)
        } else if id == 4 {
            Some(Quality::Rarity3)
        } else if id == 5 {
            Some(Quality::Unusual)
        } else if id == 6 {
            Some(Quality::Unique)
        } else if id == 7 {
            Some(Quality::Community)
        } else if id == 8 {
            Some(Quality::Valve)
        } else if id == 9 {
            Some(Quality::SelfMade)
        } else if id == 10 {
            Some(Quality::Customized)
        } else if id == 11 {
            Some(Quality::Strange)
        } else if id == 12 {
            Some(Quality::Completed)
        } else if id == 13 {
            Some(Quality::Haunted)
        } else if id == 14 {
            Some(Quality::Collectors)
        } else if id == 15 {
            Some(Quality::DecoratedWeapon)
        } else {
            None
        }
    }

    pub fn id(&self) -> (r: u8)
        ensures
            r == self.spec_id(),
    {
        match self {
            Quality::Normal => 0,
            Quality::Genuine => 1,
            Quality::Rarity2 => 2,
            Quality::Vintage => 3,
            Quality::Rarity3 => 4,
            Quality::Unusual => 5,
            Quality::Unique => 6,
            Quality::Community => 7,
            Quality::Valve => 8,
            Quality::SelfMade => 9,
            Quality::Customized => 10,
            Quality::Strange => 11,
            Quality::Completed => 12,
            Quality::Haunted => 13,
            Quality::Collectors => 14,
            Quality::DecoratedWeapon => 15,
        }
    }

    /// The quality with numeric id `id`; ids outside `0..=15` are rejected.
    pub fn try_from_id(id: u8) -> (r: Result<Quality, ItemError>)
        ensures
            match Quality::spec_from_id(id) {
                Some(q) => r == Ok::<Quality, ItemError>(q),
                None => r == Err::<Quality, ItemError>(ItemError::UnknownQuality(id)),
            },
    {
        if id == 0 {
            Ok(Quality::Normal)
        } else if id == 1 {
            Ok(Quality::Genuine)
        } else if id == 2 {
            Ok(Quality::Rarity2)
        } else if id == 3 {
            Ok(Quality::Vintage)
        } else if id == 4 {
            Ok(Quality::Rarity3)
        } else if id == 5 {
            Ok(Quality::Unusual)
        } else if id == 6 {
            Ok(Quality::Unique)
        } else if id == 7 {
            Ok(Quality::Community)
        } else if id == 8 {
            Ok(Quality::Valve)
        } else if id == 9 {
            Ok(Quality::SelfMade)
        } else if id == 10 {
            Ok(Quality::Customized)
        } else if id == 11 {
            Ok(Quality::Strange)
        } else if id == 12 {
            Ok(Quality::Completed)
        } else if id == 13 {
            Ok(Quality::Haunted)
        } else if id == 14 {
            Ok(Quality::Collectors)
        } else if id == 15 {
            Ok(Quality::DecoratedWeapon)
        } else {
            Err(ItemError::UnknownQuality(id))
        }
    }
}

/// Every quality is recovered from its own id, and an id names at most
/// one quality: the id mapping is a bijection between the qualities and
/// `0..=15`.
pub proof fn lemma_quality_id_roundtrip(q: Quality, id: u8)
    ensures
        Quality::spec_from_id(q.spec_id()) == Some(q),
        Quality::spec_from_id(id) matches Some(p) ==> p.spec_id() == id,
        Quality::spec_from_id(id) is Some <==> id <= 15,
{
}

/// Killstreak kit tier, numerically `0..=3` on the wire.
#[derive(Debug, Clone, Copy, PartialEq, Eq, Structural, Hash)]
pub enum KillstreakTier {
    NoKillstreak,
    Killstreak,
    Specialized,
    Professional,
}

impl KillstreakTier {
    pub open spec fn spec_id(self) -> u8 {
        match self {
            KillstreakTier::NoKillstreak => 0,
            KillstreakTier::Killstreak => 1,
            KillstreakTier::Specialized => 2,
            KillstreakTier::Professional => 3,
        }
    }

    pub open spec fn spec_from_id(id: u8) -> Option<KillstreakTier> {
        if id == 0 {
            Some(KillstreakTier::NoKillstreak)
        } else if id == 1 {
            Some(KillstreakTier::Killstreak)
        } else if id == 2 {
            Some(KillstreakTier::Specialized)
        } else if id == 3 {
            Some(KillstreakTier::Professional)
        } else {
            None
        }
    }

    pub fn id(&self) -> (r: u8)
        ensures
            r == self.spec_id(),
    {
        match self {
            KillstreakTier::NoKillstreak => 0,
            KillstreakTier::Killstreak => 1,
            KillstreakTier::Specialized => 2,
            KillstreakTier::Professional => 3,
        }
    }

    /// The tier with numeric id `id`; ids above 3 are rejected.
    pub fn try_from_id(id: u8) -> (r: Result<KillstreakTier, ItemError>)
        ensures
            match KillstreakTier::spec_from_id(id) {
                Some(t) => r == Ok::<KillstreakTier, ItemError>(t),
                None => r == Err::<KillstreakTier, ItemError>(ItemError::UnknownKillstreakTier(id)),
            },
    {
        if id == 0 {
            Ok(KillstreakTier::NoKillstreak)
        } else if id == 1 {
            Ok(KillstreakTier::Killstreak)
        } else if id == 2 {
            Ok(KillstreakTier::Specialized)
        } else if id == 3 {
            Ok(KillstreakTier::Professional)
        } else {
            Err(ItemError::UnknownKillstreakTier(id))
        }
    }
}

impl Default for KillstreakTier {
    fn default() -> (r: KillstreakTier)
        ensures
            r == KillstreakTier::NoKillstreak,
    {
        KillstreakTier::NoKillstreak
    }
}

/// The killstreak id mapping is a bijection between the tiers and `0..=3`.
pub proof fn lemma_killstreak_id_roundtrip(t: KillstreakTier, id: u8)
    ensures
        KillstreakTier::spec_from_id(t.spec_id()) == Some(t),
        KillstreakTier::spec_from_id(id) matches Some(u) ==> u.spec_id() == id,
        KillstreakTier::spec_from_id(id) is Some <==> id <= 3,
{
}

/// One exact item permutation: the unit that prices, listings and
/// inventory rows are keyed by.
#[derive(Debug, Clone, Copy, PartialEq, Eq, Structural, Hash)]
pub struct ItemKey {
    pub defindex: u32,
    pub quality: Quality,
    pub effect_id: Option<u32>,
    pub killstreak_tier: KillstreakTier,
    pub australium: bool,
    pub festivized: bool,
    pub craftable: bool,
}

} // verus!
