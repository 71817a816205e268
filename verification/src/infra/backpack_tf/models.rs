//! backpack.tf wire shapes the live feed logic reads.
use vstd::prelude::*;
use crate::domain::item::{
    lemma_killstreak_id_roundtrip, lemma_quality_id_roundtrip, ItemError, ItemKey, KillstreakTier,
    Quality,
};

verus! {

/// What happened to a listing on the live feed. The wire only tells
/// update-or-create from delete; telling `New` from `Updated` is up to the
/// consumer tracking which listing ids it has already seen.
#[derive(Debug, Clone, Copy, PartialEq, Eq, Structural)]
pub enum ListingEventKind {
    New,
    Updated,
    Removed,
}

#[derive(Debug, Clone, Copy, PartialEq, Eq, Structural)]
pub struct WsQuality {
    pub id: u8,
}

#[derive(Debug, Clone, Copy, PartialEq, Eq, Structural)]
pub struct WsParticle {
    pub id: u32,
}

/// A Halloween spell on a listed item.
#[derive(Debug, Clone, PartialEq, Eq)]
pub struct WsSpell {
    pub name: String,
}

/// The item of a live-feed listing. Absent optional fields mean "not
/// killstreak", "not australium", "not festivized" and "craftable".
#[derive(Debug, Clone, PartialEq, Eq)]
pub struct WsItem {
    pub defindex: u32,
    pub quality: WsQuality,
    pub particle: Option<WsParticle>,
    pub killstreak_tier: Option<u8>,
    pub australium: Option<bool>,
    pub festivized: Option<bool>,
    pub craftable: Option<bool>,
    pub spells: Vec<WsSpell>,
}

impl WsItem {
    /// Spelled listings carry a premium that has no place in per-key
    /// pricing; callers drop them.
    pub fn has_spells(&self) -> (r: bool)
        ensures
            r == (self.spells@.len() > 0),
    {
        self.spells.len() != 0
    }

    pub open spec fn spec_item_key(self) -> Result<ItemKey, ItemError> {
        let ks = match self.killstreak_tier {
            Some(k) => k,
            None => 0u8,
        };
        match Quality::spec_from_id(self.quality.id) {
            None => Err(ItemError::UnknownQuality(self.quality.id)),
            Some(q) => match KillstreakTier::spec_from_id(ks) {
                None => Err(ItemError::UnknownKillstreakTier(ks)),
                Some(t) => Ok(
                    ItemKey {
                        defindex: self.defindex,
                        quality: q,
                        effect_id: match self.particle {
                            Some(p) => Some(p.id),
                            None => None,
                        },
                        killstreak_tier: t,
                        australium: self.australium == Some(true),
                        festivized: self.festivized == Some(true),
                        craftable: self.craftable != Some(false),
                    },
                ),
            },
        }
    }

    /// The exact item key of the listing; fails on an unknown quality id,
    /// then on an unknown killstreak tier.
    pub fn item_key(&self) -> (r: Result<ItemKey, ItemError>)
        ensures
            r == self.spec_item_key(),
    {
        let quality = match Quality::try_from_id(self.quality.id) {
            Ok(q) => q,
            Err(e) => return Err(e),
        };
        let ks = match self.killstreak_tier {
            Some(k) => k,
            None => 0u8,
        };
        let killstreak_tier = match KillstreakTier::try_from_id(ks) {
            Ok(t) => t,
            Err(e) => return Err(e),
        };
        let effect_id = match self.particle {
            Some(p) => Some(p.id),
            None => None,
        };
        let australium = match self.australium {
            Some(b) => b,
            None => false,
        };
        let festivized = match self.festivized {
            Some(b) => b,
            None => false,
        };
        let craftable = match self.craftable {
            Some(b) => b,
            None => true,
        };
        Ok(
            ItemKey {
                defindex: self.defindex,
                quality,
                effect_id,
                killstreak_tier,
                australium,
                festivized,
                craftable,
            },
        )
    }
}

/// A listing's key: the listing's defindex, the quality with its quality
/// id, the particle's id as the effect whenever there is a particle
/// (whatever the quality) and no effect without one, the killstreak tier
/// with the listed id (0 when absent), Australium and Festivized only when
/// listed as `true`, and craftable unless listed as `false`. It decodes
/// exactly when the quality id and the killstreak tier are known.
pub proof fn lemma_listing_key_fields(item: WsItem)
    ensures
        item.spec_item_key() is Ok <==> item.quality.id <= 15 && (match item.killstreak_tier {
            Some(t) => t <= 3,
            None => true,
        }),
        item.spec_item_key() matches Ok(k) ==> {
            &&& k.defindex == item.defindex
            &&& k.quality.spec_id() == item.quality.id
            &&& (match item.particle {
                Some(p) => k.effect_id == Some(p.id),
                None => k.effect_id is None,
            })
            &&& k.killstreak_tier.spec_id() == (match item.killstreak_tier {
                Some(t) => t,
                None => 0u8,
            })
            &&& (k.australium <==> item.australium == Some(true))
            &&& (k.festivized <==> item.festivized == Some(true))
            &&& (k.craftable <==> item.craftable != Some(false))
        },
{
    let ks = match item.killstreak_tier {
        Some(t) => t,
        None => 0u8,
    };
    lemma_quality_id_roundtrip(Quality::Unique, item.quality.id);
    lemma_killstreak_id_roundtrip(KillstreakTier::NoKillstreak, ks);
}

} // verus!
