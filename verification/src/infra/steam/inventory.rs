//! Decoding of one item of `IEconItems_440/GetPlayerItems` into the
//! domain's exact item key.
use vstd::prelude::*;
use crate::domain::item::{lemma_killstreak_id_roundtrip, lemma_quality_id_roundtrip, ItemError, ItemKey, KillstreakTier, Quality};
use crate::error::AppError;
use crate::text::{i64_to_decimal, signed_decimal};

verus! {

/// Attribute carrying an Unusual effect id as a float.
pub const ATTR_UNUSUAL_EFFECT: u32 = 134;
/// Attribute carrying a taunt's Unusual effect id as a plain integer.
pub const ATTR_TAUNT_UNUSUAL_EFFECT: u32 = 2041;
/// Attribute carrying the killstreak tier as a float.
pub const ATTR_KILLSTREAK_TIER: u32 = 2025;
/// Attribute whose presence marks an Australium.
pub const ATTR_AUSTRALIUM: u32 = 2027;
/// Attribute whose presence marks a Festivized item.
pub const ATTR_FESTIVIZED: u32 = 2053;
/// Attribute carrying the strange kill count as an integer.
pub const ATTR_STRANGE_COUNT: u32 = 214;
/// Attribute carrying the craft number as an integer.
pub const ATTR_CRAFT_NUMBER: u32 = 229;
/// Attribute carrying the paint colour (packed RGB) as a float.
pub const ATTR_PAINT_RGB: u32 = 142;

/// The `value` of an attribute as far as integer decoding is concerned.
#[derive(Debug, Clone, Copy, PartialEq, Eq, Structural)]
pub enum AttrValue {
    /// A JSON number representable as an `i64`.
    Signed(i64),
    /// A JSON number above `i64::MAX` (but within `u64`).
    LargeUnsigned(u64),
    /// Any other JSON value: a float, a string, a boolean, an object, ...
    NonInteger,
}

/// One attribute of an item.
#[derive(Debug, Clone, Copy, PartialEq, Eq, Structural)]
pub struct TF2Attribute {
    pub defindex: u32,
    /// `None` when the attribute has no (or a `null`) `value`.
    pub value: Option<AttrValue>,
    /// The attribute's `float_value` rounded to the nearest integer
    /// (halves away from zero), saturated to the `i64` range, NaN as 0:
    /// what `f64::round` followed by `as i64` gives.
    pub float_value_rounded: Option<i64>,
}

impl TF2Attribute {
    /// The integer in `value`: a number above `i64::MAX` is reinterpreted
    /// as `i64` (two's complement), anything else that is not an integer
    /// gives `None`.
    pub open spec fn spec_as_integer(self) -> Option<i64> {
        match self.value {
            Some(AttrValue::Signed(i)) => Some(i),
            Some(AttrValue::LargeUnsigned(u)) => Some(u as i64),
            _ => None,
        }
    }

    pub fn as_integer(&self) -> (r: Option<i64>)
        ensures
            r == self.spec_as_integer(),
    {
        match self.value {
            Some(AttrValue::Signed(i)) => Some(i),
            Some(AttrValue::LargeUnsigned(u)) => Some(u as i64),
            _ => None,
        }
    }
}

/// One item as returned by `GetPlayerItems`.
#[derive(Debug, Clone, PartialEq, Eq)]
pub struct TF2Item {
    pub id: u64,
    pub defindex: u32,
    pub level: u32,
    pub quality: u8,
    pub flag_cannot_trade: bool,
    pub flag_cannot_craft: bool,
    pub attributes: Vec<TF2Attribute>,
}

/// The first attribute of `attrs[i..]` with defindex `d`.
pub open spec fn first_attribute_from(attrs: Seq<TF2Attribute>, d: u32, i: int) -> Option<
    TF2Attribute,
>
    decreases attrs.len() - i,
{
    if i < 0 || i >= attrs.len() {
        None
    } else if attrs[i].defindex == d {
        Some(attrs[i])
    } else {
        first_attribute_from(attrs, d, i + 1)
    }
}

/// `x` clamped into the `u32` range.
pub open spec fn saturate_u32(x: i64) -> u32 {
    if x < 0 {
        0
    } else if x > u32::MAX {
        u32::MAX
    } else {
        x as u32
    }
}

/// `x` clamped into the `u8` range.
pub open spec fn saturate_u8(x: i64) -> u8 {
    if x < 0 {
        0
    } else if x > u8::MAX {
        u8::MAX
    } else {
        x as u8
    }
}

fn clamp_to_u32(x: i64) -> (r: u32)
    ensures
        r == saturate_u32(x),
{
    if x < 0 {
        0
    } else if x > 4_294_967_295i64 {
        4_294_967_295u32
    } else {
        x as u32
    }
}

fn clamp_to_u8(x: i64) -> (r: u8)
    ensures
        r == saturate_u8(x),
{
    if x < 0 {
        0
    } else if x > 255i64 {
        255u8
    } else {
        x as u8
    }
}

impl TF2Item {
    /// The first attribute with defindex `d`, if any.
    pub open spec fn spec_attribute(self, d: u32) -> Option<TF2Attribute> {
        first_attribute_from(self.attributes@, d, 0)
    }

    /// The item's Unusual effect: the rounded float of attribute 134 when
    /// present (clamped into `u32`), else the integer of attribute 2041
    /// (truncated to `u32`).
    pub open spec fn spec_effect_id(self) -> Option<u32> {
        match self.spec_attribute(ATTR_UNUSUAL_EFFECT) {
            Some(a) if a.float_value_rounded is Some => Some(
                saturate_u32(a.float_value_rounded->0),
            ),
            _ => match self.spec_attribute(ATTR_TAUNT_UNUSUAL_EFFECT) {
                Some(a) => match a.spec_as_integer() {
                    Some(i) => Some(i as u32),
                    None => None,
                },
                None => None,
            },
        }
    }

    /// The killstreak tier from attribute 2025's rounded float (clamped
    /// into `u8`); no tier when absent or not a known tier id.
    pub open spec fn spec_killstreak_tier(self) -> KillstreakTier {
        match self.spec_attribute(ATTR_KILLSTREAK_TIER) {
            Some(a) => match a.float_value_rounded {
                Some(f) => match KillstreakTier::spec_from_id(saturate_u8(f)) {
                    Some(t) => t,
                    None => KillstreakTier::NoKillstreak,
                },
                None => KillstreakTier::NoKillstreak,
            },
            None => KillstreakTier::NoKillstreak,
        }
    }

    pub open spec fn spec_item_key(self) -> Result<ItemKey, ItemError> {
        match Quality::spec_from_id(self.quality) {
            None => Err(ItemError::UnknownQuality(self.quality)),
            Some(q) => Ok(
                ItemKey {
                    defindex: self.defindex,
                    quality: q,
                    effect_id: self.spec_effect_id(),
                    killstreak_tier: self.spec_killstreak_tier(),
                    australium: self.spec_attribute(ATTR_AUSTRALIUM) is Some,
                    festivized: self.spec_attribute(ATTR_FESTIVIZED) is Some,
                    craftable: !self.flag_cannot_craft,
                },
            ),
        }
    }

    /// The first attribute with defindex `defindex`.
    pub fn attribute(&self, defindex: u32) -> (r: Option<&TF2Attribute>)
        ensures
            match r {
                Some(a) => self.spec_attribute(defindex) == Some(*a),
                None => self.spec_attribute(defindex) is None,
            },
    {
        let mut i: usize = 0;
        while i < self.attributes.len()
            invariant
                i <= self.attributes.len(),
                first_attribute_from(self.attributes@, defindex, 0) == first_attribute_from(
                    self.attributes@,
                    defindex,
                    i as int,
                ),
            decreases self.attributes.len() - i,
        {
            if self.attributes[i].defindex == defindex {
                return Some(&self.attributes[i]);
            }
            i = i + 1;
        }
        None
    }

    pub fn effect_id(&self) -> (r: Option<u32>)
        ensures
            r == self.spec_effect_id(),
    {
        if let Some(a) = self.attribute(ATTR_UNUSUAL_EFFECT) {
            if let Some(f) = a.float_value_rounded {
                return Some(clamp_to_u32(f));
            }
        }
        match self.attribute(ATTR_TAUNT_UNUSUAL_EFFECT) {
            Some(a) => match a.as_integer() {
                Some(i) => Some(i as u32),
                None => None,
            },
            None => None,
        }
    }

    pub fn killstreak_tier(&self) -> (r: KillstreakTier)
        ensures
            r == self.spec_killstreak_tier(),
    {
        match self.attribute(ATTR_KILLSTREAK_TIER) {
            Some(a) => match a.float_value_rounded {
                Some(f) => match KillstreakTier::try_from_id(clamp_to_u8(f)) {
                    Ok(t) => t,
                    Err(_) => KillstreakTier::NoKillstreak,
                },
                None => KillstreakTier::NoKillstreak,
            },
            None => KillstreakTier::NoKillstreak,
        }
    }

    /// Australium is a presence flag: any attribute 2027 counts.
    pub fn is_australium(&self) -> (r: bool)
        ensures
            r == (self.spec_attribute(ATTR_AUSTRALIUM) is Some),
    {
        self.attribute(ATTR_AUSTRALIUM).is_some()
    }

    /// Festivized is a presence flag: any attribute 2053 counts.
    pub fn is_festivized(&self) -> (r: bool)
        ensures
            r == (self.spec_attribute(ATTR_FESTIVIZED) is Some),
    {
        self.attribute(ATTR_FESTIVIZED).is_some()
    }

    /// The strange kill count: the integer of attribute 214.
    pub fn strange_count(&self) -> (r: Option<i64>)
        ensures
            r == (match self.spec_attribute(ATTR_STRANGE_COUNT) {
                Some(a) => a.spec_as_integer(),
                None => None,
            }),
    {
        match self.attribute(ATTR_STRANGE_COUNT) {
            Some(a) => a.as_integer(),
            None => None,
        }
    }

    /// The craft number: the integer of attribute 229.
    pub fn craft_number(&self) -> (r: Option<i64>)
        ensures
            r == (match self.spec_attribute(ATTR_CRAFT_NUMBER) {
                Some(a) => a.spec_as_integer(),
                None => None,
            }),
    {
        match self.attribute(ATTR_CRAFT_NUMBER) {
            Some(a) => a.as_integer(),
            None => None,
        }
    }

    /// The paint colour: the rounded float of attribute 142.
    pub fn paint_rgb(&self) -> (r: Option<i64>)
        ensures
            r == (match self.spec_attribute(ATTR_PAINT_RGB) {
                Some(a) => a.float_value_rounded,
                None => None,
            }),
    {
        match self.attribute(ATTR_PAINT_RGB) {
            Some(a) => a.float_value_rounded,
            None => None,
        }
    }

    /// The exact item key; fails only on an unknown quality id.
    pub fn item_key(&self) -> (r: Result<ItemKey, ItemError>)
        ensures
            r == self.spec_item_key(),
    {
        let quality = match Quality::try_from_id(self.quality) {
            Ok(q) => q,
            Err(e) => return Err(e),
        };
        Ok(
            ItemKey {
                defindex: self.defindex,
                quality,
                effect_id: self.effect_id(),
                killstreak_tier: self.killstreak_tier(),
                australium: self.is_australium(),
                festivized: self.is_festivized(),
                craftable: !self.flag_cannot_craft,
            },
        )
    }
}

/// The message for a `GetPlayerItems` result whose status is not 1.
pub open spec fn bad_status_message(status: i32) -> Seq<char> {
    "GetPlayerItems returned status "@ + signed_decimal(status as int)
        + " (inventory may be private)"@
}

/// Accepts a `GetPlayerItems` result only when its status is 1 (a
/// readable inventory); otherwise reports the status.
pub fn player_items_result(status: i32, items: Vec<TF2Item>) -> (r: Result<Vec<TF2Item>, AppError>)
    ensures
        status == 1 ==> r == Ok::<Vec<TF2Item>, AppError>(items),
        status != 1 ==> (r matches Err(AppError::Network(m)) && m@ == bad_status_message(status)),
{
    if status != 1 {
        proof {
            reveal_strlit("GetPlayerItems returned status ");
            reveal_strlit(" (inventory may be private)");
        }
        let mut m = String::from_str("GetPlayerItems returned status ");
        let digits = i64_to_decimal(status as i64);
        m.append(digits.as_str());
        m.append(" (inventory may be private)");
        return Err(AppError::Network(m));
    }
    Ok(items)
}

/// Whether the item carries some attribute with defindex `d`.
pub open spec fn carries_attribute(item: TF2Item, d: u32) -> bool {
    exists|j: int| 0 <= j < item.attributes@.len() && (#[trigger] item.attributes@[j]).defindex == d
}

/// The rounded value of the item's first attribute with defindex `d`.
pub open spec fn rounded_value(item: TF2Item, d: u32) -> Option<i64> {
    match item.spec_attribute(d) {
        Some(a) => a.float_value_rounded,
        None => None,
    }
}

/// The search from position `i` finds an attribute exactly when one with
/// that defindex stands at or after `i`, and what it finds has it.
proof fn lemma_first_attribute_found(attrs: Seq<TF2Attribute>, d: u32, i: int)
    requires
        0 <= i <= attrs.len(),
    ensures
        first_attribute_from(attrs, d, i) is Some <==> exists|j: int|
            i <= j < attrs.len() && (#[trigger] attrs[j]).defindex == d,
        first_attribute_from(attrs, d, i) matches Some(a) ==> a.defindex == d,
    decreases attrs.len() - i,
{
    if i < attrs.len() {
        lemma_first_attribute_found(attrs, d, i + 1);
        if attrs[i].defindex != d {
            assert forall|j: int| i <= j < attrs.len() && (#[trigger] attrs[j]).defindex == d implies i
                + 1 <= j by {}
        }
    }
}

/// A decoded inventory item's key: the item's defindex, the quality with
/// the item's quality id, craftable unless the item is flagged
/// non-craftable, Australium exactly when the item carries attribute 2027
/// and Festivized exactly when it carries attribute 2053; each flag agrees
/// with the item's own `is_australium` / `is_festivized` answer. Without
/// attributes 134 and 2041 there is no effect, and without attribute 2025
/// no killstreak; the first attribute 134's rounded value, when in range,
/// is the effect, and the first attribute 2025's, when a tier id, is the
/// tier. The key decodes exactly when the quality id is known.
pub proof fn lemma_item_key_fields(item: TF2Item)
    ensures
        item.spec_item_key() is Ok <==> item.quality <= 15,
        item.spec_item_key() matches Ok(k) ==> {
            &&& k.defindex == item.defindex
            &&& k.quality.spec_id() == item.quality
            &&& k.craftable == !item.flag_cannot_craft
            &&& (k.australium <==> carries_attribute(item, 2027))
            &&& (k.festivized <==> carries_attribute(item, 2053))
            &&& k.australium == (item.spec_attribute(ATTR_AUSTRALIUM) is Some)
            &&& k.festivized == (item.spec_attribute(ATTR_FESTIVIZED) is Some)
            &&& (!carries_attribute(item, 134) && !carries_attribute(item, 2041) ==> k.effect_id is None)
            &&& (!carries_attribute(item, 2025) ==> k.killstreak_tier == KillstreakTier::NoKillstreak)
            &&& (rounded_value(item, 134) matches Some(f) ==> (0 <= f <= u32::MAX ==> k.effect_id
                == Some(f as u32)))
            &&& (rounded_value(item, 2025) matches Some(f) ==> (0 <= f <= 3
                ==> k.killstreak_tier.spec_id() == f))
        },
{
    let attrs = item.attributes@;
    lemma_quality_id_roundtrip(Quality::Unique, item.quality);
    lemma_first_attribute_found(attrs, 2027, 0);
    lemma_first_attribute_found(attrs, 2053, 0);
    lemma_first_attribute_found(attrs, 134, 0);
    lemma_first_attribute_found(attrs, 2041, 0);
    lemma_first_attribute_found(attrs, 2025, 0);
    match item.spec_attribute(2025) {
        Some(a) => match a.float_value_rounded {
            Some(f) => {
                if 0 <= f <= 3 {
                    lemma_killstreak_id_roundtrip(KillstreakTier::NoKillstreak, saturate_u8(f));
                }
            },
            None => {},
        },
        None => {},
    }
}

} // verus!
