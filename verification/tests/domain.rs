use tf2_terminal::domain::item::{ItemError, KillstreakTier, Quality};
use tf2_terminal::domain::plugin::Capability;
use tf2_terminal::domain::steam_id::{SteamId64, SteamIdError};
use tf2_terminal::text::{
    i64_to_decimal, is_blank, join_strs, parse_u64, segment_bounds, starts_with, str_eq, trim,
    u64_to_decimal, IntParseError,
};

#[test]
fn quality_ids_roundtrip() {
    for id in 0u8..=15 {
        let q = Quality::try_from_id(id).unwrap();
        assert_eq!(q.id(), id);
    }
    assert_eq!(Quality::try_from_id(6).unwrap(), Quality::Unique);
    assert_eq!(Quality::try_from_id(15).unwrap(), Quality::DecoratedWeapon);
    assert_eq!(Quality::try_from_id(16), Err(ItemError::UnknownQuality(16)));
}

#[test]
fn killstreak_ids_roundtrip() {
    for id in 0u8..=3 {
        assert_eq!(KillstreakTier::try_from_id(id).unwrap().id(), id);
    }
    assert_eq!(KillstreakTier::try_from_id(4), Err(ItemError::UnknownKillstreakTier(4)));
    assert_eq!(KillstreakTier::default(), KillstreakTier::NoKillstreak);
}

#[test]
fn claimed_id_carries_the_steam_id() {
    assert_eq!(
        SteamId64::parse_claimed_id("https://steamcommunity.com/openid/id/76561198000000000"),
        Ok(SteamId64(76561198000000000))
    );
    assert_eq!(
        SteamId64::parse_claimed_id("https://example.com/openid/id/1"),
        Err(SteamIdError::NotASteamClaimedId)
    );
    assert_eq!(
        SteamId64::parse_claimed_id("https://steamcommunity.com/openid/id/abc"),
        Err(SteamIdError::InvalidNumber(IntParseError::InvalidDigit))
    );
    assert_eq!(
        SteamIdError::InvalidNumber(IntParseError::Empty).message(),
        "cannot parse integer from empty string"
    );
}

#[test]
fn account_id_is_the_low_32_bits() {
    assert_eq!(SteamId64(76561198000000000).account_id(), 39734272);
    assert_eq!(SteamId64(76561198000000000).to_decimal(), "76561198000000000");
}

#[test]
fn http_capability_matches_hosts_exactly() {
    let cap = Capability::Http(vec!["api.example.com".to_string(), "backpack.tf".to_string()]);
    assert!(cap.allows_http_host("backpack.tf"));
    assert!(!cap.allows_http_host("evil.backpack.tf"));
    assert!(!cap.allows_http_host("example.com"));
    assert!(!Capability::MarketRead.allows_http_host("backpack.tf"));
}

#[test]
fn decimal_text_roundtrips() {
    assert_eq!(u64_to_decimal(0), "0");
    assert_eq!(u64_to_decimal(u64::MAX), "18446744073709551615");
    assert_eq!(i64_to_decimal(i64::MIN), "-9223372036854775808");
    assert_eq!(parse_u64("18446744073709551615"), Ok(u64::MAX));
    assert_eq!(parse_u64("18446744073709551616"), Err(IntParseError::PosOverflow));
    assert_eq!(parse_u64("+"), Err(IntParseError::InvalidDigit));
    assert_eq!(parse_u64(""), Err(IntParseError::Empty));
    for n in [0u64, 7, 10, 12345, u64::MAX] {
        assert_eq!(parse_u64(&u64_to_decimal(n)), Ok(n));
    }
}

#[test]
fn text_helpers_follow_std() {
    assert!(starts_with("OPEN_RS_TARGET/u", "OPEN_RS_TARGET"));
    assert!(!starts_with("OPEN", "OPEN_RS_TARGET"));
    assert!(str_eq("a", "a") && !str_eq("a", "b"));
    assert_eq!(join_strs(&vec!["a", "b", "c"], ", "), "a, b, c");
    assert_eq!(join_strs(&vec![], ", "), "");
    assert_eq!(segment_bounds("a::b", ':'), vec![(0, 1), (2, 2), (3, 4)]);
    assert_eq!(segment_bounds("", ':'), vec![(0, 0)]);
    assert_eq!(trim(" \t is_valid:true \r"), "is_valid:true");
    assert!(is_blank(" \n\t"));
    assert!(!is_blank(" x "));
}
