use tf2_terminal::domain::item::{KillstreakTier, Quality};
use tf2_terminal::error::AppError;
use tf2_terminal::infra::backpack_tf::client::{
    check_catalog_success, decide, parse_retry_after, RetryDecision, retries_exhausted, retry_step, RetryStep,
};
use tf2_terminal::infra::backpack_tf::models::{WsItem, WsParticle, WsQuality, WsSpell};
use tf2_terminal::infra::backpack_tf::websocket::{
    after_disconnect, classify_event, next_backoff, ListingChange, ReconnectStep,
};

fn ws_item(defindex: u32, quality: u8) -> WsItem {
    WsItem {
        defindex,
        quality: WsQuality { id: quality },
        particle: None,
        killstreak_tier: None,
        australium: None,
        festivized: None,
        craftable: None,
        spells: Vec::new(),
    }
}

#[test]
fn has_spells_is_false_when_the_field_is_absent() {
    assert!(!ws_item(45, 6).has_spells());
}

#[test]
fn has_spells_is_true_when_spells_are_present() {
    let item = WsItem {
        defindex: 132,
        quality: WsQuality { id: 11 },
        particle: None,
        killstreak_tier: Some(1),
        australium: Some(true),
        festivized: None,
        craftable: Some(true),
        spells: vec![WsSpell {
            name: "Exorcism".to_string(),
        }],
    };
    assert!(item.has_spells());
}

#[test]
fn item_key_defaults_when_optional_fields_absent() {
    let key = ws_item(45, 6).item_key().unwrap();
    assert_eq!(key.killstreak_tier, KillstreakTier::NoKillstreak);
    assert!(!key.australium);
    assert!(!key.festivized);
    assert!(key.craftable);
    assert_eq!(key.effect_id, None);
}

#[test]
fn item_key_resolves_strange_specialized_killstreak() {
    let mut item = ws_item(411, 11);
    item.killstreak_tier = Some(2);
    let key = item.item_key().unwrap();
    assert_eq!(key.killstreak_tier, KillstreakTier::Specialized);
}

#[test]
fn item_key_resolves_strange_festivized_killstreak() {
    let mut item = ws_item(201, 11);
    item.killstreak_tier = Some(1);
    item.festivized = Some(true);
    item.craftable = Some(true);
    let key = item.item_key().unwrap();
    assert_eq!(key.killstreak_tier, KillstreakTier::Killstreak);
    assert!(key.festivized);
    assert!(key.craftable);
}

#[test]
fn item_key_resolves_strange_professional_killstreak_australium() {
    let mut item = ws_item(208, 11);
    item.killstreak_tier = Some(3);
    item.australium = Some(true);
    item.craftable = Some(true);
    let key = item.item_key().unwrap();
    assert_eq!(key.killstreak_tier, KillstreakTier::Professional);
    assert!(key.australium);
}

#[test]
fn item_key_rejects_unknown_quality() {
    assert!(ws_item(1, 99).item_key().is_err());
}

#[test]
fn item_key_carries_the_particle_and_the_craftable_flag() {
    let mut item = ws_item(30976, 5);
    item.particle = Some(WsParticle { id: 701 });
    item.craftable = Some(false);
    let key = item.item_key().unwrap();
    assert_eq!(key.quality, Quality::Unusual);
    assert_eq!(key.effect_id, Some(701));
    assert!(!key.craftable);
}

#[test]
fn ignores_unknown_event_types_gracefully() {
    assert_eq!(classify_event("listing-update"), Some(ListingChange::Upserted));
    assert_eq!(classify_event("listing-delete"), Some(ListingChange::Deleted));
    assert_eq!(classify_event("some-future-event-type"), None);
}

#[test]
fn reconnect_backoff_doubles_up_to_a_minute() {
    let mut waits = vec![1u64];
    for _ in 0..7 {
        let next = next_backoff(*waits.last().unwrap());
        waits.push(next);
    }
    assert_eq!(waits, vec![1, 2, 4, 8, 16, 32, 60, 60]);
}

#[test]
fn rate_limited_responses_honour_retry_after() {
    assert_eq!(decide(0, 429, Some(7)), RetryDecision::Retry { wait_secs: 7 });
    assert_eq!(decide(1, 429, None), RetryDecision::Retry { wait_secs: 4 });
    assert_eq!(decide(3, 429, None), RetryDecision::Retry { wait_secs: 16 });
}

#[test]
fn server_errors_back_off_until_retries_run_out() {
    assert_eq!(decide(0, 503, None), RetryDecision::Retry { wait_secs: 2 });
    assert_eq!(decide(2, 500, None), RetryDecision::Retry { wait_secs: 8 });
    assert_eq!(decide(3, 500, None), RetryDecision::Proceed);
    assert_eq!(decide(0, 200, None), RetryDecision::Proceed);
    assert_eq!(decide(0, 404, None), RetryDecision::Proceed);
}

#[test]
fn retry_after_must_be_whole_seconds() {
    assert_eq!(parse_retry_after("30"), Some(30));
    assert_eq!(parse_retry_after("+5"), Some(5));
    assert_eq!(parse_retry_after("1.5"), None);
    assert_eq!(parse_retry_after(""), None);
    assert_eq!(parse_retry_after("Wed, 21 Oct 2015 07:28:00 GMT"), None);
}

#[test]
fn catalog_needs_success_one() {
    assert!(check_catalog_success(1).is_ok());
    match check_catalog_success(0) {
        Err(AppError::Network(m)) => assert_eq!(m, "IGetPrices returned success=0"),
        other => panic!("unexpected: {:?}", other),
    }
}

#[test]
fn reconnects_until_the_receiver_is_gone() {
    assert_eq!(after_disconnect(true, 8), ReconnectStep::Stop);
    assert_eq!(
        after_disconnect(false, 8),
        ReconnectStep::Wait { wait_secs: 8, next_backoff_secs: 16 }
    );
    assert_eq!(
        after_disconnect(false, 60),
        ReconnectStep::Wait { wait_secs: 60, next_backoff_secs: 60 }
    );
}

#[test]
fn the_request_loop_gives_up_after_the_last_retry() {
    assert_eq!(retry_step(0, 200, None), RetryStep::Use);
    assert_eq!(retry_step(0, 503, None), RetryStep::Wait { wait_secs: 2, then: Some(1) });
    assert_eq!(retry_step(2, 429, Some(7)), RetryStep::Wait { wait_secs: 7, then: Some(3) });
    assert_eq!(retry_step(3, 429, None), RetryStep::Wait { wait_secs: 16, then: None });
    assert_eq!(retry_step(3, 503, None), RetryStep::Use);
    assert_eq!(
        retries_exhausted(),
        AppError::Network("backpack.tf request failed after retries".to_string())
    );
}
