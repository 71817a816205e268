use tf2_terminal::domain::item::{KillstreakTier, Quality};
use tf2_terminal::domain::plugin::Capability;
use tf2_terminal::error::AppError;
use tf2_terminal::infra::plugins::host_functions::{
    capability_gate, has_capability, http_fetch_target, log_level, market_price_key, notification_content,
    import_step, HostAccess, HostImport, ImportStep, LogLevel, CAP_DENIED, INTERNAL_ERROR, RATE_LIMITED,
};
use tf2_terminal::infra::plugins::runtime::{
    export_result, read_from_guest, read_guest_bytes, unpack_export_result,
};

#[test]
fn error_codes_are_negative_and_distinct() {
    assert_eq!((CAP_DENIED, RATE_LIMITED, INTERNAL_ERROR), (-1, -2, -3));
}

#[test]
fn packed_results_split_into_pointer_and_length() {
    assert_eq!(unpack_export_result(0), None);
    let packed = (1024i64 << 32) | 17;
    assert_eq!(unpack_export_result(packed), Some((1024, 17)));
    assert_eq!(unpack_export_result(5), Some((0, 5)));
    assert_eq!(unpack_export_result(-1), Some((-1, -1)));
}

#[test]
fn guest_reads_stay_inside_memory() {
    let memory = [1u8, 2, 3, 4, 5];
    assert_eq!(read_guest_bytes(Some(&memory), 1, 3), Some(vec![2, 3, 4]));
    assert_eq!(read_guest_bytes(Some(&memory), 5, 0), Some(vec![]));
    assert_eq!(read_guest_bytes(Some(&memory), 4, 2), None);
    assert_eq!(read_guest_bytes(Some(&memory), -1, 2), None);
    assert_eq!(read_guest_bytes(Some(&memory), 0, -2), None);
    assert_eq!(read_guest_bytes(None, 0, 0), None);
}

fn internal_message(r: Result<Vec<u8>, AppError>) -> String {
    match r {
        Err(AppError::Internal(m)) => m,
        other => panic!("unexpected: {:?}", other),
    }
}

#[test]
fn guest_buffer_errors_name_the_problem() {
    let memory = [9u8; 8];
    assert_eq!(read_from_guest(Some(&memory), 2, 3).unwrap(), vec![9, 9, 9]);
    assert_eq!(
        internal_message(read_from_guest(Some(&memory), -4, 3)),
        "plugin returned a negative pointer/length"
    );
    assert_eq!(
        internal_message(read_from_guest(None, 0, 1)),
        "plugin does not export 'memory'"
    );
    assert_eq!(
        internal_message(read_from_guest(Some(&memory), 6, 3)),
        "plugin returned an out-of-bounds buffer"
    );
}

#[test]
fn export_results_read_the_named_buffer() {
    let memory = b"....{\"ok\":true}".to_vec();
    assert_eq!(export_result(Some(0), Some(&memory)).unwrap(), None);
    let packed = (4i64 << 32) | 11;
    assert_eq!(
        export_result(Some(packed), Some(&memory)).unwrap(),
        Some(b"{\"ok\":true}".to_vec())
    );
    assert!(matches!(
        export_result(Some((4i64 << 32) | 12), Some(&memory)),
        Err(AppError::Internal(_))
    ));
}

#[test]
fn a_missing_export_answers_nothing() {
    assert_eq!(export_result(None, None).unwrap(), None);
    assert_eq!(export_result(None, Some(&b"abc".to_vec())).unwrap(), None);
}

#[test]
fn host_log_needs_no_capability_while_other_imports_do() {
    let none: Vec<Capability> = vec![];
    assert_eq!(capability_gate(&none, HostImport::Log), None);
    assert_eq!(capability_gate(&none, HostImport::Access(HostAccess::MarketRead)), Some(CAP_DENIED));
    let granted = vec![Capability::MarketRead];
    assert_eq!(capability_gate(&granted, HostImport::Access(HostAccess::MarketRead)), None);
    assert_eq!(capability_gate(&granted, HostImport::Access(HostAccess::NotifySend)), Some(CAP_DENIED));
}

#[test]
fn capabilities_gate_each_import() {
    let granted = vec![
        Capability::MarketRead,
        Capability::Http(vec!["backpack.tf".to_string()]),
    ];
    assert!(has_capability(&granted, HostAccess::MarketRead));
    assert!(!has_capability(&granted, HostAccess::InventoryRead));
    assert!(!has_capability(&granted, HostAccess::NotifySend));
    assert!(has_capability(&granted, HostAccess::HttpHost("backpack.tf")));
    assert!(!has_capability(&granted, HostAccess::HttpHost("steamcommunity.com")));
    assert!(!has_capability(&vec![], HostAccess::MarketRead));
}

#[test]
fn http_fetch_checks_the_url_host() {
    let granted = vec![Capability::Http(vec!["backpack.tf".to_string()])];
    let url = "https://backpack.tf/api/IGetPrices/v4".to_string();
    assert_eq!(http_fetch_target(&granted, Some(url.clone().into_bytes())), Ok(url));
    assert_eq!(
        http_fetch_target(&granted, Some(b"https://steamcommunity.com/".to_vec())),
        Err(CAP_DENIED)
    );
    assert_eq!(http_fetch_target(&granted, Some(b"not a url".to_vec())), Err(INTERNAL_ERROR));
    assert_eq!(http_fetch_target(&granted, Some(vec![0xff, 0xfe])), Err(INTERNAL_ERROR));
    assert_eq!(http_fetch_target(&granted, None), Err(INTERNAL_ERROR));
}

#[test]
fn market_price_key_is_the_reduced_item_key() {
    let key = market_price_key(45, 6).unwrap();
    assert_eq!(key.defindex, 45);
    assert_eq!(key.quality, Quality::Unique);
    assert_eq!(key.effect_id, None);
    assert_eq!(key.killstreak_tier, KillstreakTier::NoKillstreak);
    assert!(!key.australium && !key.festivized && key.craftable);
    assert_eq!(market_price_key(-5, -3).unwrap().defindex, 0);
    assert_eq!(market_price_key(-5, -3).unwrap().quality, Quality::Normal);
    assert!(market_price_key(1, 300).is_none());
    assert!(market_price_key(1, 16).is_none());
}

#[test]
fn log_levels_default_to_info() {
    assert_eq!(log_level(0), LogLevel::Debug);
    assert_eq!(log_level(1), LogLevel::Info);
    assert_eq!(log_level(2), LogLevel::Warn);
    assert_eq!(log_level(3), LogLevel::Error);
    assert_eq!(log_level(-7), LogLevel::Info);
}

#[test]
fn notifications_name_the_plugin() {
    assert_eq!(
        notification_content("price-bot", "Deal", "Key at 60 ref"),
        "[plugin: price-bot] Deal: Key at 60 ref"
    );
}

#[test]
fn imports_check_the_capability_before_the_rate_limiter() {
    assert_eq!(import_step(Some(CAP_DENIED), None), ImportStep::Answer(CAP_DENIED));
    assert_eq!(import_step(Some(CAP_DENIED), Some(true)), ImportStep::Answer(CAP_DENIED));
    assert_eq!(import_step(None, None), ImportStep::AskLimiter);
    assert_eq!(import_step(None, Some(false)), ImportStep::Answer(RATE_LIMITED));
    assert_eq!(import_step(None, Some(true)), ImportStep::Proceed);
}
