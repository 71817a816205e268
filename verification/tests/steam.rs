use tf2_terminal::domain::item::{KillstreakTier, Quality};
use tf2_terminal::domain::steam_id::SteamId64;
use tf2_terminal::error::AppError;
use tf2_terminal::infra::steam::auth::{
    assertion_confirmed, build_login_url, claimed_steam_id, is_login_cancelled, login_outcome,
    parse_callback_query, query_value, verification_params, wslenv_with_open_target,
};
use tf2_terminal::infra::steam::inventory::{player_items_result, AttrValue, TF2Attribute, TF2Item};
use tf2_terminal::infra::steam::schema::{build_overview, ItemsPaging, ParticleEffect, SchemaItem};
use tf2_terminal::infra::steam::trade_offers::{
    active_received_offers, completed_offers, TradeOffer, TradeOfferAsset,
};
use tf2_terminal::infra::steam::trade_send::{
    accept_offer_form, accept_url, build_trade_offer, cookie_header, decline_url,
    new_offer_referer, new_offer_url, offer_referer, send_offer_form, send_offer_outcome,
    steam_rejection, to_json_assets,
};

fn attr(defindex: u32, value: Option<AttrValue>, float_value_rounded: Option<i64>) -> TF2Attribute {
    TF2Attribute { defindex, value, float_value_rounded }
}

fn item(defindex: u32, quality: u8, attributes: Vec<TF2Attribute>) -> TF2Item {
    TF2Item {
        id: 1,
        defindex,
        level: 0,
        quality,
        flag_cannot_trade: false,
        flag_cannot_craft: false,
        attributes,
    }
}

#[test]
fn plain_unique_weapon_has_no_modifiers() {
    let key = item(45, 6, vec![]).item_key().unwrap();
    assert_eq!(key.quality, Quality::Unique);
    assert_eq!(key.effect_id, None);
    assert_eq!(key.killstreak_tier, KillstreakTier::NoKillstreak);
    assert!(!key.australium);
    assert!(!key.festivized);
    assert!(key.craftable);
}

#[test]
fn decodes_unusual_killstreak_decorated_weapon() {
    let it = item(
        200,
        15,
        vec![
            attr(134, Some(AttrValue::Signed(1143947264)), Some(701)),
            attr(2014, Some(AttrValue::Signed(1065353216)), Some(1)),
            attr(2025, Some(AttrValue::Signed(1073741824)), Some(2)),
        ],
    );
    let key = it.item_key().unwrap();
    assert_eq!(key.quality, Quality::DecoratedWeapon);
    assert_eq!(key.effect_id, Some(701));
    assert_eq!(key.killstreak_tier, KillstreakTier::Specialized);
}

#[test]
fn decodes_unusual_taunt_via_taunt_particle_attribute() {
    let it = item(1172, 5, vec![attr(2041, Some(AttrValue::Signed(3206)), None)]);
    assert_eq!(it.effect_id(), Some(3206));
}

#[test]
fn decodes_strange_count_and_craft_number_as_plain_integers() {
    let it = item(
        655,
        11,
        vec![
            attr(214, Some(AttrValue::Signed(4)), None),
            attr(229, Some(AttrValue::Signed(184420)), None),
        ],
    );
    assert_eq!(it.strange_count(), Some(4));
    assert_eq!(it.craft_number(), Some(184420));
}

#[test]
fn decodes_paint_via_float_value() {
    let it = item(261, 6, vec![attr(142, Some(AttrValue::Signed(1258093820)), Some(8289918))]);
    assert_eq!(it.paint_rgb(), Some(8289918));
}

#[test]
fn australium_and_festivized_are_presence_flags() {
    let it = item(
        39,
        6,
        vec![
            attr(2027, Some(AttrValue::Signed(1)), None),
            attr(2053, Some(AttrValue::Signed(1065353216)), Some(1)),
        ],
    );
    assert!(it.is_australium());
    assert!(it.is_festivized());
    assert!(!item(39, 6, vec![]).is_australium());
}

#[test]
fn flag_cannot_craft_maps_to_craftable_false() {
    let mut it = item(45, 6, vec![]);
    it.flag_cannot_craft = true;
    assert!(!it.item_key().unwrap().craftable);
}

#[test]
fn attribute_with_non_numeric_value_does_not_break_parsing() {
    let it = item(1172, 5, vec![attr(606, Some(AttrValue::NonInteger), None)]);
    assert!(it.item_key().is_ok());
    assert_eq!(it.effect_id(), None);
}

#[test]
fn rejects_unknown_quality() {
    assert!(item(45, 99, vec![]).item_key().is_err());
}

#[test]
fn the_first_attribute_with_a_defindex_wins() {
    let it = item(
        655,
        11,
        vec![
            attr(214, Some(AttrValue::Signed(7)), None),
            attr(214, Some(AttrValue::Signed(9)), None),
        ],
    );
    assert_eq!(it.strange_count(), Some(7));
}

#[test]
fn player_items_status_must_be_one() {
    assert_eq!(player_items_result(1, vec![item(45, 6, vec![])]).unwrap().len(), 1);
    match player_items_result(15, vec![]) {
        Err(AppError::Network(m)) => assert_eq!(m, "GetPlayerItems returned status 15 (inventory may be private)"),
        other => panic!("unexpected: {:?}", other),
    }
}

fn offer(id: u64, state: i32, updated: i64) -> TradeOffer {
    TradeOffer {
        tradeofferid: id,
        accountid_other: 2,
        message: String::new(),
        trade_offer_state: state,
        items_to_give: vec![],
        items_to_receive: vec![],
        time_created: 1,
        time_updated: updated,
    }
}

#[test]
fn parses_envelope_with_active_and_inactive_offers() {
    let mut active = offer(6234567890123456789, 2, 1700000000);
    active.message = "trade me".to_string();
    active.items_to_give = vec![TradeOfferAsset { assetid: "111".to_string() }];
    active.items_to_receive = vec![
        TradeOfferAsset { assetid: "222".to_string() },
        TradeOfferAsset { assetid: "333".to_string() },
    ];
    let cancelled = offer(6234567890123456790, 6, 1700000002);
    assert!(active.is_active());
    assert!(!cancelled.is_active());
    let kept = active_received_offers(vec![active.clone(), cancelled]);
    assert_eq!(kept, vec![active]);
}

#[test]
fn is_accepted_is_true_only_for_state_3() {
    assert!(offer(1, 3, 5).is_accepted());
    assert!(!offer(2, 2, 1).is_accepted());
}

#[test]
fn parses_sent_offers_separately_from_received() {
    let done = completed_offers(vec![offer(1, 3, 5), offer(4, 2, 1)], vec![offer(2, 3, 6)], 0);
    assert_eq!(done.len(), 2);
    assert_eq!(done[0].tradeofferid, 1);
    assert_eq!(done[1].tradeofferid, 2);
    assert_eq!(done[1].time_updated, 6);
}

#[test]
fn completed_offers_drop_trades_updated_before_the_cutoff() {
    let done = completed_offers(
        vec![offer(1, 3, 99), offer(3, 3, 100)],
        vec![offer(2, 3, 101), offer(4, 2, 200)],
        100,
    );
    let ids: Vec<u64> = done.iter().map(|o| o.tradeofferid).collect();
    assert_eq!(ids, vec![3, 2]);
}

#[test]
fn cookie_header_includes_both_cookies() {
    let header = cookie_header("sid123", "secure456");
    assert_eq!(header, "sessionid=sid123; steamLoginSecure=secure456");
}

#[test]
fn build_json_tradeoffer_includes_both_sides_assets_with_tf2_app_context() {
    let offer = build_trade_offer(
        &vec!["111".to_string(), "222".to_string()],
        &vec!["333".to_string()],
    );
    assert!(offer.newversion);
    assert_eq!(offer.version, 4);
    assert_eq!(offer.me.assets.len(), 2);
    assert_eq!(offer.them.assets.len(), 1);
    assert_eq!(offer.me.assets[0].appid, 440);
    assert_eq!(offer.me.assets[0].contextid, "2");
    assert_eq!(offer.me.assets[0].assetid, "111");
    assert_eq!(offer.me.assets[0].amount, 1);
    assert!(!offer.me.ready && !offer.them.ready);
}

#[test]
fn build_json_tradeoffer_handles_empty_sides() {
    let offer = build_trade_offer(&vec![], &vec![]);
    assert!(offer.me.assets.is_empty());
    assert!(offer.them.assets.is_empty());
    assert!(to_json_assets(&vec![]).is_empty());
}

#[test]
fn trade_offer_urls_embed_the_offer_id() {
    assert_eq!(new_offer_url(), "https://steamcommunity.com/tradeoffer/new/send");
    assert_eq!(accept_url(42), "https://steamcommunity.com/tradeoffer/42/accept");
    assert_eq!(decline_url(7), "https://steamcommunity.com/tradeoffer/7/decline");
    assert_eq!(offer_referer(42), "https://steamcommunity.com/tradeoffer/42/");
}

#[test]
fn new_offer_referer_uses_the_32_bit_account_id() {
    assert_eq!(
        new_offer_referer(SteamId64(76561198000000000)),
        "https://steamcommunity.com/tradeoffer/new/?partner=39734272"
    );
}

#[test]
fn send_and_accept_forms_list_their_fields_in_order() {
    let form = send_offer_form("sid", SteamId64(76561198000000000), "hi", "{}");
    let names: Vec<&str> = form.iter().map(|(k, _)| k.as_str()).collect();
    assert_eq!(
        names,
        vec!["sessionid", "serverid", "partner", "tradeoffermessage", "json_tradeoffer", "trade_offer_create_params"]
    );
    assert_eq!(form[2].1, "76561198000000000");
    let accept = accept_offer_form("sid", 99, SteamId64(5));
    assert_eq!(accept[2], ("tradeofferid".to_string(), "99".to_string()));
    assert_eq!(accept[4], ("captcha".to_string(), String::new()));
}

#[test]
fn send_offer_response_parses_success() {
    assert_eq!(
        send_offer_outcome(Some("6234567890123456789".to_string()), None).unwrap(),
        6234567890123456789
    );
}

#[test]
fn send_offer_response_parses_steam_error() {
    match send_offer_outcome(None, Some("There was an error sending your trade offer.".to_string())) {
        Err(AppError::Network(m)) => assert_eq!(
            m,
            "Steam rejected the trade offer: There was an error sending your trade offer."
        ),
        other => panic!("unexpected: {:?}", other),
    }
}

#[test]
fn send_offer_outcome_needs_a_numeric_id() {
    match send_offer_outcome(None, None) {
        Err(AppError::Network(m)) => assert_eq!(m, "Steam did not return a trade offer id"),
        other => panic!("unexpected: {:?}", other),
    }
    match send_offer_outcome(Some("12x".to_string()), None) {
        Err(AppError::Network(m)) => {
            assert_eq!(m, "invalid trade offer id from Steam: invalid digit found in string")
        }
        other => panic!("unexpected: {:?}", other),
    }
}

#[test]
fn steam_rejection_reads_the_error_text() {
    assert!(steam_rejection(None).is_ok());
    match steam_rejection(Some("offer changed".to_string())) {
        Err(AppError::Network(m)) => assert_eq!(m, "Steam rejected the request: offer changed"),
        other => panic!("unexpected: {:?}", other),
    }
}

#[test]
fn build_login_url_includes_required_openid_params() {
    let url = build_login_url("http://127.0.0.1:12345/callback", "http://127.0.0.1:12345/");
    assert!(url.starts_with("https://steamcommunity.com/openid/login"));
    assert!(url.contains("openid.mode=checkid_setup"));
    assert!(url.contains("openid.return_to=http%3A%2F%2F127.0.0.1%3A12345%2Fcallback"));
    assert!(url.contains("openid.realm=http%3A%2F%2F127.0.0.1%3A12345%2F"));
    assert!(url.contains("identifier_select"));
}

#[test]
fn parse_callback_query_extracts_params() {
    let query = parse_callback_query(
        "/callback?openid.mode=id_res&openid.claimed_id=https%3A%2F%2Fsteamcommunity.com%2Fopenid%2Fid%2F76561198000000000",
    );
    assert_eq!(query_value(&query, "openid.mode"), Some(&"id_res".to_string()));
    assert_eq!(
        query_value(&query, "openid.claimed_id"),
        Some(&"https://steamcommunity.com/openid/id/76561198000000000".to_string())
    );
}

#[test]
fn parse_callback_query_handles_malformed_input() {
    let query = parse_callback_query("not a valid url fragment");
    assert!(query.is_empty());
}

#[test]
fn query_value_takes_the_last_duplicate() {
    let query = parse_callback_query("/callback?a=1&b=2&a=3");
    assert_eq!(query_value(&query, "a"), Some(&"3".to_string()));
    assert_eq!(query_value(&query, "c"), None);
}

#[test]
fn login_is_cancelled_unless_mode_is_id_res() {
    assert!(!is_login_cancelled(&parse_callback_query("/callback?openid.mode=id_res")));
    assert!(is_login_cancelled(&parse_callback_query("/callback?openid.mode=cancel")));
    assert!(is_login_cancelled(&parse_callback_query("/callback")));
}

#[test]
fn verification_params_replace_the_mode() {
    let params = parse_callback_query("/callback?openid.mode=id_res&openid.sig=abc");
    let out = verification_params(params);
    assert_eq!(
        out,
        vec![
            ("openid.sig".to_string(), "abc".to_string()),
            ("openid.mode".to_string(), "check_authentication".to_string()),
        ]
    );
}

#[test]
fn verification_params_keep_the_last_value_of_each_key() {
    let params = parse_callback_query("/callback?openid.sig=a&openid.mode=id_res&openid.sig=b&x=1");
    assert_eq!(
        verification_params(params),
        vec![
            ("openid.sig".to_string(), "b".to_string()),
            ("x".to_string(), "1".to_string()),
            ("openid.mode".to_string(), "check_authentication".to_string()),
        ]
    );
}

#[test]
fn verify_assertion_accepts_is_valid_true() {
    assert!(assertion_confirmed("ns:http://specs.openid.net/auth/2.0\nis_valid:true\n"));
    assert!(assertion_confirmed("  is_valid:true  "));
}

#[test]
fn verify_assertion_rejects_when_response_lacks_is_valid_true() {
    assert!(!assertion_confirmed("ns:http://specs.openid.net/auth/2.0\nis_valid:false\n"));
    assert!(!assertion_confirmed(""));
}

#[test]
fn claimed_steam_id_reads_the_id_from_the_claimed_url() {
    let query = parse_callback_query(
        "/callback?openid.claimed_id=https%3A%2F%2Fsteamcommunity.com%2Fopenid%2Fid%2F76561198000000000",
    );
    assert_eq!(claimed_steam_id(&query).unwrap(), SteamId64(76561198000000000));
    assert!(matches!(
        claimed_steam_id(&parse_callback_query("/callback")),
        Err(AppError::Config(_))
    ));
}

#[test]
fn ensure_open_target_crosses_wsl_interop_sets_and_dedupes() {
    assert_eq!(wslenv_with_open_target(""), Some("OPEN_RS_TARGET".to_string()));
    assert_eq!(
        wslenv_with_open_target("FOO/p:BAR"),
        Some("FOO/p:BAR:OPEN_RS_TARGET".to_string())
    );
    assert_eq!(wslenv_with_open_target("FOO/p:BAR:OPEN_RS_TARGET"), None);
    assert_eq!(wslenv_with_open_target("OPEN_RS_TARGET/u"), None);
}

#[test]
fn overview_cross_references_qualities_and_quality_names_by_internal_key() {
    let qualities = vec![
        ("Normal".to_string(), 0u8),
        ("rarity1".to_string(), 1u8),
        ("Unique".to_string(), 6u8),
    ];
    let names = vec![
        ("Normal".to_string(), "Normal".to_string()),
        ("rarity1".to_string(), "Genuine".to_string()),
        ("Unique".to_string(), "Unique".to_string()),
    ];
    let particles = vec![ParticleEffect { id: 4, name: "Community Sparkle".to_string() }];
    let overview = build_overview(&qualities, &names, particles);
    assert_eq!(overview.quality_names.get(&1), Some(&"Genuine".to_string()));
    assert_eq!(overview.quality_names.get(&6), Some(&"Unique".to_string()));
    assert_eq!(overview.particles.get(&4), Some(&"Community Sparkle".to_string()));
}

fn schema_item(defindex: u32, name: &str) -> SchemaItem {
    SchemaItem {
        defindex,
        item_name: name.to_string(),
        item_quality: 6,
        item_class: None,
        image_url: None,
    }
}

#[test]
fn schema_paging_keeps_pages_in_order_until_no_cursor() {
    let mut paging = ItemsPaging::start();
    assert_eq!(paging.cursor, Some(0));
    paging.absorb(vec![schema_item(0, "Bat"), schema_item(1, "Bottle")], Some(2));
    assert_eq!(paging.cursor, Some(2));
    paging.absorb(vec![schema_item(2, "Fire Axe")], None);
    assert_eq!(paging.cursor, None);
    let names: Vec<&str> = paging.items.iter().map(|i| i.item_name.as_str()).collect();
    assert_eq!(names, vec!["Bat", "Bottle", "Fire Axe"]);
    match ItemsPaging::page_error(1150, "timed out") {
        AppError::Network(m) => assert_eq!(m, "schema items page at 1150: timed out"),
        other => panic!("unexpected: {:?}", other),
    }
}

#[test]
fn login_needs_a_confirmed_assertion() {
    let query = parse_callback_query(
        "/callback?openid.mode=id_res&openid.claimed_id=https%3A%2F%2Fsteamcommunity.com%2Fopenid%2Fid%2F76561198000000000",
    );
    assert_eq!(login_outcome(&query, true).unwrap(), SteamId64(76561198000000000));
    match login_outcome(&query, false) {
        Err(AppError::Config(m)) => assert_eq!(m, "Steam login assertion failed verification"),
        other => panic!("unexpected: {:?}", other),
    }
}
