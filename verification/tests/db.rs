use tf2_terminal::domain::item::{ItemKey, KillstreakTier, Quality};
use tf2_terminal::infra::db::repos::inventory_repo::InventoryRepo;
use tf2_terminal::infra::db::repos::items_repo::{ItemRow, ItemSearchFilters, ItemsRepo};
use tf2_terminal::infra::db::repos::kv_cache_repo::KvCacheRepo;
use tf2_terminal::infra::db::repos::market_listings_repo::MarketListingsRepo;
use tf2_terminal::infra::db::repos::price_history_repo::PriceDailyRepo;
use tf2_terminal::infra::db::repos::sql_placeholders;
use tf2_terminal::infra::db::repos::tags_repo::{Tag, TagsRepo};
use tf2_terminal::infra::db::repos::SqlValue;

#[test]
fn search_with_no_filters_returns_nothing() {
    let filters = ItemSearchFilters::default();
    assert!(filters.is_empty());
    assert_eq!(filters.search_sql(), None);
    assert!(filters.search_params().is_empty());
}

#[test]
fn search_combines_multiple_filters_with_and() {
    let filters = ItemSearchFilters {
        name: Some("Rocket"),
        quality: Some(11),
        has_effect: Some(false),
        ..ItemSearchFilters::default()
    };
    assert_eq!(
        filters.search_sql().unwrap(),
        "SELECT * FROM items WHERE name LIKE ? AND quality = ? AND effect_id IS NULL ORDER BY name LIMIT 50"
    );
    assert_eq!(
        filters.search_params(),
        vec![SqlValue::Text("%Rocket%".to_string()), SqlValue::Int(11)]
    );
}

#[test]
fn search_by_has_effect_binds_nothing() {
    let filters = ItemSearchFilters {
        has_effect: Some(true),
        ..ItemSearchFilters::default()
    };
    assert_eq!(
        filters.search_sql().unwrap(),
        "SELECT * FROM items WHERE effect_id IS NOT NULL ORDER BY name LIMIT 50"
    );
    assert!(filters.search_params().is_empty());
}

#[test]
fn search_binds_every_other_facet_in_order() {
    let filters = ItemSearchFilters {
        killstreak_tier: Some(3),
        australium: Some(true),
        craftable: Some(false),
        ..ItemSearchFilters::default()
    };
    assert_eq!(
        filters.search_sql().unwrap(),
        "SELECT * FROM items WHERE killstreak_tier = ? AND australium = ? AND craftable = ? ORDER BY name LIMIT 50"
    );
    assert_eq!(
        filters.search_params(),
        vec![SqlValue::Int(3), SqlValue::Bool(true), SqlValue::Bool(false)]
    );
}

fn row(quality: i64, killstreak_tier: i64, effect_id: Option<i64>) -> ItemRow {
    ItemRow {
        id: 1,
        defindex: 200,
        name: "Scattergun".to_string(),
        quality,
        effect_id,
        killstreak_tier,
        australium: false,
        festivized: true,
        craftable: true,
        image_url: None,
    }
}

#[test]
fn item_row_key_rebuilds_the_item_key() {
    let key = row(15, 2, Some(701)).key().unwrap();
    assert_eq!(key.defindex, 200);
    assert_eq!(key.quality, Quality::DecoratedWeapon);
    assert_eq!(key.killstreak_tier, KillstreakTier::Specialized);
    assert_eq!(key.effect_id, Some(701));
    assert!(key.festivized);
}

#[test]
fn item_row_key_rejects_unknown_ids() {
    assert!(row(99, 0, None).key().is_err());
    assert!(row(6, 9, None).key().is_err());
}

#[test]
fn placeholders_are_comma_separated() {
    assert_eq!(sql_placeholders(0), "");
    assert_eq!(sql_placeholders(1), "?");
    assert_eq!(sql_placeholders(3), "?,?,?");
}

#[test]
fn asset_id_queries_need_at_least_one_id() {
    assert_eq!(InventoryRepo::find_by_asset_ids_sql(0), None);
    assert_eq!(
        InventoryRepo::find_by_asset_ids_sql(2).unwrap(),
        "SELECT asset_id, item_id, raw_json FROM inventory_items WHERE steam_id = ? AND asset_id IN (?,?)"
    );
    assert_eq!(InventoryRepo::remove_by_asset_ids_sql(0), None);
    assert_eq!(
        InventoryRepo::remove_by_asset_ids_sql(1).unwrap(),
        "DELETE FROM inventory_items WHERE asset_id IN (?)"
    );
}

#[test]
fn listings_query_optionally_filters_by_effect() {
    assert_eq!(MarketListingsRepo::list_for_defindexes_sql(0, true), None);
    let with = MarketListingsRepo::list_for_defindexes_sql(2, true).unwrap();
    assert!(with.starts_with("SELECT * FROM market_listings WHERE defindex IN (?,?) AND quality = ? AND effect_id = ?"));
    let without = MarketListingsRepo::list_for_defindexes_sql(1, false).unwrap();
    assert!(without.starts_with("SELECT * FROM market_listings WHERE defindex IN (?) AND quality = ? "));
    assert!(!without.contains("effect_id"));
}

#[test]
fn cache_entries_expire_strictly_after_their_expiry() {
    assert!(KvCacheRepo::is_fresh(None, 100));
    assert!(KvCacheRepo::is_fresh(Some(100), 100));
    assert!(!KvCacheRepo::is_fresh(Some(99), 100));
    assert_eq!(KvCacheRepo::cached_value(Some((vec![1, 2], Some(150))), 100), Some(vec![1, 2]));
    assert_eq!(KvCacheRepo::cached_value(Some((vec![1, 2], Some(50))), 100), None);
    assert_eq!(KvCacheRepo::cached_value(None, 100), None);
}

#[test]
fn cache_entry_lives_for_its_ttl() {
    let expires = KvCacheRepo::expiry(1_000, 60);
    assert_eq!(expires, 1_060);
    assert!(KvCacheRepo::is_fresh(Some(expires), 1_060));
    assert!(!KvCacheRepo::is_fresh(Some(expires), 1_061));
}

#[test]
fn day_bounds_cover_one_day() {
    assert_eq!(PriceDailyRepo::day_bounds(0), (0, 86_400));
    assert_eq!(PriceDailyRepo::day_bounds(19_700), (1_702_080_000, 1_702_166_400));
    assert_eq!(PriceDailyRepo::day_bounds(-1), (-86_400, 0));
}

fn tag(id: i32, name: &str) -> Tag {
    Tag { id, name: name.to_string(), color: "#fff".to_string() }
}

#[test]
fn tags_are_grouped_by_asset_in_first_appearance_order() {
    let rows = vec![
        ("a2".to_string(), tag(1, "keep")),
        ("a1".to_string(), tag(2, "sell")),
        ("a2".to_string(), tag(3, "trade")),
    ];
    let groups = TagsRepo::group_by_asset(rows);
    assert_eq!(groups.len(), 2);
    assert_eq!(groups[0].0, "a2");
    assert_eq!(groups[0].1, vec![tag(1, "keep"), tag(3, "trade")]);
    assert_eq!(groups[1].0, "a1");
    assert_eq!(groups[1].1, vec![tag(2, "sell")]);
    assert!(TagsRepo::group_by_asset(vec![]).is_empty());
}

#[test]
fn grouping_keeps_every_tag_row() {
    let rows: Vec<(String, Tag)> = (0..7)
        .map(|i| (format!("a{}", i % 3), tag(i, "t")))
        .collect();
    let groups = TagsRepo::group_by_asset(rows.clone());
    let total: usize = groups.iter().map(|(_, tags)| tags.len()).sum();
    assert_eq!(total, rows.len());
    assert_eq!(groups.len(), 3);
}

#[test]
fn a_stored_item_key_reads_back_unchanged() {
    let key = ItemKey {
        defindex: 30976,
        quality: Quality::Unusual,
        effect_id: Some(701),
        killstreak_tier: KillstreakTier::Professional,
        australium: false,
        festivized: true,
        craftable: false,
    };
    let c = ItemsRepo::key_columns(&key);
    assert_eq!((c.defindex, c.quality, c.effect_id, c.killstreak_tier), (30976, 5, Some(701), 3));
    let stored = ItemRow {
        id: 9,
        defindex: c.defindex,
        name: "Unusual Hat".to_string(),
        quality: c.quality,
        effect_id: c.effect_id,
        killstreak_tier: c.killstreak_tier,
        australium: c.australium,
        festivized: c.festivized,
        craftable: c.craftable,
        image_url: None,
    };
    assert_eq!(stored.key().unwrap(), key);
    assert_eq!(ItemsRepo::effect_id_key(None), -1);
    assert_eq!(ItemsRepo::effect_id_key(Some(701)), 701);
}

fn placeholder_count(sql: &str) -> usize {
    sql.chars().filter(|c| *c == '?').count()
}

#[test]
fn every_query_binds_as_many_values_as_it_has_placeholders() {
    for n in 1..5usize {
        assert_eq!(placeholder_count(&InventoryRepo::find_by_asset_ids_sql(n).unwrap()), n + 1);
        assert_eq!(placeholder_count(&InventoryRepo::remove_by_asset_ids_sql(n).unwrap()), n);
        assert_eq!(
            placeholder_count(&MarketListingsRepo::list_for_defindexes_sql(n, true).unwrap()),
            n + 2
        );
        assert_eq!(
            placeholder_count(&MarketListingsRepo::list_for_defindexes_sql(n, false).unwrap()),
            n + 1
        );
    }
    let filters = [
        ItemSearchFilters { name: Some("Key"), ..ItemSearchFilters::default() },
        ItemSearchFilters { has_effect: Some(true), craftable: Some(true), ..ItemSearchFilters::default() },
        ItemSearchFilters {
            name: Some("a"),
            quality: Some(5),
            killstreak_tier: Some(1),
            australium: Some(false),
            craftable: Some(true),
            has_effect: Some(false),
        },
    ];
    for f in filters.iter() {
        assert_eq!(placeholder_count(&f.search_sql().unwrap()), f.search_params().len());
    }
}

#[test]
fn a_stored_value_reads_back_until_its_ttl_runs_out() {
    let expires = KvCacheRepo::expiry(1_000, 60);
    let row = Some((b"first".to_vec(), Some(expires)));
    assert_eq!(KvCacheRepo::cached_value(row.clone(), 1_000), Some(b"first".to_vec()));
    assert_eq!(KvCacheRepo::cached_value(row.clone(), 1_060), Some(b"first".to_vec()));
    assert_eq!(KvCacheRepo::cached_value(row, 1_061), None);
}
