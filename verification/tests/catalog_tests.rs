use strawberryd::catalog::{
    catalog_from_json, catalog_to_cache, choose_catalog, empty_catalog, read_catalog, Catalog, CatalogItem, FetchOutcome, Json,
};

fn named(name: &str) -> Catalog {
    Catalog {
        miners: Some(vec![CatalogItem {
            id: Some(name.into()),
            name: Some(name.into()),
            version: None,
            coin: None,
            hardware: None,
            coins: None,
        }]),
        wallets: None,
        pools: None,
    }
}

#[test]
fn catalog_fallback_order() {
    let c = choose_catalog(Some(named("cache")), Some(named("bundled")));
    assert_eq!(c.miners.unwrap()[0].name.as_deref(), Some("cache"));
    let c = choose_catalog(None, Some(named("bundled")));
    assert_eq!(c.miners.unwrap()[0].name.as_deref(), Some("bundled"));
    let c = choose_catalog(None, None);
    assert!(c.miners.unwrap().is_empty());
    assert!(c.wallets.unwrap().is_empty());
    assert!(c.pools.unwrap().is_empty());
    assert!(empty_catalog().miners.unwrap().is_empty());
}

#[test]
fn only_valid_json_replaces_the_cache() {
    assert_eq!(catalog_to_cache(FetchOutcome::Body("{\"miners\": []}".into())), Some("{\"miners\": []}".to_string()));
    assert_eq!(catalog_to_cache(FetchOutcome::Body("<html>".into())), None);
    assert_eq!(catalog_to_cache(FetchOutcome::Body("".into())), None);
    assert_eq!(catalog_to_cache(FetchOutcome::BadStatus(500)), None);
    assert_eq!(catalog_to_cache(FetchOutcome::RequestFailed("dns".into())), None);
    assert_eq!(catalog_to_cache(FetchOutcome::ReadFailed("eof".into())), None);
}

#[test]
fn reading_a_catalog_picks_the_expected_fields() {
    let text = r#"{
        "miners": [
            {"id": "xmrig", "name": "XMRig", "version": "6.21.0", "hardware": ["cpu", 7, "gpu"]},
            {"id": 3, "name": ["not", "text"]},
            "not an object"
        ],
        "wallets": [{"name": "Feather", "coin": "monero", "extra": {"deep": [1, 2]}}],
        "pools": {"not": "an array"}
    }"#;
    let c = read_catalog(text).unwrap();
    let miners = c.miners.unwrap();
    assert_eq!(miners.len(), 3);
    assert_eq!(miners[0].id.as_deref(), Some("xmrig"));
    assert_eq!(miners[0].name.as_deref(), Some("XMRig"));
    assert_eq!(miners[0].version.as_deref(), Some("6.21.0"));
    assert_eq!(miners[0].coin, None);
    assert_eq!(miners[0].hardware, Some(vec![Some("cpu".to_string()), None, Some("gpu".to_string())]));
    assert_eq!(miners[0].coins, None);
    assert_eq!(miners[1].id, None);
    assert_eq!(miners[1].name, None);
    assert_eq!(miners[2].id, None);
    assert_eq!(miners[2].hardware, None);
    let wallets = c.wallets.unwrap();
    assert_eq!(wallets.len(), 1);
    assert_eq!(wallets[0].name.as_deref(), Some("Feather"));
    assert_eq!(wallets[0].coin.as_deref(), Some("monero"));
    assert!(c.pools.is_none());
}

#[test]
fn reading_a_catalog_fails_only_on_invalid_json() {
    assert!(read_catalog("{\"miners\": [").is_none());
    assert!(read_catalog("").is_none());
    let c = read_catalog("[1, 2, 3]").unwrap();
    assert!(c.miners.is_none() && c.wallets.is_none() && c.pools.is_none());
    let c = read_catalog("{}").unwrap();
    assert!(c.miners.is_none());
}

#[test]
fn catalog_from_a_built_json_value() {
    let v = Json::Object(vec![(
        "pools".to_string(),
        Json::Array(vec![Json::Object(vec![
            ("name".to_string(), Json::Str("SupportXMR".to_string())),
            ("coins".to_string(), Json::Array(vec![Json::Str("monero".to_string()), Json::Null, Json::Bool(true)])),
            ("fee".to_string(), Json::Number("0.6".to_string())),
        ])]),
    )]);
    let c = catalog_from_json(&v);
    assert!(c.miners.is_none() && c.wallets.is_none());
    let pools = c.pools.unwrap();
    assert_eq!(pools[0].name.as_deref(), Some("SupportXMR"));
    assert_eq!(pools[0].coins, Some(vec![Some("monero".to_string()), None, None]));
}
