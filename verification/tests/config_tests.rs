use strawberryd::config::{
    default_catalog_cache, default_catalog_interval, default_catalog_url, loaded_config, resolve_config_path,
    with_pool, with_wallet, GeneralConfig, GlobalConfig, MiningConfig, PoolConfig, StorageConfig,
};

#[test]
fn defaults_match_the_documented_values() {
    let g = GeneralConfig::default();
    assert!(!g.telemetry);
    assert_eq!(g.log_level, "info");
    assert_eq!(g.catalog_url, "https://sabeeirsharrma.github.io/strawberryOS/store/store-catalog.json");
    assert_eq!(g.catalog_cache, "/var/lib/strawberry/store-catalog.json");
    assert_eq!(g.catalog_refresh_secs, 3600);
    let m = MiningConfig::default();
    assert_eq!(m.default_algo, "");
    assert_eq!(m.power_limit, 0);
    assert_eq!(m.fan_curve, "auto");
    let s = StorageConfig::default();
    assert_eq!(s.data_dir, "/var/lib/strawberry");
    assert_eq!(s.log_dir, "/var/log/strawberry");
    assert_eq!(s.config_dir, "/etc/strawberry");
    assert_eq!(default_catalog_url(), g.catalog_url);
    assert_eq!(default_catalog_cache(), g.catalog_cache);
    assert_eq!(default_catalog_interval(), 3600);
    let c = GlobalConfig::default();
    assert!(c.wallets.is_empty() && c.pools.is_empty());
}

#[test]
fn config_path_override() {
    assert_eq!(resolve_config_path(None), "/etc/strawberry/global.toml");
    assert_eq!(resolve_config_path(Some("/tmp/dev.toml".to_string())), "/tmp/dev.toml");
}

#[test]
fn loading_forces_telemetry_off() {
    let mut f = GlobalConfig::default();
    f.general.telemetry = true;
    f.general.log_level = "debug".to_string();
    let c = loaded_config(Some(f));
    assert!(!c.general.telemetry);
    assert_eq!(c.general.log_level, "debug");
    let d = loaded_config(None);
    assert!(!d.general.telemetry);
    assert_eq!(d.general.log_level, "info");
}

#[test]
fn wallet_and_pool_updates_replace_per_coin() {
    let c = GlobalConfig::default();
    let c1 = with_wallet(&c, "monero", "4abc".to_string());
    let c2 = with_wallet(&c1, "monero", "4def".to_string());
    assert_eq!(c2.wallets.len(), 1);
    assert_eq!(c2.wallets.get("monero").unwrap(), "4def");
    let p = PoolConfig { address: "p2pool.io".into(), port: 3333, tls: false, coin: "monero".into(), fee_centi: 0 };
    let c3 = with_pool(&c2, "monero", p);
    assert_eq!(c3.pools.get("monero").unwrap().address, "p2pool.io");
    assert_eq!(c3.wallets.get("monero").unwrap(), "4def");
}
