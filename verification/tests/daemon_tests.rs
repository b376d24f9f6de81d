use strawberryd::catalog::{Catalog, CatalogItem};
use strawberryd::commands::{parse_command, shorten_address, Command, Section};
use strawberryd::config::{with_wallet, GlobalConfig};
use strawberryd::daemon::{begin, resume, Pending, Reply, Request, Step};

fn respond(step: Step) -> String {
    match step {
        Step::Respond(s) => s,
        Step::Await(_, _) => panic!("expected an answer"),
    }
}

fn item(id: Option<&str>, name: Option<&str>) -> CatalogItem {
    CatalogItem {
        id: id.map(String::from),
        name: name.map(String::from),
        version: None,
        coin: None,
        hardware: None,
        coins: None,
    }
}

#[test]
fn parses_requests() {
    assert!(matches!(parse_command("  ping \n"), Command::Ping));
    assert!(matches!(parse_command("wallet set monero 4abc"), Command::WalletSet(ref c, ref a) if c == "monero" && a == "4abc"));
    assert!(matches!(parse_command("pool set monero host 3334"), Command::PoolSetAddress(ref c, ref h, ref p) if c == "monero" && h == "host" && p == "3334"));
    assert!(matches!(parse_command("pool set monero P2Pool"), Command::PoolSetNamed(_, ref n) if n == "P2Pool"));
    assert!(matches!(parse_command("pool  list"), Command::Unknown));
    assert!(matches!(parse_command("store list pools"), Command::StoreListPools));
    assert!(matches!(parse_command("wallet new"), Command::Unknown));
}

#[test]
fn simple_answers() {
    let c = GlobalConfig::default();
    assert_eq!(respond(begin("ping", &c)), "pong");
    assert_eq!(respond(begin("version", &c)), "strawberryd 0.1.0");
    assert_eq!(respond(begin("status", &c)), "status: running\ntelemetry: false\nlog_level: info");
    assert_eq!(respond(begin(" bogus cmd ", &c)), "Unknown command:  bogus cmd \nType 'help' for available commands.");
    assert!(respond(begin("help", &c)).starts_with("Available commands:\n  ping\n"));
}

#[test]
fn pool_listings() {
    let c = GlobalConfig::default();
    let all = respond(begin("pool list", &c));
    assert!(all.starts_with("Pool Directory:\n  P2Pool (p2pool.io:3333) [no-TLS] fee=0%\n    Coins: monero\n    Decentralized pool, no registration needed\n"));
    assert!(all.contains("  MoneroOcean (gulf.moneroocean.stream:10128) [no-TLS] fee=0.2%\n"));
    assert!(all.contains("  XMRPool (xmrpool.eu:9999) [TLS] fee=0%\n"));
    assert_eq!(
        respond(begin("pool list ergo", &c)),
        "Pools for ergo:\n  Nanopool ERG (ergo.nanopool.org:11111) fee=1%\n"
    );
    assert_eq!(respond(begin("pool list doge", &c)), "No pools found for doge");
    assert_eq!(respond(begin("pool ping Nope", &c)), "Unknown pool: Nope");
}

#[test]
fn pool_ping_asks_for_a_probe() {
    let c = GlobalConfig::default();
    match begin("pool ping P2Pool", &c) {
        Step::Await(p, Request::MeasureLatency(a, port)) => {
            assert_eq!(a, "p2pool.io");
            assert_eq!(port, 3333);
            assert_eq!(respond(resume(p, &c, Reply::Latency(true, Some(12)))), "P2Pool (p2pool.io:3333) \u{2014} 12ms");
        },
        _ => panic!("expected a probe"),
    }
    match begin("pool ping XMRPool", &c) {
        Step::Await(p, _) => assert_eq!(respond(resume(p, &c, Reply::Latency(false, None))), "XMRPool (xmrpool.eu:9999) \u{2014} unreachable"),
        _ => panic!("expected a probe"),
    }
}

#[test]
fn pool_set_saves_and_reports() {
    let c = GlobalConfig::default();
    match begin("pool set monero SupportXMR", &c) {
        Step::Await(p, Request::SaveConfig(cfg)) => {
            let pc = cfg.pools.get("monero").unwrap();
            assert_eq!(pc.address, "pool.supportxmr.com");
            assert_eq!(pc.fee_centi, 60);
            assert_eq!(respond(resume(p, &c, Reply::Saved(None))), "monero pool set to SupportXMR (pool.supportxmr.com:3333)");
        },
        _ => panic!("expected a save"),
    }
    match begin("pool set zcash example.org notaport", &c) {
        Step::Await(p, Request::SaveConfig(cfg)) => {
            assert_eq!(cfg.pools.get("zcash").unwrap().port, 3333);
            assert_eq!(respond(resume(p, &c, Reply::Saved(Some("disk full".into())))), "Pool set but failed to save config: disk full");
        },
        _ => panic!("expected a save"),
    }
    match begin("pool set zcash example.org 4444", &c) {
        Step::Await(p, Request::SaveConfig(cfg)) => {
            assert_eq!(cfg.pools.get("zcash").unwrap().port, 4444);
            assert_eq!(respond(resume(p, &c, Reply::Saved(None))), "zcash pool set to example.org:4444");
        },
        _ => panic!("expected a save"),
    }
}

#[test]
fn wallet_set_validates_then_saves() {
    let c = GlobalConfig::default();
    assert_eq!(
        respond(begin("wallet set monero 4short", &c)),
        "Failed to set address: Invalid Monero address. Expected 95 chars starting with '4', got 6 chars starting with '4'"
    );
    assert_eq!(respond(begin("wallet set doge D1", &c)), "Failed to set address: Unsupported coin: doge");
    let addr = format!("4{}", "A".repeat(94));
    match begin(&format!("wallet set monero {}", addr), &c) {
        Step::Await(p, Request::SaveConfig(cfg)) => {
            assert_eq!(cfg.wallets.get("monero").unwrap(), &addr);
            assert_eq!(respond(resume(p, &c, Reply::Saved(None))), format!("monero address set to: {}", addr));
        },
        _ => panic!("expected a save"),
    }
}

#[test]
fn wallet_list_shortens_addresses() {
    let c = GlobalConfig::default();
    match begin("wallet list", &c) {
        Step::Await(p, Request::ReloadConfig) => {
            assert_eq!(
                respond(resume(p, &c, Reply::Config(None))),
                "wallets: (none configured)\nTip: use 'wallet set <coin> <address>' or the Store to add one."
            );
        },
        _ => panic!("expected a reload"),
    }
    let fresh = with_wallet(&c, "monero", "4AbCdEfGhIjK".to_string());
    let fresh = with_wallet(&fresh, "ergo", "short".to_string());
    match begin("wallet list", &c) {
        Step::Await(p, _) => assert_eq!(
            respond(resume(p, &c, Reply::Config(Some(fresh)))),
            "wallets:\n  monero: 4AbC...hIjK\n  ergo: short\n"
        ),
        _ => panic!("expected a reload"),
    }
    assert_eq!(shorten_address("12345678"), "1234...5678");
    assert_eq!(shorten_address("1234567"), "1234567");
}

#[test]
fn wallet_new_saves_the_address() {
    let c = GlobalConfig::default();
    match begin("wallet new monero", &c) {
        Step::Await(p, Request::GenerateWallet(coin)) => {
            assert_eq!(coin, "monero");
            match resume(p, &c, Reply::Generated(Ok(("4addr".into(), "seed words".into())))) {
                Step::Await(p2, Request::SaveConfig(cfg)) => {
                    assert_eq!(cfg.wallets.get("monero").unwrap(), "4addr");
                    assert_eq!(
                        respond(resume(p2, &c, Reply::Saved(Some("ignored".into())))),
                        "New monero wallet generated!\nAddress: 4addr\nSeed: seed words\n\nIMPORTANT: Write down the seed and store it safely. It cannot be recovered."
                    );
                },
                _ => panic!("expected a save"),
            }
        },
        _ => panic!("expected a generation"),
    }
    match begin("wallet new monero", &c) {
        Step::Await(p, _) => assert_eq!(
            respond(resume(p, &c, Reply::Generated(Err("no tool".into())))),
            "Failed to generate wallet: no tool"
        ),
        _ => panic!("expected a generation"),
    }
}

#[test]
fn miner_list_uses_catalog_names() {
    let c = GlobalConfig::default();
    let p = match begin("miner list", &c) {
        Step::Await(p, Request::InstalledMiners) => p,
        _ => panic!("expected a check"),
    };
    assert_eq!(
        respond(resume(p, &c, Reply::Miners(vec![]))),
        "miners: (none installed)\nTip: use 'strawberry-cli store install <miner>' or the Store app."
    );
    let p = match begin("miner list", &c) {
        Step::Await(p, _) => p,
        _ => panic!("expected a check"),
    };
    let p = match resume(p, &c, Reply::Miners(vec!["xmrig".into(), "gminer".into()])) {
        Step::Await(p, Request::LoadCatalog) => p,
        _ => panic!("expected the catalog"),
    };
    let cat = Catalog { miners: Some(vec![item(Some("xmrig"), Some("XMRig CPU")), item(Some("gminer"), None)]), wallets: None, pools: None };
    assert_eq!(
        respond(resume(p, &c, Reply::Catalog(cat))),
        "Installed miners:\n  XMRig CPU \u{2014} run 'xmrig' to launch\n  gminer \u{2014} run 'gminer' to launch\n"
    );
}

#[test]
fn store_listings() {
    let c = GlobalConfig::default();
    let cat = Catalog {
        miners: Some(vec![CatalogItem {
            id: Some("xmrig".into()),
            name: Some("XMRig".into()),
            version: Some("6.21.0".into()),
            coin: None,
            hardware: Some(vec![Some("cpu".into()), None, Some("gpu".into())]),
            coins: None,
        }]),
        wallets: Some(vec![CatalogItem { id: None, name: Some("Feather".into()), version: None, coin: Some("monero".into()), hardware: None, coins: None }, item(None, None)]),
        pools: None,
    };
    let p = match begin("store list miners", &c) {
        Step::Await(p, Request::LoadCatalog) => p,
        _ => panic!(),
    };
    assert!(matches!(p, Pending::Listing(Section::Miners)));
    let dup = |c: &Catalog| Catalog {
        miners: c.miners.as_ref().map(|v| v.iter().map(|i| CatalogItem { id: i.id.clone(), name: i.name.clone(), version: i.version.clone(), coin: i.coin.clone(), hardware: i.hardware.clone(), coins: i.coins.clone() }).collect()),
        wallets: c.wallets.as_ref().map(|v| v.iter().map(|i| CatalogItem { id: i.id.clone(), name: i.name.clone(), version: i.version.clone(), coin: i.coin.clone(), hardware: i.hardware.clone(), coins: i.coins.clone() }).collect()),
        pools: None,
    };
    assert_eq!(respond(resume(p, &c, Reply::Catalog(dup(&cat)))), "Available miners:\n  XMRig v6.21.0 [CPU, GPU]\n");
    assert_eq!(
        respond(resume(Pending::Listing(Section::Wallets), &c, Reply::Catalog(dup(&cat)))),
        "Available wallets:\n  Feather (monero)\n  ? (?)\n"
    );
    assert_eq!(respond(resume(Pending::Listing(Section::Pools), &c, Reply::Catalog(cat))), "No pools in catalog");
}

#[test]
fn store_install_and_update() {
    let c = GlobalConfig::default();
    let p = match begin("store install miner xmrig", &c) {
        Step::Await(p, Request::CheckInstalled(id)) => {
            assert_eq!(id, "xmrig");
            p
        },
        _ => panic!(),
    };
    assert_eq!(respond(resume(p, &c, Reply::Installed(true))), "XMRig is already installed. Run 'xmrig' to launch.");
    let p = match begin("store install miner xmrig", &c) {
        Step::Await(p, _) => p,
        _ => panic!(),
    };
    let p = match resume(p, &c, Reply::Installed(false)) {
        Step::Await(p, Request::InstallMiner(id)) => {
            assert_eq!(id, "xmrig");
            p
        },
        _ => panic!(),
    };
    assert_eq!(respond(resume(p, &c, Reply::Finished(Err("Download failed: x".into())))), "Install failed: Download failed: x");
    assert_eq!(
        respond(resume(Pending::Uninstalling, &c, Reply::Finished(Err("Unknown miner: q".into())))),
        "Uninstall failed: Unknown miner: q"
    );
    assert_eq!(
        respond(resume(Pending::Refreshing, &c, Reply::CachedAt("/var/lib/strawberry/store-catalog.json".into()))),
        "Catalog cached to /var/lib/strawberry/store-catalog.json"
    );
}
