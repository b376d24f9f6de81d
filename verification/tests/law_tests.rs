use strawberryd::commands::parse_command;
use strawberryd::config::{with_wallet, GlobalConfig};
use strawberryd::miner::{install_probe_paths, installed_from, miner_sources};
use strawberryd::pool::{built_in_pools, find_pool, pools_for_coin};
use strawberryd::text::{chars_of, decimal_text, parse_u16, trim_str};
use strawberryd::strmap::StrMap;
use strawberryd::wallet::{parse_address, WalletManager};

#[test]
fn a_parsed_address_is_accepted_by_set_address() {
    let addr = format!("4{}", "B".repeat(94));
    let found = parse_address(&format!("noise\nGenerated new wallet: {}\n", addr)).unwrap();
    let wm = WalletManager::new("/d".into());
    assert!(wm.set_address("monero", &found).is_ok());
}

#[test]
fn padding_does_not_change_a_request() {
    for line in ["  pool list monero ", "\tstatus\r", "wallet new monero  "] {
        let a = format!("{:?}", std::mem::discriminant(&parse_command(line)));
        let b = format!("{:?}", std::mem::discriminant(&parse_command(&trim_str(line))));
        assert_eq!(a, b);
    }
}

#[test]
fn ports_round_trip_through_decimal() {
    for n in [0u16, 1, 80, 3333, 10128, 65535] {
        assert_eq!(parse_u16(&chars_of(&decimal_text(n as u64))), Some(n));
    }
}

#[test]
fn every_built_in_pool_is_in_the_directory() {
    for p in built_in_pools() {
        let e = find_pool(&p.name).unwrap();
        assert_eq!(e.address, p.address);
        assert_eq!(e.port, p.port);
    }
}

#[test]
fn pools_for_coin_keeps_exactly_the_supporting_pools() {
    let pools = built_in_pools();
    for coin in ["monero", "Zcash", "ERGO", "ravencoin", "none"] {
        let got = pools_for_coin(&pools, coin);
        let expected: Vec<&str> = pools
            .iter()
            .filter(|p| p.coins.iter().any(|c| c.eq_ignore_ascii_case(coin)))
            .map(|p| p.name.as_str())
            .collect();
        assert_eq!(got.iter().map(|p| p.name.as_str()).collect::<Vec<_>>(), expected);
    }
}

#[test]
fn every_known_miner_is_found_by_its_id() {
    for m in miner_sources() {
        assert!(install_probe_paths(&m.id).is_some());
    }
    let all = installed_from(&vec![true; 8]);
    let ids: Vec<String> = miner_sources().into_iter().map(|m| m.id).collect();
    assert_eq!(all, ids);
}

#[test]
fn a_saved_wallet_is_found_and_others_kept() {
    let c = with_wallet(&GlobalConfig::default(), "ergo", "9e".to_string());
    let c = with_wallet(&c, "monero", "4m".to_string());
    assert_eq!(c.wallets.get("monero").unwrap(), "4m");
    assert_eq!(c.wallets.get("ergo").unwrap(), "9e");
}

#[test]
fn installed_ids_are_listed_once_in_table_order() {
    let all = installed_from(&vec![true; 8]);
    assert_eq!(all.len(), 8);
    for (i, id) in all.iter().enumerate() {
        assert_eq!(id, &miner_sources()[i].id);
        assert_eq!(all.iter().filter(|x| *x == id).count(), 1);
    }
    let some = installed_from(&vec![true, false, false, true, false, false, true, false]);
    assert_eq!(some, vec!["xmrig", "gminer", "nanominer"]);
    assert!(!some.contains(&"t-rex".to_string()));
}

#[test]
fn listed_wallets_name_each_coin_once() {
    let mut w: StrMap<String> = StrMap::new();
    w.insert("monero".to_string(), "4abc".to_string());
    w.insert("ravencoin".to_string(), "Rxyz".to_string());
    w.insert("monero".to_string(), "4def".to_string());
    let wm = WalletManager::new("/tmp/strawberry-data".to_string());
    assert_eq!(
        wm.list(&w),
        vec![("monero".to_string(), "4def".to_string()), ("ravencoin".to_string(), "Rxyz".to_string())]
    );
}
