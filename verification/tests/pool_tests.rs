use strawberryd::pool::{built_in_pools, find_pool, format_fee, latency_result, pool_directory, pools_for_coin};

#[test]
fn directory_has_seven_curated_pools() {
    let pools = built_in_pools();
    assert_eq!(pools.len(), 7);
    assert_eq!(pools[0].name, "P2Pool");
    assert_eq!(pools[0].address, "p2pool.io");
    assert_eq!(pools[0].port, 3333);
    assert_eq!(pools[1].fee_centi, 20);
    assert!(pools[3].tls);
    assert_eq!(pools[6].coins, vec!["ergo".to_string()]);
    assert_eq!(pools[6].notes, "Autolykos2 algorithm");
}

#[test]
fn pools_for_coin_ignores_ascii_case() {
    let pools = built_in_pools();
    let monero: Vec<&str> = pools_for_coin(&pools, "MONERO").iter().map(|p| p.name.as_str()).collect();
    assert_eq!(monero, vec!["P2Pool", "MoneroOcean", "SupportXMR", "XMRPool"]);
    assert_eq!(pools_for_coin(&pools, "ravencoin").len(), 1);
    assert!(pools_for_coin(&pools, "bitcoin").is_empty());
}

#[test]
fn directory_lookup_by_name() {
    let d = pool_directory();
    assert_eq!(d.len(), 7);
    assert_eq!(d.get("SupportXMR").unwrap().address, "pool.supportxmr.com");
    assert!(d.get("supportxmr").is_none());
    assert_eq!(find_pool("Flypool RVN").unwrap().port, 4444);
    assert!(find_pool("Nope").is_none());
}

#[test]
fn fees_print_like_floats() {
    assert_eq!(format_fee(0), "0");
    assert_eq!(format_fee(20), "0.2");
    assert_eq!(format_fee(60), "0.6");
    assert_eq!(format_fee(100), "1");
    assert_eq!(format_fee(125), "1.25");
    for c in [0u32, 20, 60, 100, 125, 250, 5] {
        assert_eq!(format_fee(c), format!("{}", c as f64 / 100.0));
    }
}

#[test]
fn latency_results() {
    let r = latency_result("p2pool.io", 3333, Some(42));
    assert!(r.reachable);
    assert_eq!(r.latency_ms, Some(42));
    assert_eq!(r.pool, "");
    let u = latency_result("x", 1, None);
    assert!(!u.reachable);
    assert_eq!(u.address, "x");
}
