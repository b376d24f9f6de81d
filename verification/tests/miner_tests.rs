use strawberryd::config::{with_pool, with_wallet, GlobalConfig, PoolConfig};
use strawberryd::miner::{
    binary_path, install_begin, install_probe_paths, install_step, installed_from, installed_given, is_installed, miner_sources,
    plan_install, uninstall_plan, wrapper_path, wrapper_script, InstallAction, InstallStage, MinerArgs, StepOutcome,
};

#[test]
fn eight_known_miners() {
    let m = miner_sources();
    assert_eq!(m.len(), 8);
    let ids: Vec<&str> = m.iter().map(|s| s.id.as_str()).collect();
    assert_eq!(
        ids,
        vec!["xmrig", "t-rex", "lolminer", "gminer", "srbminer-multi", "cpuminer-multi", "nanominer", "teamredminer"]
    );
    assert!(matches!(m[3].algo_args, MinerArgs::Gminer));
    assert_eq!(m[2].coins, vec!["monero", "zcash", "ergo"]);
}

#[test]
fn paths_of_a_miner() {
    let m = miner_sources();
    assert_eq!(wrapper_path(&m[0]), "/usr/local/bin/xmrig");
    assert_eq!(binary_path(&m[0]), "/opt/strawberry/miners/xmrig/xmrig");
    assert_eq!(binary_path(&m[4]), "/opt/strawberry/miners/srbminer-multi/SRBMiner-Multi");
    assert_eq!(binary_path(&m[3]), "/opt/strawberry/miners/gminer/miner");
    assert_eq!(
        install_probe_paths("teamredminer"),
        Some(("/usr/local/bin/teamredminer".to_string(), "/opt/strawberry/miners/teamredminer/teamredminer".to_string()))
    );
    assert_eq!(install_probe_paths("unknown"), None);
}

#[test]
fn unknown_miner_is_not_installed() {
    assert!(!is_installed("no-such-miner"));
}

#[test]
fn either_file_marks_a_miner_installed() {
    assert!(!installed_given(false, false));
    assert!(installed_given(true, false));
    assert!(installed_given(false, true));
    assert!(installed_given(true, true));
}

#[test]
fn installed_ids_follow_the_flags() {
    let flags = vec![false, true, false, false, false, true, false, false];
    assert_eq!(installed_from(&flags), vec!["t-rex", "cpuminer-multi"]);
}

#[test]
fn xmrig_script_with_defaults() {
    let m = miner_sources();
    let s = wrapper_script(&m[0], &GlobalConfig::default());
    assert_eq!(
        s,
        "#!/bin/bash\n# Strawberry OS \u{2014} XMRig launcher\n# Wallet: YOUR_WALLET_ADDRESS\n# Pool: pool.supportxmr.com:3333\nexec \"/opt/strawberry/miners/xmrig/xmrig\" --url \"pool.supportxmr.com:3333\" --wallet \"YOUR_WALLET_ADDRESS\" --coin monero --donate-level 0 \"$@\"\n"
    );
}

#[test]
fn script_uses_configured_wallet_and_pool() {
    let m = miner_sources();
    let c = with_wallet(&GlobalConfig::default(), "monero", "4WALLET".to_string());
    let c = with_pool(
        &c,
        "monero",
        PoolConfig { address: "p2pool.io".into(), port: 3333, tls: false, coin: "monero".into(), fee_centi: 0 },
    );
    let s = wrapper_script(&m[1], &c);
    assert_eq!(
        s,
        "#!/bin/bash\n# Strawberry OS \u{2014} T-Rex launcher\n# Wallet: 4WALLET\n# Pool: p2pool.io:3333\nCOIN=\"${1:-monero}\"\ncase \"$COIN\" in\n    monero|xmr) ALGO=\"randomx\" ;;\n    ravencoin|rvn) ALGO=\"kawpow\" ;;\n    *) ALGO=\"randomx\" ;;\nesac\nexec \"/opt/strawberry/miners/t-rex/t-rex\" -a \"$ALGO\" -o \"p2pool.io:3333\" -u \"4WALLET.1\" -p x \"$@\"\n"
    );
    let n = wrapper_script(&m[6], &c);
    assert!(n.contains("${ALGO}=\"p2pool.io:3333\"\nwallet=\"4WALLET\"\nINNEREOF\n"));
}

#[test]
fn install_plans() {
    let m = miner_sources();
    let c = GlobalConfig::default();
    let p = plan_install(&m[3], &c);
    assert_eq!(p.install_dir, "/opt/strawberry/miners/gminer");
    assert_eq!(p.archive_path, "/opt/strawberry/miners/gminer/archive.tar.gz");
    assert_eq!(p.download_args, vec!["-sSfL", "-o", "/opt/strawberry/miners/gminer/archive.tar.gz", m[3].url.as_str()]);
    assert_eq!(p.extract_args, vec!["xf", "/opt/strawberry/miners/gminer/archive.tar.gz", "-C", "/opt/strawberry/miners/gminer"]);
    assert_eq!(p.chmod_args, vec!["+x", "/opt/strawberry/miners/gminer/miner"]);
    let q = plan_install(&m[0], &c);
    assert_eq!(q.extract_args[0], "xzf");
    assert_eq!(q.wrapper_path, "/usr/local/bin/xmrig");
}

#[test]
fn install_steps_in_order() {
    let c = GlobalConfig::default();
    let (plan, stage, action) = install_begin("xmrig", &c, false);
    let plan = plan.unwrap();
    assert!(stage == InstallStage::CreatingDir);
    assert!(matches!(action, InstallAction::CreateDir(ref d) if d == "/opt/strawberry/miners/xmrig"));
    let (s, a) = install_step(&plan, stage, StepOutcome::Succeeded);
    assert!(s == InstallStage::Downloading);
    assert!(matches!(a, InstallAction::Run(ref p, _) if p == "curl"));
    let (s, a) = install_step(&plan, s, StepOutcome::Succeeded);
    assert!(matches!(a, InstallAction::Run(ref p, _) if p == "tar"));
    let (s, a) = install_step(&plan, s, StepOutcome::Succeeded);
    assert!(matches!(a, InstallAction::Run(ref p, _) if p == "chmod"));
    let (s, a) = install_step(&plan, s, StepOutcome::Failed("ignored".into()));
    assert!(matches!(a, InstallAction::WriteWrapper(ref p, _) if p == "/usr/local/bin/xmrig"));
    let (s, a) = install_step(&plan, s, StepOutcome::Succeeded);
    assert!(matches!(a, InstallAction::RemoveFile(ref p) if p == "/opt/strawberry/miners/xmrig/archive.tar.gz"));
    let (s, a) = install_step(&plan, s, StepOutcome::Broken("gone".into()));
    assert!(s == InstallStage::Finished);
    match a {
        InstallAction::Finish(Ok(m)) => assert_eq!(m, "XMRig installed! Run 'xmrig' to launch."),
        _ => panic!("expected a finished install"),
    }
}

#[test]
fn install_failures_stop_with_their_messages() {
    let c = GlobalConfig::default();
    let (plan, _, _) = install_begin("lolminer", &c, false);
    let plan = plan.unwrap();
    let (s, a) = install_step(&plan, InstallStage::Downloading, StepOutcome::Failed("404".into()));
    assert!(s == InstallStage::Finished);
    assert!(matches!(a, InstallAction::Finish(Err(ref e)) if e == "Download failed: 404"));
    let (_, a) = install_step(&plan, InstallStage::Downloading, StepOutcome::Broken("no curl".into()));
    assert!(matches!(a, InstallAction::Finish(Err(ref e)) if e == "curl failed: no curl"));
    let (_, a) = install_step(&plan, InstallStage::Extracting, StepOutcome::Failed("bad".into()));
    assert!(matches!(a, InstallAction::Finish(Err(ref e)) if e == "Extraction failed: bad"));
    let (_, a) = install_step(&plan, InstallStage::Extracting, StepOutcome::Broken("no tar".into()));
    assert!(matches!(a, InstallAction::Finish(Err(ref e)) if e == "Extraction error: no tar"));
    let (_, a) = install_step(&plan, InstallStage::CreatingDir, StepOutcome::Broken("denied".into()));
    assert!(matches!(a, InstallAction::Finish(Err(ref e)) if e == "denied"));
}

#[test]
fn install_of_unknown_or_installed_miner() {
    let c = GlobalConfig::default();
    let (p, _, a) = install_begin("nope", &c, false);
    assert!(p.is_none());
    assert!(matches!(a, InstallAction::Finish(Err(ref e)) if e == "Unknown miner: nope"));
    let (p, _, a) = install_begin("xmrig", &c, true);
    assert!(p.is_none());
    assert!(matches!(a, InstallAction::Finish(Ok(ref m)) if m == "XMRig is already installed. Run 'xmrig' in terminal to launch."));
}

#[test]
fn uninstall_plans() {
    assert_eq!(
        uninstall_plan("nanominer").unwrap(),
        (
            "/usr/local/bin/nanominer".to_string(),
            "/opt/strawberry/miners/nanominer".to_string(),
            "NanoMiner uninstalled.".to_string()
        )
    );
    assert_eq!(uninstall_plan("x").unwrap_err(), "Unknown miner: x");
}
