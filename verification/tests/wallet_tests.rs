use strawberryd::strmap::StrMap;
use strawberryd::wallet::{
    check_tool, find_coin, generate_args, generation_outcome, parse_address, parse_seed, supported_coins, tool_path,
    WalletError, WalletManager,
};

fn monero_address() -> String {
    let mut a = String::from("4");
    for i in 0..94 {
        a.push(char::from(b'A' + (i % 26) as u8));
    }
    a
}

fn seed_words() -> Vec<String> {
    (0..25u8).map(|i| format!("w{}", char::from(b'a' + i))).collect()
}

#[test]
fn monero_is_the_only_coin() {
    let coins = supported_coins();
    assert_eq!(coins.len(), 1);
    assert_eq!(coins[0].id, "monero");
    assert_eq!(coins[0].name, "Monero (XMR)");
    assert_eq!(coins[0].binary, "monero-wallet-cli");
    assert_eq!(coins[0].network_flag, "");
    assert!(find_coin("monero").is_some());
    assert!(find_coin("bitcoin").is_none());
}

#[test]
fn set_address_accepts_a_valid_monero_address() {
    let wm = WalletManager::new("/var/lib/strawberry".to_string());
    assert!(wm.set_address("monero", &monero_address()).is_ok());
}

#[test]
fn set_address_rejects_short_or_wrong_prefix() {
    let wm = WalletManager::new("/var/lib/strawberry".to_string());
    let e = wm.set_address("monero", "8abc").unwrap_err();
    assert_eq!(
        e.message(),
        "Invalid Monero address. Expected 95 chars starting with '4', got 4 chars starting with '8'"
    );
    let e = wm.set_address("monero", "").unwrap_err();
    assert_eq!(e.message(), "Invalid Monero address. Expected 95 chars starting with '4', got 0 chars starting with ''");
    let mut long = monero_address();
    long.push('Z');
    assert!(matches!(wm.set_address("monero", &long), Err(WalletError::InvalidMoneroAddress { len: 96, .. })));
}

#[test]
fn set_address_rejects_unsupported_coin() {
    let wm = WalletManager::new("/var/lib/strawberry".to_string());
    let e = wm.set_address("dogecoin", "D123").unwrap_err();
    assert_eq!(e.message(), "Unsupported coin: dogecoin");
}

#[test]
fn wallet_paths() {
    let wm = WalletManager::new("/var/lib/strawberry".to_string());
    assert_eq!(wm.wallet_dir("monero"), "/var/lib/strawberry/wallets/monero");
    assert_eq!(wm.wallet_file("monero", 1700000000), "/var/lib/strawberry/wallets/monero/monero_1700000000");
    assert_eq!(tool_path("monero").unwrap(), "/usr/bin/monero-wallet-cli");
    assert_eq!(tool_path("ergo").unwrap_err().message(), "Unsupported coin: ergo");
    assert!(check_tool("monero", "/usr/bin/monero-wallet-cli", true).is_ok());
    assert_eq!(
        check_tool("monero", "/usr/bin/monero-wallet-cli", false).unwrap_err().message(),
        "monero-wallet-cli not found at /usr/bin/monero-wallet-cli. Install it with: pacman -S monero"
    );
}

#[test]
fn generate_arguments() {
    let args = generate_args("/w/monero_1");
    assert_eq!(
        args,
        vec![
            "--generate-new-wallet=/w/monero_1",
            "--password",
            "",
            "--mnemonic-language",
            "English",
            "--offline",
            "--command",
            "quit"
        ]
    );
}

#[test]
fn list_and_exists() {
    let wm = WalletManager::new("/d".to_string());
    let mut w: StrMap<String> = StrMap::new();
    w.insert("monero".to_string(), "4xyz".to_string());
    assert_eq!(wm.list(&w), vec![("monero".to_string(), "4xyz".to_string())]);
    assert!(wm.wallet_exists("monero", &w));
    assert!(!wm.wallet_exists("ergo", &w));
}

#[test]
fn parse_address_finds_bare_and_labelled_addresses() {
    let a = monero_address();
    assert_eq!(parse_address(&format!("Opening wallet\n   {}  \nDone", a)), Some(a.clone()));
    assert_eq!(parse_address(&format!("Generated new wallet: {}\n", a)), Some(a.clone()));
    assert_eq!(parse_address("Generated new wallet: 4short\nnothing"), None);
    assert_eq!(parse_address(""), None);
}

#[test]
fn parse_seed_reads_the_marked_block() {
    let words = seed_words();
    let out = format!(
        "Generated new wallet: x\nNOTE: the following 25 words can be used to recover access to your wallet.\n{}\n{}\n\n{}\n*******\nlater words here",
        words[..10].join(" "),
        words[10..20].join(" "),
        words[20..].join(" ")
    );
    assert_eq!(parse_seed(&out), Some(words.join(" ")));
}

#[test]
fn parse_seed_skips_short_and_non_alphabetic_words() {
    let out = "the following 25 words\nalpha b 12ab beta\n* end";
    assert_eq!(parse_seed(out), Some("alpha beta".to_string()));
}

#[test]
fn parse_seed_falls_back_to_a_line_of_25_words() {
    let words = seed_words();
    let out = format!("header\n  {}  \nfooter", words.join(" "));
    assert_eq!(parse_seed(&out), Some(words.join(" ")));
    assert_eq!(parse_seed("no seed here"), None);
}

#[test]
fn generation_outcomes() {
    let a = monero_address();
    let ok = generation_outcome(true, &format!("Generated new wallet: {}\n", a), "");
    assert_eq!(ok.unwrap(), (a.clone(), "Seed not captured \u{2014} check wallet file".to_string()));
    let failed = generation_outcome(false, "out", "err").unwrap_err();
    assert_eq!(failed.message(), "Failed to generate wallet:\nstdout: out\nstderr: err");
    let missing = generation_outcome(true, "nothing", "").unwrap_err();
    assert_eq!(missing.message(), "Could not parse address from output:\nnothing");
}
