//! The daemon's request handling as a state machine: the decisions are made
//! here, and the outside work (disk, processes, network) is asked for.

use vstd::prelude::*;
use crate::catalog::Catalog;
use crate::commands::{latency_response, latency_text, miner_list_response, miner_list_text, no_miners_text, store_list_response, store_list_text, wallet_generated_response, wallet_generated_text, wallet_list_response, wallet_list_text, wallets_sliceable, prefixed, coin_pools_response, coin_pools_text, command_of, endpoint, help_response, help_text, parse_command, pool_list_response, pool_list_text, prefixed_text, request_words, status_response, status_text, unknown_response, unknown_text, version_response, version_text, Command, CommandView, Section};
use crate::config::{with_pool, with_wallet, GlobalConfig, PoolConfig};
use crate::miner::{find_source, known_miner, miner_sources, source_views, MinerSourceView};
use crate::pool::{built_in_pools, directory_entry, entry_views, find_pool, pool_table, pools_for_coin, pools_supporting, PoolEntryView};
use crate::strmap::{distinct_keys, has_key, insert_entry, lemma_lookup_insert, lookup};
use crate::text::{parse_u16, parse_u16_spec};
use crate::wallet::{address_accepted, address_error_unprintable, address_rejection, string_views, WalletManager};

verus! {

/// Outside work the handling of a request needs.
pub enum Request {
    /// The configuration's debug dump.
    DumpConfig,
    /// The ids of the installed miners.
    InstalledMiners,
    /// The store catalog.
    LoadCatalog,
    /// The configuration as it is on disk now.
    ReloadConfig,
    /// A new wallet for the coin.
    GenerateWallet(String),
    /// Store this configuration.
    SaveConfig(GlobalConfig),
    /// Probe `address:port`.
    MeasureLatency(String, u16),
    /// Whether the miner is installed.
    CheckInstalled(String),
    /// Install the miner.
    InstallMiner(String),
    /// Uninstall the miner.
    UninstallMiner(String),
    /// Fetch the remote catalog into the cache.
    RefreshCatalog,
}

/// The result of a piece of outside work.
pub enum Reply {
    Text(String),
    Miners(Vec<String>),
    Catalog(Catalog),
    /// The configuration read, or `None` where it could not be read.
    Config(Option<GlobalConfig>),
    /// The new wallet's address and seed, or the error's text.
    Generated(Result<(String, String), String>),
    /// `None` once saved, else the error's text.
    Saved(Option<String>),
    /// Whether the pool answered, and the connect time.
    Latency(bool, Option<u64>),
    Installed(bool),
    /// The outcome of an install or uninstall: its message or error.
    Finished(Result<String, String>),
    /// Where the catalog is cached.
    CachedAt(String),
}

/// What a request waits for.
pub enum Pending {
    ConfigDump,
    InstalledList,
    MinerNames(Vec<String>),
    WalletListing,
    WalletGeneration(String),
    WalletGenerated(String, String, String),
    AddressSaved(String, String),
    LatencyProbe(String, String, u16),
    PoolSaved(String),
    InstallCheck(String),
    Installing,
    Uninstalling,
    Listing(Section),
    Refreshing,
}

/// Where the handling of a request stands.
pub enum Step {
    /// Done: send this answer.
    Respond(String),
    /// Carry out the request, then resume with its reply.
    Await(Pending, Request),
}

/// Whether `step` answers with `text`.
pub open spec fn responds(step: Step, text: Seq<char>) -> bool {
    step matches Step::Respond(t) && t@ == text
}

/// Whether `cfg` is `config` with `address` stored as the wallet of `coin`.
pub open spec fn saves_wallet(cfg: GlobalConfig, config: GlobalConfig, coin: Seq<char>, address: Seq<char>) -> bool {
    &&& cfg.general == config.general
    &&& cfg.mining == config.mining
    &&& cfg.storage == config.storage
    &&& cfg.pools@ == config.pools@
    &&& exists|w: String| w@ == address && cfg.wallets@ == insert_entry(config.wallets@, coin, w)
}

/// Whether `p` is a pool setting with these values.
pub open spec fn pool_config_is(p: PoolConfig, address: Seq<char>, port: u16, tls: bool, coin: Seq<char>, fee_centi: u32) -> bool {
    p.address@ == address && p.port == port && p.tls == tls && p.coin@ == coin && p.fee_centi == fee_centi
}

/// Whether `cfg` is `config` with a pool of these values stored for `coin`.
pub open spec fn saves_pool(
    cfg: GlobalConfig,
    config: GlobalConfig,
    coin: Seq<char>,
    address: Seq<char>,
    port: u16,
    tls: bool,
    fee_centi: u32,
) -> bool {
    &&& cfg.general == config.general
    &&& cfg.mining == config.mining
    &&& cfg.storage == config.storage
    &&& cfg.wallets@ == config.wallets@
    &&& exists|p: PoolConfig|
        cfg.pools@ == insert_entry(config.pools@, coin, p) && pool_config_is(p, address, port, tls, coin, fee_centi)
}

/// The message after a pool was chosen by name.
pub open spec fn pool_named_text(coin: Seq<char>, e: PoolEntryView) -> Seq<char> {
    coin + " pool set to "@ + e.name + " ("@ + endpoint(e.address, e.port) + ")"@
}

/// Whether a request line can be handled without stopping: a `wallet set`
/// whose address `set_address` could not report is refused beforehand.
pub open spec fn line_handled(line: Seq<char>) -> bool {
    command_of(request_words(line)) matches CommandView::WalletSet(c, a) ==> !address_error_unprintable(c, a)
}

/// Checks `line_handled`.
pub fn line_is_handled(line: &str) -> (b: bool)
    ensures
        b == line_handled(line@),
{
    match parse_command(line) {
        Command::WalletSet(c, a) => {
            let chars = crate::text::chars_of(a.as_str());
            !(crate::text::str_eq(c.as_str(), "monero") && chars.len() > 0 && chars[0] as u32 >= 0x80)
        },
        _ => true,
    }
}

/// Whether `step` is where handling the line `line` under `config` begins.
pub open spec fn begins(line: Seq<char>, config: GlobalConfig, step: Step) -> bool {
    match command_of(request_words(line)) {
        CommandView::Ping => responds(step, "pong"@),
        CommandView::Version => responds(step, version_text()),
        CommandView::Status => responds(step, status_text(config.general.telemetry, config.general.log_level@)),
        CommandView::ConfigShow => step matches Step::Await(Pending::ConfigDump, Request::DumpConfig),
        CommandView::MinerList => step matches Step::Await(Pending::InstalledList, Request::InstalledMiners),
        CommandView::WalletList => step matches Step::Await(Pending::WalletListing, Request::ReloadConfig),
        CommandView::WalletNew(coin) => step matches Step::Await(Pending::WalletGeneration(c), Request::GenerateWallet(c2))
            && c@ == coin && c2@ == coin,
        CommandView::WalletSet(coin, address) => if address_accepted(coin, address) {
            step matches Step::Await(Pending::AddressSaved(c, a), Request::SaveConfig(cfg)) && c@ == coin && a@ == address
                && saves_wallet(cfg, config, coin, address)
        } else {
            responds(step, "Failed to set address: "@ + address_rejection(coin, address))
        },
        CommandView::PoolList => responds(step, pool_list_text(pool_table())),
        CommandView::PoolListCoin(coin) => responds(step, coin_pools_text(coin, pools_supporting(pool_table(), coin))),
        CommandView::PoolPing(name) => match directory_entry(name) {
            Some(e) => step matches Step::Await(Pending::LatencyProbe(n, a, p), Request::MeasureLatency(a2, p2))
                && n@ == e.name && a@ == e.address && p == e.port && a2@ == e.address && p2 == e.port,
            None => responds(step, "Unknown pool: "@ + name),
        },
        CommandView::PoolSetNamed(coin, name) => match directory_entry(name) {
            Some(e) => step matches Step::Await(Pending::PoolSaved(m), Request::SaveConfig(cfg))
                && m@ == pool_named_text(coin, e) && saves_pool(cfg, config, coin, e.address, e.port, e.tls, e.fee_centi),
            None => responds(step, "Unknown pool: "@ + name),
        },
        CommandView::PoolSetAddress(coin, address, port) => step matches Step::Await(Pending::PoolSaved(m), Request::SaveConfig(cfg))
            && m@ == coin + " pool set to "@ + address + ":"@ + port
            && saves_pool(cfg, config, coin, address, match parse_u16_spec(port) {
                Some(n) => n,
                None => 3333,
            }, false, 0),
        CommandView::StoreInstallMiner(id) => step matches Step::Await(Pending::InstallCheck(i), Request::CheckInstalled(i2))
            && i@ == id && i2@ == id,
        CommandView::StoreUninstallMiner(id) => step matches Step::Await(Pending::Uninstalling, Request::UninstallMiner(i))
            && i@ == id,
        CommandView::StoreListMiners => step matches Step::Await(Pending::Listing(Section::Miners), Request::LoadCatalog),
        CommandView::StoreListWallets => step matches Step::Await(Pending::Listing(Section::Wallets), Request::LoadCatalog),
        CommandView::StoreListPools => step matches Step::Await(Pending::Listing(Section::Pools), Request::LoadCatalog),
        CommandView::StoreUpdate => step matches Step::Await(Pending::Refreshing, Request::RefreshCatalog),
        CommandView::Help => responds(step, help_text()),
        CommandView::Unknown => responds(step, unknown_text(line)),
    }
}

fn await_step(p: Pending, r: Request) -> (s: Step)
    ensures
        s == Step::Await(p, r),
{
    Step::Await(p, r)
}

fn new_pool(address: &str, port: u16, tls: bool, coin: &str, fee_centi: u32) -> (p: PoolConfig)
    ensures
        pool_config_is(p, address@, port, tls, coin@, fee_centi),
{
    PoolConfig { address: address.to_owned(), port, tls, coin: coin.to_owned(), fee_centi }
}

/// Begins handling the request line `line` under `config`.
pub fn begin(line: &str, config: &GlobalConfig) -> (step: Step)
    requires
        line_handled(line@),
    ensures
        begins(line@, *config, step),
{
    let cmd = parse_command(line);
    match cmd {
        Command::Ping => Step::Respond("pong".to_owned()),
        Command::Version => Step::Respond(version_response()),
        Command::Status => Step::Respond(status_response(config.general.telemetry, config.general.log_level.as_str())),
        Command::ConfigShow => await_step(Pending::ConfigDump, Request::DumpConfig),
        Command::MinerList => await_step(Pending::InstalledList, Request::InstalledMiners),
        Command::WalletList => await_step(Pending::WalletListing, Request::ReloadConfig),
        Command::WalletNew(coin) => {
            let c2 = coin.clone();
            await_step(Pending::WalletGeneration(coin), Request::GenerateWallet(c2))
        },
        Command::WalletSet(coin, address) => {
            let wm = WalletManager::new(config.storage.data_dir.clone());
            match wm.set_address(coin.as_str(), address.as_str()) {
                Ok(()) => {
                    let a = address.clone();
                    let cfg = with_wallet(config, coin.as_str(), a);
                    await_step(Pending::AddressSaved(coin, address), Request::SaveConfig(cfg))
                },
                Err(e) => {
                    let m = e.message();
                    Step::Respond(prefixed_text("Failed to set address: ", m.as_str()))
                },
            }
        },
        Command::PoolList => {
            let pools = built_in_pools();
            Step::Respond(pool_list_response(&pools))
        },
        Command::PoolListCoin(coin) => {
            let all = built_in_pools();
            let ps = pools_for_coin(all.as_slice(), coin.as_str());
            assert(all@.map_values(|p: crate::pool::PoolEntry| p@) == entry_views(all@));
            Step::Respond(coin_pools_response(coin.as_str(), &ps))
        },
        Command::PoolPing(name) => match find_pool(name.as_str()) {
            Some(e) => {
                let a = e.address.clone();
                await_step(Pending::LatencyProbe(e.name, e.address, e.port), Request::MeasureLatency(a, e.port))
            },
            None => Step::Respond(prefixed_text("Unknown pool: ", name.as_str())),
        },
        Command::PoolSetNamed(coin, name) => match find_pool(name.as_str()) {
            Some(e) => {
                let p = new_pool(e.address.as_str(), e.port, e.tls, coin.as_str(), e.fee_centi);
                let cfg = with_pool(config, coin.as_str(), p);
                let mut m = coin.clone();
                m.append(" pool set to ");
                m.append(e.name.as_str());
                m.append(" (");
                m.append(e.address.as_str());
                m.append(":");
                let port = crate::text::decimal_text(e.port as u64);
                m.append(port.as_str());
                m.append(")");
                assert(m@ =~= pool_named_text(coin@, e@));
                await_step(Pending::PoolSaved(m), Request::SaveConfig(cfg))
            },
            None => Step::Respond(prefixed_text("Unknown pool: ", name.as_str())),
        },
        Command::PoolSetAddress(coin, address, port) => {
            let n = match parse_u16(&crate::text::chars_of(port.as_str())) {
                Some(n) => n,
                None => 3333,
            };
            let p = new_pool(address.as_str(), n, false, coin.as_str(), 0);
            let cfg = with_pool(config, coin.as_str(), p);
            let mut m = coin.clone();
            m.append(" pool set to ");
            m.append(address.as_str());
            m.append(":");
            m.append(port.as_str());
            await_step(Pending::PoolSaved(m), Request::SaveConfig(cfg))
        },
        Command::StoreInstallMiner(id) => {
            let i2 = id.clone();
            await_step(Pending::InstallCheck(id), Request::CheckInstalled(i2))
        },
        Command::StoreUninstallMiner(id) => await_step(Pending::Uninstalling, Request::UninstallMiner(id)),
        Command::StoreListMiners => await_step(Pending::Listing(Section::Miners), Request::LoadCatalog),
        Command::StoreListWallets => await_step(Pending::Listing(Section::Wallets), Request::LoadCatalog),
        Command::StoreListPools => await_step(Pending::Listing(Section::Pools), Request::LoadCatalog),
        Command::StoreUpdate => await_step(Pending::Refreshing, Request::RefreshCatalog),
        Command::Help => Step::Respond(help_response()),
        Command::Unknown => Step::Respond(unknown_response(line)),
    }
}


/// The answer to `store install miner <id>` for a miner installed already.
pub open spec fn store_installed_text(m: MinerSourceView) -> Seq<char> {
    m.name + " is already installed. Run '"@ + m.wrapper_name + "' to launch."@
}

/// Whether `reply` is what `pending` waits for. A miner reported installed
/// is a known one, and addresses to be listed can be shortened.
pub open spec fn fits(pending: Pending, config: GlobalConfig, reply: Reply) -> bool {
    match pending {
        Pending::ConfigDump => reply is Text,
        Pending::InstalledList => reply is Miners,
        Pending::MinerNames(_) => reply is Catalog,
        Pending::WalletListing => reply matches Reply::Config(o) && wallets_sliceable(
            match o {
                Some(c) => c.wallets@,
                None => config.wallets@,
            },
        ),
        Pending::WalletGeneration(_) => reply is Generated,
        Pending::WalletGenerated(_, _, _) => reply is Saved,
        Pending::AddressSaved(_, _) => reply is Saved,
        Pending::LatencyProbe(_, _, _) => reply is Latency,
        Pending::PoolSaved(_) => reply is Saved,
        Pending::InstallCheck(id) => reply matches Reply::Installed(b) && (b ==> known_miner(id@) is Some),
        Pending::Installing => reply is Finished,
        Pending::Uninstalling => reply is Finished,
        Pending::Listing(_) => reply is Catalog,
        Pending::Refreshing => reply is CachedAt,
    }
}

/// Whether `step` follows the reply `reply` to what `pending` waited for.
pub open spec fn resumes(pending: Pending, config: GlobalConfig, reply: Reply, step: Step) -> bool {
    match (pending, reply) {
        (Pending::ConfigDump, Reply::Text(t)) => responds(step, t@),
        (Pending::InstalledList, Reply::Miners(ids)) => if ids@.len() == 0 {
            responds(step, no_miners_text())
        } else {
            step matches Step::Await(Pending::MinerNames(ids2), Request::LoadCatalog)
                && string_views(ids2@) == string_views(ids@)
        },
        (Pending::MinerNames(ids), Reply::Catalog(c)) => responds(step, miner_list_text(string_views(ids@), c)),
        (Pending::WalletListing, Reply::Config(o)) => responds(step, wallet_list_text(
            match o {
                Some(c) => c.wallets@,
                None => config.wallets@,
            },
        )),
        (Pending::WalletGeneration(coin), Reply::Generated(Ok((a, s)))) =>
            step matches Step::Await(Pending::WalletGenerated(c, a2, s2), Request::SaveConfig(cfg))
                && c@ == coin@ && a2@ == a@ && s2@ == s@ && saves_wallet(cfg, config, coin@, a@),
        (Pending::WalletGeneration(_), Reply::Generated(Err(e))) => responds(step, prefixed("Failed to generate wallet: "@, e@)),
        (Pending::WalletGenerated(c, a, s), Reply::Saved(_)) => responds(step, wallet_generated_text(c@, a@, s@)),
        (Pending::AddressSaved(_, _), Reply::Saved(Some(e))) => responds(step, prefixed("Address set but failed to save config: "@, e@)),
        (Pending::AddressSaved(c, a), Reply::Saved(None)) => responds(step, c@ + " address set to: "@ + a@),
        (Pending::LatencyProbe(n, a, p), Reply::Latency(r, ms)) => responds(step, latency_text(n@, a@, p, r, ms)),
        (Pending::PoolSaved(_), Reply::Saved(Some(e))) => responds(step, prefixed("Pool set but failed to save config: "@, e@)),
        (Pending::PoolSaved(m), Reply::Saved(None)) => responds(step, m@),
        (Pending::InstallCheck(id), Reply::Installed(b)) => if b {
            responds(step, store_installed_text(known_miner(id@)->0))
        } else {
            step matches Step::Await(Pending::Installing, Request::InstallMiner(i)) && i@ == id@
        },
        (Pending::Installing, Reply::Finished(Ok(m))) => responds(step, m@),
        (Pending::Installing, Reply::Finished(Err(e))) => responds(step, prefixed("Install failed: "@, e@)),
        (Pending::Uninstalling, Reply::Finished(Ok(m))) => responds(step, m@),
        (Pending::Uninstalling, Reply::Finished(Err(e))) => responds(step, prefixed("Uninstall failed: "@, e@)),
        (Pending::Listing(section), Reply::Catalog(c)) => responds(step, store_list_text(section, c)),
        (Pending::Refreshing, Reply::CachedAt(p)) => responds(step, prefixed("Catalog cached to "@, p@)),
        _ => true,
    }
}

fn copy_ids(v: &Vec<String>) -> (r: Vec<String>)
    ensures
        string_views(r@) == string_views(v@),
{
    let mut r: Vec<String> = Vec::new();
    let mut i: usize = 0;
    while i < v.len()
        invariant
            i <= v@.len(),
            string_views(r@) == string_views(v@).take(i as int),
        decreases v.len() - i,
    {
        let ghost before = string_views(r@);
        r.push(v[i].clone());
        assert(string_views(r@) =~= before.push(v@[i as int]@));
        assert(string_views(v@).take(i + 1) =~= string_views(v@).take(i as int).push(v@[i as int]@));
        i += 1;
    }
    assert(string_views(v@).take(i as int) =~= string_views(v@));
    r
}

/// Continues handling a request with the reply to what it waited for.
pub fn resume(pending: Pending, config: &GlobalConfig, reply: Reply) -> (step: Step)
    requires
        fits(pending, *config, reply),
    ensures
        resumes(pending, *config, reply, step),
{
    match (pending, reply) {
        (Pending::ConfigDump, Reply::Text(t)) => Step::Respond(t),
        (Pending::InstalledList, Reply::Miners(ids)) => {
            if ids.len() == 0 {
                Step::Respond("miners: (none installed)\nTip: use 'strawberry-cli store install <miner>' or the Store app.".to_owned())
            } else {
                await_step(Pending::MinerNames(copy_ids(&ids)), Request::LoadCatalog)
            }
        },
        (Pending::MinerNames(ids), Reply::Catalog(c)) => Step::Respond(miner_list_response(&ids, &c)),
        (Pending::WalletListing, Reply::Config(o)) => match o {
            Some(c) => Step::Respond(wallet_list_response(&c.wallets)),
            None => Step::Respond(wallet_list_response(&config.wallets)),
        },
        (Pending::WalletGeneration(coin), Reply::Generated(g)) => match g {
            Ok((a, s)) => {
                let cfg = with_wallet(config, coin.as_str(), a.clone());
                await_step(Pending::WalletGenerated(coin, a, s), Request::SaveConfig(cfg))
            },
            Err(e) => Step::Respond(prefixed_text("Failed to generate wallet: ", e.as_str())),
        },
        (Pending::WalletGenerated(c, a, s), Reply::Saved(_)) => Step::Respond(
            wallet_generated_response(c.as_str(), a.as_str(), s.as_str()),
        ),
        (Pending::AddressSaved(c, a), Reply::Saved(r)) => match r {
            Some(e) => Step::Respond(prefixed_text("Address set but failed to save config: ", e.as_str())),
            None => {
                let mut m = c;
                m.append(" address set to: ");
                m.append(a.as_str());
                Step::Respond(m)
            },
        },
        (Pending::LatencyProbe(n, a, p), Reply::Latency(r, ms)) => Step::Respond(
            latency_response(n.as_str(), a.as_str(), p, r, ms),
        ),
        (Pending::PoolSaved(m), Reply::Saved(r)) => match r {
            Some(e) => Step::Respond(prefixed_text("Pool set but failed to save config: ", e.as_str())),
            None => Step::Respond(m),
        },
        (Pending::InstallCheck(id), Reply::Installed(b)) => {
            if b {
                let sources = miner_sources();
                match find_source(&sources, id.as_str()) {
                    Some(i) => {
                        let m = &sources[i];
                        assert(source_views(sources@)[i as int] == m@);
                        let mut t = m.name.clone();
                        t.append(" is already installed. Run '");
                        t.append(m.wrapper_name.as_str());
                        t.append("' to launch.");
                        Step::Respond(t)
                    },
                    None => {
                        proof {
                            crate::miner::lemma_known_miner_found(id@);
                        }
                        vstd::pervasive::unreached()
                    },
                }
            } else {
                await_step(Pending::Installing, Request::InstallMiner(id))
            }
        },
        (Pending::Installing, Reply::Finished(r)) => match r {
            Ok(m) => Step::Respond(m),
            Err(e) => Step::Respond(prefixed_text("Install failed: ", e.as_str())),
        },
        (Pending::Uninstalling, Reply::Finished(r)) => match r {
            Ok(m) => Step::Respond(m),
            Err(e) => Step::Respond(prefixed_text("Uninstall failed: ", e.as_str())),
        },
        (Pending::Listing(section), Reply::Catalog(c)) => Step::Respond(store_list_response(section, &c)),
        (Pending::Refreshing, Reply::CachedAt(p)) => Step::Respond(prefixed_text("Catalog cached to ", p.as_str())),
        (_, _) => vstd::pervasive::unreached(),
    }
}


/// A wallet saved by `wallet new` or `wallet set` is then found under its
/// coin with the address given, and the other coins keep their wallets.
pub proof fn law_saved_wallet_found(cfg: GlobalConfig, config: GlobalConfig, coin: Seq<char>, address: Seq<char>, other: Seq<char>)
    requires
        distinct_keys(config.wallets@),
        saves_wallet(cfg, config, coin, address),
    ensures
        has_key(cfg.wallets@, coin),
        lookup(cfg.wallets@, coin) matches Some(w) && w@ == address,
        other != coin ==> lookup(cfg.wallets@, other) == lookup(config.wallets@, other),
{
    let w = choose|w: String| w@ == address && cfg.wallets@ == insert_entry(config.wallets@, coin, w);
    lemma_lookup_insert(config.wallets@, coin, w, other);
}

/// A pool saved by `pool set` is then found under its coin.
pub proof fn law_saved_pool_found(
    cfg: GlobalConfig,
    config: GlobalConfig,
    coin: Seq<char>,
    address: Seq<char>,
    port: u16,
    tls: bool,
    fee_centi: u32,
)
    requires
        distinct_keys(config.pools@),
        saves_pool(cfg, config, coin, address, port, tls, fee_centi),
    ensures
        lookup(cfg.pools@, coin) matches Some(p) && pool_config_is(p, address, port, tls, coin, fee_centi),
{
    let p = choose|p: PoolConfig| cfg.pools@ == insert_entry(config.pools@, coin, p) && pool_config_is(p, address, port, tls, coin, fee_centi);
    lemma_lookup_insert(config.pools@, coin, p, coin);
}

} // verus!
