//! The daemon's command protocol: one request line in, one response out.

use vstd::prelude::*;
use crate::pool::{fee_text, format_fee, PoolEntry, PoolEntryView};
use crate::wallet::string_views;
use crate::catalog::{Catalog, CatalogItem};
use crate::strmap::StrMap;
use vstd::utf8::{decode_utf8, encode_utf8, is_char_boundary};
use crate::text::{has_infix, lemma_infix_of_concat, bool_text, concat_all, decimal, decimal_text, join, join_strings, lemma_concat_all_take, chars_of, splitn_space, splitn_space_of, str_eq, string_of, trim, trim_vec, views};

verus! {

/// A request to the daemon.
pub enum Command {
    Ping,
    Version,
    Status,
    ConfigShow,
    MinerList,
    WalletList,
    WalletNew(String),
    WalletSet(String, String),
    PoolList,
    PoolListCoin(String),
    PoolPing(String),
    PoolSetNamed(String, String),
    PoolSetAddress(String, String, String),
    StoreInstallMiner(String),
    StoreUninstallMiner(String),
    StoreListMiners,
    StoreListWallets,
    StoreListPools,
    StoreUpdate,
    Help,
    Unknown,
}

/// The model of a request.
pub enum CommandView {
    Ping,
    Version,
    Status,
    ConfigShow,
    MinerList,
    WalletList,
    WalletNew(Seq<char>),
    WalletSet(Seq<char>, Seq<char>),
    PoolList,
    PoolListCoin(Seq<char>),
    PoolPing(Seq<char>),
    PoolSetNamed(Seq<char>, Seq<char>),
    PoolSetAddress(Seq<char>, Seq<char>, Seq<char>),
    StoreInstallMiner(Seq<char>),
    StoreUninstallMiner(Seq<char>),
    StoreListMiners,
    StoreListWallets,
    StoreListPools,
    StoreUpdate,
    Help,
    Unknown,
}

impl View for Command {
    type V = CommandView;

    open spec fn view(&self) -> CommandView {
        match self {
            Command::Ping => CommandView::Ping,
            Command::Version => CommandView::Version,
            Command::Status => CommandView::Status,
            Command::ConfigShow => CommandView::ConfigShow,
            Command::MinerList => CommandView::MinerList,
            Command::WalletList => CommandView::WalletList,
            Command::WalletNew(a0) => CommandView::WalletNew(a0@),
            Command::WalletSet(a0, a1) => CommandView::WalletSet(a0@, a1@),
            Command::PoolList => CommandView::PoolList,
            Command::PoolListCoin(a0) => CommandView::PoolListCoin(a0@),
            Command::PoolPing(a0) => CommandView::PoolPing(a0@),
            Command::PoolSetNamed(a0, a1) => CommandView::PoolSetNamed(a0@, a1@),
            Command::PoolSetAddress(a0, a1, a2) => CommandView::PoolSetAddress(a0@, a1@, a2@),
            Command::StoreInstallMiner(a0) => CommandView::StoreInstallMiner(a0@),
            Command::StoreUninstallMiner(a0) => CommandView::StoreUninstallMiner(a0@),
            Command::StoreListMiners => CommandView::StoreListMiners,
            Command::StoreListWallets => CommandView::StoreListWallets,
            Command::StoreListPools => CommandView::StoreListPools,
            Command::StoreUpdate => CommandView::StoreUpdate,
            Command::Help => CommandView::Help,
            Command::Unknown => CommandView::Unknown,
        }
    }
}

/// The request that the words `p` of a line make.
pub open spec fn command_of(p: Seq<Seq<char>>) -> CommandView {
    if p.len() == 1 && p[0] == "ping"@ {
        CommandView::Ping
    } else if p.len() == 1 && p[0] == "version"@ {
        CommandView::Version
    } else if p.len() == 1 && p[0] == "status"@ {
        CommandView::Status
    } else if p.len() == 2 && p[0] == "config"@ && p[1] == "show"@ {
        CommandView::ConfigShow
    } else if p.len() == 2 && p[0] == "miner"@ && p[1] == "list"@ {
        CommandView::MinerList
    } else if p.len() == 2 && p[0] == "wallet"@ && p[1] == "list"@ {
        CommandView::WalletList
    } else if p.len() == 3 && p[0] == "wallet"@ && p[1] == "new"@ {
        CommandView::WalletNew(p[2])
    } else if p.len() == 4 && p[0] == "wallet"@ && p[1] == "set"@ {
        CommandView::WalletSet(p[2], p[3])
    } else if p.len() == 2 && p[0] == "pool"@ && p[1] == "list"@ {
        CommandView::PoolList
    } else if p.len() == 3 && p[0] == "pool"@ && p[1] == "list"@ {
        CommandView::PoolListCoin(p[2])
    } else if p.len() == 3 && p[0] == "pool"@ && p[1] == "ping"@ {
        CommandView::PoolPing(p[2])
    } else if p.len() == 4 && p[0] == "pool"@ && p[1] == "set"@ {
        CommandView::PoolSetNamed(p[2], p[3])
    } else if p.len() == 5 && p[0] == "pool"@ && p[1] == "set"@ {
        CommandView::PoolSetAddress(p[2], p[3], p[4])
    } else if p.len() == 4 && p[0] == "store"@ && p[1] == "install"@ && p[2] == "miner"@ {
        CommandView::StoreInstallMiner(p[3])
    } else if p.len() == 4 && p[0] == "store"@ && p[1] == "uninstall"@ && p[2] == "miner"@ {
        CommandView::StoreUninstallMiner(p[3])
    } else if p.len() == 3 && p[0] == "store"@ && p[1] == "list"@ && p[2] == "miners"@ {
        CommandView::StoreListMiners
    } else if p.len() == 3 && p[0] == "store"@ && p[1] == "list"@ && p[2] == "wallets"@ {
        CommandView::StoreListWallets
    } else if p.len() == 3 && p[0] == "store"@ && p[1] == "list"@ && p[2] == "pools"@ {
        CommandView::StoreListPools
    } else if p.len() == 2 && p[0] == "store"@ && p[1] == "update"@ {
        CommandView::StoreUpdate
    } else if p.len() == 1 && p[0] == "help"@ {
        CommandView::Help
    } else {
        CommandView::Unknown
    }
}

/// The words of a request line: the trimmed line split at single spaces into
/// at most five pieces, the last taking the rest.
pub open spec fn request_words(line: Seq<char>) -> Seq<Seq<char>> {
    splitn_space(trim(line), 5)
}

fn part_is(parts: &Vec<Vec<char>>, i: usize, lit: &str) -> (b: bool)
    requires
        i < parts@.len(),
    ensures
        b == (parts@[i as int]@ == lit@),
{
    let s = string_of(&parts[i]);
    str_eq(s.as_str(), lit)
}

fn part(parts: &Vec<Vec<char>>, i: usize) -> (s: String)
    requires
        i < parts@.len(),
    ensures
        s@ == parts@[i as int]@,
{
    string_of(&parts[i])
}

/// A request line is read the same with or without its surrounding
/// whitespace.
pub proof fn law_request_ignores_padding(line: Seq<char>)
    ensures
        command_of(request_words(trim(line))) == command_of(request_words(line)),
{
    crate::text::lemma_trim_idempotent(line);
}

/// `store install miner <id>` is the request to install `<id>` and
/// `store uninstall miner <id>` the request to remove it; no other words are
/// read as either request.
pub proof fn law_store_miner_requests(p: Seq<Seq<char>>, id: Seq<char>)
    ensures
        command_of(seq!["store"@, "install"@, "miner"@, id]) == CommandView::StoreInstallMiner(id),
        command_of(seq!["store"@, "uninstall"@, "miner"@, id]) == CommandView::StoreUninstallMiner(id),
        command_of(p) == CommandView::StoreInstallMiner(id) ==> p == seq!["store"@, "install"@, "miner"@, id],
        command_of(p) == CommandView::StoreUninstallMiner(id) ==> p == seq!["store"@, "uninstall"@, "miner"@, id],
{
    reveal_strlit("store");
    reveal_strlit("install");
    reveal_strlit("uninstall");
    reveal_strlit("miner");
    reveal_strlit("wallet");
    reveal_strlit("pool");
    reveal_strlit("set");
    let a = seq!["store"@, "install"@, "miner"@, id];
    let b = seq!["store"@, "uninstall"@, "miner"@, id];
    assert("store"@.len() != "wallet"@.len() && "store"@.len() != "pool"@.len());
    assert("uninstall"@.len() != "install"@.len());
    assert(a[0] == "store"@ && b[0] == "store"@ && b[1] == "uninstall"@);
    if command_of(p) == CommandView::StoreInstallMiner(id) {
        assert(p =~= a);
    }
    if command_of(p) == CommandView::StoreUninstallMiner(id) {
        assert(p =~= b);
    }
}

/// Reads a request line.
pub fn parse_command(line: &str) -> (c: Command)
    ensures
        c@ == command_of(request_words(line@)),
{
    let t = trim_vec(&chars_of(line));
    let parts = splitn_space_of(&t, 5);
    let n = parts.len();
    let ghost p = views(parts@);
    assert(forall|i: int| 0 <= i < parts@.len() ==> p[i] == #[trigger] parts@[i]@);
    if n == 1 && part_is(&parts, 0, "ping") {
        Command::Ping
    } else if n == 1 && part_is(&parts, 0, "version") {
        Command::Version
    } else if n == 1 && part_is(&parts, 0, "status") {
        Command::Status
    } else if n == 2 && part_is(&parts, 0, "config") && part_is(&parts, 1, "show") {
        Command::ConfigShow
    } else if n == 2 && part_is(&parts, 0, "miner") && part_is(&parts, 1, "list") {
        Command::MinerList
    } else if n == 2 && part_is(&parts, 0, "wallet") && part_is(&parts, 1, "list") {
        Command::WalletList
    } else if n == 3 && part_is(&parts, 0, "wallet") && part_is(&parts, 1, "new") {
        Command::WalletNew(part(&parts, 2))
    } else if n == 4 && part_is(&parts, 0, "wallet") && part_is(&parts, 1, "set") {
        Command::WalletSet(part(&parts, 2), part(&parts, 3))
    } else if n == 2 && part_is(&parts, 0, "pool") && part_is(&parts, 1, "list") {
        Command::PoolList
    } else if n == 3 && part_is(&parts, 0, "pool") && part_is(&parts, 1, "list") {
        Command::PoolListCoin(part(&parts, 2))
    } else if n == 3 && part_is(&parts, 0, "pool") && part_is(&parts, 1, "ping") {
        Command::PoolPing(part(&parts, 2))
    } else if n == 4 && part_is(&parts, 0, "pool") && part_is(&parts, 1, "set") {
        Command::PoolSetNamed(part(&parts, 2), part(&parts, 3))
    } else if n == 5 && part_is(&parts, 0, "pool") && part_is(&parts, 1, "set") {
        Command::PoolSetAddress(part(&parts, 2), part(&parts, 3), part(&parts, 4))
    } else if n == 4 && part_is(&parts, 0, "store") && part_is(&parts, 1, "install") && part_is(&parts, 2, "miner") {
        Command::StoreInstallMiner(part(&parts, 3))
    } else if n == 4 && part_is(&parts, 0, "store") && part_is(&parts, 1, "uninstall") && part_is(&parts, 2, "miner") {
        Command::StoreUninstallMiner(part(&parts, 3))
    } else if n == 3 && part_is(&parts, 0, "store") && part_is(&parts, 1, "list") && part_is(&parts, 2, "miners") {
        Command::StoreListMiners
    } else if n == 3 && part_is(&parts, 0, "store") && part_is(&parts, 1, "list") && part_is(&parts, 2, "wallets") {
        Command::StoreListWallets
    } else if n == 3 && part_is(&parts, 0, "store") && part_is(&parts, 1, "list") && part_is(&parts, 2, "pools") {
        Command::StoreListPools
    } else if n == 2 && part_is(&parts, 0, "store") && part_is(&parts, 1, "update") {
        Command::StoreUpdate
    } else if n == 1 && part_is(&parts, 0, "help") {
        Command::Help
    } else {
        Command::Unknown
    }
}


/// The answer to `status`.
pub open spec fn status_text(telemetry: bool, log_level: Seq<char>) -> Seq<char> {
    "status: running\ntelemetry: "@ + bool_text(telemetry) + "\nlog_level: "@ + log_level
}

/// Answers `status`.
pub fn status_response(telemetry: bool, log_level: &str) -> (s: String)
    ensures
        s@ == status_text(telemetry, log_level@),
{
    let mut s = "status: running\ntelemetry: ".to_owned();
    if telemetry {
        s.append("true");
    } else {
        s.append("false");
    }
    s.append("\nlog_level: ");
    s.append(log_level);
    s
}

/// The daemon's version.
pub open spec fn version_text() -> Seq<char> {
    "strawberryd "@ + "0.1.0"@
}

/// Answers `version`.
pub fn version_response() -> (s: String)
    ensures
        s@ == version_text(),
{
    let mut s = "strawberryd ".to_owned();
    s.append("0.1.0");
    s
}

/// The answer to `help`.
pub open spec fn help_text() -> Seq<char> {
    "Available commands:\n  ping\n  version\n  status\n  config show\n  miner list\n  wallet list\n  wallet new <coin>\n  wallet set <coin> <address>\n  pool list [coin]\n  pool ping <name>\n  pool set <coin> <name|address port>\n  store install <type> <id>\n  store uninstall <type> <id>\n  store list <type>\n  store update\n  help"@
}

/// Answers `help`.
pub fn help_response() -> (s: String)
    ensures
        s@ == help_text(),
{
    "Available commands:\n  ping\n  version\n  status\n  config show\n  miner list\n  wallet list\n  wallet new <coin>\n  wallet set <coin> <address>\n  pool list [coin]\n  pool ping <name>\n  pool set <coin> <name|address port>\n  store install <type> <id>\n  store uninstall <type> <id>\n  store list <type>\n  store update\n  help".to_owned()
}

/// The answer to a line that is no known request; it quotes the line as
/// received.
pub open spec fn unknown_text(line: Seq<char>) -> Seq<char> {
    "Unknown command: "@ + line + "\nType 'help' for available commands."@
}

/// Answers a line that is no known request.
pub fn unknown_response(line: &str) -> (s: String)
    ensures
        s@ == unknown_text(line@),
{
    let mut s = "Unknown command: ".to_owned();
    s.append(line);
    s.append("\nType 'help' for available commands.");
    s
}

/// `address:port`.
pub open spec fn endpoint(address: Seq<char>, port: u16) -> Seq<char> {
    address + ":"@ + decimal(port as nat)
}

fn append_endpoint(s: &mut String, address: &str, port: u16)
    ensures
        final(s)@ == old(s)@ + endpoint(address@, port),
{
    s.append(address);
    s.append(":");
    let p = decimal_text(port as u64);
    s.append(p.as_str());
}

/// One pool of the directory listing.
pub open spec fn pool_line(p: PoolEntryView) -> Seq<char> {
    "  "@ + p.name + " ("@ + endpoint(p.address, p.port) + ") ["@ + (if p.tls { "TLS"@ } else { "no-TLS"@ })
        + "] fee="@ + fee_text(p.fee_centi as nat) + "%\n    Coins: "@ + join(p.coins, ", "@) + "\n    "@
        + p.notes + "\n"@
}

/// The answer to `pool list`.
pub open spec fn pool_list_text(ps: Seq<PoolEntryView>) -> Seq<char> {
    "Pool Directory:\n"@ + concat_all(ps.map_values(|p: PoolEntryView| pool_line(p)))
}

fn pool_line_text(p: &PoolEntry) -> (s: String)
    ensures
        s@ == pool_line(p@),
{
    let mut s = "  ".to_owned();
    s.append(p.name.as_str());
    s.append(" (");
    append_endpoint(&mut s, p.address.as_str(), p.port);
    s.append(") [");
    if p.tls {
        s.append("TLS");
    } else {
        s.append("no-TLS");
    }
    s.append("] fee=");
    let f = format_fee(p.fee_centi);
    s.append(f.as_str());
    s.append("%\n    Coins: ");
    let c = join_strings(&p.coins, ", ");
    assert(string_views(p.coins@) =~= p@.coins);
    s.append(c.as_str());
    s.append("\n    ");
    s.append(p.notes.as_str());
    s.append("\n");
    s
}

/// Answers `pool list` for the pools `ps`.
pub fn pool_list_response(ps: &Vec<PoolEntry>) -> (s: String)
    ensures
        s@ == pool_list_text(ps@.map_values(|p: PoolEntry| p@)),
{
    let ghost items = ps@.map_values(|p: PoolEntry| p@).map_values(|p: PoolEntryView| pool_line(p));
    let mut s = "Pool Directory:\n".to_owned();
    let mut i: usize = 0;
    assert(items.take(0) =~= Seq::<Seq<char>>::empty());
    while i < ps.len()
        invariant
            i <= ps@.len(),
            items == ps@.map_values(|p: PoolEntry| p@).map_values(|p: PoolEntryView| pool_line(p)),
            s@ == "Pool Directory:\n"@ + concat_all(items.take(i as int)),
        decreases ps.len() - i,
    {
        proof {
            lemma_concat_all_take(items, i as int);
        }
        let line = pool_line_text(&ps[i]);
        s.append(line.as_str());
        i += 1;
    }
    assert(items.take(i as int) =~= items);
    s
}

/// One pool of a per-coin listing.
pub open spec fn coin_pool_line(p: PoolEntryView) -> Seq<char> {
    "  "@ + p.name + " ("@ + endpoint(p.address, p.port) + ") fee="@ + fee_text(p.fee_centi as nat) + "%\n"@
}

/// The answer to `pool list <coin>` for the pools `ps` that support it.
pub open spec fn coin_pools_text(coin: Seq<char>, ps: Seq<PoolEntryView>) -> Seq<char> {
    if ps.len() == 0 {
        "No pools found for "@ + coin
    } else {
        "Pools for "@ + coin + ":\n"@ + concat_all(ps.map_values(|p: PoolEntryView| coin_pool_line(p)))
    }
}

/// With no supporting pool the answer says that none was found; with one,
/// it is the header and that pool's line.
pub proof fn law_coin_pools_first(coin: Seq<char>, p: PoolEntryView)
    ensures
        coin_pools_text(coin, Seq::<PoolEntryView>::empty()) == "No pools found for "@ + coin,
        coin_pools_text(coin, seq![p]) == "Pools for "@ + coin + ":\n"@ + ("  "@ + p.name + " ("@ + p.address + ":"@
            + decimal(p.port as nat) + ") fee="@ + fee_text(p.fee_centi as nat) + "%\n"@),
{
    let f = |q: PoolEntryView| coin_pool_line(q);
    let m = seq![p].map_values(f);
    assert(m.drop_last() =~= Seq::<Seq<char>>::empty());
    assert(concat_all(m.drop_last()) =~= seq![]);
    assert(concat_all(m) =~= coin_pool_line(p));
}

/// Listing one more supporting pool adds exactly its line to the answer:
/// two spaces, its name, its endpoint in brackets, its fee and a newline.
pub proof fn law_coin_pools_grow(coin: Seq<char>, ps: Seq<PoolEntryView>, p: PoolEntryView)
    requires
        ps.len() > 0,
    ensures
        coin_pools_text(coin, ps.push(p)) == coin_pools_text(coin, ps) + ("  "@ + p.name + " ("@ + p.address + ":"@
            + decimal(p.port as nat) + ") fee="@ + fee_text(p.fee_centi as nat) + "%\n"@),
{
    let f = |q: PoolEntryView| coin_pool_line(q);
    assert(ps.push(p).map_values(f) =~= ps.map_values(f).push(f(p)));
    assert(ps.map_values(f).push(f(p)).drop_last() =~= ps.map_values(f));
}

/// The answer for a non-empty list of supporting pools names every one of
/// them with its endpoint, followed by its fee.
pub proof fn law_coin_pools_list_each(coin: Seq<char>, ps: Seq<PoolEntryView>, i: int)
    requires
        0 <= i < ps.len(),
    ensures
        has_infix(coin_pools_text(coin, ps), "  "@ + ps[i].name + " ("@ + ps[i].address + ":"@ + decimal(ps[i].port as nat) + ") fee="@),
    decreases ps.len(),
{
    let t = "  "@ + ps[i].name + " ("@ + ps[i].address + ":"@ + decimal(ps[i].port as nat) + ") fee="@;
    let rest = fee_text(ps[i].fee_centi as nat) + "%\n"@;
    let last = ps.last();
    if ps.len() == 1 {
        let f = |q: PoolEntryView| coin_pool_line(q);
        let m = ps.map_values(f);
        assert(m.drop_last() =~= Seq::<Seq<char>>::empty());
        assert(concat_all(m.drop_last()) =~= seq![]);
        assert(concat_all(m) =~= coin_pool_line(ps[0]));
        assert(coin_pool_line(ps[0]) =~= t + rest);
        assert(coin_pools_text(coin, ps) =~= ("Pools for "@ + coin + ":\n"@) + t + rest);
        lemma_infix_of_concat("Pools for "@ + coin + ":\n"@, t, rest);
    } else {
        let init = ps.drop_last();
        assert(init.push(last) =~= ps);
        law_coin_pools_grow(coin, init, last);
        let line = "  "@ + last.name + " ("@ + last.address + ":"@ + decimal(last.port as nat) + ") fee="@
            + fee_text(last.fee_centi as nat) + "%\n"@;
        if i == ps.len() - 1 {
            assert(line =~= t + rest);
            assert(coin_pools_text(coin, ps) =~= coin_pools_text(coin, init) + t + rest);
            lemma_infix_of_concat(coin_pools_text(coin, init), t, rest);
        } else {
            assert(init[i] == ps[i]);
            law_coin_pools_list_each(coin, init, i);
            let s0 = coin_pools_text(coin, init);
            let k = choose|k: int| 0 <= k && k + t.len() <= s0.len() && #[trigger] s0.subrange(k, k + t.len()) == t;
            let s1 = coin_pools_text(coin, ps);
            assert(s1 == s0 + line);
            assert(s1.subrange(k, k + t.len()) =~= s0.subrange(k, k + t.len()));
        }
    }
}

/// Answers `pool list <coin>` for the pools `ps` that support it.
pub fn coin_pools_response(coin: &str, ps: &Vec<&PoolEntry>) -> (s: String)
    ensures
        s@ == coin_pools_text(coin@, ps@.map_values(|p: &PoolEntry| p@)),
{
    if ps.len() == 0 {
        let mut s = "No pools found for ".to_owned();
        s.append(coin);
        return s;
    }
    let ghost items = ps@.map_values(|p: &PoolEntry| p@).map_values(|p: PoolEntryView| coin_pool_line(p));
    let mut s = "Pools for ".to_owned();
    s.append(coin);
    s.append(":\n");
    let ghost head = s@;
    let mut i: usize = 0;
    assert(items.take(0) =~= Seq::<Seq<char>>::empty());
    while i < ps.len()
        invariant
            i <= ps@.len(),
            items == ps@.map_values(|p: &PoolEntry| p@).map_values(|p: PoolEntryView| coin_pool_line(p)),
            s@ == head + concat_all(items.take(i as int)),
        decreases ps.len() - i,
    {
        proof {
            lemma_concat_all_take(items, i as int);
        }
        let p: &PoolEntry = ps[i];
        let mut line = "  ".to_owned();
        line.append(p.name.as_str());
        line.append(" (");
        append_endpoint(&mut line, p.address.as_str(), p.port);
        line.append(") fee=");
        let f = format_fee(p.fee_centi);
        line.append(f.as_str());
        line.append("%\n");
        s.append(line.as_str());
        i += 1;
    }
    assert(items.take(i as int) =~= items);
    s
}


/// Whether the address `a` can be shortened for display: its UTF-8 form fits
/// in memory and, where it is 8 bytes or longer, its 4th and 4th-from-last
/// byte offsets fall between characters.
pub open spec fn address_sliceable(a: Seq<char>) -> bool {
    let b = encode_utf8(a);
    &&& b.len() <= usize::MAX
    &&& b.len() >= 8 ==> is_char_boundary(b, 4) && is_char_boundary(b, b.len() - 4)
}

/// An address as a wallet listing shows it: from 8 bytes on, its first and
/// last 4 bytes around `...`.
pub open spec fn short_address(a: Seq<char>) -> Seq<char> {
    let b = encode_utf8(a);
    if b.len() >= 8 {
        decode_utf8(b.subrange(0, 4)) + "..."@ + decode_utf8(b.subrange(b.len() - 4, b.len() as int))
    } else {
        a
    }
}

/// Shortens an address for display (see `short_address`).
pub fn shorten_address(a: &str) -> (s: String)
    requires
        address_sliceable(a@),
    ensures
        s@ == short_address(a@),
{
    broadcast use vstd::utf8::encode_utf8_decode_utf8;
    let n = a.len();
    if n >= 8 {
        let (head, _) = a.split_at(4);
        let (_, tail) = a.split_at(n - 4);
        assert(head@ == decode_utf8(encode_utf8(head@)));
        assert(tail@ == decode_utf8(encode_utf8(tail@)));
        let mut s = head.to_owned();
        s.append("...");
        s.append(tail);
        s
    } else {
        a.to_owned()
    }
}

/// Whether every address in `ws` can be shortened for display.
pub open spec fn wallets_sliceable(ws: Seq<(Seq<char>, String)>) -> bool {
    forall|i: int| 0 <= i < ws.len() ==> address_sliceable(#[trigger] ws[i].1@)
}

/// Checks `wallets_sliceable`.
pub fn wallet_addresses_sliceable(wallets: &StrMap<String>) -> (b: bool)
    ensures
        b == wallets_sliceable(wallets@),
{
    let mut i: usize = 0;
    while i < wallets.len()
        invariant
            i <= wallets@.len(),
            forall|j: int| 0 <= j < i ==> address_sliceable(#[trigger] wallets@[j].1@),
        decreases wallets@.len() - i,
    {
        let a = wallets.value_at(i).as_str();
        let n = a.as_bytes().len();
        if n >= 8 && !(a.is_char_boundary(4) && a.is_char_boundary(n - 4)) {
            return false;
        }
        i += 1;
    }
    true
}

/// One wallet of the wallet listing.
pub open spec fn wallet_line(e: (Seq<char>, String)) -> Seq<char> {
    "  "@ + e.0 + ": "@ + short_address(e.1@) + "\n"@
}

/// The answer to `wallet list`.
pub open spec fn wallet_list_text(ws: Seq<(Seq<char>, String)>) -> Seq<char> {
    if ws.len() == 0 {
        "wallets: (none configured)\nTip: use 'wallet set <coin> <address>' or the Store to add one."@
    } else {
        "wallets:\n"@ + concat_all(ws.map_values(|e: (Seq<char>, String)| wallet_line(e)))
    }
}

/// Answers `wallet list`.
pub fn wallet_list_response(wallets: &StrMap<String>) -> (s: String)
    requires
        wallets_sliceable(wallets@),
    ensures
        s@ == wallet_list_text(wallets@),
{
    if wallets.is_empty() {
        return "wallets: (none configured)\nTip: use 'wallet set <coin> <address>' or the Store to add one.".to_owned();
    }
    let ghost items = wallets@.map_values(|e: (Seq<char>, String)| wallet_line(e));
    let mut s = "wallets:\n".to_owned();
    let mut i: usize = 0;
    assert(items.take(0) =~= Seq::<Seq<char>>::empty());
    while i < wallets.len()
        invariant
            i <= wallets@.len(),
            wallets_sliceable(wallets@),
            items == wallets@.map_values(|e: (Seq<char>, String)| wallet_line(e)),
            s@ == "wallets:\n"@ + concat_all(items.take(i as int)),
        decreases wallets@.len() - i,
    {
        proof {
            lemma_concat_all_take(items, i as int);
        }
        assert(address_sliceable(wallets@[i as int].1@));
        s.append("  ");
        s.append(wallets.key_at(i).as_str());
        s.append(": ");
        let short = shorten_address(wallets.value_at(i).as_str());
        s.append(short.as_str());
        s.append("\n");
        i += 1;
    }
    assert(items.take(i as int) =~= items);
    s
}

/// A catalog text field, or `?` where it is missing.
pub open spec fn or_question(o: Option<String>) -> Seq<char> {
    match o {
        Some(s) => s@,
        None => "?"@,
    }
}

fn or_question_text(o: &Option<String>) -> (s: String)
    ensures
        s@ == or_question(*o),
{
    match o {
        Some(x) => x.clone(),
        None => "?".to_owned(),
    }
}

/// The strings of a catalog list, skipping elements that are not strings.
pub open spec fn present(v: Seq<Option<String>>) -> Seq<Seq<char>>
    decreases v.len(),
{
    if v.len() == 0 {
        seq![]
    } else {
        match v.last() {
            Some(x) => present(v.drop_last()).push(x@),
            None => present(v.drop_last()),
        }
    }
}

/// The strings of an optional catalog list; none where it is missing.
pub open spec fn list_strings(o: Option<Vec<Option<String>>>) -> Seq<Seq<char>> {
    match o {
        Some(v) => present(v@),
        None => seq![],
    }
}

fn list_strings_of(o: &Option<Vec<Option<String>>>) -> (r: Vec<String>)
    ensures
        string_views(r@) == list_strings(*o),
{
    let mut r: Vec<String> = Vec::new();
    match o {
        None => {
            assert(string_views(r@) =~= Seq::<Seq<char>>::empty());
        },
        Some(v) => {
            let mut i: usize = 0;
            assert(string_views(r@) =~= present(v@.take(0)));
            while i < v.len()
                invariant
                    i <= v@.len(),
                    string_views(r@) == present(v@.take(i as int)),
                decreases v.len() - i,
            {
                assert(v@.take(i + 1).drop_last() =~= v@.take(i as int));
                assert(v@.take(i + 1).last() == v@[i as int]);
                match &v[i] {
                    Some(x) => {
                        let ghost before = string_views(r@);
                        r.push(x.clone());
                        assert(string_views(r@) =~= before.push(x@));
                    },
                    None => {},
                }
                i += 1;
            }
            assert(v@.take(i as int) =~= v@);
        },
    }
    r
}

/// `s` in upper case, as `str::to_uppercase` maps it.
pub uninterp spec fn uppercase(s: Seq<char>) -> Seq<char>;

/// Calls `str::to_uppercase`; the contract names its result `uppercase(s)`.
#[verifier::external_body]
fn to_upper(s: &str) -> (r: String)
    ensures
        r@ == uppercase(s@),
{
    s.to_uppercase()
}

/// One miner of the store listing.
pub open spec fn store_miner_line(m: CatalogItem) -> Seq<char> {
    "  "@ + or_question(m.name) + " v"@ + or_question(m.version) + " ["@
        + join(list_strings(m.hardware).map_values(|h: Seq<char>| uppercase(h)), ", "@) + "]\n"@
}

/// One wallet of the store listing.
pub open spec fn store_wallet_line(w: CatalogItem) -> Seq<char> {
    "  "@ + or_question(w.name) + " ("@ + or_question(w.coin) + ")\n"@
}

/// One pool of the store listing.
pub open spec fn store_pool_line(p: CatalogItem) -> Seq<char> {
    "  "@ + or_question(p.name) + " ["@ + join(list_strings(p.coins), ", "@) + "]\n"@
}

/// Which store section a listing is of.
#[derive(Clone, Copy, PartialEq, Eq, Structural)]
pub enum Section {
    Miners,
    Wallets,
    Pools,
}

/// One entry of the store listing of `section`.
pub open spec fn store_line(section: Section, item: CatalogItem) -> Seq<char> {
    match section {
        Section::Miners => store_miner_line(item),
        Section::Wallets => store_wallet_line(item),
        Section::Pools => store_pool_line(item),
    }
}

/// The answer to `store list <section>`.
pub open spec fn store_list_text(section: Section, c: Catalog) -> Seq<char> {
    let (items, title, none) = match section {
        Section::Miners => (c.miners, "Available miners:\n"@, "No miners in catalog"@),
        Section::Wallets => (c.wallets, "Available wallets:\n"@, "No wallets in catalog"@),
        Section::Pools => (c.pools, "Available pools:\n"@, "No pools in catalog"@),
    };
    match items {
        Some(v) => title + concat_all(v@.map_values(|i: CatalogItem| store_line(section, i))),
        None => none,
    }
}

fn store_line_text(section: Section, item: &CatalogItem) -> (s: String)
    ensures
        s@ == store_line(section, *item),
{
    let mut s = "  ".to_owned();
    let name = or_question_text(&item.name);
    s.append(name.as_str());
    match section {
        Section::Miners => {
            s.append(" v");
            let ver = or_question_text(&item.version);
            s.append(ver.as_str());
            s.append(" [");
            let hw = list_strings_of(&item.hardware);
            let mut up: Vec<String> = Vec::new();
            let mut i: usize = 0;
            while i < hw.len()
                invariant
                    i <= hw@.len(),
                    string_views(up@) == string_views(hw@).take(i as int).map_values(|h: Seq<char>| uppercase(h)),
                decreases hw.len() - i,
            {
                let ghost before = string_views(up@);
                up.push(to_upper(hw[i].as_str()));
                assert(string_views(up@) =~= before.push(uppercase(hw@[i as int]@)));
                assert(string_views(hw@).take(i + 1).map_values(|h: Seq<char>| uppercase(h))
                    =~= string_views(hw@).take(i as int).map_values(|h: Seq<char>| uppercase(h)).push(uppercase(hw@[i as int]@)));
                i += 1;
            }
            assert(string_views(hw@).take(i as int) =~= string_views(hw@));
            let j = join_strings(&up, ", ");
            s.append(j.as_str());
            s.append("]\n");
        },
        Section::Wallets => {
            s.append(" (");
            let coin = or_question_text(&item.coin);
            s.append(coin.as_str());
            s.append(")\n");
        },
        Section::Pools => {
            s.append(" [");
            let coins = list_strings_of(&item.coins);
            let j = join_strings(&coins, ", ");
            s.append(j.as_str());
            s.append("]\n");
        },
    }
    s
}

/// Answers `store list <section>` from the catalog `c`.
pub fn store_list_response(section: Section, c: &Catalog) -> (s: String)
    ensures
        s@ == store_list_text(section, *c),
{
    let items = match section {
        Section::Miners => &c.miners,
        Section::Wallets => &c.wallets,
        Section::Pools => &c.pools,
    };
    match items {
        None => match section {
            Section::Miners => "No miners in catalog".to_owned(),
            Section::Wallets => "No wallets in catalog".to_owned(),
            Section::Pools => "No pools in catalog".to_owned(),
        },
        Some(v) => {
            let mut s = match section {
                Section::Miners => "Available miners:\n".to_owned(),
                Section::Wallets => "Available wallets:\n".to_owned(),
                Section::Pools => "Available pools:\n".to_owned(),
            };
            let ghost head = s@;
            let ghost lines = v@.map_values(|i: CatalogItem| store_line(section, i));
            let mut i: usize = 0;
            assert(lines.take(0) =~= Seq::<Seq<char>>::empty());
            while i < v.len()
                invariant
                    i <= v@.len(),
                    lines == v@.map_values(|i: CatalogItem| store_line(section, i)),
                    s@ == head + concat_all(lines.take(i as int)),
                decreases v.len() - i,
            {
                proof {
                    lemma_concat_all_take(lines, i as int);
                }
                let line = store_line_text(section, &v[i]);
                s.append(line.as_str());
                i += 1;
            }
            assert(lines.take(i as int) =~= lines);
            s
        },
    }
}

/// The first catalog entry whose id is `id`.
pub open spec fn item_with_id(items: Seq<CatalogItem>, id: Seq<char>) -> Option<CatalogItem>
    decreases items.len(),
{
    if items.len() == 0 {
        None
    } else if items[0].id matches Some(x) && x@ == id {
        Some(items[0])
    } else {
        item_with_id(items.drop_first(), id)
    }
}

/// The name shown for the installed miner `id`: the name of the first
/// catalog miner with that id, or else the id.
pub open spec fn miner_display_name(miners: Option<Vec<CatalogItem>>, id: Seq<char>) -> Seq<char> {
    match miners {
        Some(v) => match item_with_id(v@, id) {
            Some(item) => match item.name {
                Some(n) => n@,
                None => id,
            },
            None => id,
        },
        None => id,
    }
}

fn display_name(miners: &Option<Vec<CatalogItem>>, id: &str) -> (s: String)
    ensures
        s@ == miner_display_name(*miners, id@),
{
    match miners {
        None => id.to_owned(),
        Some(v) => {
            let mut i: usize = 0;
            assert(v@.skip(0) =~= v@);
            while i < v.len()
                invariant
                    i <= v@.len(),
                    *miners == Some(*v),
                    item_with_id(v@, id@) == item_with_id(v@.skip(i as int), id@),
                decreases v.len() - i,
            {
                assert(v@.skip(i as int).drop_first() =~= v@.skip(i + 1));
                assert(v@.skip(i as int)[0] == v@[i as int]);
                let found = match &v[i].id {
                    Some(x) => str_eq(x.as_str(), id),
                    None => false,
                };
                if found {
                    assert(item_with_id(v@.skip(i as int), id@) == Some(v@[i as int]));
                    let r = match &v[i].name {
                        Some(n) => n.clone(),
                        None => id.to_owned(),
                    };
                    return r;
                }
                i += 1;
            }
            assert(v@.skip(i as int) =~= Seq::<CatalogItem>::empty());
            id.to_owned()
        },
    }
}

/// One installed miner of `miner list`.
pub open spec fn installed_line(miners: Option<Vec<CatalogItem>>, id: Seq<char>) -> Seq<char> {
    "  "@ + miner_display_name(miners, id) + " \u{2014} run '"@ + id + "' to launch\n"@
}

/// The answer to `miner list` when no miner is installed.
pub open spec fn no_miners_text() -> Seq<char> {
    "miners: (none installed)\nTip: use 'strawberry-cli store install <miner>' or the Store app."@
}

/// The answer to `miner list` for the installed miners `ids`, named from
/// the catalog `c`.
pub open spec fn miner_list_text(ids: Seq<Seq<char>>, c: Catalog) -> Seq<char> {
    if ids.len() == 0 {
        no_miners_text()
    } else {
        "Installed miners:\n"@ + concat_all(ids.map_values(|id: Seq<char>| installed_line(c.miners, id)))
    }
}

/// Answers `miner list`.
pub fn miner_list_response(ids: &Vec<String>, c: &Catalog) -> (s: String)
    ensures
        s@ == miner_list_text(string_views(ids@), *c),
{
    if ids.len() == 0 {
        return "miners: (none installed)\nTip: use 'strawberry-cli store install <miner>' or the Store app.".to_owned();
    }
    let ghost lines = string_views(ids@).map_values(|id: Seq<char>| installed_line(c.miners, id));
    let mut s = "Installed miners:\n".to_owned();
    let mut i: usize = 0;
    assert(lines.take(0) =~= Seq::<Seq<char>>::empty());
    while i < ids.len()
        invariant
            i <= ids@.len(),
            lines == string_views(ids@).map_values(|id: Seq<char>| installed_line(c.miners, id)),
            s@ == "Installed miners:\n"@ + concat_all(lines.take(i as int)),
        decreases ids.len() - i,
    {
        proof {
            lemma_concat_all_take(lines, i as int);
        }
        s.append("  ");
        let name = display_name(&c.miners, ids[i].as_str());
        s.append(name.as_str());
        s.append(" \u{2014} run '");
        s.append(ids[i].as_str());
        s.append("' to launch\n");
        i += 1;
    }
    assert(lines.take(i as int) =~= lines);
    s
}


/// The answer to `pool ping` for the pool `e` and the probe result.
pub open spec fn latency_text(name: Seq<char>, address: Seq<char>, port: u16, reachable: bool, latency_ms: Option<u64>) -> Seq<char> {
    if reachable {
        name + " ("@ + endpoint(address, port) + ") \u{2014} "@ + decimal(
            match latency_ms {
                Some(ms) => ms as nat,
                None => 0,
            },
        ) + "ms"@
    } else {
        name + " ("@ + endpoint(address, port) + ") \u{2014} unreachable"@
    }
}

/// Answers `pool ping` from a probe result.
pub fn latency_response(name: &str, address: &str, port: u16, reachable: bool, latency_ms: Option<u64>) -> (s: String)
    ensures
        s@ == latency_text(name@, address@, port, reachable, latency_ms),
{
    let mut s = name.to_owned();
    s.append(" (");
    append_endpoint(&mut s, address, port);
    if reachable {
        s.append(") \u{2014} ");
        let ms = match latency_ms {
            Some(ms) => ms,
            None => 0,
        };
        let t = decimal_text(ms);
        s.append(t.as_str());
        s.append("ms");
    } else {
        s.append(") \u{2014} unreachable");
    }
    s
}

/// `prefix` followed by `text`.
pub open spec fn prefixed(prefix: Seq<char>, text: Seq<char>) -> Seq<char> {
    prefix + text
}

/// `prefix` followed by `text`, as a string.
pub fn prefixed_text(prefix: &str, text: &str) -> (s: String)
    ensures
        s@ == prefixed(prefix@, text@),
{
    let mut s = prefix.to_owned();
    s.append(text);
    s
}

/// The answer to `wallet new <coin>` once the wallet exists.
pub open spec fn wallet_generated_text(coin: Seq<char>, address: Seq<char>, seed: Seq<char>) -> Seq<char> {
    "New "@ + coin + " wallet generated!\nAddress: "@ + address + "\nSeed: "@ + seed
        + "\n\nIMPORTANT: Write down the seed and store it safely. It cannot be recovered."@
}

/// Answers `wallet new <coin>` once the wallet exists.
pub fn wallet_generated_response(coin: &str, address: &str, seed: &str) -> (s: String)
    ensures
        s@ == wallet_generated_text(coin@, address@, seed@),
{
    let mut s = "New ".to_owned();
    s.append(coin);
    s.append(" wallet generated!\nAddress: ");
    s.append(address);
    s.append("\nSeed: ");
    s.append(seed);
    s.append("\n\nIMPORTANT: Write down the seed and store it safely. It cannot be recovered.");
    s
}

} // verus!
