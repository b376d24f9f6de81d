//! Non-custodial wallet management: seeds and keys stay on the machine.

use vstd::prelude::*;
use crate::strmap::{has_key, StrMap};
use crate::text::{byte_len, byte_len_of, has_infix, has_prefix, join, lines, lines_of, skip_vec, starts_with_chars, trim, trim_vec, views, words, words_of, contains_chars, join_strings, string_of, chars_of, decimal, decimal_text, join_path, path_join, str_eq, string_of_range};

verus! {

/// A coin the wallet manager knows how to create wallets for.
#[derive(Clone, Copy)]
pub struct CoinDef {
    pub id: &'static str,
    pub name: &'static str,
    /// The wallet tool, looked for under `/usr/bin`.
    pub binary: &'static str,
    /// Extra network flag for the tool; empty for mainnet.
    pub network_flag: &'static str,
}

/// The supported coins: Monero only.
pub open spec fn supported_coin_ids() -> Seq<Seq<char>> {
    seq!["monero"@]
}

/// The supported coins.
pub fn supported_coins() -> (v: Vec<CoinDef>)
    ensures
        v@.len() == 1,
        v@[0].id@ == "monero"@,
        v@[0].name@ == "Monero (XMR)"@,
        v@[0].binary@ == "monero-wallet-cli"@,
        v@[0].network_flag@ == ""@,
{
    let mut v = Vec::new();
    v.push(CoinDef { id: "monero", name: "Monero (XMR)", binary: "monero-wallet-cli", network_flag: "" });
    v
}

/// The definition of `coin`, if it is supported.
pub fn find_coin(coin: &str) -> (r: Option<CoinDef>)
    ensures
        r is Some <==> supported_coin_ids().contains(coin@),
        r matches Some(d) ==> d.id@ == coin@ && d.binary@ == "monero-wallet-cli"@ && d.name@ == "Monero (XMR)"@
            && d.network_flag@ == ""@,
{
    let coins = supported_coins();
    let mut i: usize = 0;
    while i < coins.len()
        invariant
            i <= coins@.len(),
            coins@.len() == 1,
            coins@[0].id@ == supported_coin_ids()[0],
            coins@[0].name@ == "Monero (XMR)"@,
            coins@[0].binary@ == "monero-wallet-cli"@,
            coins@[0].network_flag@ == ""@,
            forall|j: int| 0 <= j < i ==> coins@[j].id@ != coin@,
        decreases coins.len() - i,
    {
        if str_eq(coins[i].id, coin) {
            return Some(coins[i]);
        }
        i += 1;
    }
    assert(!supported_coin_ids().contains(coin@)) by {
        assert(supported_coin_ids().len() == 1);
    }
    None
}

/// Why a wallet operation failed.
#[derive(Debug)]
pub enum WalletError {
    UnsupportedCoin(String),
    InvalidMoneroAddress { len: usize, first: String },
    BinaryMissing { binary: String, path: String, coin: String },
    GenerationFailed { stdout: String, stderr: String },
    AddressNotFound { stdout: String },
    Io(String),
}

/// The text of a wallet error.
pub open spec fn wallet_error_text(e: WalletError) -> Seq<char> {
    match e {
        WalletError::UnsupportedCoin(c) => "Unsupported coin: "@ + c@,
        WalletError::InvalidMoneroAddress { len, first } =>
            "Invalid Monero address. Expected 95 chars starting with '4', got "@ + decimal(len as nat)
                + " chars starting with '"@ + first@ + "'"@,
        WalletError::BinaryMissing { binary, path, coin } =>
            binary@ + " not found at "@ + path@ + ". Install it with: pacman -S "@ + coin@,
        WalletError::GenerationFailed { stdout, stderr } =>
            "Failed to generate wallet:\nstdout: "@ + stdout@ + "\nstderr: "@ + stderr@,
        WalletError::AddressNotFound { stdout } => "Could not parse address from output:\n"@ + stdout@,
        WalletError::Io(m) => m@,
    }
}

impl WalletError {
    /// The error's message.
    pub fn message(&self) -> (s: String)
        ensures
            s@ == wallet_error_text(*self),
    {
        match self {
            WalletError::UnsupportedCoin(c) => {
                let mut s = "Unsupported coin: ".to_owned();
                s.append(c.as_str());
                s
            },
            WalletError::InvalidMoneroAddress { len, first } => {
                let mut s = "Invalid Monero address. Expected 95 chars starting with '4', got ".to_owned();
                let n = decimal_text(*len as u64);
                s.append(n.as_str());
                s.append(" chars starting with '");
                s.append(first.as_str());
                s.append("'");
                s
            },
            WalletError::BinaryMissing { binary, path, coin } => {
                let mut s = binary.clone();
                s.append(" not found at ");
                s.append(path.as_str());
                s.append(". Install it with: pacman -S ");
                s.append(coin.as_str());
                s
            },
            WalletError::GenerationFailed { stdout, stderr } => {
                let mut s = "Failed to generate wallet:\nstdout: ".to_owned();
                s.append(stdout.as_str());
                s.append("\nstderr: ");
                s.append(stderr.as_str());
                s
            },
            WalletError::AddressNotFound { stdout } => {
                let mut s = "Could not parse address from output:\n".to_owned();
                s.append(stdout.as_str());
                s
            },
            WalletError::Io(m) => m.clone(),
        }
    }
}

/// A well-formed Monero address: starts with `4` and is 95 bytes long.
pub open spec fn valid_monero_address(a: Seq<char>) -> bool {
    a.len() > 0 && a[0] == '4' && byte_len(a) == 95
}

/// Whether `set_address` would stop on `address` for `coin`: the coin is
/// Monero, the address is invalid, and its first character is not one byte
/// long, so the one-byte prefix that the error reports is not a string.
pub open spec fn address_error_unprintable(coin: Seq<char>, address: Seq<char>) -> bool {
    coin == "monero"@ && address.len() > 0 && address[0] as u32 >= 0x80
}

/// Whether `set_address` accepts `address` for `coin`: the coin is
/// supported, and a Monero address is well formed.
pub open spec fn address_accepted(coin: Seq<char>, address: Seq<char>) -> bool {
    supported_coin_ids().contains(coin) && (coin == "monero"@ ==> valid_monero_address(address))
}

/// `set_address` accepts an address for Monero exactly when it starts with
/// `4` and is 95 bytes long, and for no other coin.
pub proof fn law_address_rule(coin: Seq<char>, address: Seq<char>)
    ensures
        address_accepted(coin, address) <==> (coin == "monero"@ && address.len() > 0 && address[0] == '4'
            && byte_len(address) == 95),
{
    assert(supported_coin_ids()[0] == "monero"@);
    assert(supported_coin_ids().contains(coin) <==> coin == "monero"@);
}

/// What the error for a rejected address quotes of it: its first character,
/// if it has one.
pub open spec fn quoted_prefix(address: Seq<char>) -> Seq<char> {
    address.take(if address.len() > 0 { 1int } else { 0int })
}

/// The text of the error `set_address` gives for a rejected address.
pub open spec fn address_rejection(coin: Seq<char>, address: Seq<char>) -> Seq<char> {
    if !supported_coin_ids().contains(coin) {
        "Unsupported coin: "@ + coin
    } else {
        "Invalid Monero address. Expected 95 chars starting with '4', got "@ + decimal(byte_len(address) as nat)
            + " chars starting with '"@ + quoted_prefix(address) + "'"@
    }
}

/// Manages the wallets kept under a data directory.
pub struct WalletManager {
    data_dir: String,
}

impl WalletManager {
    /// The data directory.
    pub closed spec fn data_dir(&self) -> Seq<char> {
        self.data_dir@
    }

    /// A manager for the wallets under `data_dir`.
    pub fn new(data_dir: String) -> (m: Self)
        ensures
            m.data_dir() == data_dir@,
    {
        WalletManager { data_dir }
    }

    /// The wallet directory of `coin`: `<data_dir>/wallets/<coin>`.
    pub fn wallet_dir(&self, coin: &str) -> (p: String)
        ensures
            p@ == path_join(path_join(self.data_dir(), "wallets"@), coin@),
    {
        let w = join_path(self.data_dir.as_str(), "wallets");
        join_path(w.as_str(), coin)
    }

    /// The configured wallets as `(coin, address)` pairs, in the map's order;
    /// no coin is listed twice.
    pub fn list(&self, wallets: &StrMap<String>) -> (v: Vec<(String, String)>)
        ensures
            v@.len() == wallets@.len(),
            forall|i: int| 0 <= i < v@.len() ==> #[trigger] v@[i].0@ == wallets@[i].0 && v@[i].1 == wallets@[i].1,
            forall|i: int, j: int| 0 <= i < v@.len() && 0 <= j < v@.len() && i != j ==> #[trigger] v@[i].0@ != #[trigger] v@[j].0@,
    {
        let mut v: Vec<(String, String)> = Vec::new();
        let mut i: usize = 0;
        while i < wallets.len()
            invariant
                i <= wallets@.len(),
                v@.len() == i,
                forall|j: int| 0 <= j < i ==> #[trigger] v@[j].0@ == wallets@[j].0 && v@[j].1 == wallets@[j].1,
            decreases wallets@.len() - i,
        {
            let k = wallets.key_at(i).clone();
            let a = wallets.value_at(i).clone();
            v.push((k, a));
            i += 1;
        }
        v
    }

    /// Checks an existing wallet address for `coin` before it is stored:
    /// the coin must be supported, and a Monero address must be 95 bytes
    /// starting with `4`.
    pub fn set_address(&self, coin: &str, address: &str) -> (r: Result<(), WalletError>)
        requires
            !address_error_unprintable(coin@, address@),
        ensures
            r is Ok <==> address_accepted(coin@, address@),
            r matches Err(e) ==> wallet_error_text(e) == address_rejection(coin@, address@),
            r matches Err(e) ==> if supported_coin_ids().contains(coin@) {
                e matches WalletError::InvalidMoneroAddress { len, first } && len == byte_len(address@)
                    && first@ == quoted_prefix(address@)
            } else {
                e matches WalletError::UnsupportedCoin(c) && c@ == coin@
            },
    {
        if find_coin(coin).is_none() {
            return Err(WalletError::UnsupportedCoin(coin.to_owned()));
        }
        let a = chars_of(address);
        let n = address.len();
        assert(supported_coin_ids().contains(coin@));
        assert(coin@ == "monero"@) by {
            let i = choose|i: int| 0 <= i < supported_coin_ids().len() && supported_coin_ids()[i] == coin@;
            assert(i == 0);
        }
        if str_eq(coin, "monero") && (!(a.len() > 0 && a[0] == '4') || n != 95) {
            let first = if a.len() > 0 {
                string_of_range(&a, 0, 1)
            } else {
                String::new()
            };
            proof {
                if a.len() > 0 {
                    assert(a@.subrange(0, 1) =~= address@.take(1));
                } else {
                    assert(address@.take(0) =~= Seq::<char>::empty());
                }
            }
            return Err(WalletError::InvalidMoneroAddress { len: n, first });
        }
        Ok(())
    }

    /// Whether a wallet is configured for `coin`.
    pub fn wallet_exists(&self, coin: &str, wallets: &StrMap<String>) -> (b: bool)
        ensures
            b == has_key(wallets@, coin@),
    {
        wallets.contains_key(coin)
    }
}


/// Whether `v` is a well-formed Monero address.
fn is_monero_address(v: &Vec<char>) -> (b: bool)
    ensures
        b == valid_monero_address(v@),
{
    v.len() > 0 && v[0] == '4' && byte_len_of(v) == 95
}

/// The address a line of wallet-tool output shows, if any: the trimmed line
/// itself, or what follows `Generated new wallet: ` on it.
pub open spec fn address_in_line(line: Seq<char>) -> Option<Seq<char>> {
    let t = trim(line);
    let rest = trim(t.skip("Generated new wallet: "@.len() as int));
    if valid_monero_address(t) {
        Some(t)
    } else if has_prefix(t, "Generated new wallet: "@) && valid_monero_address(rest) {
        Some(rest)
    } else {
        None
    }
}

/// The first address shown in `ls`, if any.
pub open spec fn first_address(ls: Seq<Seq<char>>) -> Option<Seq<char>>
    decreases ls.len(),
{
    if ls.len() == 0 {
        None
    } else {
        match address_in_line(ls[0]) {
            Some(a) => Some(a),
            None => first_address(ls.drop_first()),
        }
    }
}

/// Every address found in wallet-tool output is well formed.
proof fn lemma_first_address_valid(ls: Seq<Seq<char>>)
    ensures
        first_address(ls) matches Some(a) ==> valid_monero_address(a),
    decreases ls.len(),
{
    if ls.len() > 0 {
        lemma_first_address_valid(ls.drop_first());
    }
}

/// An address read out of the wallet tool's output is one that
/// `set_address` accepts for Monero.
pub proof fn law_parsed_address_accepted(output: Seq<char>)
    ensures
        first_address(lines(output)) matches Some(a) ==> valid_monero_address(a) && address_accepted("monero"@, a),
{
    lemma_first_address_valid(lines(output));
    assert(supported_coin_ids()[0] == "monero"@);
}

/// Finds the Monero address in the output of the wallet tool.
pub fn parse_address(output: &str) -> (r: Option<String>)
    ensures
        r is Some <==> first_address(lines(output@)) is Some,
        r matches Some(a) ==> first_address(lines(output@)) == Some(a@),
{
    let v = chars_of(output);
    let ls = lines_of(&v);
    let marker = chars_of("Generated new wallet: ");
    let ghost all = views(ls@);
    let mut i: usize = 0;
    assert(all.skip(0) =~= all);
    while i < ls.len()
        invariant
            i <= ls@.len(),
            all == views(ls@),
            all == lines(output@),
            marker@ == "Generated new wallet: "@,
            first_address(all) == first_address(all.skip(i as int)),
        decreases ls.len() - i,
    {
        let ghost rest = all.skip(i as int);
        assert(rest[0] == ls@[i as int]@);
        assert(rest.drop_first() =~= all.skip(i + 1));
        let t = trim_vec(&ls[i]);
        if is_monero_address(&t) {
            return Some(string_of(&t));
        }
        if starts_with_chars(&t, &marker) {
            let tail = skip_vec(&t, marker.len());
            let a = trim_vec(&tail);
            if is_monero_address(&a) {
                return Some(string_of(&a));
            }
        }
        i += 1;
    }
    assert(all.skip(i as int) =~= Seq::<Seq<char>>::empty());
    None
}


/// Whether `c` has the Unicode `Alphabetic` property, as
/// `char::is_alphabetic` decides it.
pub uninterp spec fn alphabetic(c: char) -> bool;

/// Calls `char::is_alphabetic`; the contract names its result `alphabetic(c)`.
#[verifier::external_body]
fn is_alphabetic(c: char) -> (b: bool)
    ensures
        b == alphabetic(c),
{
    c.is_alphabetic()
}

/// A word that can belong to a seed: alphabetic throughout and longer than
/// one byte.
pub open spec fn is_seed_word(w: Seq<char>) -> bool {
    (forall|i: int| 0 <= i < w.len() ==> alphabetic(#[trigger] w[i])) && byte_len(w) > 1
}

/// The seed words among `ws`, in order.
pub open spec fn seed_words(ws: Seq<Seq<char>>) -> Seq<Seq<char>>
    decreases ws.len(),
{
    if ws.len() == 0 {
        seq![]
    } else if is_seed_word(ws.last()) {
        seed_words(ws.drop_last()).push(ws.last())
    } else {
        seed_words(ws.drop_last())
    }
}

/// The words collected from `ls` after the line that announces the 25
/// recovery words and up to a line starting with `*`, added to `acc`.
pub open spec fn seed_scan(ls: Seq<Seq<char>>, in_seed: bool, acc: Seq<Seq<char>>) -> Seq<Seq<char>>
    decreases ls.len(),
{
    if ls.len() == 0 {
        acc
    } else {
        let t = trim(ls[0]);
        if has_infix(t, "the following 25 words"@) {
            seed_scan(ls.drop_first(), true, acc)
        } else if in_seed && t.len() > 0 && t[0] == '*' {
            acc
        } else if in_seed && t.len() > 0 {
            seed_scan(ls.drop_first(), true, acc + seed_words(words(t)))
        } else {
            seed_scan(ls.drop_first(), in_seed, acc)
        }
    }
}

/// The first line of `ls` that, trimmed, has exactly 25 words; trimmed.
pub open spec fn first_line_of_25_words(ls: Seq<Seq<char>>) -> Option<Seq<char>>
    decreases ls.len(),
{
    if ls.len() == 0 {
        None
    } else if words(trim(ls[0])).len() == 25 {
        Some(trim(ls[0]))
    } else {
        first_line_of_25_words(ls.drop_first())
    }
}

/// The recovery seed shown in wallet-tool output: the collected words joined
/// by spaces, or else the first line of exactly 25 words.
pub open spec fn seed_text(output: Seq<char>) -> Option<Seq<char>> {
    let ws = seed_scan(lines(output), false, seq![]);
    if ws.len() > 0 {
        Some(join(ws, " "@))
    } else {
        first_line_of_25_words(lines(output))
    }
}

/// The views of a vector of strings.
pub open spec fn string_views(v: Seq<String>) -> Seq<Seq<char>> {
    v.map_values(|s: String| s@)
}

/// Whether `w` is a seed word.
fn check_seed_word(w: &Vec<char>) -> (b: bool)
    ensures
        b == is_seed_word(w@),
{
    let mut i: usize = 0;
    while i < w.len()
        invariant
            i <= w.len(),
            forall|m: int| 0 <= m < i ==> alphabetic(#[trigger] w@[m]),
        decreases w.len() - i,
    {
        if !is_alphabetic(w[i]) {
            return false;
        }
        i += 1;
    }
    byte_len_of(w) > 1
}

/// Adds the seed words of the line `t` to `acc`.
fn collect_seed_words(t: &Vec<char>, acc: &mut Vec<String>)
    ensures
        string_views(final(acc)@) == string_views(old(acc)@) + seed_words(words(t@)),
{
    let ws = words_of(t);
    let ghost start = string_views(acc@);
    let ghost all = views(ws@);
    let mut j: usize = 0;
    assert(all.take(0) =~= Seq::<Seq<char>>::empty());
    assert(start + seed_words(Seq::<Seq<char>>::empty()) =~= start);
    while j < ws.len()
        invariant
            j <= ws@.len(),
            all == views(ws@),
            all == words(t@),
            string_views(acc@) == start + seed_words(all.take(j as int)),
        decreases ws.len() - j,
    {
        assert(all.take(j + 1).drop_last() =~= all.take(j as int));
        assert(all.take(j + 1).last() == ws@[j as int]@);
        if check_seed_word(&ws[j]) {
            let ghost before = string_views(acc@);
            acc.push(string_of(&ws[j]));
            assert(string_views(acc@) =~= before.push(ws@[j as int]@));
        }
        j += 1;
    }
    assert(all.take(j as int) =~= all);
}

/// Finds the mnemonic seed in the output of the wallet tool.
pub fn parse_seed(output: &str) -> (r: Option<String>)
    ensures
        r is Some <==> seed_text(output@) is Some,
        r matches Some(s) ==> seed_text(output@) == Some(s@),
{
    let v = chars_of(output);
    let ls = lines_of(&v);
    let marker = chars_of("the following 25 words");
    let ghost all = views(ls@);
    let mut acc: Vec<String> = Vec::new();
    let mut in_seed = false;
    let mut i: usize = 0;
    assert(all.skip(0) =~= all);
    assert(string_views(acc@) =~= Seq::<Seq<char>>::empty());
    while i < ls.len()
        invariant
            i <= ls@.len(),
            all == views(ls@),
            all == lines(output@),
            marker@ == "the following 25 words"@,
            seed_scan(all, false, seq![]) == seed_scan(all.skip(i as int), in_seed, string_views(acc@)),
        decreases ls.len() - i,
    {
        let ghost rest = all.skip(i as int);
        assert(rest[0] == ls@[i as int]@);
        assert(rest.drop_first() =~= all.skip(i + 1));
        let t = trim_vec(&ls[i]);
        if contains_chars(&t, &marker) {
            in_seed = true;
            i += 1;
        } else if in_seed && t.len() > 0 && t[0] == '*' {
            i = ls.len();
            assert(all.skip(i as int) =~= Seq::<Seq<char>>::empty());
        } else if in_seed && t.len() > 0 {
            collect_seed_words(&t, &mut acc);
            i += 1;
        } else {
            i += 1;
        }
    }
    assert(all.skip(i as int) =~= Seq::<Seq<char>>::empty());
    if acc.len() > 0 {
        return Some(join_strings(&acc, " "));
    }
    let mut k: usize = 0;
    assert(all.skip(0) =~= all);
    while k < ls.len()
        invariant
            k <= ls@.len(),
            all == views(ls@),
            all == lines(output@),
            seed_scan(all, false, seq![]).len() == 0,
            first_line_of_25_words(all) == first_line_of_25_words(all.skip(k as int)),
        decreases ls.len() - k,
    {
        let ghost rest = all.skip(k as int);
        assert(rest[0] == ls@[k as int]@);
        assert(rest.drop_first() =~= all.skip(k + 1));
        let t = trim_vec(&ls[k]);
        let ws = words_of(&t);
        if ws.len() == 25 {
            return Some(string_of(&t));
        }
        k += 1;
    }
    assert(all.skip(k as int) =~= Seq::<Seq<char>>::empty());
    None
}


/// The path of the wallet tool of a supported coin: `/usr/bin/` and the
/// tool's name.
pub fn tool_path(coin: &str) -> (r: Result<String, WalletError>)
    ensures
        r is Ok <==> supported_coin_ids().contains(coin@),
        r matches Ok(p) ==> p@ == "/usr/bin/"@ + "monero-wallet-cli"@,
        r matches Err(e) ==> e matches WalletError::UnsupportedCoin(c) && c@ == coin@,
{
    match find_coin(coin) {
        Some(d) => {
            let mut p = "/usr/bin/".to_owned();
            p.append(d.binary);
            Ok(p)
        },
        None => Err(WalletError::UnsupportedCoin(coin.to_owned())),
    }
}

/// What follows the check for the wallet tool at `path`: nothing where it is
/// there, else an error that says how to install it.
pub fn check_tool(coin: &str, path: &str, present: bool) -> (r: Result<(), WalletError>)
    ensures
        r is Ok <==> present,
        r matches Err(e) ==> e matches WalletError::BinaryMissing { binary, path: p, coin: c }
            && binary@ == "monero-wallet-cli"@ && p@ == path@ && c@ == coin@,
{
    if present {
        Ok(())
    } else {
        Err(WalletError::BinaryMissing {
            binary: "monero-wallet-cli".to_owned(),
            path: path.to_owned(),
            coin: coin.to_owned(),
        })
    }
}

/// Seed text used when the tool's output shows none.
pub open spec fn seed_missing_text() -> Seq<char> {
    "Seed not captured \u{2014} check wallet file"@
}

/// The result of a wallet generation, given whether the tool succeeded and
/// what it printed.
pub open spec fn generation_result(success: bool, stdout: Seq<char>, stderr: Seq<char>) -> Option<(Seq<char>, Seq<char>)> {
    if success && first_address(lines(stdout)) is Some {
        Some((first_address(lines(stdout))->0, match seed_text(stdout) {
            Some(s) => s,
            None => seed_missing_text(),
        }))
    } else {
        None
    }
}

/// Reads the address and seed out of the wallet tool's output.
pub fn generation_outcome(success: bool, stdout: &str, stderr: &str) -> (r: Result<(String, String), WalletError>)
    ensures
        r is Ok <==> generation_result(success, stdout@, stderr@) is Some,
        r matches Ok((a, s)) ==> generation_result(success, stdout@, stderr@) == Some((a@, s@)),
        r matches Err(e) ==> if success {
            e matches WalletError::AddressNotFound { stdout: o } && o@ == stdout@
        } else {
            e matches WalletError::GenerationFailed { stdout: o, stderr: x } && o@ == stdout@ && x@ == stderr@
        },
{
    if !success {
        return Err(WalletError::GenerationFailed { stdout: stdout.to_owned(), stderr: stderr.to_owned() });
    }
    let address = match parse_address(stdout) {
        Some(a) => a,
        None => {
            return Err(WalletError::AddressNotFound { stdout: stdout.to_owned() });
        },
    };
    let seed = match parse_seed(stdout) {
        Some(s) => s,
        None => "Seed not captured \u{2014} check wallet file".to_owned(),
    };
    Ok((address, seed))
}

/// The arguments the wallet tool is run with to create a wallet at
/// `wallet_path`, offline and without a password.
pub fn generate_args(wallet_path: &str) -> (v: Vec<String>)
    ensures
        string_views(v@) == seq![
            "--generate-new-wallet="@ + wallet_path@,
            "--password"@,
            ""@,
            "--mnemonic-language"@,
            "English"@,
            "--offline"@,
            "--command"@,
            "quit"@,
        ],
{
    let mut first = "--generate-new-wallet=".to_owned();
    first.append(wallet_path);
    let mut v: Vec<String> = Vec::new();
    v.push(first);
    v.push("--password".to_owned());
    v.push("".to_owned());
    v.push("--mnemonic-language".to_owned());
    v.push("English".to_owned());
    v.push("--offline".to_owned());
    v.push("--command".to_owned());
    v.push("quit".to_owned());
    assert(string_views(v@) =~= seq![
        "--generate-new-wallet="@ + wallet_path@,
        "--password"@,
        ""@,
        "--mnemonic-language"@,
        "English"@,
        "--offline"@,
        "--command"@,
        "quit"@,
    ]);
    v
}

impl WalletManager {
    /// The file of a new wallet for `coin` made at `timestamp` (seconds since
    /// the epoch): `<wallet_dir>/<coin>_<timestamp>`.
    pub fn wallet_file(&self, coin: &str, timestamp: u64) -> (p: String)
        ensures
            p@ == path_join(path_join(path_join(self.data_dir(), "wallets"@), coin@), coin@ + "_"@ + decimal(timestamp as nat)),
    {
        let dir = self.wallet_dir(coin);
        let mut name = coin.to_owned();
        name.append("_");
        let ts = decimal_text(timestamp);
        name.append(ts.as_str());
        join_path(dir.as_str(), name.as_str())
    }
}

} // verus!
