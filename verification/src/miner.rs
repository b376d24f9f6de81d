//! Miner catalogue, launcher scripts and the install procedure.

use vstd::prelude::*;
use crate::config::{GlobalConfig, PoolConfig};
use crate::strmap::lookup;
use crate::text::{has_infix, chars_of, decimal, decimal_text, first_index_of, lemma_first_index_of_at, lemma_first_index_of_none, skip_vec, str_eq, string_of};
use crate::wallet::string_views;

verus! {

/// Where miners are unpacked.
pub open spec fn miner_dir() -> Seq<char> {
    "/opt/strawberry/miners"@
}

/// Where launcher scripts go.
pub open spec fn bin_dir() -> Seq<char> {
    "/usr/local/bin"@
}

/// Launch argument pattern of a miner.
#[derive(Clone, Copy, PartialEq, Eq, Structural)]
pub enum MinerArgs {
    Xmrig,
    TRex,
    Lolminer,
    Gminer,
    Srbminer,
    Cpuminer,
    Nanominer,
    Teamredminer,
}

/// Where a miner is downloaded from and how it is launched.
pub struct MinerSource {
    pub id: String,
    pub name: String,
    pub url: String,
    /// Path of the binary inside the unpacked archive.
    pub bin_inside: String,
    /// Name of the launcher script.
    pub wrapper_name: String,
    pub coins: Vec<String>,
    pub algo_args: MinerArgs,
}

/// The model of a miner source.
pub struct MinerSourceView {
    pub id: Seq<char>,
    pub name: Seq<char>,
    pub url: Seq<char>,
    pub bin_inside: Seq<char>,
    pub wrapper_name: Seq<char>,
    pub coins: Seq<Seq<char>>,
    pub algo_args: MinerArgs,
}

impl View for MinerSource {
    type V = MinerSourceView;

    open spec fn view(&self) -> MinerSourceView {
        MinerSourceView {
            id: self.id@,
            name: self.name@,
            url: self.url@,
            bin_inside: self.bin_inside@,
            wrapper_name: self.wrapper_name@,
            coins: string_views(self.coins@),
            algo_args: self.algo_args,
        }
    }
}

pub open spec fn miner_view(
    id: Seq<char>,
    name: Seq<char>,
    url: Seq<char>,
    bin_inside: Seq<char>,
    wrapper_name: Seq<char>,
    coins: Seq<Seq<char>>,
    algo_args: MinerArgs,
) -> MinerSourceView {
    MinerSourceView { id, name, url, bin_inside, wrapper_name, coins, algo_args }
}

/// The known miners (Linux x86_64), in their fixed order.
pub open spec fn miner_table() -> Seq<MinerSourceView> {
    seq![
        miner_view("xmrig"@, "XMRig"@, "https://github.com/xmrig/xmrig/releases/download/v6.21.0/xmrig-6.21.0-linux-x64.tar.gz"@, "xmrig-6.21.0/xmrig"@, "xmrig"@, seq!["monero"@], MinerArgs::Xmrig),
        miner_view("t-rex"@, "T-Rex"@, "https://github.com/trexcoin/T-Rex/releases/download/0.26.8/t-rex-0.26.8-linux.tar.gz"@, "t-rex"@, "t-rex"@, seq!["monero"@, "ravencoin"@], MinerArgs::TRex),
        miner_view("lolminer"@, "lolMiner"@, "https://github.com/Lolliedieb/lolMiner-releases/releases/download/1.76a/lolMiner_v1.76a_Linux_x64.tar.gz"@, "1.76a/lolMiner"@, "lolminer"@, seq!["monero"@, "zcash"@, "ergo"@], MinerArgs::Lolminer),
        miner_view("gminer"@, "GMiner"@, "https://github.com/develsoftware/GMinerRelease/releases/download/3.44/gminer_3_44_linux_cuda12.tar.xz"@, "miner"@, "gminer"@, seq!["monero"@, "zcash"@, "ergo"@], MinerArgs::Gminer),
        miner_view("srbminer-multi"@, "SRBMiner Multi"@, "https://github.com/doktor83/SRBMiner-Multi/releases/download/2.4.4/SRBMiner-Multi-2.4.4-linux-x64.tar.gz"@, "SRBMiner-Multi-2.4.4/SRBMiner-Multi"@, "srbminer"@, seq!["monero"@, "ergo"@], MinerArgs::Srbminer),
        miner_view("cpuminer-multi"@, "cpuminer-multi"@, "https://github.com/ponga-pool/cpuminer-multi/releases/download/v2.5.1/cpuminer-multi-linux.tar.gz"@, "cpuminer-multi"@, "cpuminer"@, seq!["monero"@], MinerArgs::Cpuminer),
        miner_view("nanominer"@, "NanoMiner"@, "https://github.com/nanopool/nanominer/releases/download/v3.3.6/nanominer-linux-3.3.6.tar.gz"@, "nanominer"@, "nanominer"@, seq!["monero"@, "ergo"@], MinerArgs::Nanominer),
        miner_view("teamredminer"@, "TeamRedMiner"@, "https://github.com/todxx/teamredminer/releases/download/v0.10.14/teamredminer-v0.10.14-linux-amd64.tar.gz"@, "teamredminer-v0.10.14-linux-amd64/teamredminer"@, "teamredminer"@, seq!["monero"@], MinerArgs::Teamredminer),
    ]
}

fn miner(
    id: &str,
    name: &str,
    url: &str,
    bin_inside: &str,
    wrapper_name: &str,
    coins: Vec<String>,
    algo_args: MinerArgs,
) -> (m: MinerSource)
    ensures
        m@ == miner_view(id@, name@, url@, bin_inside@, wrapper_name@, string_views(coins@), algo_args),
        m.coins == coins,
{
    MinerSource {
        id: id.to_owned(),
        name: name.to_owned(),
        url: url.to_owned(),
        bin_inside: bin_inside.to_owned(),
        wrapper_name: wrapper_name.to_owned(),
        coins,
        algo_args,
    }
}

/// The views of a sequence of miner sources.
pub open spec fn source_views(ms: Seq<MinerSource>) -> Seq<MinerSourceView> {
    ms.map_values(|m: MinerSource| m@)
}

/// The known miner download sources.
pub fn miner_sources() -> (v: Vec<MinerSource>)
    ensures
        source_views(v@) == miner_table(),
{
    let mut v: Vec<MinerSource> = Vec::new();
    {
        let mut c: Vec<String> = Vec::new();
        c.push("monero".to_owned());
        v.push(miner("xmrig", "XMRig", "https://github.com/xmrig/xmrig/releases/download/v6.21.0/xmrig-6.21.0-linux-x64.tar.gz", "xmrig-6.21.0/xmrig", "xmrig", c, MinerArgs::Xmrig));
        assert(string_views(v@.last().coins@) =~= seq!["monero"@]);
    }
    {
        let mut c: Vec<String> = Vec::new();
        c.push("monero".to_owned());
        c.push("ravencoin".to_owned());
        v.push(miner("t-rex", "T-Rex", "https://github.com/trexcoin/T-Rex/releases/download/0.26.8/t-rex-0.26.8-linux.tar.gz", "t-rex", "t-rex", c, MinerArgs::TRex));
        assert(string_views(v@.last().coins@) =~= seq!["monero"@, "ravencoin"@]);
    }
    {
        let mut c: Vec<String> = Vec::new();
        c.push("monero".to_owned());
        c.push("zcash".to_owned());
        c.push("ergo".to_owned());
        v.push(miner("lolminer", "lolMiner", "https://github.com/Lolliedieb/lolMiner-releases/releases/download/1.76a/lolMiner_v1.76a_Linux_x64.tar.gz", "1.76a/lolMiner", "lolminer", c, MinerArgs::Lolminer));
        assert(string_views(v@.last().coins@) =~= seq!["monero"@, "zcash"@, "ergo"@]);
    }
    {
        let mut c: Vec<String> = Vec::new();
        c.push("monero".to_owned());
        c.push("zcash".to_owned());
        c.push("ergo".to_owned());
        v.push(miner("gminer", "GMiner", "https://github.com/develsoftware/GMinerRelease/releases/download/3.44/gminer_3_44_linux_cuda12.tar.xz", "miner", "gminer", c, MinerArgs::Gminer));
        assert(string_views(v@.last().coins@) =~= seq!["monero"@, "zcash"@, "ergo"@]);
    }
    {
        let mut c: Vec<String> = Vec::new();
        c.push("monero".to_owned());
        c.push("ergo".to_owned());
        v.push(miner("srbminer-multi", "SRBMiner Multi", "https://github.com/doktor83/SRBMiner-Multi/releases/download/2.4.4/SRBMiner-Multi-2.4.4-linux-x64.tar.gz", "SRBMiner-Multi-2.4.4/SRBMiner-Multi", "srbminer", c, MinerArgs::Srbminer));
        assert(string_views(v@.last().coins@) =~= seq!["monero"@, "ergo"@]);
    }
    {
        let mut c: Vec<String> = Vec::new();
        c.push("monero".to_owned());
        v.push(miner("cpuminer-multi", "cpuminer-multi", "https://github.com/ponga-pool/cpuminer-multi/releases/download/v2.5.1/cpuminer-multi-linux.tar.gz", "cpuminer-multi", "cpuminer", c, MinerArgs::Cpuminer));
        assert(string_views(v@.last().coins@) =~= seq!["monero"@]);
    }
    {
        let mut c: Vec<String> = Vec::new();
        c.push("monero".to_owned());
        c.push("ergo".to_owned());
        v.push(miner("nanominer", "NanoMiner", "https://github.com/nanopool/nanominer/releases/download/v3.3.6/nanominer-linux-3.3.6.tar.gz", "nanominer", "nanominer", c, MinerArgs::Nanominer));
        assert(string_views(v@.last().coins@) =~= seq!["monero"@, "ergo"@]);
    }
    {
        let mut c: Vec<String> = Vec::new();
        c.push("monero".to_owned());
        v.push(miner("teamredminer", "TeamRedMiner", "https://github.com/todxx/teamredminer/releases/download/v0.10.14/teamredminer-v0.10.14-linux-amd64.tar.gz", "teamredminer-v0.10.14-linux-amd64/teamredminer", "teamredminer", c, MinerArgs::Teamredminer));
        assert(string_views(v@.last().coins@) =~= seq!["monero"@]);
    }
    assert(source_views(v@) =~= miner_table());
    v
}

/// Position of the first source with the id `id` in `ms`, or -1.
pub open spec fn source_index(ms: Seq<MinerSourceView>, id: Seq<char>) -> int
    decreases ms.len(),
{
    if ms.len() == 0 {
        -1
    } else if ms[0].id == id {
        0
    } else {
        let r = source_index(ms.drop_first(), id);
        if r < 0 {
            -1
        } else {
            r + 1
        }
    }
}

proof fn lemma_source_index(ms: Seq<MinerSourceView>, id: Seq<char>)
    ensures
        -1 <= source_index(ms, id) < ms.len(),
        source_index(ms, id) >= 0 ==> ms[source_index(ms, id)].id == id,
        forall|j: int| 0 <= j < ms.len() && (source_index(ms, id) < 0 || j < source_index(ms, id)) ==> ms[j].id != id,
    decreases ms.len(),
{
    if ms.len() > 0 && ms[0].id != id {
        lemma_source_index(ms.drop_first(), id);
        assert forall|j: int| 0 <= j < ms.len() && (source_index(ms, id) < 0 || j < source_index(ms, id)) implies ms[j].id != id by {
            if j > 0 {
                assert(ms[j] == ms.drop_first()[j - 1]);
            }
        }
    }
}

/// The known miner with the id `id`, if any.
pub open spec fn known_miner(id: Seq<char>) -> Option<MinerSourceView> {
    let i = source_index(miner_table(), id);
    if i < 0 {
        None
    } else {
        Some(miner_table()[i])
    }
}

/// A known miner is one of the table.
pub proof fn lemma_known_miner_found(id: Seq<char>)
    ensures
        known_miner(id) is Some <==> source_index(miner_table(), id) >= 0,
{
    lemma_source_index(miner_table(), id);
}

/// Position of the first source with the id `id`.
pub fn find_source(sources: &Vec<MinerSource>, id: &str) -> (r: Option<usize>)
    ensures
        r is None ==> source_index(source_views(sources@), id@) == -1,
        r matches Some(i) ==> i == source_index(source_views(sources@), id@) && i < sources@.len(),
{
    let ghost ms = source_views(sources@);
    proof {
        lemma_source_index(ms, id@);
    }
    let mut i: usize = 0;
    while i < sources.len()
        invariant
            i <= sources@.len(),
            ms == source_views(sources@),
            -1 <= source_index(ms, id@) < ms.len(),
            source_index(ms, id@) >= 0 ==> ms[source_index(ms, id@)].id == id@,
            forall|j: int| 0 <= j < ms.len() && (source_index(ms, id@) < 0 || j < source_index(ms, id@)) ==> ms[j].id != id@,
            forall|j: int| 0 <= j < i ==> ms[j].id != id@,
        decreases sources.len() - i,
    {
        assert(ms[i as int] == sources@[i as int]@);
        if str_eq(sources[i].id.as_str(), id) {
            return Some(i);
        }
        i += 1;
    }
    None
}

/// What follows the last `/` of `s`, or all of `s` where it has none.
pub open spec fn last_segment(s: Seq<char>) -> Seq<char>
    decreases s.len(),
{
    let k = first_index_of(s, '/');
    proof {
        crate::text::lemma_first_index_of(s, '/');
    }
    if k < 0 {
        s
    } else {
        last_segment(s.skip(k + 1))
    }
}

fn last_segment_of(v: Vec<char>) -> (r: Vec<char>)
    ensures
        r@ == last_segment(v@),
    decreases v.len(),
{
    let mut k: usize = 0;
    while k < v.len()
        invariant
            k <= v.len(),
            forall|j: int| 0 <= j < k ==> v@[j] != '/',
        decreases v.len() - k,
    {
        if v[k] == '/' {
            proof {
                lemma_first_index_of_at(v@, '/', k as int);
            }
            let rest = skip_vec(&v, k + 1);
            return last_segment_of(rest);
        }
        k += 1;
    }
    proof {
        lemma_first_index_of_none(v@, '/');
    }
    v
}

/// The launcher script path of a miner: `/usr/local/bin/<wrapper_name>`.
pub open spec fn wrapper_file(m: MinerSourceView) -> Seq<char> {
    bin_dir() + "/"@ + m.wrapper_name
}

/// The installed binary of a miner:
/// `/opt/strawberry/miners/<id>/<last segment of bin_inside>`.
pub open spec fn binary_file(m: MinerSourceView) -> Seq<char> {
    miner_dir() + "/"@ + m.id + "/"@ + last_segment(m.bin_inside)
}

/// The launcher script path of `m`.
pub fn wrapper_path(m: &MinerSource) -> (p: String)
    ensures
        p@ == wrapper_file(m@),
{
    let mut p = "/usr/local/bin".to_owned();
    p.append("/");
    p.append(m.wrapper_name.as_str());
    p
}

/// The installed binary of `m`.
pub fn binary_path(m: &MinerSource) -> (p: String)
    ensures
        p@ == binary_file(m@),
{
    let mut p = "/opt/strawberry/miners".to_owned();
    p.append("/");
    p.append(m.id.as_str());
    p.append("/");
    let seg = string_of(&last_segment_of(chars_of(m.bin_inside.as_str())));
    p.append(seg.as_str());
    p
}

/// The two files whose presence marks the miner `id` as installed: its
/// launcher script and its binary; `None` for an unknown miner.
pub fn install_probe_paths(id: &str) -> (r: Option<(String, String)>)
    ensures
        r is Some <==> known_miner(id@) is Some,
        r matches Some((w, b)) ==> w@ == wrapper_file(known_miner(id@)->0) && b@ == binary_file(known_miner(id@)->0),
{
    let sources = miner_sources();
    match find_source(&sources, id) {
        Some(i) => {
            assert(source_views(sources@)[i as int] == sources@[i as int]@);
            Some((wrapper_path(&sources[i]), binary_path(&sources[i])))
        },
        None => None,
    }
}

/// Whether something exists at `path` (`std::path::Path::exists`). The
/// answer depends on the file system at the time of the call, so nothing is
/// stated of it.
#[verifier::external_body]
fn path_exists(path: &str) -> bool {
    std::path::Path::new(path).exists()
}

/// Whether the miner `id` is installed: its launcher script or its binary
/// exists. An unknown miner is never installed.
pub fn is_installed(id: &str) -> (b: bool)
    ensures
        b ==> known_miner(id@) is Some,
{
    match install_probe_paths(id) {
        Some((w, bin)) => installed_given(path_exists(w.as_str()), path_exists(bin.as_str())),
        None => false,
    }
}

/// Whether a known miner counts as installed, given whether its launcher
/// script and its binary were found: either one is enough.
pub fn installed_given(wrapper_present: bool, binary_present: bool) -> (b: bool)
    ensures
        b == (wrapper_present || binary_present),
{
    wrapper_present || binary_present
}

/// The ids of the known miners whose flag is set, in table order.
pub open spec fn selected_ids(ms: Seq<MinerSourceView>, flags: Seq<bool>) -> Seq<Seq<char>>
    decreases ms.len(),
{
    if ms.len() == 0 || flags.len() == 0 {
        seq![]
    } else if flags.last() && flags.len() == ms.len() {
        selected_ids(ms.drop_last(), flags.drop_last()).push(ms.last().id)
    } else {
        selected_ids(ms.drop_last(), flags.drop_last())
    }
}

/// The ids of the known miners flagged as installed, in table order.
pub fn installed_from(flags: &Vec<bool>) -> (v: Vec<String>)
    requires
        flags@.len() == miner_table().len(),
    ensures
        string_views(v@) == selected_ids(miner_table(), flags@),
{
    let sources = miner_sources();
    let ghost ms = source_views(sources@);
    let mut v: Vec<String> = Vec::new();
    let mut i: usize = 0;
    assert(string_views(v@) =~= Seq::<Seq<char>>::empty());
    while i < sources.len()
        invariant
            i <= sources@.len(),
            ms == source_views(sources@),
            ms == miner_table(),
            flags@.len() == ms.len(),
            string_views(v@) == selected_ids(ms.take(i as int), flags@.take(i as int)),
        decreases sources.len() - i,
    {
        assert(ms.take(i + 1).drop_last() =~= ms.take(i as int));
        assert(flags@.take(i + 1).drop_last() =~= flags@.take(i as int));
        assert(ms.take(i + 1).last() == sources@[i as int]@);
        if flags[i] {
            let ghost before = string_views(v@);
            v.push(sources[i].id.clone());
            assert(string_views(v@) =~= before.push(sources@[i as int]@.id));
        }
        i += 1;
    }
    assert(ms.take(i as int) =~= ms);
    assert(flags@.take(i as int) =~= flags@);
    v
}

/// The ids of the installed miners, in table order. Which miners are
/// installed depends on the file system; the ids are always among the known
/// ones.
pub fn installed_miners() -> (v: Vec<String>)
    ensures
        exists|flags: Seq<bool>| flags.len() == miner_table().len() && string_views(v@) == selected_ids(miner_table(), flags),
        string_views(v@).no_duplicates(),
{
    let sources = miner_sources();
    let mut flags: Vec<bool> = Vec::new();
    let mut i: usize = 0;
    while i < sources.len()
        invariant
            i <= sources@.len(),
            source_views(sources@) == miner_table(),
            flags@.len() == i,
        decreases sources.len() - i,
    {
        flags.push(is_installed(sources[i].id.as_str()));
        i += 1;
    }
    let v = installed_from(&flags);
    proof {
        law_installed_ids_exact(flags@, Seq::<char>::empty());
    }
    v
}

/// The launcher script of a miner of kind `args`.
pub open spec fn script_text(args: MinerArgs, name: Seq<char>, wallet: Seq<char>, pool: Seq<char>, bin: Seq<char>) -> Seq<char> {
    match args {
        MinerArgs::Xmrig => "#!/bin/bash\n# Strawberry OS \u{2014} "@ + name + " launcher\n# Wallet: "@ + wallet + "\n# Pool: "@ + pool + "\nexec \""@ + bin + "\" --url \""@ + pool + "\" --wallet \""@ + wallet + "\" --coin monero --donate-level 0 \"$@\"\n"@,
        MinerArgs::TRex => "#!/bin/bash\n# Strawberry OS \u{2014} "@ + name + " launcher\n# Wallet: "@ + wallet + "\n# Pool: "@ + pool + "\nCOIN=\"${1:-monero}\"\ncase \"$COIN\" in\n    monero|xmr) ALGO=\"randomx\" ;;\n    ravencoin|rvn) ALGO=\"kawpow\" ;;\n    *) ALGO=\"randomx\" ;;\nesac\nexec \""@ + bin + "\" -a \"$ALGO\" -o \""@ + pool + "\" -u \""@ + wallet + ".1\" -p x \"$@\"\n"@,
        MinerArgs::Lolminer => "#!/bin/bash\n# Strawberry OS \u{2014} "@ + name + " launcher\n# Wallet: "@ + wallet + "\n# Pool: "@ + pool + "\nCOIN=\"${1:-monero}\"\ncase \"$COIN\" in\n    monero|xmr) ALGO=\"randomx\" ;;\n    zcash|zec) ALGO=\"equihash\" ;;\n    ergo|erg) ALGO=\"autolykos2\" ;;\n    *) ALGO=\"randomx\" ;;\nesac\nexec \""@ + bin + "\" --algo \"$ALGO\" --pool \""@ + pool + "\" --user \""@ + wallet + "\" \"$@\"\n"@,
        MinerArgs::Gminer => "#!/bin/bash\n# Strawberry OS \u{2014} "@ + name + " launcher\n# Wallet: "@ + wallet + "\n# Pool: "@ + pool + "\nCOIN=\"${1:-monero}\"\ncase \"$COIN\" in\n    monero|xmr) ALGO=\"randomx\" ;;\n    zcash|zec) ALGO=\"equihash\" ;;\n    ergo|erg) ALGO=\"autolykos2\" ;;\n    *) ALGO=\"randomx\" ;;\nesac\nexec \""@ + bin + "\" -a \"$ALGO\" -s \""@ + pool + "\" -u \""@ + wallet + "\" -p x \"$@\"\n"@,
        MinerArgs::Srbminer => "#!/bin/bash\n# Strawberry OS \u{2014} "@ + name + " launcher\n# Wallet: "@ + wallet + "\n# Pool: "@ + pool + "\nCOIN=\"${1:-monero}\"\ncase \"$COIN\" in\n    monero|xmr) ALGO=\"randomx\" ;;\n    ergo|erg) ALGO=\"autolykos2\" ;;\n    *) ALGO=\"randomx\" ;;\nesac\nexec \""@ + bin + "\" --algorithm \"$ALGO\" --pool \""@ + pool + "\" --wallet \""@ + wallet + "\" --password x \"$@\"\n"@,
        MinerArgs::Cpuminer => "#!/bin/bash\n# Strawberry OS \u{2014} "@ + name + " launcher\n# Wallet: "@ + wallet + "\n# Pool: "@ + pool + "\nexec \""@ + bin + "\" -a randomx -o \""@ + pool + "\" -u \""@ + wallet + "\" -p x \"$@\"\n"@,
        MinerArgs::Nanominer => "#!/bin/bash\n# Strawberry OS \u{2014} "@ + name + " launcher\n# Wallet: "@ + wallet + "\n# Pool: "@ + pool + "\nCOIN=\"${1:-monero}\"\ncase \"$COIN\" in\n    monero|xmr) ALGO=\"randomx\" ;;\n    ergo|erg) ALGO=\"autolykos2\" ;;\n    *) ALGO=\"randomx\" ;;\nesac\n# NanoMiner uses a config file approach \u{2014} create temp config\nTMPDIR=$(mktemp -d)\ncat > \"$TMPDIR/config.ini\" << INNEREOF\n${ALGO}=\""@ + pool + "\"\nwallet=\""@ + wallet + "\"\nINNEREOF\nexec \""@ + bin + "\" -c \"$TMPDIR/config.ini\" \"$@\"\nrm -rf \"$TMPDIR\"\n"@,
        MinerArgs::Teamredminer => "#!/bin/bash\n# Strawberry OS \u{2014} "@ + name + " launcher\n# Wallet: "@ + wallet + "\n# Pool: "@ + pool + "\nexec \""@ + bin + "\" -a randomx -o \""@ + pool + "\" -u \""@ + wallet + "\" -p x \"$@\"\n"@,
    }
}

/// Every launcher script names the wallet and the pool in its header, and
/// hands the pool to the miner's pool option (`--url`, `-o`, `-s`,
/// `--pool`, or the algorithm's line of NanoMiner's configuration) and the
/// wallet to its user option (`--wallet`, `-u`, `--user`, or `wallet=`).
pub proof fn law_launcher_options(args: MinerArgs, name: Seq<char>, wallet: Seq<char>, pool: Seq<char>, bin: Seq<char>)
    ensures
        has_infix(script_text(args, name, wallet, pool, bin), " launcher\n# Wallet: "@ + wallet + "\n# Pool: "@ + pool),
        match args {
            MinerArgs::Xmrig => has_infix(script_text(args, name, wallet, pool, bin), "\" --url \""@ + pool + "\" --wallet \""@ + wallet),
            MinerArgs::TRex => has_infix(script_text(args, name, wallet, pool, bin), "\" -a \"$ALGO\" -o \""@ + pool + "\" -u \""@ + wallet),
            MinerArgs::Lolminer => has_infix(script_text(args, name, wallet, pool, bin), "\" --algo \"$ALGO\" --pool \""@ + pool + "\" --user \""@ + wallet),
            MinerArgs::Gminer => has_infix(script_text(args, name, wallet, pool, bin), "\" -a \"$ALGO\" -s \""@ + pool + "\" -u \""@ + wallet),
            MinerArgs::Srbminer => has_infix(script_text(args, name, wallet, pool, bin), "\" --algorithm \"$ALGO\" --pool \""@ + pool + "\" --wallet \""@ + wallet),
            MinerArgs::Cpuminer => has_infix(script_text(args, name, wallet, pool, bin), "\" -a randomx -o \""@ + pool + "\" -u \""@ + wallet),
            MinerArgs::Nanominer => has_infix(script_text(args, name, wallet, pool, bin), pool + "\"\nwallet=\""@ + wallet),
            MinerArgs::Teamredminer => has_infix(script_text(args, name, wallet, pool, bin), "\" -a randomx -o \""@ + pool + "\" -u \""@ + wallet),
        },
{
    let hpre = "#!/bin/bash\n# Strawberry OS \u{2014} "@ + name;
    let ht = " launcher\n# Wallet: "@ + wallet + "\n# Pool: "@ + pool;
    assert(script_text(args, name, wallet, pool, bin).subrange(hpre.len() as int, hpre.len() + ht.len() as int) =~= ht);
    match args {
        MinerArgs::Xmrig => {
            let pre = "#!/bin/bash\n# Strawberry OS \u{2014} "@ + name + " launcher\n# Wallet: "@ + wallet + "\n# Pool: "@ + pool + "\nexec \""@ + bin;
            let t = "\" --url \""@ + pool + "\" --wallet \""@ + wallet;
            assert(script_text(args, name, wallet, pool, bin).subrange(pre.len() as int, pre.len() + t.len() as int) =~= t);
        },
        MinerArgs::TRex => {
            let pre = "#!/bin/bash\n# Strawberry OS \u{2014} "@ + name + " launcher\n# Wallet: "@ + wallet + "\n# Pool: "@ + pool + "\nCOIN=\"${1:-monero}\"\ncase \"$COIN\" in\n    monero|xmr) ALGO=\"randomx\" ;;\n    ravencoin|rvn) ALGO=\"kawpow\" ;;\n    *) ALGO=\"randomx\" ;;\nesac\nexec \""@ + bin;
            let t = "\" -a \"$ALGO\" -o \""@ + pool + "\" -u \""@ + wallet;
            assert(script_text(args, name, wallet, pool, bin).subrange(pre.len() as int, pre.len() + t.len() as int) =~= t);
        },
        MinerArgs::Lolminer => {
            let pre = "#!/bin/bash\n# Strawberry OS \u{2014} "@ + name + " launcher\n# Wallet: "@ + wallet + "\n# Pool: "@ + pool + "\nCOIN=\"${1:-monero}\"\ncase \"$COIN\" in\n    monero|xmr) ALGO=\"randomx\" ;;\n    zcash|zec) ALGO=\"equihash\" ;;\n    ergo|erg) ALGO=\"autolykos2\" ;;\n    *) ALGO=\"randomx\" ;;\nesac\nexec \""@ + bin;
            let t = "\" --algo \"$ALGO\" --pool \""@ + pool + "\" --user \""@ + wallet;
            assert(script_text(args, name, wallet, pool, bin).subrange(pre.len() as int, pre.len() + t.len() as int) =~= t);
        },
        MinerArgs::Gminer => {
            let pre = "#!/bin/bash\n# Strawberry OS \u{2014} "@ + name + " launcher\n# Wallet: "@ + wallet + "\n# Pool: "@ + pool + "\nCOIN=\"${1:-monero}\"\ncase \"$COIN\" in\n    monero|xmr) ALGO=\"randomx\" ;;\n    zcash|zec) ALGO=\"equihash\" ;;\n    ergo|erg) ALGO=\"autolykos2\" ;;\n    *) ALGO=\"randomx\" ;;\nesac\nexec \""@ + bin;
            let t = "\" -a \"$ALGO\" -s \""@ + pool + "\" -u \""@ + wallet;
            assert(script_text(args, name, wallet, pool, bin).subrange(pre.len() as int, pre.len() + t.len() as int) =~= t);
        },
        MinerArgs::Srbminer => {
            let pre = "#!/bin/bash\n# Strawberry OS \u{2014} "@ + name + " launcher\n# Wallet: "@ + wallet + "\n# Pool: "@ + pool + "\nCOIN=\"${1:-monero}\"\ncase \"$COIN\" in\n    monero|xmr) ALGO=\"randomx\" ;;\n    ergo|erg) ALGO=\"autolykos2\" ;;\n    *) ALGO=\"randomx\" ;;\nesac\nexec \""@ + bin;
            let t = "\" --algorithm \"$ALGO\" --pool \""@ + pool + "\" --wallet \""@ + wallet;
            assert(script_text(args, name, wallet, pool, bin).subrange(pre.len() as int, pre.len() + t.len() as int) =~= t);
        },
        MinerArgs::Cpuminer => {
            let pre = "#!/bin/bash\n# Strawberry OS \u{2014} "@ + name + " launcher\n# Wallet: "@ + wallet + "\n# Pool: "@ + pool + "\nexec \""@ + bin;
            let t = "\" -a randomx -o \""@ + pool + "\" -u \""@ + wallet;
            assert(script_text(args, name, wallet, pool, bin).subrange(pre.len() as int, pre.len() + t.len() as int) =~= t);
        },
        MinerArgs::Nanominer => {
            let pre = "#!/bin/bash\n# Strawberry OS \u{2014} "@ + name + " launcher\n# Wallet: "@ + wallet + "\n# Pool: "@ + pool + "\nCOIN=\"${1:-monero}\"\ncase \"$COIN\" in\n    monero|xmr) ALGO=\"randomx\" ;;\n    ergo|erg) ALGO=\"autolykos2\" ;;\n    *) ALGO=\"randomx\" ;;\nesac\n# NanoMiner uses a config file approach \u{2014} create temp config\nTMPDIR=$(mktemp -d)\ncat > \"$TMPDIR/config.ini\" << INNEREOF\n${ALGO}=\""@;
            let t = pool + "\"\nwallet=\""@ + wallet;
            assert(script_text(args, name, wallet, pool, bin).subrange(pre.len() as int, pre.len() + t.len() as int) =~= t);
        },
        MinerArgs::Teamredminer => {
            let pre = "#!/bin/bash\n# Strawberry OS \u{2014} "@ + name + " launcher\n# Wallet: "@ + wallet + "\n# Pool: "@ + pool + "\nexec \""@ + bin;
            let t = "\" -a randomx -o \""@ + pool + "\" -u \""@ + wallet;
            assert(script_text(args, name, wallet, pool, bin).subrange(pre.len() as int, pre.len() + t.len() as int) =~= t);
        },
    }
}

/// Builds the launcher script of a miner of kind `args`.
pub fn make_script(args: MinerArgs, name: &str, wallet: &str, pool: &str, bin: &str) -> (s: String)
    ensures
        s@ == script_text(args, name@, wallet@, pool@, bin@),
{
    let mut s = String::new();
    match args {
        MinerArgs::Xmrig => {
            s.append("#!/bin/bash\n# Strawberry OS \u{2014} ");
            s.append(name);
            s.append(" launcher\n# Wallet: ");
            s.append(wallet);
            s.append("\n# Pool: ");
            s.append(pool);
            s.append("\nexec \"");
            s.append(bin);
            s.append("\" --url \"");
            s.append(pool);
            s.append("\" --wallet \"");
            s.append(wallet);
            s.append("\" --coin monero --donate-level 0 \"$@\"\n");
        },
        MinerArgs::TRex => {
            s.append("#!/bin/bash\n# Strawberry OS \u{2014} ");
            s.append(name);
            s.append(" launcher\n# Wallet: ");
            s.append(wallet);
            s.append("\n# Pool: ");
            s.append(pool);
            s.append("\nCOIN=\"${1:-monero}\"\ncase \"$COIN\" in\n    monero|xmr) ALGO=\"randomx\" ;;\n    ravencoin|rvn) ALGO=\"kawpow\" ;;\n    *) ALGO=\"randomx\" ;;\nesac\nexec \"");
            s.append(bin);
            s.append("\" -a \"$ALGO\" -o \"");
            s.append(pool);
            s.append("\" -u \"");
            s.append(wallet);
            s.append(".1\" -p x \"$@\"\n");
        },
        MinerArgs::Lolminer => {
            s.append("#!/bin/bash\n# Strawberry OS \u{2014} ");
            s.append(name);
            s.append(" launcher\n# Wallet: ");
            s.append(wallet);
            s.append("\n# Pool: ");
            s.append(pool);
            s.append("\nCOIN=\"${1:-monero}\"\ncase \"$COIN\" in\n    monero|xmr) ALGO=\"randomx\" ;;\n    zcash|zec) ALGO=\"equihash\" ;;\n    ergo|erg) ALGO=\"autolykos2\" ;;\n    *) ALGO=\"randomx\" ;;\nesac\nexec \"");
            s.append(bin);
            s.append("\" --algo \"$ALGO\" --pool \"");
            s.append(pool);
            s.append("\" --user \"");
            s.append(wallet);
            s.append("\" \"$@\"\n");
        },
        MinerArgs::Gminer => {
            s.append("#!/bin/bash\n# Strawberry OS \u{2014} ");
            s.append(name);
            s.append(" launcher\n# Wallet: ");
            s.append(wallet);
            s.append("\n# Pool: ");
            s.append(pool);
            s.append("\nCOIN=\"${1:-monero}\"\ncase \"$COIN\" in\n    monero|xmr) ALGO=\"randomx\" ;;\n    zcash|zec) ALGO=\"equihash\" ;;\n    ergo|erg) ALGO=\"autolykos2\" ;;\n    *) ALGO=\"randomx\" ;;\nesac\nexec \"");
            s.append(bin);
            s.append("\" -a \"$ALGO\" -s \"");
            s.append(pool);
            s.append("\" -u \"");
            s.append(wallet);
            s.append("\" -p x \"$@\"\n");
        },
        MinerArgs::Srbminer => {
            s.append("#!/bin/bash\n# Strawberry OS \u{2014} ");
            s.append(name);
            s.append(" launcher\n# Wallet: ");
            s.append(wallet);
            s.append("\n# Pool: ");
            s.append(pool);
            s.append("\nCOIN=\"${1:-monero}\"\ncase \"$COIN\" in\n    monero|xmr) ALGO=\"randomx\" ;;\n    ergo|erg) ALGO=\"autolykos2\" ;;\n    *) ALGO=\"randomx\" ;;\nesac\nexec \"");
            s.append(bin);
            s.append("\" --algorithm \"$ALGO\" --pool \"");
            s.append(pool);
            s.append("\" --wallet \"");
            s.append(wallet);
            s.append("\" --password x \"$@\"\n");
        },
        MinerArgs::Cpuminer => {
            s.append("#!/bin/bash\n# Strawberry OS \u{2014} ");
            s.append(name);
            s.append(" launcher\n# Wallet: ");
            s.append(wallet);
            s.append("\n# Pool: ");
            s.append(pool);
            s.append("\nexec \"");
            s.append(bin);
            s.append("\" -a randomx -o \"");
            s.append(pool);
            s.append("\" -u \"");
            s.append(wallet);
            s.append("\" -p x \"$@\"\n");
        },
        MinerArgs::Nanominer => {
            s.append("#!/bin/bash\n# Strawberry OS \u{2014} ");
            s.append(name);
            s.append(" launcher\n# Wallet: ");
            s.append(wallet);
            s.append("\n# Pool: ");
            s.append(pool);
            s.append("\nCOIN=\"${1:-monero}\"\ncase \"$COIN\" in\n    monero|xmr) ALGO=\"randomx\" ;;\n    ergo|erg) ALGO=\"autolykos2\" ;;\n    *) ALGO=\"randomx\" ;;\nesac\n# NanoMiner uses a config file approach \u{2014} create temp config\nTMPDIR=$(mktemp -d)\ncat > \"$TMPDIR/config.ini\" << INNEREOF\n${ALGO}=\"");
            s.append(pool);
            s.append("\"\nwallet=\"");
            s.append(wallet);
            s.append("\"\nINNEREOF\nexec \"");
            s.append(bin);
            s.append("\" -c \"$TMPDIR/config.ini\" \"$@\"\nrm -rf \"$TMPDIR\"\n");
        },
        MinerArgs::Teamredminer => {
            s.append("#!/bin/bash\n# Strawberry OS \u{2014} ");
            s.append(name);
            s.append(" launcher\n# Wallet: ");
            s.append(wallet);
            s.append("\n# Pool: ");
            s.append(pool);
            s.append("\nexec \"");
            s.append(bin);
            s.append("\" -a randomx -o \"");
            s.append(pool);
            s.append("\" -u \"");
            s.append(wallet);
            s.append("\" -p x \"$@\"\n");
        },
    }
    s
}

/// The primary coin of a miner: its first coin, or Monero.
pub open spec fn primary_coin(m: MinerSourceView) -> Seq<char> {
    if m.coins.len() > 0 {
        m.coins[0]
    } else {
        "monero"@
    }
}

/// The wallet the launcher uses for `coin`: the configured one, or a
/// placeholder.
pub open spec fn wallet_choice(wallets: Seq<(Seq<char>, String)>, coin: Seq<char>) -> Seq<char> {
    match lookup(wallets, coin) {
        Some(w) => w@,
        None => "YOUR_WALLET_ADDRESS"@,
    }
}

/// The pool the launcher uses for `coin`: `address:port` of the configured
/// one, or SupportXMR.
pub open spec fn pool_choice(pools: Seq<(Seq<char>, PoolConfig)>, coin: Seq<char>) -> Seq<char> {
    match lookup(pools, coin) {
        Some(p) => p.address@ + ":"@ + decimal(p.port as nat),
        None => "pool.supportxmr.com:3333"@,
    }
}

/// The launcher script of `m` under `config`.
pub open spec fn wrapper_script_text(m: MinerSourceView, config: GlobalConfig) -> Seq<char> {
    let coin = primary_coin(m);
    script_text(
        m.algo_args,
        m.name,
        wallet_choice(config.wallets@, coin),
        pool_choice(config.pools@, coin),
        binary_file(m),
    )
}

/// The launcher script of `m`: it runs the miner with the wallet and pool
/// configured for its primary coin.
pub fn wrapper_script(m: &MinerSource, config: &GlobalConfig) -> (s: String)
    ensures
        s@ == wrapper_script_text(m@, *config),
{
    let coin: String = if m.coins.len() > 0 {
        m.coins[0].clone()
    } else {
        "monero".to_owned()
    };
    let wallet: String = match config.wallets.get(coin.as_str()) {
        Some(w) => w.clone(),
        None => "YOUR_WALLET_ADDRESS".to_owned(),
    };
    let pool: String = match config.pools.get(coin.as_str()) {
        Some(p) => {
            let mut s = p.address.clone();
            s.append(":");
            let port = decimal_text(p.port as u64);
            s.append(port.as_str());
            s
        },
        None => "pool.supportxmr.com:3333".to_owned(),
    };
    let bin = binary_path(m);
    make_script(m.algo_args, m.name.as_str(), wallet.as_str(), pool.as_str(), bin.as_str())
}


/// Whether `s` ends with `p`.
pub open spec fn has_suffix(s: Seq<char>, p: Seq<char>) -> bool {
    p.len() <= s.len() && s.skip(s.len() - p.len()) == p
}

fn ends_with(s: &str, p: &str) -> (b: bool)
    ensures
        b == has_suffix(s@, p@),
{
    let v = chars_of(s);
    let w = chars_of(p);
    if w.len() > v.len() {
        return false;
    }
    let tail = skip_vec(&v, v.len() - w.len());
    let t = string_of(&tail);
    let q = string_of(&w);
    str_eq(t.as_str(), q.as_str())
}

/// Everything an installation of a miner needs, worked out beforehand.
pub struct InstallPlan {
    pub name: String,
    pub wrapper_name: String,
    pub install_dir: String,
    pub archive_path: String,
    /// `curl` arguments that download the archive.
    pub download_args: Vec<String>,
    /// `tar` arguments that unpack it.
    pub extract_args: Vec<String>,
    /// `chmod` arguments that make the binary executable.
    pub chmod_args: Vec<String>,
    pub wrapper_path: String,
    pub script: String,
}

/// The installation directory of a miner: `/opt/strawberry/miners/<id>`.
pub open spec fn install_dir_of(m: MinerSourceView) -> Seq<char> {
    miner_dir() + "/"@ + m.id
}

/// The downloaded archive of a miner.
pub open spec fn archive_of(m: MinerSourceView) -> Seq<char> {
    install_dir_of(m) + "/archive.tar.gz"@
}

/// Whether `plan` is the plan for installing `m` under `config`: download
/// with `curl -sSfL -o <archive> <url>`, unpack with `tar xf` for a `.tar.xz`
/// archive and `tar xzf` otherwise, make `<dir>/<bin_inside>` executable,
/// and write the launcher script.
pub open spec fn is_install_plan(plan: InstallPlan, m: MinerSourceView, config: GlobalConfig) -> bool {
    &&& plan.name@ == m.name
    &&& plan.wrapper_name@ == m.wrapper_name
    &&& plan.install_dir@ == install_dir_of(m)
    &&& plan.archive_path@ == archive_of(m)
    &&& string_views(plan.download_args@) == seq!["-sSfL"@, "-o"@, archive_of(m), m.url]
    &&& string_views(plan.extract_args@) == seq![
        if has_suffix(m.url, ".tar.xz"@) { "xf"@ } else { "xzf"@ },
        archive_of(m),
        "-C"@,
        install_dir_of(m),
    ]
    &&& string_views(plan.chmod_args@) == seq!["+x"@, install_dir_of(m) + "/"@ + m.bin_inside]
    &&& plan.wrapper_path@ == wrapper_file(m)
    &&& plan.script@ == wrapper_script_text(m, config)
}

/// The installation plan of `m` under `config`.
pub fn plan_install(m: &MinerSource, config: &GlobalConfig) -> (plan: InstallPlan)
    ensures
        is_install_plan(plan, m@, *config),
{
    let mut dir = "/opt/strawberry/miners".to_owned();
    dir.append("/");
    dir.append(m.id.as_str());
    let mut archive = dir.clone();
    archive.append("/archive.tar.gz");
    let mut download: Vec<String> = Vec::new();
    download.push("-sSfL".to_owned());
    download.push("-o".to_owned());
    download.push(archive.clone());
    download.push(m.url.clone());
    let mut extract: Vec<String> = Vec::new();
    if ends_with(m.url.as_str(), ".tar.xz") {
        extract.push("xf".to_owned());
    } else {
        extract.push("xzf".to_owned());
    }
    extract.push(archive.clone());
    extract.push("-C".to_owned());
    extract.push(dir.clone());
    let mut bin = dir.clone();
    bin.append("/");
    bin.append(m.bin_inside.as_str());
    let mut chmod: Vec<String> = Vec::new();
    chmod.push("+x".to_owned());
    chmod.push(bin);
    let plan = InstallPlan {
        name: m.name.clone(),
        wrapper_name: m.wrapper_name.clone(),
        install_dir: dir,
        archive_path: archive,
        download_args: download,
        extract_args: extract,
        chmod_args: chmod,
        wrapper_path: wrapper_path(m),
        script: wrapper_script(m, config),
    };
    assert(string_views(plan.download_args@) =~= seq!["-sSfL"@, "-o"@, archive_of(m@), m@.url]);
    assert(string_views(plan.extract_args@) =~= seq![
        if has_suffix(m@.url, ".tar.xz"@) { "xf"@ } else { "xzf"@ },
        archive_of(m@),
        "-C"@,
        install_dir_of(m@),
    ]);
    assert(string_views(plan.chmod_args@) =~= seq!["+x"@, install_dir_of(m@) + "/"@ + m@.bin_inside]);
    plan
}

/// Where an installation stands.
#[derive(Clone, Copy, PartialEq, Eq, Structural)]
pub enum InstallStage {
    CreatingDir,
    Downloading,
    Extracting,
    MakingExecutable,
    WritingWrapper,
    Cleaning,
    Finished,
}

/// How the last action went.
pub enum StepOutcome {
    Succeeded,
    /// The command ran and failed; what it wrote to standard error.
    Failed(String),
    /// The action could not be carried out; the error's text.
    Broken(String),
}

/// What to do next.
pub enum InstallAction {
    /// Create a directory and its parents.
    CreateDir(String),
    /// Run a program with arguments.
    Run(String, Vec<String>),
    /// Write the launcher script (path, content) and make it executable.
    WriteWrapper(String, String),
    /// Remove a file, ignoring failure.
    RemoveFile(String),
    /// Stop, with the message for the user or the error.
    Finish(Result<String, String>),
}

/// The message of a finished installation.
pub open spec fn installed_text(plan: InstallPlan) -> Seq<char> {
    plan.name@ + " installed! Run '"@ + plan.wrapper_name@ + "' to launch."@
}

/// The text of an outcome that stops the installation at `stage`.
pub open spec fn failure_text(stage: InstallStage, outcome: StepOutcome) -> Seq<char> {
    match (stage, outcome) {
        (InstallStage::Downloading, StepOutcome::Failed(e)) => "Download failed: "@ + e@,
        (InstallStage::Downloading, StepOutcome::Broken(e)) => "curl failed: "@ + e@,
        (InstallStage::Extracting, StepOutcome::Failed(e)) => "Extraction failed: "@ + e@,
        (InstallStage::Extracting, StepOutcome::Broken(e)) => "Extraction error: "@ + e@,
        (_, StepOutcome::Failed(e)) => e@,
        (_, StepOutcome::Broken(e)) => e@,
        (_, StepOutcome::Succeeded) => seq![],
    }
}

/// Whether a failed outcome at `stage` stops the installation: failures
/// of making the binary executable and of removing the archive are ignored.
pub open spec fn failure_stops(stage: InstallStage) -> bool {
    stage != InstallStage::MakingExecutable && stage != InstallStage::Cleaning && stage != InstallStage::Finished
}

/// A failed step stops the installation with an error exactly when it
/// creates the directory, downloads, unpacks or writes the launcher; only
/// the failures of making the binary executable and of removing the archive
/// are passed over. Success is reported only after removing the archive.
pub proof fn law_install_failures(stage: InstallStage)
    ensures
        failure_stops(stage) <==> (stage == InstallStage::CreatingDir || stage == InstallStage::Downloading
            || stage == InstallStage::Extracting || stage == InstallStage::WritingWrapper),
        stage != InstallStage::Finished ==> (next_stage(stage) == InstallStage::Finished <==> stage
            == InstallStage::Cleaning),
{
}

/// The stage that follows `stage` when it goes well.
pub open spec fn next_stage(stage: InstallStage) -> InstallStage {
    match stage {
        InstallStage::CreatingDir => InstallStage::Downloading,
        InstallStage::Downloading => InstallStage::Extracting,
        InstallStage::Extracting => InstallStage::MakingExecutable,
        InstallStage::MakingExecutable => InstallStage::WritingWrapper,
        InstallStage::WritingWrapper => InstallStage::Cleaning,
        InstallStage::Cleaning => InstallStage::Finished,
        InstallStage::Finished => InstallStage::Finished,
    }
}

/// Whether `a` is the action that starts stage `stage` of `plan`.
pub open spec fn starts_stage(plan: InstallPlan, stage: InstallStage, a: InstallAction) -> bool {
    match stage {
        InstallStage::CreatingDir => a matches InstallAction::CreateDir(d) && d@ == plan.install_dir@,
        InstallStage::Downloading => a matches InstallAction::Run(p, args) && p@ == "curl"@
            && string_views(args@) == string_views(plan.download_args@),
        InstallStage::Extracting => a matches InstallAction::Run(p, args) && p@ == "tar"@
            && string_views(args@) == string_views(plan.extract_args@),
        InstallStage::MakingExecutable => a matches InstallAction::Run(p, args) && p@ == "chmod"@
            && string_views(args@) == string_views(plan.chmod_args@),
        InstallStage::WritingWrapper => a matches InstallAction::WriteWrapper(p, s)
            && p@ == plan.wrapper_path@ && s@ == plan.script@,
        InstallStage::Cleaning => a matches InstallAction::RemoveFile(p) && p@ == plan.archive_path@,
        InstallStage::Finished => a matches InstallAction::Finish(Ok(m)) && m@ == installed_text(plan),
    }
}

fn copy_strings(v: &Vec<String>) -> (r: Vec<String>)
    ensures
        string_views(r@) == string_views(v@),
{
    let mut r: Vec<String> = Vec::new();
    let mut i: usize = 0;
    while i < v.len()
        invariant
            i <= v@.len(),
            string_views(r@) == string_views(v@).take(i as int),
        decreases v.len() - i,
    {
        let ghost before = string_views(r@);
        r.push(v[i].clone());
        assert(string_views(r@) =~= before.push(v@[i as int]@));
        assert(string_views(v@).take(i + 1) =~= string_views(v@).take(i as int).push(v@[i as int]@));
        i += 1;
    }
    assert(string_views(v@).take(i as int) =~= string_views(v@));
    r
}

fn stage_action(plan: &InstallPlan, stage: InstallStage) -> (a: InstallAction)
    ensures
        starts_stage(*plan, stage, a),
{
    match stage {
        InstallStage::CreatingDir => InstallAction::CreateDir(plan.install_dir.clone()),
        InstallStage::Downloading => InstallAction::Run("curl".to_owned(), copy_strings(&plan.download_args)),
        InstallStage::Extracting => InstallAction::Run("tar".to_owned(), copy_strings(&plan.extract_args)),
        InstallStage::MakingExecutable => InstallAction::Run("chmod".to_owned(), copy_strings(&plan.chmod_args)),
        InstallStage::WritingWrapper => InstallAction::WriteWrapper(plan.wrapper_path.clone(), plan.script.clone()),
        InstallStage::Cleaning => InstallAction::RemoveFile(plan.archive_path.clone()),
        InstallStage::Finished => {
            let mut m = plan.name.clone();
            m.append(" installed! Run '");
            m.append(plan.wrapper_name.as_str());
            m.append("' to launch.");
            InstallAction::Finish(Ok(m))
        },
    }
}

/// The next step of an installation, given how the last action at `stage`
/// went: a stopping failure finishes with its error; otherwise the next
/// stage begins.
pub fn install_step(plan: &InstallPlan, stage: InstallStage, outcome: StepOutcome) -> (r: (InstallStage, InstallAction))
    ensures
        !(outcome is Succeeded) && failure_stops(stage) ==> ({
            &&& r.0 == InstallStage::Finished
            &&& r.1 matches InstallAction::Finish(Err(e))
            &&& e@ == failure_text(stage, outcome)
        }),
        outcome is Succeeded || !failure_stops(stage) ==> r.0 == next_stage(stage) && starts_stage(*plan, next_stage(stage), r.1),
{
    let stops = stage != InstallStage::MakingExecutable && stage != InstallStage::Cleaning && stage != InstallStage::Finished;
    let succeeded = match outcome {
        StepOutcome::Succeeded => true,
        _ => false,
    };
    if !stops && !succeeded {
        let next = match stage {
            InstallStage::MakingExecutable => InstallStage::WritingWrapper,
            _ => InstallStage::Finished,
        };
        return (next, stage_action(plan, next));
    }
    match outcome {
        StepOutcome::Succeeded => {
            let next = match stage {
                InstallStage::CreatingDir => InstallStage::Downloading,
                InstallStage::Downloading => InstallStage::Extracting,
                InstallStage::Extracting => InstallStage::MakingExecutable,
                InstallStage::MakingExecutable => InstallStage::WritingWrapper,
                InstallStage::WritingWrapper => InstallStage::Cleaning,
                InstallStage::Cleaning => InstallStage::Finished,
                InstallStage::Finished => InstallStage::Finished,
            };
            (next, stage_action(plan, next))
        },
        StepOutcome::Failed(e) => {
            let msg = match stage {
                InstallStage::Downloading => {
                    let mut m = "Download failed: ".to_owned();
                    m.append(e.as_str());
                    m
                },
                InstallStage::Extracting => {
                    let mut m = "Extraction failed: ".to_owned();
                    m.append(e.as_str());
                    m
                },
                _ => e,
            };
            (InstallStage::Finished, InstallAction::Finish(Err(msg)))
        },
        StepOutcome::Broken(e) => {
            let msg = match stage {
                InstallStage::Downloading => {
                    let mut m = "curl failed: ".to_owned();
                    m.append(e.as_str());
                    m
                },
                InstallStage::Extracting => {
                    let mut m = "Extraction error: ".to_owned();
                    m.append(e.as_str());
                    m
                },
                _ => e,
            };
            (InstallStage::Finished, InstallAction::Finish(Err(msg)))
        },
    }
}

/// The message for a miner that is installed already.
pub open spec fn already_installed_text(m: MinerSourceView) -> Seq<char> {
    m.name + " is already installed. Run '"@ + m.wrapper_name + "' in terminal to launch."@
}

/// The error for an unknown miner id.
pub open spec fn unknown_miner_text(id: Seq<char>) -> Seq<char> {
    "Unknown miner: "@ + id
}

fn unknown_miner(id: &str) -> (s: String)
    ensures
        s@ == unknown_miner_text(id@),
{
    let mut s = "Unknown miner: ".to_owned();
    s.append(id);
    s
}

/// How an installation of `id` begins, given whether the miner is installed
/// already: unknown ids and installed miners finish at once; otherwise the
/// plan is made and its directory created.
pub fn install_begin(id: &str, config: &GlobalConfig, installed: bool) -> (r: (Option<InstallPlan>, InstallStage, InstallAction))
    ensures
        known_miner(id@) is None ==> ({
            &&& r.0 is None
            &&& r.1 == InstallStage::Finished
            &&& r.2 matches InstallAction::Finish(Err(e))
            &&& e@ == unknown_miner_text(id@)
        }),
        known_miner(id@) is Some && installed ==> ({
            &&& r.0 is None
            &&& r.1 == InstallStage::Finished
            &&& r.2 matches InstallAction::Finish(Ok(msg))
            &&& msg@ == already_installed_text(known_miner(id@)->0)
        }),
        known_miner(id@) is Some && !installed ==> ({
            &&& r.0 matches Some(plan)
            &&& is_install_plan(plan, known_miner(id@)->0, *config)
            &&& r.1 == InstallStage::CreatingDir
            &&& starts_stage(plan, InstallStage::CreatingDir, r.2)
        }),
{
    let sources = miner_sources();
    match find_source(&sources, id) {
        None => (None, InstallStage::Finished, InstallAction::Finish(Err(unknown_miner(id)))),
        Some(i) => {
            let m = &sources[i];
            assert(source_views(sources@)[i as int] == m@);
            if installed {
                let mut msg = m.name.clone();
                msg.append(" is already installed. Run '");
                msg.append(m.wrapper_name.as_str());
                msg.append("' in terminal to launch.");
                (None, InstallStage::Finished, InstallAction::Finish(Ok(msg)))
            } else {
                let plan = plan_install(m, config);
                let a = stage_action(&plan, InstallStage::CreatingDir);
                (Some(plan), InstallStage::CreatingDir, a)
            }
        },
    }
}

/// What uninstalling the miner `id` removes, and the message to give: its
/// launcher script and its installation directory.
pub fn uninstall_plan(id: &str) -> (r: Result<(String, String, String), String>)
    ensures
        known_miner(id@) is None ==> ({
            &&& r matches Err(e)
            &&& e@ == unknown_miner_text(id@)
        }),
        known_miner(id@) matches Some(m) ==> ({
            &&& r matches Ok((w, d, msg))
            &&& w@ == wrapper_file(m)
            &&& d@ == miner_dir() + "/"@ + id@
            &&& msg@ == m.name + " uninstalled."@
        }),
{
    let sources = miner_sources();
    match find_source(&sources, id) {
        None => Err(unknown_miner(id)),
        Some(i) => {
            let m = &sources[i];
            assert(source_views(sources@)[i as int] == m@);
            let mut dir = "/opt/strawberry/miners".to_owned();
            dir.append("/");
            dir.append(id);
            let mut msg = m.name.clone();
            msg.append(" uninstalled.");
            Ok((wrapper_path(m), dir, msg))
        },
    }
}


/// No two known miners share an id.
pub proof fn law_miner_ids_distinct()
    ensures
        forall|a: int, b: int| 0 <= a < miner_table().len() && 0 <= b < miner_table().len() && a != b
            ==> #[trigger] miner_table()[a].id != #[trigger] miner_table()[b].id,
{
    reveal_strlit("xmrig");
    reveal_strlit("t-rex");
    reveal_strlit("lolminer");
    reveal_strlit("gminer");
    reveal_strlit("srbminer-multi");
    reveal_strlit("cpuminer-multi");
    reveal_strlit("nanominer");
    reveal_strlit("teamredminer");
    let t = miner_table();
    assert forall|a: int, b: int| 0 <= a < t.len() && 0 <= b < t.len() && a != b implies #[trigger] t[a].id != #[trigger] t[b].id by {
        if (a == 0 && b == 1) || (a == 1 && b == 0) || (a == 4 && b == 5) || (a == 5 && b == 4) {
            assert(t[a].id[0] != t[b].id[0]);
        } else {
            assert(t[a].id.len() != t[b].id.len());
        }
    }
}

/// Each known miner is found under its own id.
pub proof fn law_known_miner_by_id(i: int)
    requires
        0 <= i < miner_table().len(),
    ensures
        known_miner(miner_table()[i].id) == Some(miner_table()[i]),
{
    law_miner_ids_distinct();
    let t = miner_table();
    lemma_source_index(t, t[i].id);
    let k = source_index(t, t[i].id);
    assert(k >= 0);
    assert(t[k].id == t[i].id);
}

proof fn lemma_selected_in_table(ms: Seq<MinerSourceView>, flags: Seq<bool>, id: Seq<char>)
    requires
        selected_ids(ms, flags).contains(id),
    ensures
        exists|i: int| 0 <= i < ms.len() && ms[i].id == id,
    decreases ms.len(),
{
    if ms.len() > 0 && flags.len() > 0 {
        let rest = selected_ids(ms.drop_last(), flags.drop_last());
        if flags.last() && flags.len() == ms.len() && !rest.contains(id) {
            let k = choose|k: int| 0 <= k < selected_ids(ms, flags).len() && selected_ids(ms, flags)[k] == id;
            assert(k == rest.len());
            assert(ms[ms.len() - 1].id == id);
        } else {
            if !rest.contains(id) {
                let k = choose|k: int| 0 <= k < selected_ids(ms, flags).len() && selected_ids(ms, flags)[k] == id;
                assert(rest[k] == id);
            }
            lemma_selected_in_table(ms.drop_last(), flags.drop_last(), id);
            let i = choose|i: int| 0 <= i < ms.drop_last().len() && ms.drop_last()[i].id == id;
            assert(ms[i].id == id);
        }
    }
}

/// The miners reported installed are all known ones.
pub proof fn law_installed_are_known(flags: Seq<bool>, id: Seq<char>)
    requires
        selected_ids(miner_table(), flags).contains(id),
    ensures
        known_miner(id) is Some,
{
    lemma_selected_in_table(miner_table(), flags, id);
    let i = choose|i: int| 0 <= i < miner_table().len() && miner_table()[i].id == id;
    law_known_miner_by_id(i);
}

proof fn lemma_selected_exact(ms: Seq<MinerSourceView>, flags: Seq<bool>)
    requires
        flags.len() == ms.len(),
        forall|a: int, b: int| 0 <= a < ms.len() && 0 <= b < ms.len() && a != b ==> #[trigger] ms[a].id != #[trigger] ms[b].id,
    ensures
        selected_ids(ms, flags).no_duplicates(),
        forall|id: Seq<char>| #[trigger] selected_ids(ms, flags).contains(id)
            <==> exists|i: int| 0 <= i < ms.len() && flags[i] && ms[i].id == id,
    decreases ms.len(),
{
    if ms.len() > 0 {
        let ms0 = ms.drop_last();
        let f0 = flags.drop_last();
        assert forall|a: int, b: int| 0 <= a < ms0.len() && 0 <= b < ms0.len() && a != b implies #[trigger] ms0[a].id != #[trigger] ms0[b].id by {
            assert(ms0[a] == ms[a] && ms0[b] == ms[b]);
        }
        lemma_selected_exact(ms0, f0);
        let rest = selected_ids(ms0, f0);
        let r = selected_ids(ms, flags);
        let n = ms.len() - 1;
        if flags.last() {
            assert(r == rest.push(ms[n].id));
            assert(!rest.contains(ms[n].id)) by {
                if rest.contains(ms[n].id) {
                    let i = choose|i: int| 0 <= i < ms0.len() && f0[i] && ms0[i].id == ms[n].id;
                    assert(ms0[i] == ms[i]);
                }
            }
            assert forall|a: int, b: int| 0 <= a < r.len() && 0 <= b < r.len() && a != b implies r[a] != r[b] by {
                if a < rest.len() && b < rest.len() {
                    assert(r[a] == rest[a] && r[b] == rest[b]);
                } else if a < rest.len() {
                    assert(r[a] == rest[a]);
                    assert(rest.contains(rest[a]));
                } else {
                    assert(r[b] == rest[b]);
                    assert(rest.contains(rest[b]));
                }
            }
        } else {
            assert(r == rest);
        }
        assert forall|id: Seq<char>| #[trigger] r.contains(id)
            <==> exists|i: int| 0 <= i < ms.len() && flags[i] && ms[i].id == id by {
            if r.contains(id) {
                if rest.contains(id) {
                    let i = choose|i: int| 0 <= i < ms0.len() && f0[i] && ms0[i].id == id;
                    assert(ms0[i] == ms[i] && f0[i] == flags[i]);
                } else {
                    let k = choose|k: int| 0 <= k < r.len() && r[k] == id;
                    if flags.last() {
                        if k < rest.len() {
                            assert(r[k] == rest[k]);
                            assert(rest.contains(id));
                        }
                        assert(flags[n] && ms[n].id == id);
                    } else {
                        assert(rest.contains(id));
                    }
                }
            }
            if exists|i: int| 0 <= i < ms.len() && flags[i] && ms[i].id == id {
                let i = choose|i: int| 0 <= i < ms.len() && flags[i] && ms[i].id == id;
                if i < n {
                    assert(ms0[i] == ms[i] && f0[i] == flags[i]);
                    assert(rest.contains(id));
                    let k = choose|k: int| 0 <= k < rest.len() && rest[k] == id;
                    if flags.last() {
                        assert(r[k] == rest[k]);
                    }
                    assert(r.contains(id));
                } else {
                    assert(r[r.len() - 1] == id);
                    assert(r.contains(id));
                }
            }
        }
    } else {
        assert(selected_ids(ms, flags) =~= Seq::<Seq<char>>::empty());
    }
}

/// The installed ids that a set of probe results gives are each listed once,
/// in table order, and an id is listed exactly when it is a known miner's id
/// whose probe found it installed.
pub proof fn law_installed_ids_exact(flags: Seq<bool>, id: Seq<char>)
    requires
        flags.len() == miner_table().len(),
    ensures
        selected_ids(miner_table(), flags).no_duplicates(),
        selected_ids(miner_table(), flags).contains(id) <==> (known_miner(id) is Some && flags[source_index(miner_table(), id)]),
{
    law_miner_ids_distinct();
    let t = miner_table();
    lemma_selected_exact(t, flags);
    lemma_source_index(t, id);
    if selected_ids(t, flags).contains(id) {
        let i = choose|i: int| 0 <= i < t.len() && flags[i] && t[i].id == id;
        law_known_miner_by_id(i);
    }
    if known_miner(id) is Some && flags[source_index(t, id)] {
        let i = source_index(t, id);
        assert(0 <= i < t.len() && flags[i] && t[i].id == id);
    }
}

/// Uninstalling a miner removes the launcher script and the directory that
/// installing it writes, the archive included.
pub proof fn law_uninstall_undoes_install(id: Seq<char>, plan: InstallPlan, config: GlobalConfig)
    requires
        known_miner(id) is Some,
        is_install_plan(plan, known_miner(id)->0, config),
    ensures
        plan.wrapper_path@ == wrapper_file(known_miner(id)->0),
        plan.install_dir@ == miner_dir() + "/"@ + id,
        plan.archive_path@ == miner_dir() + "/"@ + id + "/archive.tar.gz"@,
{
    lemma_source_index(miner_table(), id);
}

/// How far an installation has got.
pub open spec fn install_rank(stage: InstallStage) -> nat {
    match stage {
        InstallStage::CreatingDir => 0,
        InstallStage::Downloading => 1,
        InstallStage::Extracting => 2,
        InstallStage::MakingExecutable => 3,
        InstallStage::WritingWrapper => 4,
        InstallStage::Cleaning => 5,
        InstallStage::Finished => 6,
    }
}

/// Every step of an installation either finishes it or moves it one stage
/// on, so it finishes within six steps whatever the outcomes.
pub proof fn law_install_progress(stage: InstallStage, succeeded: bool)
    ensures
        stage != InstallStage::Finished && (succeeded || !failure_stops(stage))
            ==> install_rank(next_stage(stage)) == install_rank(stage) + 1,
        install_rank(stage) <= 6,
        install_rank(stage) == 6 <==> stage == InstallStage::Finished,
{
}

} // verus!
