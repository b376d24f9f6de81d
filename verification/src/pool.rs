//! The built-in mining pool directory.

use vstd::prelude::*;
use crate::strmap::{distinct_keys, has_key, insert_entry, key_index, lookup, StrMap};
use crate::text::{decimal, decimal_text, digit_char, eq_ignore_ascii_case, eq_ignore_case, push_char};

verus! {

/// A known mining pool. The fee is kept in hundredths of a percent.
pub struct PoolEntry {
    pub name: String,
    pub address: String,
    pub port: u16,
    pub coins: Vec<String>,
    pub fee_centi: u32,
    pub tls: bool,
    pub notes: String,
}

/// The model of a pool entry.
pub struct PoolEntryView {
    pub name: Seq<char>,
    pub address: Seq<char>,
    pub port: u16,
    pub coins: Seq<Seq<char>>,
    pub fee_centi: u32,
    pub tls: bool,
    pub notes: Seq<char>,
}

impl View for PoolEntry {
    type V = PoolEntryView;

    open spec fn view(&self) -> PoolEntryView {
        PoolEntryView {
            name: self.name@,
            address: self.address@,
            port: self.port,
            coins: self.coins@.map_values(|c: String| c@),
            fee_centi: self.fee_centi,
            tls: self.tls,
            notes: self.notes@,
        }
    }
}

/// The result of a latency probe of a pool.
pub struct LatencyResult {
    pub pool: String,
    pub address: String,
    pub port: u16,
    pub latency_ms: Option<u64>,
    pub reachable: bool,
}

/// A one-coin pool entry.
pub open spec fn pool_view(
    name: Seq<char>,
    address: Seq<char>,
    port: u16,
    coin: Seq<char>,
    fee_centi: u32,
    tls: bool,
    notes: Seq<char>,
) -> PoolEntryView {
    PoolEntryView { name, address, port, coins: seq![coin], fee_centi, tls, notes }
}

/// The built-in pool directory, in its fixed order.
pub open spec fn pool_table() -> Seq<PoolEntryView> {
    seq![
        pool_view("P2Pool"@, "p2pool.io"@, 3333, "monero"@, 0, false, "Decentralized pool, no registration needed"@),
        pool_view("MoneroOcean"@, "gulf.moneroocean.stream"@, 10128, "monero"@, 20, false, "Auto algo-switching, pays in XMR"@),
        pool_view("SupportXMR"@, "pool.supportxmr.com"@, 3333, "monero"@, 60, false, "Long-running, reliable pool"@),
        pool_view("XMRPool"@, "xmrpool.eu"@, 9999, "monero"@, 0, true, "EU-based, PPLNS"@),
        pool_view("Flypool Zcash"@, "zcash.flypool.org"@, 4444, "zcash"@, 100, true, "Popular Equihash pool"@),
        pool_view("Flypool RVN"@, "rvn.flypool.org"@, 4444, "ravencoin"@, 100, true, "KawPow algorithm"@),
        pool_view("Nanopool ERG"@, "ergo.nanopool.org"@, 11111, "ergo"@, 100, false, "Autolykos2 algorithm"@),
    ]
}

fn pool(name: &str, address: &str, port: u16, coin: &str, fee_centi: u32, tls: bool, notes: &str) -> (p: PoolEntry)
    ensures
        p@ == pool_view(name@, address@, port, coin@, fee_centi, tls, notes@),
{
    let mut coins: Vec<String> = Vec::new();
    coins.push(coin.to_owned());
    let p = PoolEntry {
        name: name.to_owned(),
        address: address.to_owned(),
        port,
        coins,
        fee_centi,
        tls,
        notes: notes.to_owned(),
    };
    assert(p@.coins =~= seq![coin@]);
    p
}

/// The views of a sequence of pool entries.
pub open spec fn entry_views(ps: Seq<PoolEntry>) -> Seq<PoolEntryView> {
    ps.map_values(|p: PoolEntry| p@)
}

/// The built-in pool directory: well-known public pools, curated.
pub fn built_in_pools() -> (v: Vec<PoolEntry>)
    ensures
        entry_views(v@) == pool_table(),
{
    let mut v: Vec<PoolEntry> = Vec::new();
    v.push(pool("P2Pool", "p2pool.io", 3333, "monero", 0, false, "Decentralized pool, no registration needed"));
    v.push(pool("MoneroOcean", "gulf.moneroocean.stream", 10128, "monero", 20, false, "Auto algo-switching, pays in XMR"));
    v.push(pool("SupportXMR", "pool.supportxmr.com", 3333, "monero", 60, false, "Long-running, reliable pool"));
    v.push(pool("XMRPool", "xmrpool.eu", 9999, "monero", 0, true, "EU-based, PPLNS"));
    v.push(pool("Flypool Zcash", "zcash.flypool.org", 4444, "zcash", 100, true, "Popular Equihash pool"));
    v.push(pool("Flypool RVN", "rvn.flypool.org", 4444, "ravencoin", 100, true, "KawPow algorithm"));
    v.push(pool("Nanopool ERG", "ergo.nanopool.org", 11111, "ergo", 100, false, "Autolykos2 algorithm"));
    assert(entry_views(v@) =~= pool_table());
    v
}

/// Whether the pool `p` lists `coin`, ignoring ASCII case.
pub open spec fn supports_coin(p: PoolEntryView, coin: Seq<char>) -> bool {
    exists|i: int| 0 <= i < p.coins.len() && eq_ignore_ascii_case(#[trigger] p.coins[i], coin)
}

/// The pools of `ps` that support `coin`, in order.
pub open spec fn pools_supporting(ps: Seq<PoolEntryView>, coin: Seq<char>) -> Seq<PoolEntryView>
    decreases ps.len(),
{
    if ps.len() == 0 {
        seq![]
    } else if supports_coin(ps.last(), coin) {
        pools_supporting(ps.drop_last(), coin).push(ps.last())
    } else {
        pools_supporting(ps.drop_last(), coin)
    }
}

fn pool_supports(p: &PoolEntry, coin: &str) -> (b: bool)
    ensures
        b == supports_coin(p@, coin@),
{
    let mut i: usize = 0;
    while i < p.coins.len()
        invariant
            i <= p.coins@.len(),
            forall|m: int| 0 <= m < i ==> !eq_ignore_ascii_case(#[trigger] p@.coins[m], coin@),
        decreases p.coins.len() - i,
    {
        if eq_ignore_case(p.coins[i].as_str(), coin) {
            assert(eq_ignore_ascii_case(p@.coins[i as int], coin@));
            return true;
        }
        i += 1;
    }
    false
}

/// The pools among `pools` that support `coin` (ignoring ASCII case), in order.
pub fn pools_for_coin<'a>(pools: &'a [PoolEntry], coin: &str) -> (r: Vec<&'a PoolEntry>)
    ensures
        r@.map_values(|p: &PoolEntry| p@) == pools_supporting(pools@.map_values(|p: PoolEntry| p@), coin@),
{
    let ghost all = pools@.map_values(|p: PoolEntry| p@);
    let mut r: Vec<&'a PoolEntry> = Vec::new();
    let mut i: usize = 0;
    assert(all.take(0) =~= Seq::<PoolEntryView>::empty());
    while i < pools.len()
        invariant
            i <= pools@.len(),
            all == pools@.map_values(|p: PoolEntry| p@),
            r@.map_values(|p: &PoolEntry| p@) == pools_supporting(all.take(i as int), coin@),
        decreases pools.len() - i,
    {
        assert(all.take(i + 1).drop_last() =~= all.take(i as int));
        assert(all.take(i + 1).last() == pools@[i as int]@);
        let p = &pools[i];
        if pool_supports(p, coin) {
            let ghost before = r@.map_values(|q: &PoolEntry| q@);
            r.push(p);
            assert(r@.map_values(|q: &PoolEntry| q@) =~= before.push(p@));
        }
        i += 1;
    }
    assert(all.take(i as int) =~= all);
    r
}

/// `ps` keyed by name, later entries winning for a repeated name.
pub open spec fn directory_of(ps: Seq<PoolEntryView>) -> Seq<(Seq<char>, PoolEntryView)>
    decreases ps.len(),
{
    if ps.len() == 0 {
        seq![]
    } else {
        insert_entry(directory_of(ps.drop_last()), ps.last().name, ps.last())
    }
}

/// The built-in directory keyed by pool name.
pub fn pool_directory() -> (d: StrMap<PoolEntry>)
    ensures
        d@.map_values(|e: (Seq<char>, PoolEntry)| (e.0, e.1@)) == directory_of(pool_table()),
        distinct_keys(d@),
{
    let mut v = built_in_pools();
    let ghost all = entry_views(v@);
    let mut d: StrMap<PoolEntry> = StrMap::new();
    let mut i: usize = 0;
    assert(all.take(0) =~= Seq::<PoolEntryView>::empty());
    assert(d@.map_values(|e: (Seq<char>, PoolEntry)| (e.0, e.1@)) =~= Seq::<(Seq<char>, PoolEntryView)>::empty());
    while v.len() > 0
        invariant
            all == pool_table(),
            i + v@.len() == all.len(),
            entry_views(v@) == all.skip(i as int),
            d@.map_values(|e: (Seq<char>, PoolEntry)| (e.0, e.1@)) == directory_of(all.take(i as int)),
            distinct_keys(d@),
        decreases v.len(),
    {
        let ghost before = v@;
        let p = v.remove(0);
        assert(entry_views(before)[0] == before[0]@);
        assert(all.skip(i as int)[0] == all[i as int]);
        assert(p@ == all[i as int]);
        assert forall|m: int| 0 <= m < v@.len() implies entry_views(v@)[m] == all.skip(i + 1)[m] by {
            assert(v@[m] == before[m + 1]);
            assert(entry_views(before)[m + 1] == all.skip(i as int)[m + 1]);
        }
        assert(entry_views(v@) =~= all.skip(i + 1));
        assert(all.take(i + 1).drop_last() =~= all.take(i as int));
        let name = p.name.clone();
        let ghost dv = d@;
        d.insert(name, p);
        proof {
            lemma_insert_views(dv, p@.name, p);
            assert(all.take(i + 1).last() == p@);
        }
        i += 1;
    }
    assert(all.take(i as int) =~= all);
    d
}

/// Storing an entry commutes with taking the views of the stored entries.
proof fn lemma_insert_views(ps: Seq<(Seq<char>, PoolEntry)>, k: Seq<char>, p: PoolEntry)
    requires
        crate::strmap::distinct_keys(ps),
    ensures
        insert_entry(ps, k, p).map_values(|e: (Seq<char>, PoolEntry)| (e.0, e.1@))
            == insert_entry(ps.map_values(|e: (Seq<char>, PoolEntry)| (e.0, e.1@)), k, p@),
{
    let f = |e: (Seq<char>, PoolEntry)| (e.0, e.1@);
    let qs = ps.map_values(f);
    assert forall|i: int| 0 <= i < ps.len() implies (#[trigger] ps[i]).0 == qs[i].0 by {}
    if crate::strmap::has_key(ps, k) {
        let i = crate::strmap::key_index(ps, k);
        assert(qs[i].0 == k);
        assert(crate::strmap::has_key(qs, k));
        let j = crate::strmap::key_index(qs, k);
        assert(ps[j].0 == k);
        assert(insert_entry(ps, k, p).map_values(f) =~= insert_entry(qs, k, p@)) by {
            // both positions hold the key; the update lands where the views do
            assert(ps[i].0 == k && ps[j].0 == k);
        }
    } else {
        assert forall|i: int| 0 <= i < qs.len() implies qs[i].0 != k by {
            assert(ps[i].0 == qs[i].0);
        }
        assert(!crate::strmap::has_key(qs, k));
        assert(insert_entry(ps, k, p).map_values(f) =~= insert_entry(qs, k, p@));
    }
}

/// A latency probe result for `address:port`: reachable exactly where a
/// connect time was measured.
pub fn latency_result(address: &str, port: u16, elapsed_ms: Option<u64>) -> (r: LatencyResult)
    ensures
        r.pool@ == Seq::<char>::empty(),
        r.address@ == address@,
        r.port == port,
        r.latency_ms == elapsed_ms,
        r.reachable == elapsed_ms is Some,
{
    LatencyResult {
        pool: String::new(),
        address: address.to_owned(),
        port,
        latency_ms: elapsed_ms,
        reachable: elapsed_ms.is_some(),
    }
}

/// A fee given in hundredths of a percent, written as a percentage in decimal
/// without trailing zeros (`20` is `0.2`, `100` is `1`).
pub open spec fn fee_text(c: nat) -> Seq<char> {
    if c % 100 == 0 {
        decimal(c / 100)
    } else if c % 10 == 0 {
        decimal(c / 100).push('.').push(digit_char((c % 100) / 10))
    } else {
        decimal(c / 100).push('.').push(digit_char((c % 100) / 10)).push(digit_char(c % 10))
    }
}

/// Writes a fee given in hundredths of a percent (see `fee_text`).
pub fn format_fee(c: u32) -> (s: String)
    ensures
        s@ == fee_text(c as nat),
{
    let mut s = decimal_text((c / 100) as u64);
    if c % 100 != 0 {
        push_char(&mut s, '.');
        push_char(&mut s, ((((c % 100) / 10) as u8) + 48) as char);
        if c % 10 != 0 {
            push_char(&mut s, (((c % 10) as u8) + 48) as char);
        }
    }
    s
}


/// The entry of the pool named `name` in the built-in directory.
pub open spec fn directory_entry(name: Seq<char>) -> Option<PoolEntryView> {
    lookup(directory_of(pool_table()), name)
}

/// Looking a key up commutes with taking the views of the values.
pub proof fn lemma_lookup_views(ps: Seq<(Seq<char>, PoolEntry)>, k: Seq<char>)
    requires
        distinct_keys(ps),
    ensures
        lookup(ps.map_values(|e: (Seq<char>, PoolEntry)| (e.0, e.1@)), k) == match lookup(ps, k) {
            Some(p) => Some(p@),
            None => None,
        },
{
    let f = |e: (Seq<char>, PoolEntry)| (e.0, e.1@);
    let qs = ps.map_values(f);
    if has_key(ps, k) {
        let i = key_index(ps, k);
        assert(qs[i].0 == k);
        let j = key_index(qs, k);
        assert(ps[j].0 == qs[j].0);
    } else {
        assert forall|i: int| 0 <= i < qs.len() implies qs[i].0 != k by {
            assert(ps[i].0 == qs[i].0);
        }
    }
}

/// The entry of the pool named `name` in the built-in directory, if any.
pub fn find_pool(name: &str) -> (r: Option<PoolEntry>)
    ensures
        r is Some <==> directory_entry(name@) is Some,
        r matches Some(e) ==> directory_entry(name@) == Some(e@),
{
    let d = pool_directory();
    proof {
        lemma_lookup_views(d@, name@);
    }
    match d.get(name) {
        Some(e) => {
            let mut coins: Vec<String> = Vec::new();
            let mut i: usize = 0;
            while i < e.coins.len()
                invariant
                    i <= e.coins@.len(),
                    coins@.map_values(|c: String| c@) == e.coins@.map_values(|c: String| c@).take(i as int),
                decreases e.coins.len() - i,
            {
                let ghost before = coins@.map_values(|c: String| c@);
                coins.push(e.coins[i].clone());
                assert(coins@.map_values(|c: String| c@) =~= before.push(e.coins@[i as int]@));
                assert(e.coins@.map_values(|c: String| c@).take(i + 1) =~= e.coins@.map_values(|c: String| c@).take(i as int).push(e.coins@[i as int]@));
                i += 1;
            }
            assert(e.coins@.map_values(|c: String| c@).take(i as int) =~= e.coins@.map_values(|c: String| c@));
            let r = PoolEntry {
                name: e.name.clone(),
                address: e.address.clone(),
                port: e.port,
                coins,
                fee_centi: e.fee_centi,
                tls: e.tls,
                notes: e.notes.clone(),
            };
            assert(r@ == e@);
            Some(r)
        },
        None => None,
    }
}


/// `pools_for_coin` keeps exactly the pools that support the coin: every
/// pool it gives supports the coin and is one of the given pools, and every
/// given pool that supports the coin is among those it gives.
pub proof fn law_pools_for_coin_exact(ps: Seq<PoolEntryView>, coin: Seq<char>)
    ensures
        forall|i: int| 0 <= i < pools_supporting(ps, coin).len() ==>
            supports_coin(#[trigger] pools_supporting(ps, coin)[i], coin) && ps.contains(pools_supporting(ps, coin)[i]),
        forall|j: int| 0 <= j < ps.len() && supports_coin(#[trigger] ps[j], coin) ==> pools_supporting(ps, coin).contains(ps[j]),
    decreases ps.len(),
{
    if ps.len() > 0 {
        let q = ps.drop_last();
        law_pools_for_coin_exact(q, coin);
        let r = pools_supporting(ps, coin);
        let rq = pools_supporting(q, coin);
        assert forall|i: int| 0 <= i < r.len() implies supports_coin(#[trigger] r[i], coin) && ps.contains(r[i]) by {
            if i < rq.len() {
                assert(r[i] == rq[i]);
                assert(supports_coin(rq[i], coin));
                let k = choose|k: int| 0 <= k < q.len() && q[k] == rq[i];
                assert(ps[k] == q[k]);
            } else {
                assert(r[i] == ps.last());
                assert(ps[ps.len() - 1] == ps.last());
            }
        }
        assert forall|j: int| 0 <= j < ps.len() && supports_coin(#[trigger] ps[j], coin) implies r.contains(ps[j]) by {
            if j < q.len() {
                assert(q[j] == ps[j]);
                assert(rq.contains(q[j]));
                let k = choose|k: int| 0 <= k < rq.len() && rq[k] == q[j];
                assert(r[k] == rq[k]);
            } else {
                assert(r[r.len() - 1] == ps[j]);
            }
        }
    }
}

/// Keying pools with distinct names by name keeps them in order.
proof fn lemma_directory_distinct(ps: Seq<PoolEntryView>)
    requires
        forall|i: int, j: int| 0 <= i < ps.len() && 0 <= j < ps.len() && i != j ==> #[trigger] ps[i].name != #[trigger] ps[j].name,
    ensures
        directory_of(ps) == ps.map_values(|p: PoolEntryView| (p.name, p)),
        distinct_keys(directory_of(ps)),
    decreases ps.len(),
{
    if ps.len() > 0 {
        let q = ps.drop_last();
        assert forall|i: int, j: int| 0 <= i < q.len() && 0 <= j < q.len() && i != j implies #[trigger] q[i].name != #[trigger] q[j].name by {
            assert(q[i] == ps[i] && q[j] == ps[j]);
        }
        lemma_directory_distinct(q);
        let d = directory_of(q);
        let last = ps.last();
        assert forall|m: int| 0 <= m < d.len() implies d[m].0 != last.name by {
            assert(d[m].0 == q[m].name);
            assert(q[m] == ps[m]);
            assert(ps[ps.len() - 1] == last);
        }
        assert(!has_key(d, last.name));
        assert(directory_of(ps) =~= ps.map_values(|p: PoolEntryView| (p.name, p)));
        assert forall|a: int, b: int| 0 <= a < directory_of(ps).len() && 0 <= b < directory_of(ps).len() && a != b
            implies #[trigger] directory_of(ps)[a].0 != #[trigger] directory_of(ps)[b].0 by {
            assert(directory_of(ps)[a].0 == ps[a].name);
            assert(directory_of(ps)[b].0 == ps[b].name);
        }
    }
}

/// Every built-in pool is found in the directory under its name.
pub proof fn law_directory_has_every_pool(i: int)
    requires
        0 <= i < pool_table().len(),
    ensures
        directory_entry(pool_table()[i].name) == Some(pool_table()[i]),
{
    reveal_strlit("P2Pool");
    reveal_strlit("MoneroOcean");
    reveal_strlit("SupportXMR");
    reveal_strlit("XMRPool");
    reveal_strlit("Flypool Zcash");
    reveal_strlit("Flypool RVN");
    reveal_strlit("Nanopool ERG");
    let t = pool_table();
    assert forall|a: int, b: int| 0 <= a < t.len() && 0 <= b < t.len() && a != b implies #[trigger] t[a].name != #[trigger] t[b].name by {
        if (a == 1 && b == 5) || (a == 5 && b == 1) {
            assert(t[a].name[0] != t[b].name[0]);
        } else {
            assert(t[a].name.len() != t[b].name.len());
        }
    }
    lemma_directory_distinct(t);
    let d = directory_of(t);
    assert(d[i].0 == t[i].name);
    assert(has_key(d, t[i].name));
    let k = key_index(d, t[i].name);
    assert(d[k].0 == t[i].name);
}

} // verus!
