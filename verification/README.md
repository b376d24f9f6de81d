# strawberryd

The system daemon of Strawberry OS, a zero-telemetry Linux distribution for
cryptocurrency mining. The daemon answers line-based requests on a Unix
socket: it lists, installs and removes miners, manages wallet addresses,
offers a curated pool directory and reads the store catalog.

`src/` is the verified library, written in Verus:

- `text`: character-level string functions (trimming, lines, words,
  splitting, decimal numbers, paths) with contracts over `Seq<char>`;
- `strmap`: a string-keyed map that keeps insertion order. The wallet,
  pool and directory maps use it in place of `HashMap<String, _>`: vstd
  specifies `HashMap` lookups only for keys whose hashing and equality it
  models, which a `String` key is not, so a lookup in such a map could not be
  tied to what was inserted. `StrMap` is a vector of entries whose invariant
  is that no key occurs twice; its entries come out in insertion order, where
  a `HashMap`'s order was unspecified;
- `config`: the configuration model and its defaults (telemetry is always off
  once loaded);
- `wallet`: coin definitions, address checks, and reading the wallet tool's
  output;
- `pool`: the pool directory and pool lookups;
- `miner`: the miner table, launcher scripts, and the install procedure as a
  state machine;
- `catalog`: the store catalog: its JSON model (parsed by `serde_json`),
  which sections and fields the daemon reads from it, the fallback from cache
  to bundled to empty catalog, and the cache refresh decision;
- `commands` and `daemon`: request parsing, answers, and the request handler
  as a state machine that asks for outside work.

`app/` holds the program around it: command-line parsing, the socket server,
file and network access, and running external tools.
