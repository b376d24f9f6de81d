//! Daemon configuration: the model of `/etc/strawberry/global.toml`.

use vstd::prelude::*;
use crate::strmap::{insert_entry, Duplicate, StrMap};

verus! {

/// Where the global configuration lives unless overridden.
pub fn global_config_path() -> (s: String)
    ensures
        s@ == "/etc/strawberry/global.toml"@,
{
    "/etc/strawberry/global.toml".to_owned()
}

/// The configuration path: the `STRAWBERRY_CONFIG` override where one is set,
/// else `/etc/strawberry/global.toml`.
pub fn resolve_config_path(env_override: Option<String>) -> (s: String)
    ensures
        env_override matches Some(p) ==> s == p,
        env_override is None ==> s@ == "/etc/strawberry/global.toml"@,
{
    match env_override {
        Some(p) => p,
        None => global_config_path(),
    }
}

/// The whole configuration.
pub struct GlobalConfig {
    pub general: GeneralConfig,
    pub mining: MiningConfig,
    pub storage: StorageConfig,
    /// Wallet address per coin.
    pub wallets: StrMap<String>,
    /// Pool per coin.
    pub pools: StrMap<PoolConfig>,
}

/// General settings.
pub struct GeneralConfig {
    pub telemetry: bool,
    pub log_level: String,
    pub catalog_url: String,
    /// Path of the cached store catalog.
    pub catalog_cache: String,
    pub catalog_refresh_secs: u64,
}

/// Mining settings.
pub struct MiningConfig {
    pub default_algo: String,
    pub power_limit: u32,
    pub fan_curve: String,
}

/// Directories the daemon uses.
pub struct StorageConfig {
    pub data_dir: String,
    pub log_dir: String,
    pub config_dir: String,
}

/// A pool chosen for a coin. The fee is kept in hundredths of a percent.
pub struct PoolConfig {
    pub address: String,
    pub port: u16,
    pub tls: bool,
    pub coin: String,
    pub fee_centi: u32,
}

/// URL of the remote store catalog used when none is configured.
pub fn default_catalog_url() -> (s: String)
    ensures
        s@ == "https://sabeeirsharrma.github.io/strawberryOS/store/store-catalog.json"@,
{
    "https://sabeeirsharrma.github.io/strawberryOS/store/store-catalog.json".to_owned()
}

/// Path of the catalog cache used when none is configured.
pub fn default_catalog_cache() -> (s: String)
    ensures
        s@ == "/var/lib/strawberry/store-catalog.json"@,
{
    "/var/lib/strawberry/store-catalog.json".to_owned()
}

/// Catalog refresh interval used when none is configured: one hour.
pub fn default_catalog_interval() -> (n: u64)
    ensures
        n == 3600,
{
    3600
}

impl Clone for GeneralConfig {
    fn clone(&self) -> (r: Self)
        ensures
            r == *self,
    {
        GeneralConfig {
            telemetry: self.telemetry,
            log_level: self.log_level.clone(),
            catalog_url: self.catalog_url.clone(),
            catalog_cache: self.catalog_cache.clone(),
            catalog_refresh_secs: self.catalog_refresh_secs,
        }
    }
}

impl Default for GeneralConfig {
    fn default() -> (r: Self)
        ensures
            !r.telemetry,
            r.log_level@ == "info"@,
            r.catalog_url@ == "https://sabeeirsharrma.github.io/strawberryOS/store/store-catalog.json"@,
            r.catalog_cache@ == "/var/lib/strawberry/store-catalog.json"@,
            r.catalog_refresh_secs == 3600,
    {
        GeneralConfig {
            telemetry: false,
            log_level: "info".to_owned(),
            catalog_url: default_catalog_url(),
            catalog_cache: default_catalog_cache(),
            catalog_refresh_secs: default_catalog_interval(),
        }
    }
}

impl Default for MiningConfig {
    fn default() -> (r: Self)
        ensures
            r.default_algo@ == Seq::<char>::empty(),
            r.power_limit == 0,
            r.fan_curve@ == "auto"@,
    {
        MiningConfig { default_algo: String::new(), power_limit: 0, fan_curve: "auto".to_owned() }
    }
}

impl Default for StorageConfig {
    fn default() -> (r: Self)
        ensures
            r.data_dir@ == "/var/lib/strawberry"@,
            r.log_dir@ == "/var/log/strawberry"@,
            r.config_dir@ == "/etc/strawberry"@,
    {
        StorageConfig {
            data_dir: "/var/lib/strawberry".to_owned(),
            log_dir: "/var/log/strawberry".to_owned(),
            config_dir: "/etc/strawberry".to_owned(),
        }
    }
}


impl Duplicate for PoolConfig {
    fn duplicate(&self) -> (r: Self)
        ensures
            r == *self,
    {
        PoolConfig {
            address: self.address.clone(),
            port: self.port,
            tls: self.tls,
            coin: self.coin.clone(),
            fee_centi: self.fee_centi,
        }
    }
}

impl Clone for PoolConfig {
    fn clone(&self) -> (r: Self)
        ensures
            r == *self,
    {
        self.duplicate()
    }
}

impl Clone for MiningConfig {
    fn clone(&self) -> (r: Self)
        ensures
            r == *self,
    {
        MiningConfig {
            default_algo: self.default_algo.clone(),
            power_limit: self.power_limit,
            fan_curve: self.fan_curve.clone(),
        }
    }
}

impl Clone for StorageConfig {
    fn clone(&self) -> (r: Self)
        ensures
            r == *self,
    {
        StorageConfig {
            data_dir: self.data_dir.clone(),
            log_dir: self.log_dir.clone(),
            config_dir: self.config_dir.clone(),
        }
    }
}

impl Clone for GlobalConfig {
    fn clone(&self) -> (r: Self)
        ensures
            r.general == self.general,
            r.mining == self.mining,
            r.storage == self.storage,
            r.wallets@ == self.wallets@,
            r.pools@ == self.pools@,
    {
        GlobalConfig {
            general: self.general.clone(),
            mining: self.mining.clone(),
            storage: self.storage.clone(),
            wallets: self.wallets.clone(),
            pools: self.pools.clone(),
        }
    }
}

impl Default for GlobalConfig {
    fn default() -> (r: Self)
        ensures
            is_default_config(r),
    {
        GlobalConfig {
            general: GeneralConfig::default(),
            mining: MiningConfig::default(),
            storage: StorageConfig::default(),
            wallets: StrMap::new(),
            pools: StrMap::new(),
        }
    }
}

/// What `GlobalConfig::default` holds: telemetry off, log level `info`, the
/// default catalog settings, fan curve `auto`, the standard directories, and
/// no wallets or pools.
pub open spec fn is_default_config(c: GlobalConfig) -> bool {
    &&& !c.general.telemetry
    &&& c.general.log_level@ == "info"@
    &&& c.general.catalog_url@ == "https://sabeeirsharrma.github.io/strawberryOS/store/store-catalog.json"@
    &&& c.general.catalog_cache@ == "/var/lib/strawberry/store-catalog.json"@
    &&& c.general.catalog_refresh_secs == 3600
    &&& c.mining.default_algo@ == Seq::<char>::empty()
    &&& c.mining.power_limit == 0
    &&& c.mining.fan_curve@ == "auto"@
    &&& c.storage.data_dir@ == "/var/lib/strawberry"@
    &&& c.storage.log_dir@ == "/var/log/strawberry"@
    &&& c.storage.config_dir@ == "/etc/strawberry"@
    &&& c.wallets@.len() == 0
    &&& c.pools@.len() == 0
}

/// The configuration the daemon runs with, given what was read from disk
/// (`None` where no file exists): the defaults for a fresh install, else the
/// file's settings with telemetry forced off.
pub fn loaded_config(found: Option<GlobalConfig>) -> (c: GlobalConfig)
    ensures
        !c.general.telemetry,
        found is None ==> is_default_config(c),
        found matches Some(f) ==> {
            &&& c.general.log_level == f.general.log_level
            &&& c.general.catalog_url == f.general.catalog_url
            &&& c.general.catalog_cache == f.general.catalog_cache
            &&& c.general.catalog_refresh_secs == f.general.catalog_refresh_secs
            &&& c.mining == f.mining
            &&& c.storage == f.storage
            &&& c.wallets@ == f.wallets@
            &&& c.pools@ == f.pools@
        },
{
    match found {
        None => GlobalConfig::default(),
        Some(mut f) => {
            f.general.telemetry = false;
            f
        },
    }
}

/// `config` with `address` stored as the wallet of `coin`.
pub fn with_wallet(config: &GlobalConfig, coin: &str, address: String) -> (c: GlobalConfig)
    ensures
        c.general == config.general,
        c.mining == config.mining,
        c.storage == config.storage,
        c.wallets@ == insert_entry(config.wallets@, coin@, address),
        c.pools@ == config.pools@,
{
    let mut c = config.clone();
    c.wallets.insert(coin.to_owned(), address);
    c
}

/// `config` with `pool` stored as the pool of `coin`.
pub fn with_pool(config: &GlobalConfig, coin: &str, pool: PoolConfig) -> (c: GlobalConfig)
    ensures
        c.general == config.general,
        c.mining == config.mining,
        c.storage == config.storage,
        c.wallets@ == config.wallets@,
        c.pools@ == insert_entry(config.pools@, coin@, pool),
{
    let mut c = config.clone();
    c.pools.insert(coin.to_owned(), pool);
    c
}

} // verus!
