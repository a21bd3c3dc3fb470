//! Service configuration: HTTP listener, embedding model, vector search and
//! key-value store settings, with their defaults. Reading and parsing the
//! configuration file is the caller's concern; the store here only holds and
//! hands out the parsed value.
use vstd::prelude::*;

verus! {

pub struct ConfigHttp {
    pub port: u16,
    pub bind: String,
}

impl ConfigHttp {
    pub fn port_default() -> (r: u16)
        ensures
            r == 3000,
    {
        3000
    }

    pub fn bind_default() -> (r: String)
        ensures
            r@ == "::0"@,
    {
        "::0".to_owned()
    }

    pub fn clone_image(&self) -> (r: Self)
        ensures
            r == *self,
    {
        ConfigHttp { port: self.port, bind: self.bind.clone() }
    }
}

impl Default for ConfigHttp {
    fn default() -> (r: Self)
        ensures
            r.port == 3000,
            r.bind@ == "::0"@,
    {
        ConfigHttp { port: ConfigHttp::port_default(), bind: ConfigHttp::bind_default() }
    }
}

pub struct ConfigModel {
    pub model_id: String,
    pub revision: String,
    pub use_pth: bool,
    pub approximate_gelu: bool,
}

impl ConfigModel {
    pub fn model_id_default() -> (r: String)
        ensures
            r@ == "moka-ai/m3e-large"@,
    {
        "moka-ai/m3e-large".to_owned()
    }

    pub fn revision_default() -> (r: String)
        ensures
            r@ == "main"@,
    {
        "main".to_owned()
    }

    pub fn use_pth_default() -> (r: bool)
        ensures
            r == true,
    {
        true
    }

    pub fn approximate_gelu_default() -> (r: bool)
        ensures
            r == false,
    {
        false
    }

    pub fn clone_image(&self) -> (r: Self)
        ensures
            r == *self,
    {
        ConfigModel {
            model_id: self.model_id.clone(),
            revision: self.revision.clone(),
            use_pth: self.use_pth,
            approximate_gelu: self.approximate_gelu,
        }
    }
}

impl Default for ConfigModel {
    fn default() -> (r: Self)
        ensures
            r.model_id@ == "moka-ai/m3e-large"@,
            r.revision@ == "main"@,
            r.use_pth == true,
            r.approximate_gelu == false,
    {
        ConfigModel {
            model_id: ConfigModel::model_id_default(),
            revision: ConfigModel::revision_default(),
            use_pth: ConfigModel::use_pth_default(),
            approximate_gelu: ConfigModel::approximate_gelu_default(),
        }
    }
}

pub struct ConfigQdrant {
    pub uri: String,
    pub timeout: u64,
    pub connect_timeout: u64,
    pub keep_alive_while_idle: bool,
    pub api_key: Option<String>,
    pub collection: String,
}

impl ConfigQdrant {
    pub fn default_uri() -> (r: String)
        ensures
            r@ == "http://localhost:6334"@,
    {
        "http://localhost:6334".to_owned()
    }

    pub fn default_timeout() -> (r: u64)
        ensures
            r == 5,
    {
        5
    }

    pub fn default_connect_timeout() -> (r: u64)
        ensures
            r == 5,
    {
        5
    }

    pub fn default_keep_alive_while_idle() -> (r: bool)
        ensures
            r == true,
    {
        true
    }

    pub fn default_api_key() -> (r: Option<String>)
        ensures
            r is None,
    {
        Option::None
    }

    pub fn default_collection() -> (r: String)
        ensures
            r@ == "default_collection"@,
    {
        "default_collection".to_owned()
    }

    pub fn clone_image(&self) -> (r: Self)
        ensures
            r == *self,
    {
        let api_key = match &self.api_key {
            Option::Some(k) => Option::Some(k.clone()),
            Option::None => Option::None,
        };
        ConfigQdrant {
            uri: self.uri.clone(),
            timeout: self.timeout,
            connect_timeout: self.connect_timeout,
            keep_alive_while_idle: self.keep_alive_while_idle,
            api_key,
            collection: self.collection.clone(),
        }
    }
}

impl Default for ConfigQdrant {
    fn default() -> (r: Self)
        ensures
            r.uri@ == "http://localhost:6334"@,
            r.timeout == 5,
            r.connect_timeout == 5,
            r.keep_alive_while_idle == true,
            r.api_key is None,
            r.collection@ == "default_collection"@,
    {
        ConfigQdrant {
            uri: ConfigQdrant::default_uri(),
            timeout: ConfigQdrant::default_timeout(),
            connect_timeout: ConfigQdrant::default_connect_timeout(),
            keep_alive_while_idle: ConfigQdrant::default_keep_alive_while_idle(),
            api_key: ConfigQdrant::default_api_key(),
            collection: ConfigQdrant::default_collection(),
        }
    }
}

pub struct ConfigRocksDB {
    pub path: String,
}

impl ConfigRocksDB {
    pub fn path_default() -> (r: String)
        ensures
            r@ == "rocksdb"@,
    {
        "rocksdb".to_owned()
    }

    pub fn clone_image(&self) -> (r: Self)
        ensures
            r == *self,
    {
        ConfigRocksDB { path: self.path.clone() }
    }
}

impl Default for ConfigRocksDB {
    fn default() -> (r: Self)
        ensures
            r.path@ == "rocksdb"@,
    {
        ConfigRocksDB { path: ConfigRocksDB::path_default() }
    }
}

pub struct Config {
    pub http: ConfigHttp,
    pub model: ConfigModel,
    pub qdrant: ConfigQdrant,
}

/// The default configuration value, stated once so that `Config::default` and
/// its callers can speak about every field.
pub open spec fn config_is_default(c: Config) -> bool {
    &&& c.http.port == 3000
    &&& c.http.bind@ == "::0"@
    &&& c.model.model_id@ == "moka-ai/m3e-large"@
    &&& c.model.revision@ == "main"@
    &&& c.model.use_pth == true
    &&& c.model.approximate_gelu == false
    &&& c.qdrant.uri@ == "http://localhost:6334"@
    &&& c.qdrant.timeout == 5
    &&& c.qdrant.connect_timeout == 5
    &&& c.qdrant.keep_alive_while_idle == true
    &&& c.qdrant.api_key is None
    &&& c.qdrant.collection@ == "default_collection"@
}

impl Config {
    pub fn default() -> (r: Self)
        ensures
            config_is_default(r),
    {
        Config {
            http: ConfigHttp::default(),
            model: ConfigModel::default(),
            qdrant: ConfigQdrant::default(),
        }
    }

    pub fn http_default() -> (r: ConfigHttp)
        ensures
            r.port == 3000,
            r.bind@ == "::0"@,
    {
        ConfigHttp::default()
    }

    /// An owned copy of the configuration, handed out so callers never hold a
    /// borrow of the shared store.
    pub fn get_config_image(&self) -> (r: Self)
        ensures
            r == *self,
    {
        Config {
            http: self.http.clone_image(),
            model: self.model.clone_image(),
            qdrant: self.qdrant.clone_image(),
        }
    }
}

/// Owns the configuration that the rest of the service reads. The process
/// keeps a single store; handing copies out of it replaces reading a global.
pub struct ConfigStore {
    pub config: Config,
}

impl ConfigStore {
    pub fn new(config: Config) -> (r: Self)
        ensures
            r.config == config,
    {
        ConfigStore { config }
    }

    /// A copy of the current configuration.
    pub fn get_config(&self) -> (r: Config)
        ensures
            r == self.config,
    {
        self.config.get_config_image()
    }

    /// Install a configuration parsed from a file; the file reading and
    /// parsing happen at the caller.
    pub fn set_config(&mut self, config: Config)
        ensures
            final(self).config == config,
    {
        self.config = config;
    }
}

} // verus!
