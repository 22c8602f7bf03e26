//! Configuration of the static file surface: which directories are served under
//! which prefixes, and the server-wide options.
use vstd::prelude::*;

verus! {

/// One directory served under a URL prefix.
#[derive(Debug, Clone)]
pub struct StaticDirConfig {
    /// URL path prefix.
    pub path_prefix: String,
    /// Directory on disk.
    pub dir_path: String,
    /// Whether precompressed variants are served.
    pub enable_compression: bool,
    /// Cache lifetime in seconds.
    pub cache_max_age: u64,
}

impl StaticDirConfig {
    /// A directory with compression on and a cache lifetime of one hour.
    pub fn new(path_prefix: &str, dir_path: &str) -> (r: StaticDirConfig)
        ensures
            r.path_prefix@ == path_prefix@,
            r.dir_path@ == dir_path@,
            r.enable_compression,
            r.cache_max_age == 3600,
    {
        StaticDirConfig {
            path_prefix: String::from_str(path_prefix),
            dir_path: String::from_str(dir_path),
            enable_compression: true,
            cache_max_age: 3600,
        }
    }

    pub fn with_compression(self, enable: bool) -> (r: StaticDirConfig)
        ensures
            r == (StaticDirConfig { enable_compression: enable, ..self }),
    {
        let mut c = self;
        c.enable_compression = enable;
        c
    }

    pub fn with_cache_max_age(self, max_age: u64) -> (r: StaticDirConfig)
        ensures
            r == (StaticDirConfig { cache_max_age: max_age, ..self }),
    {
        let mut c = self;
        c.cache_max_age = max_age;
        c
    }
}

/// The static surface: its directories, index file and options.
#[derive(Debug, Clone)]
pub struct StaticServerConfig {
    /// Directories, in the order in which they were added.
    pub dirs: Vec<StaticDirConfig>,
    /// The file served where no directory matches.
    pub index_file: String,
    /// Whether cross-origin requests are allowed.
    pub enable_cors: bool,
    /// Whether requests are traced.
    pub enable_trace: bool,
}

impl Default for StaticServerConfig {
    fn default() -> (r: StaticServerConfig)
        ensures
            r.dirs@.len() == 0,
            r.index_file@ == "index.html"@,
            r.enable_cors,
            !r.enable_trace,
    {
        StaticServerConfig {
            dirs: Vec::new(),
            index_file: String::from_str("index.html"),
            enable_cors: true,
            enable_trace: false,
        }
    }
}

impl StaticServerConfig {
    /// No directories, index file "index.html", CORS on, tracing off.
    pub fn new() -> (r: StaticServerConfig)
        ensures
            r.dirs@.len() == 0,
            r.index_file@ == "index.html"@,
            r.enable_cors,
            !r.enable_trace,
    {
        StaticServerConfig::default()
    }

    pub fn add_dir(self, config: StaticDirConfig) -> (r: StaticServerConfig)
        ensures
            r.dirs@ == self.dirs@.push(config),
            r.index_file == self.index_file,
            r.enable_cors == self.enable_cors,
            r.enable_trace == self.enable_trace,
    {
        let mut c = self;
        c.dirs.push(config);
        c
    }

    pub fn with_index_file(self, index_file: &str) -> (r: StaticServerConfig)
        ensures
            r.dirs == self.dirs,
            r.index_file@ == index_file@,
            r.enable_cors == self.enable_cors,
            r.enable_trace == self.enable_trace,
    {
        let mut c = self;
        c.index_file = String::from_str(index_file);
        c
    }

    pub fn with_cors(self, enable: bool) -> (r: StaticServerConfig)
        ensures
            r == (StaticServerConfig { enable_cors: enable, ..self }),
    {
        let mut c = self;
        c.enable_cors = enable;
        c
    }

    pub fn with_trace(self, enable: bool) -> (r: StaticServerConfig)
        ensures
            r == (StaticServerConfig { enable_trace: enable, ..self }),
    {
        let mut c = self;
        c.enable_trace = enable;
        c
    }
}

} // verus!
