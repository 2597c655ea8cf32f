//! Settings read from the `config` directory: a default file and one per
//! run environment.
use vstd::prelude::*;

verus! {

/// Where the server listens.
pub struct ServerConfig {
    scheme: String,
    host: String,
    pub port: u16,
}

/// Where the database is.
pub struct DatabaseConfig {
    url: String,
}

/// All settings.
pub struct Settings {
    pub server: ServerConfig,
    pub database: DatabaseConfig,
}

impl ServerConfig {
    pub fn new(scheme: String, host: String, port: u16) -> (r: ServerConfig)
        ensures
            r.spec_scheme() == scheme@,
            r.spec_host() == host@,
            r.spec_port() == port,
    {
        ServerConfig { scheme, host, port }
    }

    pub closed spec fn spec_scheme(&self) -> Seq<char> {
        self.scheme@
    }

    pub closed spec fn spec_host(&self) -> Seq<char> {
        self.host@
    }

    /// The scheme the server is reached by.
    pub fn scheme(&self) -> (r: &str)
        ensures
            r@ == self.spec_scheme(),
    {
        self.scheme.as_str()
    }

    /// The host the server listens on.
    pub fn host(&self) -> (r: &str)
        ensures
            r@ == self.spec_host(),
    {
        self.host.as_str()
    }

    pub closed spec fn spec_port(&self) -> u16 {
        self.port
    }
}

impl DatabaseConfig {
    pub fn new(url: String) -> (r: DatabaseConfig)
        ensures
            r.spec_url() == url@,
    {
        DatabaseConfig { url }
    }

    pub closed spec fn spec_url(&self) -> Seq<char> {
        self.url@
    }

    /// The database's URL.
    pub fn url(&self) -> (r: &str)
        ensures
            r@ == self.spec_url(),
    {
        self.url.as_str()
    }
}

/// The run environment when none is named.
pub open spec fn default_run_env() -> Seq<char> {
    "development"@
}

impl Settings {
    /// The files that the settings are read from, in order: `default.toml`,
    /// then (optionally present) `<run_env>.toml`, where the run environment
    /// is `development` unless one is named.
    pub fn source_file_names(run_env: Option<String>) -> (r: (String, String))
        ensures
            r.0@ == "default.toml"@,
            r.1@ == match run_env {
                Some(e) => e@,
                None => default_run_env(),
            } + ".toml"@,
    {
        let mut env_file = match run_env {
            Some(e) => e,
            None => String::from_str("development"),
        };
        env_file.append(".toml");
        (String::from_str("default.toml"), env_file)
    }
}

} // verus!
