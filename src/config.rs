use vstd::prelude::*;

verus! {

/// The deployment environment; it selects how logs are written.
#[derive(Debug, Clone, Copy, PartialEq, Eq, Structural)]
pub enum Env {
    Local,
    Prod,
    Dev,
}

/// Settings of the HTTP server and of the credentials that guard writes.
#[derive(Debug, Clone)]
pub struct HttpServer {
    pub address: String,
    /// Seconds a request may take before it is aborted.
    pub timeout: i32,
    /// Seconds an idle connection is kept.
    pub idle_timeout: i32,
    pub user: String,
    pub password: String,
}

/// The whole service configuration.
#[derive(Debug, Clone)]
pub struct Configuration {
    pub env: Env,
    pub storage_path: String,
    /// Length of generated aliases.
    pub alias_length: i32,
    pub http_server: HttpServer,
}

/// Length of generated aliases when nothing else is configured.
pub const DEFAULT_ALIAS_LENGTH: i32 = 6;

/// The configuration used when none could be loaded.
pub open spec fn is_default_configuration(c: Configuration) -> bool {
    &&& c.env == Env::Local
    &&& c.storage_path@ == "storage.db"@
    &&& c.alias_length == DEFAULT_ALIAS_LENGTH
    &&& c.http_server.address@ == "0.0.0.0:8080"@
    &&& c.http_server.timeout == 4
    &&& c.http_server.idle_timeout == 60
    &&& c.http_server.user@ == "test"@
    &&& c.http_server.password@ == "test"@
}

impl Configuration {
    /// A deep copy of the configuration.
    pub fn duplicate(&self) -> (r: Configuration)
        ensures
            r == *self,
    {
        Configuration {
            env: self.env,
            storage_path: self.storage_path.clone(),
            alias_length: self.alias_length,
            http_server: HttpServer {
                address: self.http_server.address.clone(),
                timeout: self.http_server.timeout,
                idle_timeout: self.http_server.idle_timeout,
                user: self.http_server.user.clone(),
                password: self.http_server.password.clone(),
            },
        }
    }
}

impl Default for Configuration {
    fn default() -> (r: Configuration)
        ensures
            is_default_configuration(r),
    {
        let r = Configuration {
            env: Env::Local,
            storage_path: String::from_str("storage.db"),
            alias_length: DEFAULT_ALIAS_LENGTH,
            http_server: HttpServer {
                address: String::from_str("0.0.0.0:8080"),
                timeout: 4,
                idle_timeout: 60,
                user: String::from_str("test"),
                password: String::from_str("test"),
            },
        };
        r
    }
}

/// Settles the configuration from what was read from the configuration file:
/// the loaded settings when they could be read, the defaults otherwise.
pub fn init(loaded: Option<Configuration>) -> (r: Configuration)
    ensures
        loaded is Some ==> r == loaded->Some_0,
        loaded is None ==> is_default_configuration(r),
{
    match loaded {
        Some(c) => c,
        None => Configuration::default(),
    }
}

} // verus!
