//! The configuration that the backend starts with.

use vstd::prelude::*;

verus! {

/// The settings of a running backend.
#[derive(Debug, Clone, PartialEq, Eq)]
pub struct AppConfig {
    pub database_url: String,
    pub admin_password_hash: String,
    pub rocket_port: u16,
    pub rocket_address: String,
    pub static_dir: String,
}

/// The settings as they were found in the configuration file and the
/// environment, each absent where neither names it.
#[derive(Debug, Clone, PartialEq, Eq)]
pub struct ConfigSource {
    pub database_url: Option<String>,
    pub admin_password_hash: Option<String>,
    pub rocket_port: Option<u16>,
    pub rocket_address: Option<String>,
    pub static_dir: Option<String>,
}

/// The port that is listened on where none is configured.
pub fn default_rocket_port() -> (r: u16)
    ensures
        r == 8080,
{
    8080
}

/// The address that is listened on where none is configured.
pub fn default_rocket_address() -> (r: String)
    ensures
        r@ == "0.0.0.0"@,
{
    "0.0.0.0".to_owned()
}

/// The directory of static files where none is configured.
pub fn default_static_dir() -> (r: String)
    ensures
        r@ == "/app/static"@,
{
    "/app/static".to_owned()
}

/// The configured text, or the fallback where none is configured.
pub open spec fn text_or(found: Option<String>, fallback: Seq<char>) -> Seq<char> {
    match found {
        Some(s) => s@,
        None => fallback,
    }
}

impl ConfigSource {
    /// A source is complete when it names the database URL and the password
    /// hash, for which there is no default.
    pub open spec fn complete(self) -> bool {
        self.database_url is Some && self.admin_password_hash is Some
    }

    /// Whether the source names the database URL and the password hash.
    pub fn is_complete(&self) -> (r: bool)
        ensures
            r == self.complete(),
    {
        self.database_url.is_some() && self.admin_password_hash.is_some()
    }
}

impl AppConfig {
    /// The settings that a complete source gives: the database URL and the
    /// password hash as found, the others as found or else by default.
    pub fn load(source: ConfigSource) -> (c: AppConfig)
        requires
            source.complete(),
        ensures
            Some(c.database_url) == source.database_url,
            Some(c.admin_password_hash) == source.admin_password_hash,
            c.rocket_port == match source.rocket_port {
                Some(p) => p,
                None => 8080u16,
            },
            c.rocket_address@ == text_or(source.rocket_address, "0.0.0.0"@),
            c.static_dir@ == text_or(source.static_dir, "/app/static"@),
    {
        let rocket_port: u16 = match source.rocket_port {
            Some(p) => p,
            None => default_rocket_port(),
        };
        let rocket_address = match source.rocket_address {
            Some(a) => a,
            None => default_rocket_address(),
        };
        let static_dir = match source.static_dir {
            Some(d) => d,
            None => default_static_dir(),
        };
        AppConfig {
            database_url: source.database_url.unwrap(),
            admin_password_hash: source.admin_password_hash.unwrap(),
            rocket_port,
            rocket_address,
            static_dir,
        }
    }
}

} // verus!
