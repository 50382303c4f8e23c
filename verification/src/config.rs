//! The service's settings, resolved from the values found for each one.
//!
//! Outside local development every required setting must be given: a
//! missing one is an error, so that the service refuses to start rather than
//! run on a guess. Local development is chosen explicitly, by setting `ENV`
//! to `development`; only then do missing settings fall back to local ones.

use vstd::prelude::*;

use crate::text::{parse_u16, parse_u16_spec};

verus! {

/// The name of the setting that names the deployment environment.
pub const ENV_ENV_KEY: &'static str = "ENV";

/// The name of the setting that holds the address to listen on, `host:port`.
pub const API_BIND_ADDR_ENV_KEY: &'static str = "API_BIND_ADDR";

/// The name of the setting that holds the port to listen on in local
/// development when no bind address is given.
pub const PORT_ENV_KEY: &'static str = "PORT";

/// The name of the setting that holds the database connection string.
pub const DATABASE_URL_ENV_KEY: &'static str = "DATABASE_URL";

/// The name of the setting that holds the Redis connection string.
pub const REDIS_URL_ENV_KEY: &'static str = "REDIS_URL";

/// The port used in local development when neither a bind address nor a
/// readable port is given.
pub const DEFAULT_PORT: u16 = 3000;

/// The service's settings.
#[derive(Debug, Clone)]
pub struct Config {
    pub port: u16,
    pub env: String,
    pub database_url: String,
    pub bind_host: String,
    pub redis_url: Option<String>,
}

/// Why the settings could not be resolved.
#[derive(Debug, Clone, PartialEq, Eq)]
pub enum ConfigError {
    /// A setting required outside local development is absent.
    MissingSetting { key: String },
    /// The bind address is not of the form `host:port`.
    InvalidBindAddress { value: String },
}

/// Whether the settings select local development: `ENV` is `development`.
pub open spec fn is_development(env: Option<String>) -> bool {
    env matches Some(e) && e@ == "development"@
}

/// The name of the environment: the one given, or `production`.
pub open spec fn env_name(env: Option<String>) -> Seq<char> {
    match env {
        Some(e) => e@,
        None => "production"@,
    }
}

/// The database connection string of local development.
pub open spec fn default_database_url() -> Seq<char> {
    "postgres://postgres@localhost:5432/ahlan_commerce"@
}

/// The host that local development listens on when no bind address is given.
pub open spec fn default_bind_host() -> Seq<char> {
    "0.0.0.0"@
}

/// The port that the setting `port` selects in local development.
pub open spec fn port_for(port: Option<String>) -> u16 {
    match port {
        Some(text) => match parse_u16_spec(text@) {
            Some(p) => p,
            None => DEFAULT_PORT,
        },
        None => DEFAULT_PORT,
    }
}

/// Whether position `k` of `s` holds its last colon.
pub open spec fn is_last_colon(s: Seq<char>, k: int) -> bool {
    &&& 0 <= k < s.len()
    &&& s[k] == ':'
    &&& forall|j: int| k < j < s.len() ==> s[j] != ':'
}

/// A host as written in a bind address, without the square brackets that
/// enclose an IPv6 address (`[::1]` is the host `::1`).
pub open spec fn unbracketed_host(h: Seq<char>) -> Seq<char> {
    if h.len() >= 2 && h[0] == '[' && h[h.len() - 1] == ']' {
        h.subrange(1, h.len() - 1)
    } else {
        h
    }
}

/// The host and port of a bind address: the text is split at its last
/// colon, and what follows must read as a `u16`; brackets round the host are
/// dropped.
pub open spec fn bind_address_parts(s: Seq<char>) -> Option<(Seq<char>, u16)> {
    if exists|k: int| is_last_colon(s, k) {
        let k = choose|k: int| is_last_colon(s, k);
        match parse_u16_spec(s.subrange(k + 1, s.len() as int)) {
            Some(p) => Some((unbracketed_host(s.subrange(0, k)), p)),
            None => None,
        }
    } else {
        None
    }
}

/// Whether the bind address setting is acceptable: given and well formed,
/// or absent in local development.
pub open spec fn bind_address_ok(env: Option<String>, bind_addr: Option<String>) -> bool {
    match bind_addr {
        Some(a) => bind_address_parts(a@) is Some,
        None => is_development(env),
    }
}

/// Splits a bind address `host:port` at its last colon.
pub fn split_bind_address(addr: &str) -> (r: Option<(String, u16)>)
    ensures
        match r {
            Some((host, port)) => bind_address_parts(addr@) == Some((host@, port)),
            None => bind_address_parts(addr@) is None,
        },
{
    let n = addr.unicode_len();
    let mut i: usize = n;
    while i > 0
        invariant
            i <= n,
            n == addr@.len(),
            forall|j: int| i <= j < n ==> addr@[j] != ':',
        decreases i,
    {
        if addr.get_char(i - 1) == ':' {
            let k: usize = i - 1;
            proof {
                assert(is_last_colon(addr@, k as int));
                assert forall|k2: int| is_last_colon(addr@, k2) implies k2 == k by {
                    if k2 < k {
                        assert(addr@[k as int] == ':');
                    }
                }
            }
            let port_text = addr.substring_char(i, n);
            let host_text = if k >= 2 && addr.get_char(0) == '[' && addr.get_char(k - 1) == ']' {
                addr.substring_char(1, k - 1)
            } else {
                addr.substring_char(0, k)
            };
            return match parse_u16(port_text) {
                Some(p) => Some((String::from_str(host_text), p)),
                None => None,
            };
        }
        i = i - 1;
    }
    assert(!exists|k: int| is_last_colon(addr@, k));
    None
}

impl Config {
    /// The settings made of the values found for `ENV`, `API_BIND_ADDR`,
    /// `PORT`, `DATABASE_URL` and `REDIS_URL` (`None` where a value is
    /// absent).
    ///
    /// The bind address is checked first, then the database URL, then the
    /// Redis URL. Outside local development each of them is required; in
    /// local development a missing bind address means `0.0.0.0` on `PORT`
    /// (3000 when that does not read as a port), a missing database URL
    /// means the local database, and a missing Redis URL means none.
    pub fn from_values(
        env: Option<String>,
        bind_addr: Option<String>,
        port: Option<String>,
        database_url: Option<String>,
        redis_url: Option<String>,
    ) -> (r: Result<Config, ConfigError>)
        ensures
            !is_development(env) && bind_addr is None ==> (r matches Err(
                ConfigError::MissingSetting { key },
            ) && key@ == "API_BIND_ADDR"@),
            bind_addr matches Some(a) && bind_address_parts(a@) is None ==> (r matches Err(
                ConfigError::InvalidBindAddress { value },
            ) && value@ == bind_addr->0@),
            bind_address_ok(env, bind_addr) && !is_development(env) && database_url is None ==> (
            r matches Err(ConfigError::MissingSetting { key }) && key@ == "DATABASE_URL"@),
            bind_address_ok(env, bind_addr) && !is_development(env) && database_url is Some
                && redis_url is None ==> (r matches Err(ConfigError::MissingSetting { key })
                && key@ == "REDIS_URL"@),
            r matches Ok(c) ==> (env matches Some(e) ==> c.env@ == e@),
            bind_address_ok(env, bind_addr) && (is_development(env) || (database_url is Some
                && redis_url is Some)) ==> (r matches Ok(c) && {
                &&& c.env@ == env_name(env)
                &&& match bind_addr {
                    Some(a) => bind_address_parts(a@) == Some((c.bind_host@, c.port)),
                    None => c.bind_host@ == default_bind_host() && c.port == port_for(port),
                }
                &&& c.database_url@ == match database_url {
                    Some(u) => u@,
                    None => default_database_url(),
                }
                &&& match redis_url {
                    Some(u) => c.redis_url matches Some(x) && x@ == u@,
                    None => c.redis_url is None,
                }
            }),
    {
        let development = match &env {
            Some(e) => *e == String::from_str("development"),
            None => false,
        };
        let (bind_host, port) = match bind_addr {
            Some(a) => match split_bind_address(a.as_str()) {
                Some(parts) => parts,
                None => {
                    return Err(ConfigError::InvalidBindAddress { value: a });
                },
            },
            None => {
                if !development {
                    return Err(
                        ConfigError::MissingSetting {
                            key: String::from_str(API_BIND_ADDR_ENV_KEY),
                        },
                    );
                }
                let port = match port {
                    Some(text) => match parse_u16(text.as_str()) {
                        Some(p) => p,
                        None => DEFAULT_PORT,
                    },
                    None => DEFAULT_PORT,
                };
                (String::from_str("0.0.0.0"), port)
            },
        };
        let database_url = match database_url {
            Some(u) => u,
            None => {
                if !development {
                    return Err(
                        ConfigError::MissingSetting { key: String::from_str(DATABASE_URL_ENV_KEY) },
                    );
                }
                String::from_str("postgres://postgres@localhost:5432/ahlan_commerce")
            },
        };
        if !development && redis_url.is_none() {
            return Err(ConfigError::MissingSetting { key: String::from_str(REDIS_URL_ENV_KEY) });
        }
        let env = match env {
            Some(e) => e,
            None => String::from_str("production"),
        };
        Ok(Config { port, env, database_url, bind_host, redis_url })
    }
}

/// The environment name is the `ENV` text exactly as given, whatever it is;
/// only an absent `ENV` yields a default name.
pub proof fn lemma_given_env_kept(env: String)
    ensures
        env_name(Some(env)) == env@,
{
}

} // verus!
