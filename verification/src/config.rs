//! Application configuration and its environment overrides.

use vstd::prelude::*;
use crate::text::{parse_usize_from, str_chars, usize_parse};

verus! {

#[derive(Debug, Clone)]
pub struct ServerConfig {
    pub port: u16,
}

#[derive(Debug, Clone)]
pub struct DatabaseConfig {
    pub mongo_url: String,
    pub redis_url: String,
}

#[derive(Debug, Clone)]
pub struct SecurityConfig {
    pub variable_encrypt_key: String,
}

#[derive(Debug, Clone)]
pub struct LogConfig {
    pub level: String,
    pub format: String,
}

/// Settings of the recovery sweeper.
#[derive(Debug, Clone)]
pub struct SweeperConfig {
    pub enabled: bool,
    pub interval_secs: u64,
    pub max_recover_per_cycle: u32,
}

/// The sweeper runs unless configured off.
pub fn default_sweeper_enabled() -> (b: bool)
    ensures
        b,
{
    true
}

/// Seconds between sweeper cycles unless configured.
pub fn default_sweeper_interval() -> (s: u64)
    ensures
        s == 60,
{
    60
}

/// Instances recovered per cycle unless configured.
pub fn default_sweeper_max_recover() -> (n: u32)
    ensures
        n == 10,
{
    10
}

impl Default for SweeperConfig {
    /// Enabled, every 60 seconds, at most 10 instances per cycle.
    fn default() -> (c: Self)
        ensures
            c.enabled,
            c.interval_secs == 60,
            c.max_recover_per_cycle == 10,
    {
        SweeperConfig {
            enabled: default_sweeper_enabled(),
            interval_secs: default_sweeper_interval(),
            max_recover_per_cycle: default_sweeper_max_recover(),
        }
    }
}

/// Bootstrap account and tenant.
#[derive(Debug, Clone)]
pub struct InitConfig {
    pub admin_username: String,
    pub admin_password: String,
    pub admin_email: String,
    pub default_tenant_name: String,
    pub default_tenant_description: String,
}

#[derive(Debug, Clone)]
pub struct AppConfig {
    pub server: ServerConfig,
    pub database: DatabaseConfig,
    pub security: SecurityConfig,
    pub log: LogConfig,
    pub init: InitConfig,
    pub sweeper: SweeperConfig,
}

/// Values of the environment variables MONGO_URL, REDIS_URL, API_PORT,
/// VARIABLE_ENCRYPT_KEY and LOG_LEVEL, when set.
#[derive(Debug, Clone)]
pub struct EnvOverrides {
    pub mongo_url: Option<String>,
    pub redis_url: Option<String>,
    pub api_port: Option<String>,
    pub variable_encrypt_key: Option<String>,
    pub log_level: Option<String>,
}

/// What `str::parse::<u16>` gives.
pub open spec fn u16_parse(s: Seq<char>) -> Option<u16> {
    match usize_parse(s) {
        Some(v) => if v <= 65535 { Some(v as u16) } else { None },
        None => None,
    }
}

/// `s.parse::<u16>()`.
pub fn parse_u16(s: &str) -> (r: Option<u16>)
    ensures
        r == u16_parse(s@),
{
    let cs = str_chars(s);
    assert(cs@.subrange(0, cs@.len() as int) =~= cs@);
    match parse_usize_from(&cs, 0) {
        Some(v) => {
            if v <= 65535 {
                Some(v as u16)
            } else {
                None
            }
        },
        None => None,
    }
}

impl AppConfig {
    /// Each set variable replaces its setting; API_PORT only when it parses as a port.
    pub fn apply_env_overrides(&mut self, env: EnvOverrides)
        ensures
            final(self).database.mongo_url == (match env.mongo_url { Some(v) => v, None => old(self).database.mongo_url }),
            final(self).database.redis_url == (match env.redis_url { Some(v) => v, None => old(self).database.redis_url }),
            final(self).server.port == (match env.api_port {
                Some(v) => match u16_parse(v@) { Some(p) => p, None => old(self).server.port },
                None => old(self).server.port,
            }),
            final(self).security.variable_encrypt_key == (match env.variable_encrypt_key {
                Some(v) => v,
                None => old(self).security.variable_encrypt_key,
            }),
            final(self).log.level == (match env.log_level { Some(v) => v, None => old(self).log.level }),
            final(self).log.format == old(self).log.format,
            final(self).init == old(self).init,
            final(self).sweeper == old(self).sweeper,
    {
        match env.mongo_url {
            Some(v) => {
                self.database.mongo_url = v;
            },
            None => {},
        }
        match env.redis_url {
            Some(v) => {
                self.database.redis_url = v;
            },
            None => {},
        }
        match env.api_port {
            Some(v) => match parse_u16(v.as_str()) {
                Some(p) => {
                    self.server.port = p;
                },
                None => {},
            },
            None => {},
        }
        match env.variable_encrypt_key {
            Some(v) => {
                self.security.variable_encrypt_key = v;
            },
            None => {},
        }
        match env.log_level {
            Some(v) => {
                self.log.level = v;
            },
            None => {},
        }
    }
}

} // verus!
