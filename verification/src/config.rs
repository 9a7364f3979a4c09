//! Application configuration, computed from the settings of the environment.
use vstd::prelude::*;
use vstd::string::*;
use crate::text::{chars_of, parse_unsigned, parse_unsigned_chars};

verus! {

/// Application configuration.
#[derive(Clone, Debug)]
pub struct Config {
    pub server: ServerConfig,
    pub database: DatabaseConfig,
    pub redis: RedisConfig,
    pub ai: AiConfig,
}

#[derive(Clone, Debug)]
pub struct ServerConfig {
    pub port: u16,
}

#[derive(Clone, Debug)]
pub struct DatabaseConfig {
    pub url: String,
    pub max_connections: u32,
}

#[derive(Clone, Debug)]
pub struct RedisConfig {
    pub url: String,
    pub cache_ttl_secs: u64,
}

#[derive(Clone, Debug)]
pub struct AiConfig {
    pub api_key: String,
    pub model: String,
    pub base_url: String,
    pub max_tokens: u32,
}

/// The settings as the environment holds them; a setting that is not set
/// (or not Unicode) is `None`. The database password must be set.
#[derive(Clone, Debug)]
pub struct ConfigEnv {
    pub db_host: Option<String>,
    pub db_port: Option<String>,
    pub db_user: Option<String>,
    pub db_password: String,
    pub db_name: Option<String>,
    pub db_sslmode: Option<String>,
    pub redis_addr: Option<String>,
    pub redis_password: Option<String>,
    pub cache_ttl_days: Option<String>,
    pub server_port: Option<String>,
    pub db_max_conns: Option<String>,
    pub ai_api_key: Option<String>,
    pub ai_model: Option<String>,
    pub ai_base_url: Option<String>,
    pub ai_max_tokens: Option<String>,
}

/// A setting, or its default when it is not set.
pub open spec fn setting(v: Option<String>, default: Seq<char>) -> Seq<char> {
    match v {
        Some(s) => s@,
        None => default,
    }
}

/// A number setting: the setting (or its default text) read as an unsigned
/// number up to `max`, or `fallback` when it does not read so.
pub open spec fn number_setting(v: Option<String>, default: Seq<char>, max: nat, fallback: nat) -> nat {
    match parse_unsigned(setting(v, default), max) {
        Some(n) => n,
        None => fallback,
    }
}

/// Days that cached reports live.
pub open spec fn cache_days(env: ConfigEnv) -> nat {
    number_setting(env.cache_ttl_days, "7"@, u64::MAX as nat, 7)
}

fn setting_of(v: &Option<String>, default: &str) -> (r: String)
    ensures
        r@ == setting(*v, default@),
{
    match v {
        Some(s) => s.clone(),
        None => String::from_str(default),
    }
}

fn number_setting_of(v: &Option<String>, default: &str, max: u64, fallback: u64) -> (r: u64)
    requires
        fallback <= max,
    ensures
        r == number_setting(*v, default@, max as nat, fallback as nat),
        r <= max,
{
    let text = setting_of(v, default);
    let chars = chars_of(text.as_str());
    match parse_unsigned_chars(&chars, max) {
        Some(n) => n,
        None => fallback,
    }
}

/// The address of the database.
pub open spec fn database_url(env: ConfigEnv) -> Seq<char> {
    "postgres://"@ + setting(env.db_user, "cardeal"@) + ":"@ + env.db_password@ + "@"@ + setting(
        env.db_host,
        "localhost"@,
    ) + ":"@ + setting(env.db_port, "5432"@) + "/"@ + setting(env.db_name, "cardeal"@)
        + "?sslmode="@ + setting(env.db_sslmode, "disable"@)
}

/// The address of Redis, with the password when one is set.
pub open spec fn redis_url(env: ConfigEnv) -> Seq<char> {
    let addr = setting(env.redis_addr, "localhost:6379"@);
    let pass = setting(env.redis_password, Seq::empty());
    if pass.len() == 0 {
        "redis://"@ + addr
    } else {
        "redis://:"@ + pass + "@"@ + addr
    }
}

/// Whether the lifetime of cached reports, in seconds, fits in `u64`.
pub fn cache_ttl_fits(env: &ConfigEnv) -> (r: bool)
    ensures
        r == (cache_days(*env) * 86400 <= u64::MAX),
{
    let days = number_setting_of(&env.cache_ttl_days, "7", u64::MAX, 7);
    days <= u64::MAX / 86400
}

impl Config {
    /// The configuration that the settings give.
    pub open spec fn from_settings(self, env: ConfigEnv) -> bool {
        &&& self.server.port == number_setting(env.server_port, "8080"@, u16::MAX as nat, 8080)
        &&& self.database.url@ == database_url(env)
        &&& self.database.max_connections == number_setting(
            env.db_max_conns,
            "25"@,
            u32::MAX as nat,
            25,
        )
        &&& self.redis.url@ == redis_url(env)
        &&& self.redis.cache_ttl_secs == cache_days(env) * 86400
        &&& self.ai.api_key@ == setting(env.ai_api_key, Seq::empty())
        &&& self.ai.model@ == setting(env.ai_model, "gpt-4o"@)
        &&& self.ai.base_url@ == setting(env.ai_base_url, "https://api.openai.com/v1"@)
        &&& self.ai.max_tokens == number_setting(
            env.ai_max_tokens,
            "4096"@,
            u32::MAX as nat,
            4096,
        )
    }

    /// The configuration of the given settings, or `None` when the lifetime
    /// of cached reports, in seconds, does not fit in `u64`.
    pub fn try_load(env: &ConfigEnv) -> (c: Option<Config>)
        ensures
            c is Some <==> cache_days(*env) * 86400 <= u64::MAX,
            c matches Some(c) ==> c.from_settings(*env),
    {
        if cache_ttl_fits(env) {
            Some(Config::load(env))
        } else {
            None
        }
    }

    /// The configuration of the given settings. The lifetime of cached
    /// reports, in seconds, must fit in `u64`.
    pub fn load(env: &ConfigEnv) -> (c: Config)
        requires
            cache_days(*env) * 86400 <= u64::MAX,
        ensures
            c.from_settings(*env),
    {
        let db_host = setting_of(&env.db_host, "localhost");
        let db_port = setting_of(&env.db_port, "5432");
        let db_user = setting_of(&env.db_user, "cardeal");
        let db_name = setting_of(&env.db_name, "cardeal");
        let db_ssl = setting_of(&env.db_sslmode, "disable");
        let mut db_url = String::from_str("postgres://");
        db_url.append(db_user.as_str());
        db_url.append(":");
        db_url.append(env.db_password.as_str());
        db_url.append("@");
        db_url.append(db_host.as_str());
        db_url.append(":");
        db_url.append(db_port.as_str());
        db_url.append("/");
        db_url.append(db_name.as_str());
        db_url.append("?sslmode=");
        db_url.append(db_ssl.as_str());

        proof {
            reveal_strlit("");
            assert(""@ =~= Seq::<char>::empty());
        }
        let redis_addr = setting_of(&env.redis_addr, "localhost:6379");
        let redis_pass = setting_of(&env.redis_password, "");
        let redis_url = if redis_pass.as_str().is_empty() {
            let mut u = String::from_str("redis://");
            u.append(redis_addr.as_str());
            u
        } else {
            let mut u = String::from_str("redis://:");
            u.append(redis_pass.as_str());
            u.append("@");
            u.append(redis_addr.as_str());
            u
        };

        let cache_days = number_setting_of(&env.cache_ttl_days, "7", u64::MAX, 7);
        let port = number_setting_of(&env.server_port, "8080", 65535, 8080);
        let max_connections = number_setting_of(&env.db_max_conns, "25", 4294967295, 25);
        let max_tokens = number_setting_of(&env.ai_max_tokens, "4096", 4294967295, 4096);
        Config {
            server: ServerConfig { port: port as u16 },
            database: DatabaseConfig { url: db_url, max_connections: max_connections as u32 },
            redis: RedisConfig { url: redis_url, cache_ttl_secs: cache_days * 86400 },
            ai: AiConfig {
                api_key: setting_of(&env.ai_api_key, ""),
                model: setting_of(&env.ai_model, "gpt-4o"),
                base_url: setting_of(&env.ai_base_url, "https://api.openai.com/v1"),
                max_tokens: max_tokens as u32,
            },
        }
    }
}

} // verus!
