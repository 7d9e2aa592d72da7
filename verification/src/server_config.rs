//! Server configuration: the settings read from `server.yml`, the environment
//! variables that override them, and the defaults the server starts with.
use vstd::prelude::*;
use crate::text::{before_first, has_prefix, join2, owned, prefix_before, strip_prefix};

verus! {

/// Address the server listens on when the configuration names none.
pub open spec fn default_bind() -> Seq<char> {
    "0.0.0.0:7879"@
}

/// Database connections kept when the configuration names no pool size.
pub const DEFAULT_POOL_SIZE: u32 = 10;

/// The settings of `server.yml`.
#[derive(Debug, Clone, PartialEq, Eq)]
pub struct ServerConfig {
    pub bind: Option<String>,
    pub database_url: String,
    pub redis_url: Option<String>,
    pub db_pool_size: Option<u32>,
}

/// The environment variables that override the file (each `None` when unset
/// or not valid Unicode).
#[derive(Debug, Clone, PartialEq, Eq)]
pub struct EnvOverrides {
    /// `QA_SERVER_IP`
    pub server_ip: Option<String>,
    /// `QA_SERVER_PORT`
    pub server_port: Option<String>,
    /// `DATABASE_URL`
    pub database_url: Option<String>,
    /// `REDIS_URL`
    pub redis_url: Option<String>,
}

/// The ghost view of a configuration.
pub struct ConfigView {
    pub bind: Option<Seq<char>>,
    pub database_url: Seq<char>,
    pub redis_url: Option<Seq<char>>,
    pub db_pool_size: Option<u32>,
}

pub open spec fn opt_text(o: Option<String>) -> Option<Seq<char>> {
    match o {
        Some(s) => Some(s@),
        None => None,
    }
}

impl View for ServerConfig {
    type V = ConfigView;

    open spec fn view(&self) -> ConfigView {
        ConfigView {
            bind: opt_text(self.bind),
            database_url: self.database_url@,
            redis_url: opt_text(self.redis_url),
            db_pool_size: self.db_pool_size,
        }
    }
}

/// The listening address after the overrides: `QA_SERVER_IP` with
/// `QA_SERVER_PORT` (port 7879 when unset); or, with only `QA_SERVER_PORT`,
/// the host of the configured address (0.0.0.0 when none) with that port;
/// or the configured address when neither is set.
pub open spec fn bind_after(bind: Option<Seq<char>>, ip: Option<Seq<char>>, port: Option<Seq<char>>) -> Option<
    Seq<char>,
> {
    match ip {
        Some(i) => Some(
            i + ":"@ + match port {
                Some(p) => p,
                None => "7879"@,
            },
        ),
        None => match port {
            Some(p) => Some(
                match bind {
                    Some(b) => before_first(b, ':'),
                    None => "0.0.0.0"@,
                } + ":"@ + p,
            ),
            None => bind,
        },
    }
}

/// The configuration after the environment overrides are applied.
pub open spec fn config_after_env(cfg: ConfigView, env: EnvOverrides) -> ConfigView {
    ConfigView {
        bind: bind_after(cfg.bind, opt_text(env.server_ip), opt_text(env.server_port)),
        database_url: match env.database_url {
            Some(d) => d@,
            None => cfg.database_url,
        },
        redis_url: match env.redis_url {
            Some(r) => Some(r@),
            None => cfg.redis_url,
        },
        db_pool_size: cfg.db_pool_size,
    }
}

fn host_and_port(host: &str, port: &str) -> (r: String)
    ensures
        r@ == host@ + ":"@ + port@,
{
    let mut r = join2(host, ":");
    r.append(port);
    r
}

impl ServerConfig {
    /// Applies the environment overrides to the settings read from the file.
    pub fn apply_env_overrides(self, env: EnvOverrides) -> (r: ServerConfig)
        ensures
            r@ == config_after_env(self@, env),
            (env.server_ip is None && env.server_port is None) ==> r.bind == self.bind,
            env.database_url is None ==> r.database_url == self.database_url,
            env.database_url matches Some(d) ==> r.database_url == d,
            env.redis_url is None ==> r.redis_url == self.redis_url,
            env.redis_url matches Some(u) ==> r.redis_url == Some(u),
            r.db_pool_size == self.db_pool_size,
    {
        let ghost old_view = self@;
        let ghost env_view = env;
        let ServerConfig { bind, database_url, redis_url, db_pool_size } = self;
        let EnvOverrides { server_ip, server_port, database_url: env_db, redis_url: env_redis } =
            env;
        let new_bind: Option<String> = match &server_ip {
            Some(ip) => {
                let b = match &server_port {
                    Some(p) => host_and_port(ip.as_str(), p.as_str()),
                    None => host_and_port(ip.as_str(), "7879"),
                };
                Some(b)
            },
            None => match &server_port {
                Some(p) => {
                    let host: &str = match &bind {
                        Some(b) => prefix_before(b.as_str(), ':'),
                        None => "0.0.0.0",
                    };
                    Some(host_and_port(host, p.as_str()))
                },
                None => bind,
            },
        };
        let new_db = match env_db {
            Some(d) => d,
            None => database_url,
        };
        let new_redis = match env_redis {
            Some(r) => Some(r),
            None => redis_url,
        };
        ServerConfig { bind: new_bind, database_url: new_db, redis_url: new_redis, db_pool_size }
    }

    /// The address to listen on: the configured one, or 0.0.0.0:7879.
    pub fn bind_address(&self) -> (r: String)
        ensures
            r@ == match self.bind {
                Some(b) => b@,
                None => default_bind(),
            },
    {
        match &self.bind {
            Some(b) => b.clone(),
            None => owned("0.0.0.0:7879"),
        }
    }

    /// The number of pooled database connections: the configured one, or 10.
    pub fn pool_size(&self) -> (r: u32)
        ensures
            r == match self.db_pool_size {
                Some(n) => n,
                None => DEFAULT_POOL_SIZE,
            },
    {
        match self.db_pool_size {
            Some(n) => n,
            None => DEFAULT_POOL_SIZE,
        }
    }
}

/// The file behind an SQLite URL: the URL without `sqlite://`, or else
/// without `sqlite:`, or else the URL itself.
pub open spec fn sqlite_file_of(url: Seq<char>) -> Seq<char> {
    if has_prefix(url, "sqlite://"@) {
        url.subrange(9, url.len() as int)
    } else if has_prefix(url, "sqlite:"@) {
        url.subrange(7, url.len() as int)
    } else {
        url
    }
}

/// The path of the SQLite database file named by the database URL.
pub fn sqlite_file_path(url: &str) -> (r: &str)
    ensures
        r@ == sqlite_file_of(url@),
{
    proof {
        reveal_strlit("sqlite://");
        reveal_strlit("sqlite:");
    }
    match strip_prefix(url, "sqlite://") {
        Some(rest) => rest,
        None => match strip_prefix(url, "sqlite:") {
            Some(rest) => rest,
            None => url,
        },
    }
}

/// With no override set, the configuration is left as the file gave it.
pub proof fn law_no_env_keeps_config(cfg: ConfigView)
    ensures
        config_after_env(
            cfg,
            EnvOverrides { server_ip: None, server_port: None, database_url: None, redis_url: None },
        ) == cfg,
{
}

/// `QA_SERVER_IP` wins over the configured address whatever it was.
pub proof fn law_ip_override_ignores_file(b1: Option<Seq<char>>, b2: Option<Seq<char>>, ip: Seq<char>, port: Option<Seq<char>>)
    ensures
        bind_after(b1, Some(ip), port) == bind_after(b2, Some(ip), port),
{
}

/// Each variable overrides its own setting: `DATABASE_URL` the database,
/// `REDIS_URL` the Redis URL, `QA_SERVER_IP` the host (with `QA_SERVER_PORT`
/// or port 7879), and `QA_SERVER_PORT` alone the port of the configured host
/// (0.0.0.0 when none); the pool size always comes from the file.
pub proof fn law_each_override(cfg: ConfigView, env: EnvOverrides)
    ensures
        ({
            let r = config_after_env(cfg, env);
            &&& env.database_url matches Some(d) ==> r.database_url == d@
            &&& env.database_url is None ==> r.database_url == cfg.database_url
            &&& env.redis_url matches Some(u) ==> r.redis_url == Some(u@)
            &&& env.redis_url is None ==> r.redis_url == cfg.redis_url
            &&& env.server_ip matches Some(ip) ==> r.bind == Some(
                ip@ + ":"@ + match env.server_port {
                    Some(p) => p@,
                    None => "7879"@,
                },
            )
            &&& env.server_ip is None ==> (env.server_port matches Some(p) ==> r.bind == Some(
                match cfg.bind {
                    Some(b) => before_first(b, ':'),
                    None => "0.0.0.0"@,
                } + ":"@ + p@,
            ))
            &&& (env.server_ip is None && env.server_port is None) ==> r.bind == cfg.bind
            &&& r.db_pool_size == cfg.db_pool_size
        }),
{
}

} // verus!
