//! The configuration view that the server core reads. Loading it from a
//! file is left to the program around the library; these are the values.

use vstd::prelude::*;
use std::collections::HashMap;
use vstd::string::*;
use crate::error::Error;
use crate::outside::ascii_digit;
use crate::text::same;
use crate::paths::{escapes_root, is_contained};

verus! {

#[derive(Debug, Clone)]
pub struct ServerConfig {
    pub host: String,
    pub port: u16,
    pub workers: usize,
    pub tls: TlsConfig,
    pub static_files: StaticConfig,
    pub security: SecurityConfig,
}

#[derive(Debug, Clone)]
pub struct TlsConfig {
    pub enabled: bool,
    pub cert_file: Option<String>,
    pub key_file: Option<String>,
    pub auto_cert: bool,
    pub domains: Vec<String>,
    pub acme_email: Option<String>,
    pub acme_directory: String,
}

#[derive(Debug, Clone)]
pub struct StaticConfig {
    pub enabled: bool,
    pub root: String,
    pub index_files: Vec<String>,
    pub compression: bool,
    pub compression_types: Vec<String>,
    pub cache_control: String,
    pub etag: bool,
}

#[derive(Debug, Clone)]
pub struct SecurityConfig {
    pub cors_origins: Vec<String>,
    pub cors_methods: Vec<String>,
    pub cors_headers: Vec<String>,
    pub rate_limit_enabled: bool,
    pub rate_limit_requests: u32,
    pub rate_limit_window: String,
    pub security_headers: bool,
    pub hsts_max_age: u32,
    pub content_type_nosniff: bool,
    pub frame_options: String,
    pub xss_protection: bool,
}

#[derive(Debug, Clone)]
pub struct DatabaseConfig {
    pub url: String,
    pub max_connections: u32,
    pub min_connections: u32,
    pub connection_timeout: String,
    pub idle_timeout: String,
    pub max_lifetime: String,
    pub auto_migrate: bool,
    pub migration_path: String,
}

#[derive(Debug, Clone)]
pub struct RedisConfig {
    pub url: String,
    pub pool_size: u32,
    pub connection_timeout: String,
    pub command_timeout: String,
    pub retry_attempts: u32,
    pub queue: QueueConfig,
}

#[derive(Debug, Clone)]
pub struct QueueConfig {
    pub default_queue: String,
    pub retry_queue: String,
    pub failed_queue: String,
    pub max_retries: u32,
}

#[derive(Debug, Clone)]
pub struct ProxyConfig {
    pub enabled: bool,
    pub bind_address: String,
    pub https_redirect: bool,
    pub ssl: ProxySslConfig,
    pub balancing: BalancingConfig,
    pub health: HealthConfig,
    pub upstreams: Vec<UpstreamConfig>,
    pub routes: Vec<RouteConfig>,
    pub middleware: MiddlewareConfig,
}

#[derive(Debug, Clone)]
pub struct ProxySslConfig {
    pub enabled: bool,
    pub bind_address: String,
    pub cert_dir: String,
    pub key_dir: String,
}

#[derive(Debug, Clone)]
pub struct BalancingConfig {
    pub strategy: String,
    pub session_affinity: bool,
    pub session_cookie: String,
}

#[derive(Debug, Clone)]
pub struct HealthConfig {
    pub enabled: bool,
    pub interval: String,
    pub timeout: String,
    pub healthy_threshold: u32,
    pub unhealthy_threshold: u32,
    pub check_path: String,
}

#[derive(Debug, Clone)]
pub struct UpstreamConfig {
    pub name: String,
    pub strategy: String,
    pub servers: Vec<ServerInstanceConfig>,
}

#[derive(Debug, Clone)]
pub struct ServerInstanceConfig {
    pub address: String,
    pub weight: u32,
    pub max_fails: u32,
    pub fail_timeout: String,
}

#[derive(Debug, Clone)]
pub struct RouteConfig {
    pub path: String,
    pub method: String,
    pub upstream: String,
    pub rewrite: Option<bool>,
    pub strip_prefix: Option<String>,
    pub add_headers: Option<HashMap<String, String>>,
    pub timeout: Option<String>,
    pub retries: Option<u32>,
    pub websocket: Option<bool>,
}

#[derive(Debug, Clone)]
pub struct MiddlewareConfig {
    pub rate_limit_enabled: bool,
    pub rate_limit_requests: u32,
    pub rate_limit_window: String,
    pub rate_limit_key: String,
    pub add_request_headers: Option<HashMap<String, String>>,
    pub remove_request_headers: Option<Vec<String>>,
    pub add_response_headers: Option<HashMap<String, String>>,
    pub remove_response_headers: Option<Vec<String>>,
    pub compression_enabled: bool,
    pub compression_level: u32,
    pub compression_types: Vec<String>,
}

#[derive(Debug, Clone)]
pub struct ContainerConfig {
    pub docker_host: String,
    pub api_version: String,
    pub timeout: String,
    pub defaults: ContainerDefaults,
    pub security: ContainerSecurity,
    pub network: NetworkConfig,
    pub volumes: VolumeConfig,
    pub images: ImageConfig,
    pub registries: Vec<RegistryConfig>,
}

#[derive(Debug, Clone)]
pub struct ContainerDefaults {
    pub cpu_limit: String,
    pub memory_limit: String,
    pub network_mode: String,
    pub restart_policy: String,
    pub log_driver: String,
    pub log_options: HashMap<String, String>,
}

#[derive(Debug, Clone)]
pub struct ContainerSecurity {
    pub drop_capabilities: Vec<String>,
    pub add_capabilities: Vec<String>,
    pub user: String,
    pub read_only: bool,
    pub no_new_privileges: bool,
    pub seccomp_profile: String,
    pub apparmor_profile: String,
}

#[derive(Debug, Clone)]
pub struct NetworkConfig {
    pub default_network: String,
    pub enable_isolation: bool,
    pub dns_servers: Vec<String>,
}

#[derive(Debug, Clone)]
pub struct VolumeConfig {
    pub base_path: String,
    pub default_options: Vec<String>,
    pub cleanup_orphaned: bool,
    pub cleanup_interval: String,
}

#[derive(Debug, Clone)]
pub struct ImageConfig {
    pub auto_pull: bool,
    pub pull_policy: String,
    pub cleanup_unused: bool,
    pub cleanup_interval: String,
    pub keep_tagged: bool,
}

#[derive(Debug, Clone)]
pub struct RegistryConfig {
    pub name: String,
    pub url: String,
    pub username: String,
    pub password: String,
}

#[derive(Debug, Clone)]
pub struct JobConfig {
    pub default_queue: String,
    pub max_concurrent_jobs: u32,
    pub job_timeout: String,
    pub cleanup_completed: bool,
    pub cleanup_after: String,
    pub workers: WorkerConfig,
    pub container: JobContainerConfig,
    pub security: JobSecurityConfig,
    pub files: FileConfig,
    pub retry: RetryConfig,
    pub monitoring: MonitoringConfig,
}

#[derive(Debug, Clone)]
pub struct WorkerConfig {
    pub count: u32,
    pub poll_interval: String,
    pub batch_size: u32,
    pub max_memory: String,
    pub max_cpu: String,
}

#[derive(Debug, Clone)]
pub struct JobContainerConfig {
    pub base_image: String,
    pub network_mode: String,
    pub cpu_limit: String,
    pub memory_limit: String,
    pub disk_limit: String,
    pub timeout: String,
    pub cleanup: bool,
}

#[derive(Debug, Clone)]
pub struct JobSecurityConfig {
    pub user: String,
    pub read_only: bool,
    pub work_dirs: Vec<String>,
    pub drop_capabilities: Vec<String>,
    pub no_network: bool,
    pub max_processes: u32,
}

#[derive(Debug, Clone)]
pub struct FileConfig {
    pub input_dir: String,
    pub output_dir: String,
    pub max_input_size: String,
    pub max_output_size: String,
    pub retention_period: String,
}

#[derive(Debug, Clone)]
pub struct RetryConfig {
    pub max_attempts: u32,
    pub backoff_strategy: String,
    pub base_delay: String,
    pub max_delay: String,
    pub jitter: bool,
}

#[derive(Debug, Clone)]
pub struct MonitoringConfig {
    pub collect_metrics: bool,
    pub metrics_interval: String,
    pub monitor_resources: bool,
    pub collect_logs: bool,
    pub log_level: String,
}

/// The value of a string of ASCII digits.
pub open spec fn digits_value(d: Seq<char>) -> nat
    decreases d.len(),
{
    if d.len() == 0 {
        0
    } else {
        digits_value(d.drop_last()) * 10 + ((d.last() as u32 - 48) as nat)
    }
}

pub open spec fn all_digits(d: Seq<char>) -> bool {
    forall|i: int| 0 <= i < d.len() ==> #[trigger] ascii_digit(d[i])
}

/// An unsigned integer in decimal as std's integer parsing reads it: an
/// optional `+`, then one or more ASCII digits, with a value of at most
/// `max`.
pub open spec fn parse_unsigned(s: Seq<char>, max: nat) -> Option<nat> {
    let d = if s.len() > 0 && s[0] == '+' {
        s.drop_first()
    } else {
        s
    };
    if d.len() == 0 || !all_digits(d) || digits_value(d) > max {
        None
    } else {
        Some(digits_value(d))
    }
}

proof fn lemma_digits_prefix_grows(d: Seq<char>, i: int, j: int)
    requires
        0 <= i <= j <= d.len(),
        all_digits(d),
    ensures
        digits_value(d.subrange(0, i)) <= digits_value(d.subrange(0, j)),
    decreases j - i,
{
    if i < j {
        lemma_digits_prefix_grows(d, i, j - 1);
        assert(d.subrange(0, j).drop_last() =~= d.subrange(0, j - 1));
        assert(ascii_digit(d[j - 1]));
    }
}

/// Reads an unsigned decimal integer of at most `max`.
pub fn parse_bounded(s: &str, max: u64) -> (r: Option<u64>)
    ensures
        r is Some <==> parse_unsigned(s@, max as nat) is Some,
        r is Some ==> r->Some_0 as nat == parse_unsigned(s@, max as nat)->Some_0,
{
    let n = s.unicode_len();
    let start: usize = if n > 0 && s.get_char(0) == '+' {
        1
    } else {
        0
    };
    let ghost d = if s@.len() > 0 && s@[0] == '+' {
        s@.drop_first()
    } else {
        s@
    };
    assert(d =~= s@.subrange(start as int, n as int));
    if start == n {
        return None;
    }
    let mut acc: u64 = 0;
    let mut i: usize = start;
    while i < n
        invariant
            n == s@.len(),
            start <= i <= n,
            d == s@.subrange(start as int, n as int),
            d == (if s@.len() > 0 && s@[0] == '+' {
                s@.drop_first()
            } else {
                s@
            }),
            forall|j: int| start <= j < i ==> #[trigger] ascii_digit(s@[j]),
            acc as nat == digits_value(d.subrange(0, i - start)),
            acc <= max,
        decreases n - i,
    {
        let c = s.get_char(i);
        if !('0' <= c && c <= '9') {
            assert(!ascii_digit(d[i - start]));
            return None;
        }
        let v = (c as u32 - 48) as u64;
        assert(d.subrange(0, i - start + 1).drop_last() =~= d.subrange(0, i - start as int));
        if v > max || acc > (max - v) / 10 {
            proof {
                if v <= max {
                    assert(acc * 10 + v > max) by (nonlinear_arith)
                        requires
                            acc > (max - v) / 10,
                            v <= max,
                    ;
                }
                assert(digits_value(d.subrange(0, i - start + 1)) > max);
                if all_digits(d) {
                    lemma_digits_prefix_grows(d, i - start + 1, d.len() as int);
                    assert(d.subrange(0, d.len() as int) =~= d);
                }
            }
            return None;
        }
        assert(acc * 10 + v <= max) by (nonlinear_arith)
            requires
                acc <= (max - v) / 10,
                v <= max,
        ;
        acc = acc * 10 + v;
        i = i + 1;
    }
    assert(d.subrange(0, n - start) =~= d);
    Some(acc)
}

/// The number of seconds that a duration setting denotes: a number
/// followed by `s`, `m` or `h`. Values that overflow 64 bits are refused.
pub open spec fn duration_secs(s: Seq<char>) -> Option<nat> {
    if s.len() == 0 {
        None
    } else {
        let unit: nat = if s.last() == 's' {
            1
        } else if s.last() == 'm' {
            60
        } else if s.last() == 'h' {
            3600
        } else {
            0
        };
        if unit == 0 {
            None
        } else {
            match parse_unsigned(s.drop_last(), u64::MAX as nat) {
                Some(v) => if v * unit <= u64::MAX {
                    Some(v * unit)
                } else {
                    None
                },
                None => None,
            }
        }
    }
}

/// Reads a duration setting such as `30s`, `10m` or `1h`, in seconds.
pub fn parse_duration(s: &str) -> (r: Result<u64, Error>)
    ensures
        r is Ok <==> duration_secs(s@) is Some,
        r is Ok ==> r->Ok_0 as nat == duration_secs(s@)->Some_0,
        r is Err ==> r->Err_0 is Config && r->Err_0->Config_0 is Invalid
            && r->Err_0->Config_0->Invalid_key@ == "duration"@
            && r->Err_0->Config_0->Invalid_value@ == s@,
{
    let n = s.unicode_len();
    if n == 0 {
        return Err(Error::config_invalid("duration", s));
    }
    let last = s.get_char(n - 1);
    let unit: u64 = if last == 's' {
        1
    } else if last == 'm' {
        60
    } else if last == 'h' {
        3600
    } else {
        return Err(Error::config_invalid("duration", s));
    };
    let number = s.substring_char(0, n - 1);
    assert(number@ =~= s@.drop_last());
    match parse_bounded(number, u64::MAX) {
        Some(v) => {
            match v.checked_mul(unit) {
                Some(secs) => Ok(secs),
                None => Err(Error::config_invalid("duration", s)),
            }
        },
        None => Err(Error::config_invalid("duration", s)),
    }
}

/// The first rule that the listen address, database, cache and index file
/// settings break, or `None`: the port is not zero, the host is set, both
/// connection URLs are set, and no index file name leaves the static root.
pub open spec fn config_problem(
    server: ServerConfig,
    database: DatabaseConfig,
    redis: RedisConfig,
) -> Option<(Seq<char>, Option<Seq<char>>)> {
    if server.port == 0 {
        Some(("server.port"@, Some("0"@)))
    } else if server.host@.len() == 0 {
        Some(("server.host"@, None))
    } else if database.url@.len() == 0 {
        Some(("database.url"@, None))
    } else if redis.url@.len() == 0 {
        Some(("redis.url"@, None))
    } else {
        match first_escaping_index(server.static_files.index_files@, 0) {
            Some(name) => Some(("server.static_files.index_files"@, Some(name))),
            None => None,
        }
    }
}

/// The first index file name from position `pos` on that would leave the
/// static root when joined onto it.
pub open spec fn first_escaping_index(names: Seq<String>, pos: int) -> Option<Seq<char>>
    decreases names.len() - pos,
{
    if pos < 0 || pos >= names.len() {
        None
    } else if escapes_root(names[pos]@) {
        Some(names[pos]@)
    } else {
        first_escaping_index(names, pos + 1)
    }
}

/// Every index file name stays under the static root when joined onto it.
pub open spec fn index_names_contained(cfg: StaticConfig) -> bool {
    forall|k: int| 0 <= k < cfg.index_files@.len() ==> !escapes_root(#[trigger] cfg.index_files@[k]@)
}

proof fn lemma_first_escaping_none(names: Seq<String>, pos: int)
    requires
        0 <= pos,
        first_escaping_index(names, pos) is None,
    ensures
        forall|k: int| pos <= k < names.len() ==> !escapes_root(#[trigger] names[k]@),
    decreases names.len() - pos,
{
    if pos < names.len() {
        lemma_first_escaping_none(names, pos + 1);
    }
}

/// Settings that pass validation name only index files under the root.
pub proof fn lemma_valid_config_index_names(
    server: ServerConfig,
    database: DatabaseConfig,
    redis: RedisConfig,
)
    requires
        config_problem(server, database, redis) is None,
    ensures
        index_names_contained(server.static_files),
{
    lemma_first_escaping_none(server.static_files.index_files@, 0);
}

/// Checks the settings that the server cannot start without. A port of zero
/// is an invalid value; an empty host or URL is a missing value; an index
/// file name that would leave the static root is an invalid value.
pub fn validate_config(server: &ServerConfig, database: &DatabaseConfig, redis: &RedisConfig) -> (r:
    Result<(), Error>)
    ensures
        r is Ok <==> config_problem(*server, *database, *redis) is None,
        r is Err ==> ({
            let (key, value) = config_problem(*server, *database, *redis)->Some_0;
            r->Err_0 is Config && match value {
                Some(v) => r->Err_0->Config_0 is Invalid && r->Err_0->Config_0->Invalid_key@ == key
                    && r->Err_0->Config_0->Invalid_value@ == v,
                None => r->Err_0->Config_0 is Missing && r->Err_0->Config_0->Missing_key@ == key,
            }
        }),
{
    if server.port == 0 {
        return Err(Error::config_invalid("server.port", "0"));
    }
    if server.host.as_str().is_empty() {
        return Err(Error::config_missing("server.host"));
    }
    if database.url.as_str().is_empty() {
        return Err(Error::config_missing("database.url"));
    }
    if redis.url.as_str().is_empty() {
        return Err(Error::config_missing("redis.url"));
    }
    let names = &server.static_files.index_files;
    let mut k: usize = 0;
    while k < names.len()
        invariant
            k <= names@.len(),
            *names == server.static_files.index_files,
            server.port != 0,
            server.host@.len() != 0,
            database.url@.len() != 0,
            redis.url@.len() != 0,
            first_escaping_index(names@, 0) == first_escaping_index(names@, k as int),
        decreases names.len() - k,
    {
        if !is_contained(names[k].as_str()) {
            return Err(Error::config_invalid("server.static_files.index_files", names[k].as_str()));
        }
        k = k + 1;
    }
    Ok(())
}

/// A setting that an environment variable replaces.
#[derive(Debug, Clone)]
pub enum EnvOverride {
    ServerPort(u16),
    ServerHost(String),
    DatabaseUrl(String),
    RedisUrl(String),
    LoggingLevel(String),
}

/// The prefix of the environment variables that override settings.
pub open spec fn env_prefix() -> Seq<char> {
    "CONTAINER_CODES_"@
}

pub enum OverrideView {
    ServerPort(u16),
    ServerHost(Seq<char>),
    DatabaseUrl(Seq<char>),
    RedisUrl(Seq<char>),
    LoggingLevel(Seq<char>),
}

impl View for EnvOverride {
    type V = OverrideView;

    open spec fn view(&self) -> OverrideView {
        match self {
            EnvOverride::ServerPort(p) => OverrideView::ServerPort(*p),
            EnvOverride::ServerHost(v) => OverrideView::ServerHost(v@),
            EnvOverride::DatabaseUrl(v) => OverrideView::DatabaseUrl(v@),
            EnvOverride::RedisUrl(v) => OverrideView::RedisUrl(v@),
            EnvOverride::LoggingLevel(v) => OverrideView::LoggingLevel(v@),
        }
    }
}

/// The setting that the variable `name` with value `value` overrides, if
/// any: the name is the prefix followed by `SERVER_PORT`, `SERVER_HOST`,
/// `DATABASE_URL`, `REDIS_URL` or `LOGGING_LEVEL`; a port that does not
/// read as a 16-bit number is ignored.
pub open spec fn env_override_of(name: Seq<char>, value: Seq<char>) -> Option<OverrideView> {
    let p = env_prefix();
    if name.len() < p.len() || name.subrange(0, p.len() as int) != p {
        None
    } else {
        let key = name.subrange(p.len() as int, name.len() as int);
        if key == "SERVER_PORT"@ {
            match parse_unsigned(value, 65535) {
                Some(v) => Some(OverrideView::ServerPort(v as u16)),
                None => None,
            }
        } else if key == "SERVER_HOST"@ {
            Some(OverrideView::ServerHost(value))
        } else if key == "DATABASE_URL"@ {
            Some(OverrideView::DatabaseUrl(value))
        } else if key == "REDIS_URL"@ {
            Some(OverrideView::RedisUrl(value))
        } else if key == "LOGGING_LEVEL"@ {
            Some(OverrideView::LoggingLevel(value))
        } else {
            None
        }
    }
}

pub open spec fn opt_override_view(o: Option<EnvOverride>) -> Option<OverrideView> {
    match o {
        Some(v) => Some(v@),
        None => None,
    }
}

/// Reads one environment variable as a setting override.
pub fn env_override(name: &str, value: &str) -> (r: Option<EnvOverride>)
    ensures
        opt_override_view(r) == env_override_of(name@, value@),
{
    let prefix = "CONTAINER_CODES_";
    proof {
        reveal_strlit("CONTAINER_CODES_");
    }
    let n = name.unicode_len();
    if n < 16 {
        return None;
    }
    let head = name.substring_char(0, 16);
    if !same(head, prefix) {
        return None;
    }
    let key = name.substring_char(16, n);
    if same(key, "SERVER_PORT") {
        match parse_bounded(value, 65535) {
            Some(v) => Some(EnvOverride::ServerPort(v as u16)),
            None => None,
        }
    } else if same(key, "SERVER_HOST") {
        Some(EnvOverride::ServerHost(String::from_str(value)))
    } else if same(key, "DATABASE_URL") {
        Some(EnvOverride::DatabaseUrl(String::from_str(value)))
    } else if same(key, "REDIS_URL") {
        Some(EnvOverride::RedisUrl(String::from_str(value)))
    } else if same(key, "LOGGING_LEVEL") {
        Some(EnvOverride::LoggingLevel(String::from_str(value)))
    } else {
        None
    }
}

/// Applies an override to the settings it names. A logging level is not
/// held by these settings and is handed back to be applied by the caller.
pub fn apply_override(
    server: &mut ServerConfig,
    database: &mut DatabaseConfig,
    redis: &mut RedisConfig,
    ov: EnvOverride,
) -> (r: Option<String>)
    ensures
        match ov {
            EnvOverride::ServerPort(p) => *final(server) == ServerConfig { port: p, ..*old(server) }
                && *final(database) == *old(database) && *final(redis) == *old(redis) && r is None,
            EnvOverride::ServerHost(h) => *final(server) == ServerConfig { host: h, ..*old(server) }
                && *final(database) == *old(database) && *final(redis) == *old(redis) && r is None,
            EnvOverride::DatabaseUrl(u) => *final(server) == *old(server) && *final(database)
                == DatabaseConfig { url: u, ..*old(database) } && *final(redis) == *old(redis)
                && r is None,
            EnvOverride::RedisUrl(u) => *final(server) == *old(server) && *final(database)
                == *old(database) && *final(redis) == RedisConfig { url: u, ..*old(redis) }
                && r is None,
            EnvOverride::LoggingLevel(l) => *final(server) == *old(server) && *final(database)
                == *old(database) && *final(redis) == *old(redis) && r == Some(l),
        },
{
    match ov {
        EnvOverride::ServerPort(p) => {
            server.port = p;
            None
        },
        EnvOverride::ServerHost(h) => {
            server.host = h;
            None
        },
        EnvOverride::DatabaseUrl(u) => {
            database.url = u;
            None
        },
        EnvOverride::RedisUrl(u) => {
            redis.url = u;
            None
        },
        EnvOverride::LoggingLevel(l) => Some(l),
    }
}

fn strs(items: &[&str]) -> (r: Vec<String>)
    ensures
        r@.len() == items@.len(),
        forall|i: int| 0 <= i < items@.len() ==> #[trigger] r@[i]@ == items@[i]@,
{
    let mut out: Vec<String> = Vec::new();
    let mut i: usize = 0;
    while i < items.len()
        invariant
            i <= items@.len(),
            out@.len() == i,
            forall|j: int| 0 <= j < i ==> #[trigger] out@[j]@ == items@[j]@,
        decreases items.len() - i,
    {
        out.push(String::from_str(items[i]));
        i = i + 1;
    }
    out
}

impl Default for ServerConfig {
    fn default() -> (r: Self)
        ensures
            r.host@ == "127.0.0.1"@,
            r.port == 8080,
            r.workers == 0,
    {
        ServerConfig {
            host: String::from_str("127.0.0.1"),
            port: 8080,
            workers: 0,
            tls: TlsConfig::default(),
            static_files: StaticConfig::default(),
            security: SecurityConfig::default(),
        }
    }
}

impl Default for TlsConfig {
    fn default() -> (r: Self)
        ensures
            !r.enabled,
            r.cert_file.is_none(),
            r.key_file.is_none(),
            !r.auto_cert,
            r.domains@.len() == 0,
            r.acme_email.is_none(),
            r.acme_directory@ == "https://acme-v02.api.letsencrypt.org/directory"@,
    {
        TlsConfig {
            enabled: false,
            cert_file: None,
            key_file: None,
            auto_cert: false,
            domains: Vec::new(),
            acme_email: None,
            acme_directory: String::from_str("https://acme-v02.api.letsencrypt.org/directory"),
        }
    }
}

impl Default for StaticConfig {
    fn default() -> (r: Self)
        ensures
            r.enabled,
            r.root@ == "./public"@,
            r.index_files@.len() == 2,
            r.index_files@[0]@ == "index.html"@,
            r.index_files@[1]@ == "index.htm"@,
            r.compression,
            r.compression_types@.len() == 4,
            r.cache_control@ == "public, max-age=3600"@,
            r.etag,
    {
        StaticConfig {
            enabled: true,
            root: String::from_str("./public"),
            index_files: strs(&["index.html", "index.htm"]),
            compression: true,
            compression_types: strs(
                &["text/html", "text/css", "application/javascript", "application/json"],
            ),
            cache_control: String::from_str("public, max-age=3600"),
            etag: true,
        }
    }
}

impl Default for SecurityConfig {
    fn default() -> (r: Self)
        ensures
            r.cors_origins@.len() == 1,
            r.cors_methods@.len() == 4,
            r.cors_headers@.len() == 2,
            !r.rate_limit_enabled,
            r.rate_limit_requests == 100,
            r.rate_limit_window@ == "1m"@,
            r.security_headers,
            r.hsts_max_age == 31536000,
            r.content_type_nosniff,
            r.frame_options@ == "DENY"@,
            r.xss_protection,
    {
        SecurityConfig {
            cors_origins: strs(&["*"]),
            cors_methods: strs(&["GET", "POST", "PUT", "DELETE"]),
            cors_headers: strs(&["Content-Type", "Authorization"]),
            rate_limit_enabled: false,
            rate_limit_requests: 100,
            rate_limit_window: String::from_str("1m"),
            security_headers: true,
            hsts_max_age: 31536000,
            content_type_nosniff: true,
            frame_options: String::from_str("DENY"),
            xss_protection: true,
        }
    }
}

impl Default for DatabaseConfig {
    fn default() -> (r: Self)
        ensures
            r.url@ == "postgresql://localhost/container_codes"@,
            r.max_connections == 50,
            r.min_connections == 5,
            r.connection_timeout@ == "30s"@,
            r.idle_timeout@ == "10m"@,
            r.max_lifetime@ == "1h"@,
            !r.auto_migrate,
            r.migration_path@ == "./migrations"@,
    {
        DatabaseConfig {
            url: String::from_str("postgresql://localhost/container_codes"),
            max_connections: 50,
            min_connections: 5,
            connection_timeout: String::from_str("30s"),
            idle_timeout: String::from_str("10m"),
            max_lifetime: String::from_str("1h"),
            auto_migrate: false,
            migration_path: String::from_str("./migrations"),
        }
    }
}

impl Default for RedisConfig {
    fn default() -> (r: Self)
        ensures
            r.url@ == "redis://localhost:6379"@,
            r.pool_size == 50,
            r.connection_timeout@ == "5s"@,
            r.command_timeout@ == "30s"@,
            r.retry_attempts == 3,
    {
        RedisConfig {
            url: String::from_str("redis://localhost:6379"),
            pool_size: 50,
            connection_timeout: String::from_str("5s"),
            command_timeout: String::from_str("30s"),
            retry_attempts: 3,
            queue: QueueConfig::default(),
        }
    }
}

impl Default for QueueConfig {
    fn default() -> (r: Self)
        ensures
            r.default_queue@ == "jobs"@,
            r.retry_queue@ == "retry"@,
            r.failed_queue@ == "failed"@,
            r.max_retries == 3,
    {
        QueueConfig {
            default_queue: String::from_str("jobs"),
            retry_queue: String::from_str("retry"),
            failed_queue: String::from_str("failed"),
            max_retries: 3,
        }
    }
}

} // verus!
