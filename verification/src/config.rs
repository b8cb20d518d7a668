//! The typed configuration snapshot and the loader that builds it from a
//! parsed settings file merged with environment overrides.
//!
//! The caller reads and parses the settings file and collects the process
//! environment; the loader owns everything after that: the override rule,
//! the merge precedence, and every field's typing and validation. Missing
//! text fields default to empty strings and missing durations to zero;
//! the two backoff groups are required in full and must satisfy the
//! backoff invariant.

use vstd::prelude::*;
use crate::backoff::Backoff;
use crate::chars::to_chars;
use crate::decimal::milli_val;
use crate::decimal::parse_milli;
use crate::decimal::parse_uint;
use crate::decimal::uint_val;
use crate::duration::duration_val;
use crate::duration::parse_duration;
use crate::settings::Entry;
use crate::settings::effective;
use crate::settings::effective_value;

verus! {

/// Why a configuration could not be produced.
#[derive(Clone, Debug)]
pub enum ConfigError {
    /// The settings file was missing or unreadable; carries the file
    /// path. Produced by the caller that reads the file, never by the
    /// loader.
    NotFound(String),
    /// The settings file could not be parsed or the environment not
    /// merged; carries the reader's message. Produced by the caller that
    /// parses the file, never by the loader.
    Parse(String),
    /// A field failed typing or validation; carries the field's path (or
    /// a backoff group's path when the group breaks the backoff
    /// invariant).
    Validation(String),
}

/// Collection of secret values used to connect to services.
#[derive(Clone, Debug)]
pub struct Secrets {
    /// Token used to authenticate with the chat gateway.
    pub discord_token: String,
}

/// Collection of external services that this service connects to.
#[derive(Clone, Debug)]
pub struct Services {
    /// Full queue URL to connect to the gateway queue at.
    pub gateway_queue: String,
    /// Combined host and port of the feature-gate service.
    pub feature_gate: String,
    /// Combined host and port of the uptime service.
    pub logs_uptime: String,
}

/// Connection-pool tuning for the queue connection, as plain values.
#[derive(Clone, Copy, Debug, PartialEq, Eq, Structural)]
pub struct PoolSettings {
    /// Most connections the pool may hold.
    pub max_size: usize,
    /// Time limit for waiting on a pooled connection, in nanoseconds.
    pub wait_timeout: Option<u64>,
    /// Time limit for opening a connection, in nanoseconds.
    pub create_timeout: Option<u64>,
    /// Time limit for recycling a connection, in nanoseconds.
    pub recycle_timeout: Option<u64>,
}

/// Config options related to the gateway queue.
#[derive(Clone, Debug)]
pub struct GatewayQueue {
    /// Name of the exchange that events are sent to.
    pub exchange: String,
    /// Name of the durable queue that events get published to.
    pub queue_name: String,
    /// Routing key for messages.
    pub routing_key: String,
    /// Tuning of the connection pool in front of the queue connection.
    pub connection_pool: PoolSettings,
}

/// The immutable configuration snapshot, produced once at startup.
#[derive(Clone, Debug)]
pub struct Configuration {
    /// Secret values used to connect to services.
    pub secrets: Secrets,
    /// External services that this service connects to.
    pub services: Services,
    /// Backoff used while connecting to services during initialization.
    pub initialization_backoff: Backoff,
    /// Backoff used for steady-state calls to other services.
    pub rpc_backoff: Backoff,
    /// Name of the feature that enables indexing on a guild.
    pub indexing_feature: String,
    /// Options for the gateway queue.
    pub gateway_queue: GatewayQueue,
    /// How long consecutive guild uptime events are grouped together, in
    /// nanoseconds.
    pub guild_uptime_debounce_delay: u64,
    /// Size of the guild chunks sent to the feature-gate service.
    pub feature_gate_batch_check_size: usize,
    /// How long offline guilds stay in the active guild cache, in
    /// nanoseconds.
    pub active_guild_eviction_duration: u64,
    /// Time between polls of the feature-gate service, in nanoseconds.
    pub active_guilds_poll_interval: u64,
}

/// The text a field takes after the merge; empty when the field is
/// absent.
pub open spec fn text_at(
    file: Seq<Entry>,
    env: Seq<Entry>,
    prefix: Seq<char>,
    path: Seq<char>,
) -> Seq<char> {
    match effective_value(file, env, prefix, path) {
        Option::Some(v) => v,
        Option::None => Seq::empty(),
    }
}

/// An optional duration field is acceptable when absent or when its text
/// is a duration that fits in 64 bits.
pub open spec fn opt_dur_ok(
    file: Seq<Entry>,
    env: Seq<Entry>,
    prefix: Seq<char>,
    path: Seq<char>,
) -> bool {
    match effective_value(file, env, prefix, path) {
        Option::Some(v) => duration_val(v) matches Some(n) && n <= u64::MAX,
        Option::None => true,
    }
}

/// Value of an optional duration field, zero when absent.
pub open spec fn opt_dur_at(
    file: Seq<Entry>,
    env: Seq<Entry>,
    prefix: Seq<char>,
    path: Seq<char>,
) -> nat {
    match effective_value(file, env, prefix, path) {
        Option::Some(v) => match duration_val(v) {
            Option::Some(n) => n,
            Option::None => 0,
        },
        Option::None => 0,
    }
}

/// A required duration field must be present and a duration that fits in
/// 64 bits.
pub open spec fn req_dur_ok(
    file: Seq<Entry>,
    env: Seq<Entry>,
    prefix: Seq<char>,
    path: Seq<char>,
) -> bool {
    effective_value(file, env, prefix, path) matches Some(v) && duration_val(v) matches Some(n)
        && n <= u64::MAX
}

/// Value of a required duration field.
pub open spec fn req_dur_at(
    file: Seq<Entry>,
    env: Seq<Entry>,
    prefix: Seq<char>,
    path: Seq<char>,
) -> nat {
    opt_dur_at(file, env, prefix, path)
}

/// A required fixed-point field must be present and a number in
/// thousandths that fits in 64 bits.
pub open spec fn req_milli_ok(
    file: Seq<Entry>,
    env: Seq<Entry>,
    prefix: Seq<char>,
    path: Seq<char>,
) -> bool {
    effective_value(file, env, prefix, path) matches Some(v) && milli_val(v) matches Some(n) && n
        <= u64::MAX
}

/// Value of a required fixed-point field, in thousandths.
pub open spec fn req_milli_at(
    file: Seq<Entry>,
    env: Seq<Entry>,
    prefix: Seq<char>,
    path: Seq<char>,
) -> nat {
    match effective_value(file, env, prefix, path) {
        Option::Some(v) => match milli_val(v) {
            Option::Some(n) => n,
            Option::None => 0,
        },
        Option::None => 0,
    }
}

/// An optional count field is acceptable when absent or when its text is
/// an integer no larger than the machine's word.
pub open spec fn opt_uint_ok(
    file: Seq<Entry>,
    env: Seq<Entry>,
    prefix: Seq<char>,
    path: Seq<char>,
) -> bool {
    match effective_value(file, env, prefix, path) {
        Option::Some(v) => uint_val(v) matches Some(n) && n <= usize::MAX,
        Option::None => true,
    }
}

/// Value of an optional count field, zero when absent.
pub open spec fn opt_uint_at(
    file: Seq<Entry>,
    env: Seq<Entry>,
    prefix: Seq<char>,
    path: Seq<char>,
) -> nat {
    match effective_value(file, env, prefix, path) {
        Option::Some(v) => match uint_val(v) {
            Option::Some(n) => n,
            Option::None => 0,
        },
        Option::None => 0,
    }
}

/// Value of an optional duration field kept optional: absent stays
/// `None`.
pub open spec fn maybe_dur_at(
    file: Seq<Entry>,
    env: Seq<Entry>,
    prefix: Seq<char>,
    path: Seq<char>,
) -> Option<nat> {
    match effective_value(file, env, prefix, path) {
        Option::Some(v) => match duration_val(v) {
            Option::Some(n) => Some(n),
            Option::None => None,
        },
        Option::None => None,
    }
}

fn text_field(file: &Vec<Entry>, env: &Vec<Entry>, prefix: &[char], path: &str) -> (r: String)
    ensures
        r@ == text_at(file@, env@, prefix@, path@),
{
    let p = to_chars(path);
    match effective(file, env, prefix, p.as_slice()) {
        Some(v) => v,
        None => String::new(),
    }
}

fn opt_dur_field(file: &Vec<Entry>, env: &Vec<Entry>, prefix: &[char], path: &str) -> (r: Result<
    u64,
    ConfigError,
>)
    ensures
        opt_dur_ok(file@, env@, prefix@, path@) ==> (r matches Ok(n) && n as nat == opt_dur_at(
            file@,
            env@,
            prefix@,
            path@,
        )),
        !opt_dur_ok(file@, env@, prefix@, path@) ==> (r matches Err(e) && e matches
            ConfigError::Validation(p) && p@ == path@),
{
    let pc = to_chars(path);
    match effective(file, env, prefix, pc.as_slice()) {
        None => Ok(0),
        Some(v) => {
            let vc = to_chars(v.as_str());
            match parse_duration(vc.as_slice()) {
                Ok(n) => Ok(n),
                Err(_) => Err(ConfigError::Validation(path.to_owned())),
            }
        },
    }
}

fn maybe_dur_field(file: &Vec<Entry>, env: &Vec<Entry>, prefix: &[char], path: &str) -> (r:
    Result<Option<u64>, ConfigError>)
    ensures
        opt_dur_ok(file@, env@, prefix@, path@) ==> (r matches Ok(o) && (match maybe_dur_at(
            file@,
            env@,
            prefix@,
            path@,
        ) {
            Option::Some(n) => o matches Some(m) && m as nat == n,
            Option::None => o is None,
        })),
        !opt_dur_ok(file@, env@, prefix@, path@) ==> (r matches Err(e) && e matches
            ConfigError::Validation(p) && p@ == path@),
{
    let pc = to_chars(path);
    match effective(file, env, prefix, pc.as_slice()) {
        None => Ok(None),
        Some(v) => {
            let vc = to_chars(v.as_str());
            match parse_duration(vc.as_slice()) {
                Ok(n) => Ok(Some(n)),
                Err(_) => Err(ConfigError::Validation(path.to_owned())),
            }
        },
    }
}

fn req_dur_field(file: &Vec<Entry>, env: &Vec<Entry>, prefix: &[char], path: &str) -> (r: Result<
    u64,
    ConfigError,
>)
    ensures
        req_dur_ok(file@, env@, prefix@, path@) ==> (r matches Ok(n) && n as nat == req_dur_at(
            file@,
            env@,
            prefix@,
            path@,
        )),
        !req_dur_ok(file@, env@, prefix@, path@) ==> (r matches Err(e) && e matches
            ConfigError::Validation(p) && p@ == path@),
{
    let pc = to_chars(path);
    match effective(file, env, prefix, pc.as_slice()) {
        None => Err(ConfigError::Validation(path.to_owned())),
        Some(v) => {
            let vc = to_chars(v.as_str());
            match parse_duration(vc.as_slice()) {
                Ok(n) => Ok(n),
                Err(_) => Err(ConfigError::Validation(path.to_owned())),
            }
        },
    }
}

fn req_milli_field(file: &Vec<Entry>, env: &Vec<Entry>, prefix: &[char], path: &str) -> (r:
    Result<u64, ConfigError>)
    ensures
        req_milli_ok(file@, env@, prefix@, path@) ==> (r matches Ok(n) && n as nat
            == req_milli_at(file@, env@, prefix@, path@)),
        !req_milli_ok(file@, env@, prefix@, path@) ==> (r matches Err(e) && e matches
            ConfigError::Validation(p) && p@ == path@),
{
    let pc = to_chars(path);
    match effective(file, env, prefix, pc.as_slice()) {
        None => Err(ConfigError::Validation(path.to_owned())),
        Some(v) => {
            let vc = to_chars(v.as_str());
            match parse_milli(vc.as_slice()) {
                Ok(n) => Ok(n),
                Err(_) => Err(ConfigError::Validation(path.to_owned())),
            }
        },
    }
}

fn opt_uint_field(file: &Vec<Entry>, env: &Vec<Entry>, prefix: &[char], path: &str) -> (r:
    Result<usize, ConfigError>)
    ensures
        opt_uint_ok(file@, env@, prefix@, path@) ==> (r matches Ok(n) && n as nat == opt_uint_at(
            file@,
            env@,
            prefix@,
            path@,
        )),
        !opt_uint_ok(file@, env@, prefix@, path@) ==> (r matches Err(e) && e matches
            ConfigError::Validation(p) && p@ == path@),
{
    let pc = to_chars(path);
    match effective(file, env, prefix, pc.as_slice()) {
        None => Ok(0),
        Some(v) => {
            let vc = to_chars(v.as_str());
            match parse_uint(vc.as_slice()) {
                Ok(n) => {
                    if n <= usize::MAX as u64 {
                        Ok(n as usize)
                    } else {
                        Err(ConfigError::Validation(path.to_owned()))
                    }
                },
                Err(_) => Err(ConfigError::Validation(path.to_owned())),
            }
        },
    }
}

/// A backoff group is acceptable when all four of its fields are present
/// and typed, and the resulting parameters satisfy the backoff
/// invariant.
pub open spec fn backoff_group_ok(
    file: Seq<Entry>,
    env: Seq<Entry>,
    prefix: Seq<char>,
    p_init: Seq<char>,
    p_max: Seq<char>,
    p_dur: Seq<char>,
    p_mult: Seq<char>,
) -> bool {
    &&& req_dur_ok(file, env, prefix, p_init)
    &&& req_dur_ok(file, env, prefix, p_max)
    &&& req_dur_ok(file, env, prefix, p_dur)
    &&& req_milli_ok(file, env, prefix, p_mult)
    &&& backoff_at(file, env, prefix, p_init, p_max, p_dur, p_mult).wf()
}

/// The backoff parameters a group denotes.
pub open spec fn backoff_at(
    file: Seq<Entry>,
    env: Seq<Entry>,
    prefix: Seq<char>,
    p_init: Seq<char>,
    p_max: Seq<char>,
    p_dur: Seq<char>,
    p_mult: Seq<char>,
) -> Backoff {
    Backoff {
        initial_interval: req_dur_at(file, env, prefix, p_init) as u64,
        max_interval: req_dur_at(file, env, prefix, p_max) as u64,
        duration: req_dur_at(file, env, prefix, p_dur) as u64,
        multiplier_milli: req_milli_at(file, env, prefix, p_mult) as u64,
    }
}

fn load_backoff(
    file: &Vec<Entry>,
    env: &Vec<Entry>,
    prefix: &[char],
    group: &str,
    p_init: &str,
    p_max: &str,
    p_dur: &str,
    p_mult: &str,
) -> (r: Result<Backoff, ConfigError>)
    ensures
        r is Ok <==> backoff_group_ok(file@, env@, prefix@, p_init@, p_max@, p_dur@, p_mult@),
        r matches Ok(b) ==> b == backoff_at(
            file@,
            env@,
            prefix@,
            p_init@,
            p_max@,
            p_dur@,
            p_mult@,
        ) && b.wf(),
        r matches Err(e) ==> e is Validation,
{
    let initial_interval = match req_dur_field(file, env, prefix, p_init) {
        Ok(n) => n,
        Err(e) => {
            return Err(e);
        },
    };
    let max_interval = match req_dur_field(file, env, prefix, p_max) {
        Ok(n) => n,
        Err(e) => {
            return Err(e);
        },
    };
    let duration = match req_dur_field(file, env, prefix, p_dur) {
        Ok(n) => n,
        Err(e) => {
            return Err(e);
        },
    };
    let multiplier_milli = match req_milli_field(file, env, prefix, p_mult) {
        Ok(n) => n,
        Err(e) => {
            return Err(e);
        },
    };
    let b = Backoff { initial_interval, max_interval, duration, multiplier_milli };
    if initial_interval == 0 || multiplier_milli < 1000 || max_interval < initial_interval {
        return Err(ConfigError::Validation(group.to_owned()));
    }
    Ok(b)
}

/// Everything the loader checks: both backoff groups in full, and every
/// duration- or count-valued field either absent or well typed.
pub open spec fn load_ok(file: Seq<Entry>, env: Seq<Entry>, prefix: Seq<char>) -> bool {
    &&& backoff_group_ok(
        file,
        env,
        prefix,
        "initialization_backoff.initial_interval"@,
        "initialization_backoff.max_interval"@,
        "initialization_backoff.duration"@,
        "initialization_backoff.multiplier"@,
    )
    &&& backoff_group_ok(
        file,
        env,
        prefix,
        "rpc_backoff.initial_interval"@,
        "rpc_backoff.max_interval"@,
        "rpc_backoff.duration"@,
        "rpc_backoff.multiplier"@,
    )
    &&& opt_dur_ok(file, env, prefix, "guild_uptime_debounce_delay"@)
    &&& opt_dur_ok(file, env, prefix, "active_guild_eviction_duration"@)
    &&& opt_dur_ok(file, env, prefix, "active_guilds_poll_interval"@)
    &&& opt_uint_ok(file, env, prefix, "feature_gate_batch_check_size"@)
    &&& opt_uint_ok(file, env, prefix, "gateway_queue.connection_pool.max_size"@)
    &&& opt_dur_ok(file, env, prefix, "gateway_queue.connection_pool.timeouts.wait"@)
    &&& opt_dur_ok(file, env, prefix, "gateway_queue.connection_pool.timeouts.create"@)
    &&& opt_dur_ok(file, env, prefix, "gateway_queue.connection_pool.timeouts.recycle"@)
}

impl Configuration {
    /// Builds the configuration snapshot from the parsed settings file
    /// and the raw process environment, applying the override rule and
    /// validating every field. Succeeds exactly when every field the
    /// loader checks is acceptable; a failure names an offending field.
    pub fn try_load(file: &Vec<Entry>, env: &Vec<Entry>, prefix: &str) -> (r: Result<
        Configuration,
        ConfigError,
    >)
        ensures
            r is Ok <==> load_ok(file@, env@, prefix@),
            r matches Err(e) ==> e is Validation,
            r matches Ok(c) ==> {
                &&& c.secrets.discord_token@ == text_at(
                    file@,
                    env@,
                    prefix@,
                    "secrets.discord_token"@,
                )
                &&& c.services.gateway_queue@ == text_at(
                    file@,
                    env@,
                    prefix@,
                    "services.gateway_queue"@,
                )
                &&& c.services.feature_gate@ == text_at(
                    file@,
                    env@,
                    prefix@,
                    "services.feature_gate"@,
                )
                &&& c.services.logs_uptime@ == text_at(
                    file@,
                    env@,
                    prefix@,
                    "services.logs_uptime"@,
                )
                &&& c.indexing_feature@ == text_at(file@, env@, prefix@, "indexing_feature"@)
                &&& c.initialization_backoff == backoff_at(
                    file@,
                    env@,
                    prefix@,
                    "initialization_backoff.initial_interval"@,
                    "initialization_backoff.max_interval"@,
                    "initialization_backoff.duration"@,
                    "initialization_backoff.multiplier"@,
                )
                &&& c.initialization_backoff.wf()
                &&& c.rpc_backoff == backoff_at(
                    file@,
                    env@,
                    prefix@,
                    "rpc_backoff.initial_interval"@,
                    "rpc_backoff.max_interval"@,
                    "rpc_backoff.duration"@,
                    "rpc_backoff.multiplier"@,
                )
                &&& c.rpc_backoff.wf()
                &&& c.gateway_queue.exchange@ == text_at(
                    file@,
                    env@,
                    prefix@,
                    "gateway_queue.exchange"@,
                )
                &&& c.gateway_queue.queue_name@ == text_at(
                    file@,
                    env@,
                    prefix@,
                    "gateway_queue.queue_name"@,
                )
                &&& c.gateway_queue.routing_key@ == text_at(
                    file@,
                    env@,
                    prefix@,
                    "gateway_queue.routing_key"@,
                )
                &&& c.gateway_queue.connection_pool.max_size as nat == opt_uint_at(
                    file@,
                    env@,
                    prefix@,
                    "gateway_queue.connection_pool.max_size"@,
                )
                &&& c.guild_uptime_debounce_delay as nat == opt_dur_at(
                    file@,
                    env@,
                    prefix@,
                    "guild_uptime_debounce_delay"@,
                )
                &&& c.feature_gate_batch_check_size as nat == opt_uint_at(
                    file@,
                    env@,
                    prefix@,
                    "feature_gate_batch_check_size"@,
                )
                &&& c.active_guild_eviction_duration as nat == opt_dur_at(
                    file@,
                    env@,
                    prefix@,
                    "active_guild_eviction_duration"@,
                )
                &&& c.active_guilds_poll_interval as nat == opt_dur_at(
                    file@,
                    env@,
                    prefix@,
                    "active_guilds_poll_interval"@,
                )
            },
    {
        let pc = to_chars(prefix);
        let p = pc.as_slice();
        let initialization_backoff = match load_backoff(
            file,
            env,
            p,
            "initialization_backoff",
            "initialization_backoff.initial_interval",
            "initialization_backoff.max_interval",
            "initialization_backoff.duration",
            "initialization_backoff.multiplier",
        ) {
            Ok(b) => b,
            Err(e) => {
                return Err(e);
            },
        };
        let rpc_backoff = match load_backoff(
            file,
            env,
            p,
            "rpc_backoff",
            "rpc_backoff.initial_interval",
            "rpc_backoff.max_interval",
            "rpc_backoff.duration",
            "rpc_backoff.multiplier",
        ) {
            Ok(b) => b,
            Err(e) => {
                return Err(e);
            },
        };
        let guild_uptime_debounce_delay = match opt_dur_field(
            file,
            env,
            p,
            "guild_uptime_debounce_delay",
        ) {
            Ok(n) => n,
            Err(e) => {
                return Err(e);
            },
        };
        let active_guild_eviction_duration = match opt_dur_field(
            file,
            env,
            p,
            "active_guild_eviction_duration",
        ) {
            Ok(n) => n,
            Err(e) => {
                return Err(e);
            },
        };
        let active_guilds_poll_interval = match opt_dur_field(
            file,
            env,
            p,
            "active_guilds_poll_interval",
        ) {
            Ok(n) => n,
            Err(e) => {
                return Err(e);
            },
        };
        let feature_gate_batch_check_size = match opt_uint_field(
            file,
            env,
            p,
            "feature_gate_batch_check_size",
        ) {
            Ok(n) => n,
            Err(e) => {
                return Err(e);
            },
        };
        let max_size = match opt_uint_field(file, env, p, "gateway_queue.connection_pool.max_size")
            {
            Ok(n) => n,
            Err(e) => {
                return Err(e);
            },
        };
        let wait_timeout = match maybe_dur_field(
            file,
            env,
            p,
            "gateway_queue.connection_pool.timeouts.wait",
        ) {
            Ok(o) => o,
            Err(e) => {
                return Err(e);
            },
        };
        let create_timeout = match maybe_dur_field(
            file,
            env,
            p,
            "gateway_queue.connection_pool.timeouts.create",
        ) {
            Ok(o) => o,
            Err(e) => {
                return Err(e);
            },
        };
        let recycle_timeout = match maybe_dur_field(
            file,
            env,
            p,
            "gateway_queue.connection_pool.timeouts.recycle",
        ) {
            Ok(o) => o,
            Err(e) => {
                return Err(e);
            },
        };
        Ok(
            Configuration {
                secrets: Secrets { discord_token: text_field(file, env, p, "secrets.discord_token") },
                services: Services {
                    gateway_queue: text_field(file, env, p, "services.gateway_queue"),
                    feature_gate: text_field(file, env, p, "services.feature_gate"),
                    logs_uptime: text_field(file, env, p, "services.logs_uptime"),
                },
                initialization_backoff,
                rpc_backoff,
                indexing_feature: text_field(file, env, p, "indexing_feature"),
                gateway_queue: GatewayQueue {
                    exchange: text_field(file, env, p, "gateway_queue.exchange"),
                    queue_name: text_field(file, env, p, "gateway_queue.queue_name"),
                    routing_key: text_field(file, env, p, "gateway_queue.routing_key"),
                    connection_pool: PoolSettings {
                        max_size,
                        wait_timeout,
                        create_timeout,
                        recycle_timeout,
                    },
                },
                guild_uptime_debounce_delay,
                feature_gate_batch_check_size,
                active_guild_eviction_duration,
                active_guilds_poll_interval,
            },
        )
    }
}

} // verus!
