//! Tests of the configuration loader: duration and number parsing, the
//! environment-override rule, and the typed snapshot.

use gateway_ingress::config::ConfigError;
use gateway_ingress::config::Configuration;
use gateway_ingress::decimal::NumberError;
use gateway_ingress::decimal::parse_milli;
use gateway_ingress::decimal::parse_uint;
use gateway_ingress::duration::DurationError;
use gateway_ingress::duration::parse_duration;
use gateway_ingress::settings::Entry;
use gateway_ingress::settings::effective;
use gateway_ingress::settings::map_env_name;

const PREFIX: &str = "LOGS_GATEWAY_INGRESS";

fn entry(path: &str, value: &str) -> Entry {
    Entry { path: path.to_owned(), value: value.to_owned() }
}

fn chars(s: &str) -> Vec<char> {
    s.chars().collect()
}

fn base_file() -> Vec<Entry> {
    vec![
        entry("secrets.discord_token", "file-token"),
        entry("services.gateway_queue", "amqp://queue:5672"),
        entry("services.feature_gate", "feature-gate:8080"),
        entry("services.logs_uptime", "logs-uptime:8080"),
        entry("indexing_feature", "indexing"),
        entry("gateway_queue.exchange", "gateway"),
        entry("gateway_queue.queue_name", "events"),
        entry("gateway_queue.routing_key", "all"),
        entry("gateway_queue.connection_pool.max_size", "16"),
        entry("initialization_backoff.initial_interval", "500ms"),
        entry("initialization_backoff.max_interval", "10s"),
        entry("initialization_backoff.duration", "2m"),
        entry("initialization_backoff.multiplier", "2.0"),
        entry("rpc_backoff.initial_interval", "100ms"),
        entry("rpc_backoff.max_interval", "2s"),
        entry("rpc_backoff.duration", "1s"),
        entry("rpc_backoff.multiplier", "1.5"),
        entry("guild_uptime_debounce_delay", "5s"),
        entry("feature_gate_batch_check_size", "100"),
        entry("active_guild_eviction_duration", "30m"),
        entry("active_guilds_poll_interval", "2m30s"),
    ]
}

#[test]
fn durations_parse_exactly() {
    assert_eq!(parse_duration(&chars("5s")), Ok(5_000_000_000));
    assert_eq!(parse_duration(&chars("100ms")), Ok(100_000_000));
    assert_eq!(parse_duration(&chars("2m30s")), Ok(150_000_000_000));
    assert_eq!(parse_duration(&chars("1hour 12min 5s")), Ok(4_325_000_000_000));
    assert_eq!(parse_duration(&chars("7ns")), Ok(7));
    assert_eq!(parse_duration(&chars("1w")), Ok(604_800_000_000_000));
}

#[test]
fn bad_durations_are_invalid() {
    assert_eq!(parse_duration(&chars("")), Err(DurationError::Invalid));
    assert_eq!(parse_duration(&chars("  ")), Err(DurationError::Invalid));
    assert_eq!(parse_duration(&chars("5")), Err(DurationError::Invalid));
    assert_eq!(parse_duration(&chars("s")), Err(DurationError::Invalid));
    assert_eq!(parse_duration(&chars("5parsecs")), Err(DurationError::Invalid));
    assert_eq!(parse_duration(&chars("5s!")), Err(DurationError::Invalid));
}

#[test]
fn huge_durations_overflow() {
    assert_eq!(parse_duration(&chars("600y")), Err(DurationError::Overflow));
    assert_eq!(parse_duration(&chars("99999999999999999999999ns")), Err(DurationError::Overflow));
}

#[test]
fn multipliers_parse_in_thousandths() {
    assert_eq!(parse_milli(&chars("1.5")), Ok(1500));
    assert_eq!(parse_milli(&chars("2.0")), Ok(2000));
    assert_eq!(parse_milli(&chars("2")), Ok(2000));
    assert_eq!(parse_milli(&chars("1.25")), Ok(1250));
    assert_eq!(parse_milli(&chars("1.125")), Ok(1125));
    assert_eq!(parse_milli(&chars("1.")), Err(NumberError::Invalid));
    assert_eq!(parse_milli(&chars(".5")), Err(NumberError::Invalid));
    assert_eq!(parse_milli(&chars("1.0625")), Err(NumberError::Invalid));
    assert_eq!(parse_milli(&chars("x")), Err(NumberError::Invalid));
}

#[test]
fn counts_parse_plainly() {
    assert_eq!(parse_uint(&chars("0")), Ok(0));
    assert_eq!(parse_uint(&chars("100")), Ok(100));
    assert_eq!(parse_uint(&chars("")), Err(NumberError::Invalid));
    assert_eq!(parse_uint(&chars("12x")), Err(NumberError::Invalid));
    assert_eq!(parse_uint(&chars("99999999999999999999999")), Err(NumberError::Overflow));
}

#[test]
fn snapshot_is_fully_typed() {
    let cfg = Configuration::try_load(&base_file(), &Vec::new(), PREFIX).unwrap();
    assert_eq!(cfg.secrets.discord_token, "file-token");
    assert_eq!(cfg.services.gateway_queue, "amqp://queue:5672");
    assert_eq!(cfg.services.feature_gate, "feature-gate:8080");
    assert_eq!(cfg.services.logs_uptime, "logs-uptime:8080");
    assert_eq!(cfg.indexing_feature, "indexing");
    assert_eq!(cfg.gateway_queue.exchange, "gateway");
    assert_eq!(cfg.gateway_queue.queue_name, "events");
    assert_eq!(cfg.gateway_queue.routing_key, "all");
    assert_eq!(cfg.gateway_queue.connection_pool.max_size, 16);
    assert_eq!(cfg.gateway_queue.connection_pool.wait_timeout, None);
    assert_eq!(cfg.initialization_backoff.initial_interval, 500_000_000);
    assert_eq!(cfg.initialization_backoff.max_interval, 10_000_000_000);
    assert_eq!(cfg.initialization_backoff.duration, 120_000_000_000);
    assert_eq!(cfg.initialization_backoff.multiplier_milli, 2000);
    assert_eq!(cfg.rpc_backoff.initial_interval, 100_000_000);
    assert_eq!(cfg.rpc_backoff.max_interval, 2_000_000_000);
    assert_eq!(cfg.rpc_backoff.duration, 1_000_000_000);
    assert_eq!(cfg.rpc_backoff.multiplier_milli, 1500);
    assert_eq!(cfg.guild_uptime_debounce_delay, 5_000_000_000);
    assert_eq!(cfg.feature_gate_batch_check_size, 100);
    assert_eq!(cfg.active_guild_eviction_duration, 1_800_000_000_000);
    assert_eq!(cfg.active_guilds_poll_interval, 150_000_000_000);
}

#[test]
fn environment_overrides_file_token() {
    // LOGS_GATEWAY_INGRESS__SECRETS__DISCORD_TOKEN=abc beats the file.
    let env = vec![entry("LOGS_GATEWAY_INGRESS__SECRETS__DISCORD_TOKEN", "abc")];
    let cfg = Configuration::try_load(&base_file(), &env, PREFIX).unwrap();
    assert_eq!(cfg.secrets.discord_token, "abc");
}

#[test]
fn environment_overrides_nested_and_typed_fields() {
    let env = vec![
        entry("LOGS_GATEWAY_INGRESS__RPC_BACKOFF__MULTIPLIER", "3.0"),
        entry("LOGS_GATEWAY_INGRESS__GATEWAY_QUEUE__ROUTING_KEY", "other"),
        entry("UNRELATED__SECRETS__DISCORD_TOKEN", "nope"),
        entry("LOGS_GATEWAY_INGRESS_SECRETS__DISCORD_TOKEN", "nope-too"),
    ];
    let cfg = Configuration::try_load(&base_file(), &env, PREFIX).unwrap();
    assert_eq!(cfg.rpc_backoff.multiplier_milli, 3000);
    assert_eq!(cfg.gateway_queue.routing_key, "other");
    // Names under another prefix, or with a single separating
    // underscore, override nothing.
    assert_eq!(cfg.secrets.discord_token, "file-token");
}

#[test]
fn missing_multiplier_fails_validation() {
    let file: Vec<Entry> =
        base_file().into_iter().filter(|e| e.path != "rpc_backoff.multiplier").collect();
    match Configuration::try_load(&file, &Vec::new(), PREFIX) {
        Err(ConfigError::Validation(path)) => assert_eq!(path, "rpc_backoff.multiplier"),
        other => panic!("expected a validation failure, got {:?}", other),
    }
}

#[test]
fn present_multiplier_drives_second_interval() {
    // With multiplier 1.5 the second interval is the first times 1.5.
    let cfg = Configuration::try_load(&base_file(), &Vec::new(), PREFIX).unwrap();
    let mut gen = cfg.rpc_backoff.build();
    assert_eq!(gen.next_interval(0), Some(100_000_000));
    assert_eq!(gen.next_interval(1), Some(150_000_000));
}

#[test]
fn backoff_invariant_is_enforced() {
    // A multiplier under one breaks the backoff invariant: the group is
    // named in the failure.
    let mut file = base_file();
    for e in file.iter_mut() {
        if e.path == "rpc_backoff.multiplier" {
            e.value = "0.5".to_owned();
        }
    }
    match Configuration::try_load(&file, &Vec::new(), PREFIX) {
        Err(ConfigError::Validation(path)) => assert_eq!(path, "rpc_backoff"),
        other => panic!("expected a validation failure, got {:?}", other),
    }
}

#[test]
fn missing_optional_fields_default_to_zero_values() {
    let file = vec![
        entry("initialization_backoff.initial_interval", "1s"),
        entry("initialization_backoff.max_interval", "1s"),
        entry("initialization_backoff.duration", "1s"),
        entry("initialization_backoff.multiplier", "1.0"),
        entry("rpc_backoff.initial_interval", "1s"),
        entry("rpc_backoff.max_interval", "1s"),
        entry("rpc_backoff.duration", "1s"),
        entry("rpc_backoff.multiplier", "1.0"),
    ];
    let cfg = Configuration::try_load(&file, &Vec::new(), PREFIX).unwrap();
    assert_eq!(cfg.secrets.discord_token, "");
    assert_eq!(cfg.services.gateway_queue, "");
    assert_eq!(cfg.indexing_feature, "");
    assert_eq!(cfg.guild_uptime_debounce_delay, 0);
    assert_eq!(cfg.feature_gate_batch_check_size, 0);
    assert_eq!(cfg.gateway_queue.connection_pool.max_size, 0);
    assert_eq!(cfg.gateway_queue.connection_pool.create_timeout, None);
}

#[test]
fn malformed_duration_field_names_its_path() {
    let mut file = base_file();
    for e in file.iter_mut() {
        if e.path == "active_guilds_poll_interval" {
            e.value = "soon".to_owned();
        }
    }
    match Configuration::try_load(&file, &Vec::new(), PREFIX) {
        Err(ConfigError::Validation(path)) => assert_eq!(path, "active_guilds_poll_interval"),
        other => panic!("expected a validation failure, got {:?}", other),
    }
}

#[test]
fn first_entry_wins_within_one_source() {
    let mut file = base_file();
    file.push(entry("secrets.discord_token", "later-duplicate"));
    let cfg = Configuration::try_load(&file, &Vec::new(), PREFIX).unwrap();
    assert_eq!(cfg.secrets.discord_token, "file-token");
}

#[test]
fn effective_lookup_prefers_environment() {
    let file = vec![entry("secrets.discord_token", "from-file")];
    let env = vec![entry("APP__SECRETS__DISCORD_TOKEN", "from-env")];
    let prefix: Vec<char> = chars("APP");
    let path: Vec<char> = chars("secrets.discord_token");
    assert_eq!(effective(&file, &env, &prefix, &path), Some("from-env".to_owned()));
    assert_eq!(effective(&file, &Vec::new(), &prefix, &path), Some("from-file".to_owned()));
    assert_eq!(effective(&Vec::new(), &Vec::new(), &prefix, &path), None);
}

#[test]
fn env_name_mapping_lowercases_and_splits() {
    let prefix: Vec<char> = chars("APP");
    let mapped = map_env_name(&prefix, &chars("APP__GATEWAY_QUEUE__QUEUE_NAME")).unwrap();
    let as_string: String = mapped.into_iter().collect();
    assert_eq!(as_string, "gateway_queue.queue_name");
    assert!(map_env_name(&prefix, &chars("APP_GATEWAY_QUEUE__QUEUE_NAME")).is_none());
    assert!(map_env_name(&prefix, &chars("OTHER__X")).is_none());
    assert!(map_env_name(&prefix, &chars("APP__")).is_none());
}

#[test]
fn bad_environment_value_fails_validation() {
    // An override is typed like any file value: a broken duration in the
    // environment rejects the load.
    let env = vec![entry("LOGS_GATEWAY_INGRESS__RPC_BACKOFF__DURATION", "whenever")];
    match Configuration::try_load(&base_file(), &env, PREFIX) {
        Err(ConfigError::Validation(path)) => assert_eq!(path, "rpc_backoff.duration"),
        other => panic!("expected a validation failure, got {:?}", other),
    }
}
