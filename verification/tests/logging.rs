use documentdb_gateway::environment::Environment;
use documentdb_gateway::error::ErrorCode;
use documentdb_gateway::telemetry::config::Protocol;
use documentdb_gateway::telemetry::logging::{
    choose_filter, create_logging_provider, directives_acceptable, directives_are_safe,
    get_env_filter, log_exporter_error, BatchConfig, FilterSource, LoggingConfig, LoggingOptions,
};

fn rust_log(value: &str) -> Environment {
    let mut env = Environment::new();
    env.set("RUST_LOG", value);
    env
}

#[test]
fn test_logging_config_uses_env_var() {
    let env = rust_log("debug");
    let config = LoggingConfig::new(None);
    assert_eq!(config.level(&env), "debug");
}

#[test]
fn test_logging_config_json_overrides_env() {
    let env = rust_log("warn");

    // Test with JSON config - should override env var
    let json_config = LoggingOptions {
        level: Some("debug".to_string()),
        console_enabled: Some(true),
        ..Default::default()
    };
    let config = LoggingConfig::new(Some(&json_config));
    assert_eq!(config.level(&env), "debug");
    assert!(config.console_enabled(&env));

    // Test with no JSON config - should use env var
    let config = LoggingConfig::new(None);
    assert_eq!(config.level(&env), "warn");
}

#[test]
fn test_create_logging_provider_when_disabled() {
    let json_config = LoggingOptions {
        enabled: Some(false),
        ..Default::default()
    };
    let config = LoggingConfig::new(Some(&json_config));

    let provider = create_logging_provider(&config, &Environment::new());
    assert!(provider.is_none());
}

#[test]
fn test_create_logging_provider_when_enabled() {
    let json_config = LoggingOptions {
        enabled: Some(true),
        level: Some("DEBUG".to_string()),
        ..Default::default()
    };
    let config = LoggingConfig::new(Some(&json_config));

    let provider = create_logging_provider(&config, &Environment::new());
    assert!(provider.is_some());
    let plan = provider.unwrap();
    assert_eq!(plan.filter.directives, "DEBUG");
    assert_eq!(plan.filter.source, FilterSource::Level);
    assert_eq!(plan.export.endpoint, "http://localhost:4317");
    assert_eq!(plan.export.protocol, Protocol::Grpc);
    assert_eq!(plan.export.timeout_ms, 10000);
    assert_eq!(
        plan.batch,
        BatchConfig { max_queue_size: 4096, max_export_batch_size: 256, scheduled_delay_ms: 5000 }
    );
}

#[test]
fn test_get_env_filter_invalid_level_does_not_panic() {
    // Invalid log level should not panic - falls back to "info"
    let _filter = get_env_filter("not_a_valid_level!!!", &Environment::new());
    // If we get here without panicking, the fallback worked
}

#[test]
fn env_filter_falls_back_to_info() {
    let filter = get_env_filter("!!!", &Environment::new());
    assert_eq!(filter.directives, "info");
    assert_eq!(filter.source, FilterSource::Fallback);
    let filter = get_env_filter("gateway=loud", &Environment::new());
    assert_eq!(filter.directives, "info");
    assert_eq!(filter.source, FilterSource::Fallback);
}

#[test]
fn env_filter_prefers_the_environment() {
    let chosen = get_env_filter("warn", &rust_log("documentdb_gateway=trace,info"));
    assert_eq!(chosen.directives, "documentdb_gateway=trace,info");
    assert_eq!(chosen.source, FilterSource::Environment);
    // An unacceptable variable gives way to the level.
    let chosen = get_env_filter("warn", &rust_log("!!!"));
    assert_eq!(chosen.directives, "warn");
    assert_eq!(chosen.source, FilterSource::Level);
    // And both unacceptable give the fallback.
    let chosen = get_env_filter("a=b=c", &rust_log("!!!"));
    assert_eq!(chosen.directives, "info");
    assert_eq!(chosen.source, FilterSource::Fallback);
}

#[test]
fn directives_that_cannot_be_handed_over_are_not_acceptable() {
    // White space in front and a character of more than one byte.
    for text in [" \u{e9}=info", "info, \u{e9}=debug", "\t\u{4e16}\u{754c}", "a=info,\u{a0}b\u{e9}"] {
        assert!(!directives_are_safe(text), "{text:?}");
        assert!(!directives_acceptable(text), "{text:?}");
    }
    for text in ["", "info", " info", "info, gateway=debug", "\u{e9}=info", "a,,\u{e9} ", ", ,"] {
        assert!(directives_are_safe(text), "{text:?}");
    }
    assert!(directives_acceptable("info,gateway=debug"));
    assert!(directives_acceptable("\u{e9}=info"));
    // White space in front of plain characters is for the subscriber to judge.
    let _judged = directives_acceptable("info, gateway=debug");
    assert!(!directives_acceptable("!!!"));
    // Such a text is passed over like any other that is not acceptable.
    let chosen = get_env_filter("warn", &rust_log(" \u{e9}=info"));
    assert_eq!(chosen.directives, "warn");
    assert_eq!(chosen.source, FilterSource::Level);
    let chosen = get_env_filter(" \u{e9}=info", &Environment::new());
    assert_eq!(chosen.directives, "info");
    assert_eq!(chosen.source, FilterSource::Fallback);
    let options = LoggingOptions {
        enabled: Some(true),
        level: Some(" \u{e9}=info".to_string()),
        ..Default::default()
    };
    let plan = create_logging_provider(&LoggingConfig::new(Some(&options)), &Environment::new());
    assert_eq!(plan.unwrap().filter.source, FilterSource::Fallback);
}

#[test]
fn choose_filter_covers_every_case() {
    let env = Some("trace".to_string());
    assert_eq!(choose_filter(env.clone(), true, "warn", true).directives, "trace");
    assert_eq!(choose_filter(env.clone(), true, "warn", false).source, FilterSource::Environment);
    assert_eq!(choose_filter(env.clone(), false, "warn", true).directives, "warn");
    assert_eq!(choose_filter(env, false, "warn", false).directives, "info");
    assert_eq!(choose_filter(None, true, "warn", true).source, FilterSource::Level);
    assert_eq!(choose_filter(None, false, "warn", false).source, FilterSource::Fallback);
}

#[test]
fn logging_defaults() {
    let env = Environment::new();
    let config = LoggingConfig::new(None);
    assert!(config.logging_enabled(&env));
    assert_eq!(config.otlp_endpoint(&env), "http://localhost:4317");
    assert_eq!(config.level(&env), "info");
    assert!(!config.console_enabled(&env));
    assert_eq!(config.max_queue_size(&env), 4096);
    assert_eq!(config.max_export_batch_size(&env), 256);
    assert_eq!(config.export_interval_ms(&env), 5000);
    assert_eq!(config.export_timeout_ms(&env), 10000);
}

#[test]
fn logging_reads_each_variable() {
    let mut env = Environment::new();
    env.set("OTEL_LOGGING_ENABLED", "false");
    env.set("OTEL_EXPORTER_OTLP_ENDPOINT", "http://shared:4317");
    env.set("OTEL_LOGS_CONSOLE_ENABLED", "true");
    env.set("OTEL_BLRP_MAX_QUEUE_SIZE", "10");
    env.set("OTEL_BLRP_MAX_EXPORT_BATCH_SIZE", "5");
    env.set("OTEL_BLRP_SCHEDULE_DELAY", "250");
    env.set("OTEL_EXPORTER_OTLP_TIMEOUT", "77");
    let config = LoggingConfig::new(None);
    assert!(!config.logging_enabled(&env));
    assert_eq!(config.otlp_endpoint(&env), "http://shared:4317");
    assert!(config.console_enabled(&env));
    assert_eq!(config.max_queue_size(&env), 10);
    assert_eq!(config.max_export_batch_size(&env), 5);
    assert_eq!(config.export_interval_ms(&env), 250);
    assert_eq!(config.export_timeout_ms(&env), 77);
    // The variable of the signal wins over the shared one.
    env.set("OTEL_EXPORTER_OTLP_LOGS_ENDPOINT", "http://logs:4317");
    env.set("OTEL_EXPORTER_OTLP_LOGS_TIMEOUT", "88");
    assert_eq!(config.otlp_endpoint(&env), "http://logs:4317");
    assert_eq!(config.export_timeout_ms(&env), 88);
    let export = config.create_export_config(&env);
    assert_eq!(export.endpoint, "http://logs:4317");
    assert_eq!(export.timeout_ms, 88);
    // An unreadable value counts as unset.
    env.set("OTEL_BLRP_MAX_QUEUE_SIZE", "many");
    env.set("OTEL_LOGGING_ENABLED", "no");
    assert_eq!(config.max_queue_size(&env), 4096);
    assert!(config.logging_enabled(&env));
}

#[test]
fn logging_explicit_values_win() {
    let mut env = Environment::new();
    env.set("OTEL_LOGGING_ENABLED", "true");
    env.set("OTEL_EXPORTER_OTLP_LOGS_ENDPOINT", "http://logs:4317");
    env.set("OTEL_BLRP_MAX_QUEUE_SIZE", "10");
    env.set("OTEL_BLRP_MAX_EXPORT_BATCH_SIZE", "5");
    env.set("OTEL_BLRP_SCHEDULE_DELAY", "250");
    env.set("OTEL_EXPORTER_OTLP_LOGS_TIMEOUT", "88");
    env.set("OTEL_LOGS_CONSOLE_ENABLED", "true");
    let options = LoggingOptions {
        enabled: Some(false),
        otlp_endpoint: Some("http://explicit:1".to_string()),
        level: Some("trace".to_string()),
        console_enabled: Some(false),
        max_queue_size: Some(1),
        max_export_batch_size: Some(2),
        export_interval_ms: Some(3),
        export_timeout_ms: Some(4),
    };
    let config = LoggingConfig::new(Some(&options));
    assert!(!config.logging_enabled(&env));
    assert_eq!(config.otlp_endpoint(&env), "http://explicit:1");
    assert_eq!(config.level(&env), "trace");
    assert!(!config.console_enabled(&env));
    assert_eq!(config.max_queue_size(&env), 1);
    assert_eq!(config.max_export_batch_size(&env), 2);
    assert_eq!(config.export_interval_ms(&env), 3);
    assert_eq!(config.export_timeout_ms(&env), 4);
}

#[test]
fn log_exporter_error_is_internal() {
    let error = log_exporter_error("no transport");
    assert_eq!(error.code, ErrorCode::InternalError);
    assert_eq!(error.message, "failed to build log exporter: no transport");
}
