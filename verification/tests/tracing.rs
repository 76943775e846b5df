use documentdb_gateway::environment::Environment;
use documentdb_gateway::error::ErrorCode;
use documentdb_gateway::telemetry::tracing::{
    clamp_sampling_ratio, create_tracer_provider, tracer_exporter_error, Sampler, TracingConfig,
    TracingOptions, DEFAULT_SAMPLING_RATIO, RATIO_INFINITY, RATIO_ONE, RATIO_SIGN, RATIO_ZERO,
};

/// What the environment holds for the sampling ratio, read as a number.
fn ratio_from(env: &Environment) -> Option<u64> {
    env.var("OTEL_TRACES_SAMPLER_ARG")
        .and_then(|text| text.parse::<f64>().ok())
        .map(f64::to_bits)
}

fn sampler_arg(value: &str) -> Environment {
    let mut env = Environment::new();
    env.set("OTEL_TRACES_SAMPLER_ARG", value);
    env
}

fn ratio(config: &TracingConfig, env: &Environment) -> f64 {
    f64::from_bits(config.sampling_ratio(ratio_from(env)))
}

#[test]
fn test_tracing_config_uses_env_var() {
    let env = sampler_arg("0.5");
    let config = TracingConfig::new(None);
    assert!((ratio(&config, &env) - 0.5).abs() < f64::EPSILON);
}

#[test]
fn test_tracing_config_sampling_ratio_clamped() {
    let env = sampler_arg("2.0");
    let config = TracingConfig::new(None);
    assert!((ratio(&config, &env) - 1.0).abs() < f64::EPSILON);
}

#[test]
fn test_tracing_config_json_overrides_env() {
    let env = sampler_arg("0.3");

    // Test with JSON config present - should override env var
    let json_config = TracingOptions {
        enabled: Some(true),
        sampling_ratio: Some(0.8f64.to_bits()),
        otlp_endpoint: Some("http://json-endpoint:4317".to_string()),
        ..Default::default()
    };
    let config = TracingConfig::new(Some(&json_config));
    assert!((ratio(&config, &env) - 0.8).abs() < f64::EPSILON);
    assert_eq!(config.otlp_endpoint(&env), "http://json-endpoint:4317");

    // Test with no JSON config - should use env var
    let config = TracingConfig::new(None);
    assert!((ratio(&config, &env) - 0.3).abs() < f64::EPSILON);
}

#[test]
fn test_tracing_config_json_clamps_sampling_ratio() {
    let env = Environment::new();
    // Test that sampling ratio is clamped even from JSON
    let json_config = TracingOptions {
        sampling_ratio: Some(2.0f64.to_bits()), // Invalid: > 1.0
        ..Default::default()
    };
    let config = TracingConfig::new(Some(&json_config));
    assert!((ratio(&config, &env) - 1.0).abs() < f64::EPSILON);

    let json_config = TracingOptions {
        sampling_ratio: Some((-0.5f64).to_bits()), // Invalid: < 0.0
        ..Default::default()
    };
    let config = TracingConfig::new(Some(&json_config));
    assert!((ratio(&config, &env) - 0.0).abs() < f64::EPSILON);
}

#[test]
fn test_create_tracer_provider_when_disabled() {
    let json_config = TracingOptions {
        enabled: Some(false),
        ..Default::default()
    };
    let config = TracingConfig::new(Some(&json_config));

    let result = create_tracer_provider(&config, &Environment::new(), None);
    assert!(result.is_none());
}

#[test]
fn test_create_tracer_provider_when_enabled() {
    let json_config = TracingOptions {
        enabled: Some(true),
        sampling_ratio: Some(0.5f64.to_bits()),
        ..Default::default()
    };
    let config = TracingConfig::new(Some(&json_config));

    let result = create_tracer_provider(&config, &Environment::new(), None);
    assert!(result.is_some());
    let plan = result.unwrap();
    assert_eq!(plan.sampler, Sampler::ParentBasedRatio { ratio: 0.5f64.to_bits() });
    assert_eq!(plan.export.endpoint, "http://localhost:4317");
    assert_eq!(plan.export.timeout_ms, 10000);
}

#[test]
fn sampling_ratio_constants_are_the_bits_of_their_numbers() {
    assert_eq!(DEFAULT_SAMPLING_RATIO, 0.1f64.to_bits());
    assert_eq!(RATIO_ZERO, 0.0f64.to_bits());
    assert_eq!(RATIO_ONE, 1.0f64.to_bits());
    assert_eq!(RATIO_INFINITY, f64::INFINITY.to_bits());
    assert_eq!(RATIO_SIGN, (-0.0f64).to_bits());
    let config = TracingConfig::new(None);
    assert_eq!(f64::from_bits(config.sampling_ratio(None)), 0.1);
}

#[test]
fn clamp_agrees_with_the_clamp_of_numbers() {
    let samples = [
        0.0,
        -0.0,
        0.1,
        0.5,
        1.0,
        1.0000000000000002,
        0.9999999999999999,
        2.0,
        -0.5,
        -1e-320,
        5e-324,
        1e300,
        -1e300,
        f64::MAX,
        f64::MIN,
        f64::MIN_POSITIVE,
        f64::INFINITY,
        f64::NEG_INFINITY,
        f64::EPSILON,
    ];
    for x in samples {
        let expected = x.clamp(0.0, 1.0);
        let got = f64::from_bits(clamp_sampling_ratio(x.to_bits()));
        assert_eq!(got.to_bits(), expected.to_bits(), "clamp of {x}");
    }
    // What is no number stays as it is.
    let nan = f64::NAN.to_bits();
    assert_eq!(clamp_sampling_ratio(nan), nan);
    assert_eq!(clamp_sampling_ratio(nan | RATIO_SIGN), nan | RATIO_SIGN);
    assert_eq!(clamp_sampling_ratio(u64::MAX), u64::MAX);
}

#[test]
fn tracing_defaults_and_variables() {
    let env = Environment::new();
    let config = TracingConfig::new(None);
    assert!(!config.tracing_enabled(&env));
    assert_eq!(config.otlp_endpoint(&env), "http://localhost:4317");
    assert_eq!(config.export_interval_ms(&env), 5000);
    assert_eq!(config.max_export_batch_size(&env), 512);
    assert_eq!(config.export_timeout_ms(&env), 10000);
    let mut env = Environment::new();
    env.set("OTEL_TRACING_ENABLED", "true");
    env.set("OTEL_EXPORTER_OTLP_TRACES_ENDPOINT", "http://traces:4317");
    env.set("OTEL_EXPORTER_OTLP_ENDPOINT", "http://shared:4317");
    env.set("OTEL_BSP_SCHEDULE_DELAY", "1");
    env.set("OTEL_BSP_MAX_EXPORT_BATCH_SIZE", "2");
    env.set("OTEL_EXPORTER_OTLP_TRACES_TIMEOUT", "3");
    assert!(config.tracing_enabled(&env));
    assert_eq!(config.otlp_endpoint(&env), "http://traces:4317");
    assert_eq!(config.export_interval_ms(&env), 1);
    assert_eq!(config.max_export_batch_size(&env), 2);
    assert_eq!(config.export_timeout_ms(&env), 3);
    let export = config.create_export_config(&env);
    assert_eq!(export.endpoint, "http://traces:4317");
    assert_eq!(export.timeout_ms, 3);
    let explicit = TracingOptions {
        enabled: Some(false),
        export_interval_ms: Some(10),
        max_export_batch_size: Some(20),
        export_timeout_ms: Some(30),
        ..Default::default()
    };
    let config = TracingConfig::new(Some(&explicit));
    assert!(!config.tracing_enabled(&env));
    assert_eq!(config.export_interval_ms(&env), 10);
    assert_eq!(config.max_export_batch_size(&env), 20);
    assert_eq!(config.export_timeout_ms(&env), 30);
}

#[test]
fn tracer_exporter_error_is_internal() {
    let error = tracer_exporter_error("refused");
    assert_eq!(error.code, ErrorCode::InternalError);
    assert_eq!(error.message, "failed to build tracer exporter: refused");
}
