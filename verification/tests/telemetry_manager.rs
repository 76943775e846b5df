use documentdb_gateway::environment::Environment;
use documentdb_gateway::error::{CommandError, ErrorCode};
use documentdb_gateway::telemetry::config::{Attribute, TelemetryConfig, TelemetryOptions};
use documentdb_gateway::telemetry::logging::{FilterSource, LoggingOptions};
use documentdb_gateway::telemetry::metrics::MetricsOptions;
use documentdb_gateway::telemetry::telemetry_manager::{
    subscriber_error, LayerKind, ProviderKind, ShutdownOutcomes, ShutdownReport, TelemetryManager,
};
use documentdb_gateway::telemetry::tracing::{Sampler, TracingOptions};
use documentdb_gateway::telemetry::{
    is_tracing_enabled, set_tracing_enabled, TracingSwitch,
};

fn options(tracing: bool, metrics: bool, logging: bool, console: bool) -> TelemetryOptions {
    TelemetryOptions {
        service_name: Some("gateway".to_string()),
        service_version: None,
        tracing: Some(TracingOptions { enabled: Some(tracing), ..Default::default() }),
        metrics: Some(MetricsOptions { enabled: Some(metrics), ..Default::default() }),
        logging: Some(LoggingOptions {
            enabled: Some(logging),
            console_enabled: Some(console),
            level: Some("warn".to_string()),
            ..Default::default()
        }),
    }
}

fn identity() -> Vec<Attribute> {
    vec![Attribute { key: "service.name".to_string(), value: "gateway".to_string() }]
}

fn all_providers() -> TelemetryManager {
    TelemetryManager { meter_provider: true, tracer_provider: true, logger_provider: true, guards: 0 }
}

fn internal(message: &str) -> CommandError {
    CommandError { code: ErrorCode::InternalError, message: message.to_string() }
}

#[test]
fn init_builds_every_enabled_signal() {
    let config = TelemetryConfig::new(Some(&options(true, true, true, true)));
    let (manager, plan) =
        TelemetryManager::init_telemetry(&config, identity(), &Environment::new(), None);
    assert_eq!(plan.resource, identity());
    assert!(plan.logger.is_some());
    assert!(plan.tracer.is_some());
    assert!(plan.meter.is_some());
    assert_eq!(plan.layers, vec![LayerKind::LogBridge, LayerKind::Trace, LayerKind::Console]);
    assert_eq!(plan.filter.directives, "warn");
    assert_eq!(plan.filter.source, FilterSource::Level);
    assert_eq!(
        plan.tracer.unwrap().sampler,
        Sampler::ParentBasedRatio { ratio: 0.1f64.to_bits() }
    );
    assert_eq!(
        manager,
        TelemetryManager {
            meter_provider: true,
            tracer_provider: true,
            logger_provider: true,
            guards: 1,
        }
    );
}

#[test]
fn init_leaves_out_every_disabled_signal() {
    let config = TelemetryConfig::new(Some(&options(false, false, false, false)));
    let (manager, plan) =
        TelemetryManager::init_telemetry(&config, vec![], &Environment::new(), None);
    assert!(plan.logger.is_none());
    assert!(plan.tracer.is_none());
    assert!(plan.meter.is_none());
    assert_eq!(plan.layers, vec![]);
    assert_eq!(
        manager,
        TelemetryManager {
            meter_provider: false,
            tracer_provider: false,
            logger_provider: false,
            guards: 0,
        }
    );
    assert_eq!(manager.shutdown_order(), vec![]);
}

#[test]
fn init_decides_each_signal_on_its_own() {
    let config = TelemetryConfig::new(Some(&options(true, false, false, true)));
    let mut env = Environment::new();
    env.set("RUST_LOG", "debug");
    let (manager, plan) =
        TelemetryManager::init_telemetry(&config, vec![], &env, Some(0.75f64.to_bits()));
    assert_eq!(plan.layers, vec![LayerKind::Trace, LayerKind::Console]);
    assert_eq!(plan.filter.directives, "debug");
    assert_eq!(plan.filter.source, FilterSource::Environment);
    assert_eq!(
        plan.tracer.unwrap().sampler,
        Sampler::ParentBasedRatio { ratio: 0.75f64.to_bits() }
    );
    assert_eq!(manager.shutdown_order(), vec![ProviderKind::Tracer]);
    assert_eq!(manager.guards, 1);
    let config = TelemetryConfig::new(Some(&options(false, true, true, false)));
    let (manager, plan) =
        TelemetryManager::init_telemetry(&config, vec![], &Environment::new(), None);
    assert_eq!(plan.layers, vec![LayerKind::LogBridge]);
    assert_eq!(manager.shutdown_order(), vec![ProviderKind::Meter, ProviderKind::Logger]);
}

#[test]
fn shutdown_order_is_tracer_meter_logger() {
    assert_eq!(
        all_providers().shutdown_order(),
        vec![ProviderKind::Tracer, ProviderKind::Meter, ProviderKind::Logger]
    );
}

#[test]
fn shutdown_without_failure_is_ok() {
    let outcomes = ShutdownOutcomes { tracer: None, meter: None, logger: None };
    assert_eq!(
        all_providers().shutdown(&outcomes),
        ShutdownReport { result: Ok(()), warnings: vec![] }
    );
}

#[test]
fn shutdown_reports_the_first_failure_and_warns_of_the_rest() {
    let outcomes = ShutdownOutcomes {
        tracer: Some("timed out".to_string()),
        meter: Some("closed".to_string()),
        logger: Some("busy".to_string()),
    };
    assert_eq!(
        all_providers().shutdown(&outcomes),
        ShutdownReport {
            result: Err(internal("failed to shutdown tracer provider: timed out")),
            warnings: vec![
                "additional shutdown error (meter): closed".to_string(),
                "additional shutdown error (logger): busy".to_string(),
            ],
        }
    );
    let outcomes = ShutdownOutcomes {
        tracer: None,
        meter: Some("closed".to_string()),
        logger: Some("busy".to_string()),
    };
    assert_eq!(
        all_providers().shutdown(&outcomes),
        ShutdownReport {
            result: Err(internal("failed to shutdown meter provider: closed")),
            warnings: vec!["additional shutdown error (logger): busy".to_string()],
        }
    );
    let outcomes = ShutdownOutcomes { tracer: None, meter: None, logger: Some("busy".to_string()) };
    assert_eq!(
        all_providers().shutdown(&outcomes),
        ShutdownReport {
            result: Err(internal("failed to shutdown logger provider: busy")),
            warnings: vec![],
        }
    );
}

#[test]
fn shutdown_ignores_providers_that_are_not_there() {
    let manager = TelemetryManager {
        meter_provider: true,
        tracer_provider: false,
        logger_provider: false,
        guards: 1,
    };
    let outcomes = ShutdownOutcomes {
        tracer: Some("no tracer".to_string()),
        meter: Some("closed".to_string()),
        logger: Some("no logger".to_string()),
    };
    assert_eq!(
        manager.shutdown(&outcomes),
        ShutdownReport {
            result: Err(internal("failed to shutdown meter provider: closed")),
            warnings: vec![],
        }
    );
}

#[test]
fn subscriber_error_is_internal() {
    assert_eq!(
        subscriber_error("already set"),
        internal("failed to initialize tracing subscriber: already set")
    );
}

#[test]
fn tracing_switch_is_off_until_set() {
    let mut switch = TracingSwitch::new();
    assert!(!is_tracing_enabled(&switch));
    set_tracing_enabled(&mut switch, true);
    assert!(is_tracing_enabled(&switch));
    set_tracing_enabled(&mut switch, false);
    assert!(!is_tracing_enabled(&switch));
}
