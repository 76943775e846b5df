//! Logging: configuration of the signal, the choice of the log filter, and
//! what the logger provider is built from.

use vstd::prelude::*;
use vstd::string::*;
use crate::environment::{copy_text, first_of, resolve, text_of, Environment};
use crate::error::{CommandError, ErrorCode};
use crate::telemetry::config::{
    ExportConfig, Protocol, DEFAULT_EXPORT_TIMEOUT_MS, DEFAULT_OTLP_ENDPOINT,
};
use crate::text::{chars_of, is_white_space, split, split_text, views_of, white_space};

verus! {

pub const DEFAULT_LOGGING_ENABLED: bool = true;

pub const DEFAULT_CONSOLE_ENABLED: bool = false;

pub const DEFAULT_MAX_QUEUE_SIZE: usize = 4096;

pub const DEFAULT_LOG_MAX_EXPORT_BATCH_SIZE: usize = 256;

pub const DEFAULT_LOG_EXPORT_INTERVAL_MS: u64 = 5000;

pub const DEFAULT_LOG_LEVEL: &'static str = "info";

/// Explicit configuration of logging, as read from the setup file. A field
/// that is `None` was not given.
#[derive(Debug, Clone, PartialEq, Eq)]
pub struct LoggingOptions {
    /// Whether OTLP log export is enabled
    pub enabled: Option<bool>,
    /// OTLP endpoint for log export
    pub otlp_endpoint: Option<String>,
    /// Log level filter (e.g., "info", "debug", "warn")
    pub level: Option<String>,
    /// Whether console logging is enabled
    pub console_enabled: Option<bool>,
    /// Maximum queue size for log batching
    pub max_queue_size: Option<usize>,
    /// Maximum batch size for export
    pub max_export_batch_size: Option<usize>,
    /// Export interval in milliseconds
    pub export_interval_ms: Option<u64>,
    /// Export timeout in milliseconds
    pub export_timeout_ms: Option<u64>,
}

impl Default for LoggingOptions {
    fn default() -> (options: LoggingOptions)
        ensures
            options.enabled is None,
            options.otlp_endpoint is None,
            options.level is None,
            options.console_enabled is None,
            options.max_queue_size is None,
            options.max_export_batch_size is None,
            options.export_interval_ms is None,
            options.export_timeout_ms is None,
    {
        LoggingOptions {
            enabled: None,
            otlp_endpoint: None,
            level: None,
            console_enabled: None,
            max_queue_size: None,
            max_export_batch_size: None,
            export_interval_ms: None,
            export_timeout_ms: None,
        }
    }
}

/// Runtime configuration of logging. It keeps the explicit values; each
/// accessor resolves its option: explicit value, then environment, then
/// default.
#[derive(Debug, Clone, PartialEq, Eq)]
pub struct LoggingConfig {
    pub enabled: Option<bool>,
    pub otlp_endpoint: Option<String>,
    pub level: Option<String>,
    pub console_enabled: Option<bool>,
    pub max_queue_size: Option<usize>,
    pub max_export_batch_size: Option<usize>,
    pub export_interval_ms: Option<u64>,
    pub export_timeout_ms: Option<u64>,
}

impl LoggingConfig {
    /// Whether log export is on under `env`.
    pub open spec fn enabled_in(self, env: Environment) -> bool {
        resolve(self.enabled, env.bool_var("OTEL_LOGGING_ENABLED"@), DEFAULT_LOGGING_ENABLED)
    }

    /// The collector endpoint for logs under `env`.
    pub open spec fn endpoint_in(self, env: Environment) -> Seq<char> {
        resolve(
            text_of(self.otlp_endpoint),
            first_of(
                env.lookup("OTEL_EXPORTER_OTLP_LOGS_ENDPOINT"@),
                env.lookup("OTEL_EXPORTER_OTLP_ENDPOINT"@),
            ),
            DEFAULT_OTLP_ENDPOINT@,
        )
    }

    /// The log level under `env`.
    pub open spec fn level_in(self, env: Environment) -> Seq<char> {
        resolve(text_of(self.level), env.lookup("RUST_LOG"@), DEFAULT_LOG_LEVEL@)
    }

    /// Whether logs are mirrored to the console under `env`.
    pub open spec fn console_in(self, env: Environment) -> bool {
        resolve(
            self.console_enabled,
            env.bool_var("OTEL_LOGS_CONSOLE_ENABLED"@),
            DEFAULT_CONSOLE_ENABLED,
        )
    }

    /// The size of the batching queue under `env`.
    pub open spec fn queue_size_in(self, env: Environment) -> usize {
        resolve(
            self.max_queue_size,
            env.usize_var("OTEL_BLRP_MAX_QUEUE_SIZE"@),
            DEFAULT_MAX_QUEUE_SIZE,
        )
    }

    /// The largest export batch under `env`.
    pub open spec fn batch_size_in(self, env: Environment) -> usize {
        resolve(
            self.max_export_batch_size,
            env.usize_var("OTEL_BLRP_MAX_EXPORT_BATCH_SIZE"@),
            DEFAULT_LOG_MAX_EXPORT_BATCH_SIZE,
        )
    }

    /// The export interval in milliseconds under `env`.
    pub open spec fn interval_in(self, env: Environment) -> u64 {
        resolve(
            self.export_interval_ms,
            env.u64_var("OTEL_BLRP_SCHEDULE_DELAY"@),
            DEFAULT_LOG_EXPORT_INTERVAL_MS,
        )
    }

    /// The export timeout in milliseconds under `env`.
    pub open spec fn timeout_in(self, env: Environment) -> u64 {
        resolve(
            self.export_timeout_ms,
            first_of(
                env.u64_var("OTEL_EXPORTER_OTLP_LOGS_TIMEOUT"@),
                env.u64_var("OTEL_EXPORTER_OTLP_TIMEOUT"@),
            ),
            DEFAULT_EXPORT_TIMEOUT_MS,
        )
    }

    /// Whether this configuration keeps exactly the explicit values of
    /// `json_config`, or none where there are no explicit options.
    pub open spec fn made_from(self, json_config: Option<&LoggingOptions>) -> bool {
        match json_config {
            Some(json) => {
                &&& self.enabled == json.enabled
                &&& text_of(self.otlp_endpoint) == text_of(json.otlp_endpoint)
                &&& text_of(self.level) == text_of(json.level)
                &&& self.console_enabled == json.console_enabled
                &&& self.max_queue_size == json.max_queue_size
                &&& self.max_export_batch_size == json.max_export_batch_size
                &&& self.export_interval_ms == json.export_interval_ms
                &&& self.export_timeout_ms == json.export_timeout_ms
            },
            None => {
                &&& self.enabled is None
                &&& self.otlp_endpoint is None
                &&& self.level is None
                &&& self.console_enabled is None
                &&& self.max_queue_size is None
                &&& self.max_export_batch_size is None
                &&& self.export_interval_ms is None
                &&& self.export_timeout_ms is None
            },
        }
    }

    /// Creates the configuration from the explicit options, or without any.
    pub fn new(json_config: Option<&LoggingOptions>) -> (config: LoggingConfig)
        ensures
            config.made_from(json_config),
    {
        match json_config {
            Some(json) => LoggingConfig {
                enabled: json.enabled,
                otlp_endpoint: copy_text(&json.otlp_endpoint),
                level: copy_text(&json.level),
                console_enabled: json.console_enabled,
                max_queue_size: json.max_queue_size,
                max_export_batch_size: json.max_export_batch_size,
                export_interval_ms: json.export_interval_ms,
                export_timeout_ms: json.export_timeout_ms,
            },
            None => LoggingConfig {
                enabled: None,
                otlp_endpoint: None,
                level: None,
                console_enabled: None,
                max_queue_size: None,
                max_export_batch_size: None,
                export_interval_ms: None,
                export_timeout_ms: None,
            },
        }
    }

    /// Whether OTLP logging is enabled: explicit value, then
    /// `OTEL_LOGGING_ENABLED`, then on.
    pub fn logging_enabled(&self, env: &Environment) -> (r: bool)
        ensures
            r == self.enabled_in(*env),
    {
        env.resolve_bool(self.enabled, "OTEL_LOGGING_ENABLED", DEFAULT_LOGGING_ENABLED)
    }

    /// Collector endpoint for logs: explicit value, then
    /// `OTEL_EXPORTER_OTLP_LOGS_ENDPOINT`, then `OTEL_EXPORTER_OTLP_ENDPOINT`,
    /// then the default endpoint.
    pub fn otlp_endpoint(&self, env: &Environment) -> (r: String)
        ensures
            r@ == self.endpoint_in(*env),
    {
        env.resolve_text_either(
            &self.otlp_endpoint,
            "OTEL_EXPORTER_OTLP_LOGS_ENDPOINT",
            "OTEL_EXPORTER_OTLP_ENDPOINT",
            DEFAULT_OTLP_ENDPOINT,
        )
    }

    /// Log level filter: explicit value, then `RUST_LOG`, then `info`.
    pub fn level(&self, env: &Environment) -> (r: String)
        ensures
            r@ == self.level_in(*env),
    {
        env.resolve_text(&self.level, "RUST_LOG", DEFAULT_LOG_LEVEL)
    }

    /// Whether console logging is enabled: explicit value, then
    /// `OTEL_LOGS_CONSOLE_ENABLED`, then off.
    pub fn console_enabled(&self, env: &Environment) -> (r: bool)
        ensures
            r == self.console_in(*env),
    {
        env.resolve_bool(self.console_enabled, "OTEL_LOGS_CONSOLE_ENABLED", DEFAULT_CONSOLE_ENABLED)
    }

    /// Max queue size for log batching: explicit value, then
    /// `OTEL_BLRP_MAX_QUEUE_SIZE`, then 4096.
    pub fn max_queue_size(&self, env: &Environment) -> (r: usize)
        ensures
            r == self.queue_size_in(*env),
    {
        env.resolve_usize(self.max_queue_size, "OTEL_BLRP_MAX_QUEUE_SIZE", DEFAULT_MAX_QUEUE_SIZE)
    }

    /// Max export batch size: explicit value, then
    /// `OTEL_BLRP_MAX_EXPORT_BATCH_SIZE`, then 256.
    pub fn max_export_batch_size(&self, env: &Environment) -> (r: usize)
        ensures
            r == self.batch_size_in(*env),
    {
        env.resolve_usize(
            self.max_export_batch_size,
            "OTEL_BLRP_MAX_EXPORT_BATCH_SIZE",
            DEFAULT_LOG_MAX_EXPORT_BATCH_SIZE,
        )
    }

    /// Export interval in milliseconds: explicit value, then
    /// `OTEL_BLRP_SCHEDULE_DELAY`, then 5000.
    pub fn export_interval_ms(&self, env: &Environment) -> (r: u64)
        ensures
            r == self.interval_in(*env),
    {
        env.resolve_u64(
            self.export_interval_ms,
            "OTEL_BLRP_SCHEDULE_DELAY",
            DEFAULT_LOG_EXPORT_INTERVAL_MS,
        )
    }

    /// Export timeout in milliseconds: explicit value, then
    /// `OTEL_EXPORTER_OTLP_LOGS_TIMEOUT`, then `OTEL_EXPORTER_OTLP_TIMEOUT`,
    /// then 10000.
    pub fn export_timeout_ms(&self, env: &Environment) -> (r: u64)
        ensures
            r == self.timeout_in(*env),
    {
        env.resolve_u64_either(
            self.export_timeout_ms,
            "OTEL_EXPORTER_OTLP_LOGS_TIMEOUT",
            "OTEL_EXPORTER_OTLP_TIMEOUT",
            DEFAULT_EXPORT_TIMEOUT_MS,
        )
    }

    /// The export settings for logs: the resolved endpoint and timeout, over
    /// gRPC.
    pub fn create_export_config(&self, env: &Environment) -> (export: ExportConfig)
        ensures
            export.endpoint@ == self.endpoint_in(*env),
            export.protocol == Protocol::Grpc,
            export.timeout_ms == self.timeout_in(*env),
    {
        ExportConfig {
            endpoint: self.otlp_endpoint(env),
            protocol: Protocol::Grpc,
            timeout_ms: self.export_timeout_ms(env),
        }
    }
}

/// Whether a text is a list of filter directives that the subscriber accepts.
pub uninterp spec fn filter_parses(directives: Seq<char>) -> bool;

/// Whether every character of `s` is an ASCII character.
pub open spec fn is_ascii_text(s: Seq<char>) -> bool {
    forall|i: int| 0 <= i < s.len() ==> (#[trigger] s[i]) as u32 <= 0x7F
}

/// Whether one directive can be handed to the subscriber. The subscriber
/// finds its way through a directive by positions taken after the white
/// space around it is cut off, and cuts by them in the directive as it was
/// given. With white space in front, the positions are off; that is harmless
/// only where every character is one byte wide.
pub open spec fn directive_is_safe(directive: Seq<char>) -> bool {
    directive.len() == 0 || !is_white_space(directive[0]) || is_ascii_text(directive)
}

/// Whether a list of directives, with commas between, can be handed to the
/// subscriber: each directive of it can.
pub open spec fn safe_directives(directives: Seq<char>) -> bool {
    forall|i: int|
        0 <= i < split(directives, ',').len() ==> directive_is_safe(
            #[trigger] split(directives, ',')[i],
        )
}

/// Whether a text is acceptable as the directives of a filter: it can be
/// handed to the subscriber, and the subscriber accepts it.
pub open spec fn acceptable_directives(directives: Seq<char>) -> bool {
    safe_directives(directives) && filter_parses(directives)
}

fn directive_safe(directive: &str) -> (r: bool)
    ensures
        r == directive_is_safe(directive@),
{
    let chars = chars_of(directive);
    if chars.len() == 0 || !white_space(chars[0]) {
        return true;
    }
    let mut i: usize = 0;
    while i < chars.len()
        invariant
            chars@ == directive@,
            chars.len() > 0,
            is_white_space(directive@[0]),
            0 <= i <= chars.len(),
            forall|j: int| 0 <= j < i ==> (#[trigger] directive@[j]) as u32 <= 0x7F,
        decreases chars.len() - i,
    {
        if chars[i] as u32 > 0x7F {
            assert(!((directive@[i as int]) as u32 <= 0x7F));
            return false;
        }
        i = i + 1;
    }
    true
}

/// Whether the text can be handed to the subscriber.
pub fn directives_are_safe(directives: &str) -> (r: bool)
    ensures
        r == safe_directives(directives@),
{
    let pieces = split_text(directives, ',');
    let ghost parts = split(directives@, ',');
    let mut i: usize = 0;
    proof {
        assert(views_of(pieces@).len() == pieces.len());
    }
    while i < pieces.len()
        invariant
            views_of(pieces@) == parts,
            parts == split(directives@, ','),
            parts.len() == pieces.len(),
            0 <= i <= pieces.len(),
            forall|j: int| 0 <= j < i ==> directive_is_safe(#[trigger] parts[j]),
        decreases pieces.len() - i,
    {
        proof {
            assert(views_of(pieces@)[i as int] == pieces[i as int]@);
        }
        if !directive_safe(pieces[i].as_str()) {
            assert(!directive_is_safe(parts[i as int]));
            return false;
        }
        i = i + 1;
    }
    true
}

/// `tracing_subscriber::EnvFilter::builder().parse(..)`, asked only whether
/// it accepts the directives. The answer depends on the text alone. The call
/// is made only on a text that can be handed over: on a directive with white
/// space in front and a character of more than one byte the subscriber cuts
/// inside that character and does not return.
#[verifier::external_body]
fn filter_accepts(directives: &str) -> (r: bool)
    requires
        safe_directives(directives@),
    ensures
        r == filter_parses(directives@),
{
    tracing_subscriber::EnvFilter::builder().parse(directives).is_ok()
}

/// Whether the text is acceptable as the directives of a filter. A text that
/// cannot be handed to the subscriber is not acceptable, and the subscriber
/// is not asked.
pub fn directives_acceptable(directives: &str) -> (r: bool)
    ensures
        r == acceptable_directives(directives@),
{
    if directives_are_safe(directives) {
        filter_accepts(directives)
    } else {
        false
    }
}

/// Where the directives of a log filter were taken from.
#[derive(Clone, Copy, Debug, PartialEq, Eq, Structural)]
pub enum FilterSource {
    /// The variable `RUST_LOG`.
    Environment,
    /// The configured log level.
    Level,
    /// Neither was acceptable: the level `info`, with a warning.
    Fallback,
}

/// The directives from which a log filter is built.
#[derive(Debug, Clone, PartialEq, Eq)]
pub struct FilterChoice {
    pub directives: String,
    pub source: FilterSource,
}

/// The source of the filter, given what `RUST_LOG` holds and whether it and
/// the level are acceptable as directives.
pub open spec fn filter_source(
    env_value: Option<Seq<char>>,
    env_accepted: bool,
    level_accepted: bool,
) -> FilterSource {
    if env_value is Some && env_accepted {
        FilterSource::Environment
    } else if level_accepted {
        FilterSource::Level
    } else {
        FilterSource::Fallback
    }
}

/// The directives that each source stands for.
pub open spec fn filter_text(
    source: FilterSource,
    env_value: Option<Seq<char>>,
    log_level: Seq<char>,
) -> Seq<char> {
    match source {
        FilterSource::Environment => env_value->0,
        FilterSource::Level => log_level,
        FilterSource::Fallback => "info"@,
    }
}

/// Picks the filter from what was tried: `RUST_LOG` where it is set and
/// acceptable, else the level where that is acceptable, else `info`.
pub fn choose_filter(
    env_value: Option<String>,
    env_accepted: bool,
    log_level: &str,
    level_accepted: bool,
) -> (choice: FilterChoice)
    ensures
        choice.source == filter_source(text_of(env_value), env_accepted, level_accepted),
        choice.directives@ == filter_text(choice.source, text_of(env_value), log_level@),
{
    match env_value {
        Some(value) => {
            if env_accepted {
                return FilterChoice { directives: value, source: FilterSource::Environment };
            }
        },
        None => {},
    }
    if level_accepted {
        FilterChoice { directives: log_level.to_owned(), source: FilterSource::Level }
    } else {
        FilterChoice { directives: "info".to_owned(), source: FilterSource::Fallback }
    }
}

/// Chooses the directives of the log filter: those of `RUST_LOG` where the
/// variable is set and acceptable, else the given level where it is
/// acceptable, else `info`. A text is acceptable where it can be handed to
/// the subscriber and the subscriber accepts it.
pub fn get_env_filter(log_level: &str, env: &Environment) -> (choice: FilterChoice)
    ensures
        choice.chosen_for(log_level@, *env),
{
    let env_value = env.var("RUST_LOG");
    let env_accepted = match &env_value {
        Some(value) => directives_acceptable(value.as_str()),
        None => false,
    };
    let level_accepted = directives_acceptable(log_level);
    choose_filter(env_value, env_accepted, log_level, level_accepted)
}

/// How log records are batched before export.
#[derive(Clone, Copy, Debug, PartialEq, Eq, Structural)]
pub struct BatchConfig {
    pub max_queue_size: usize,
    pub max_export_batch_size: usize,
    pub scheduled_delay_ms: u64,
}

/// What the logger provider is built from.
#[derive(Debug, Clone, PartialEq, Eq)]
pub struct LoggerProviderPlan {
    pub export: ExportConfig,
    pub batch: BatchConfig,
    /// The filter of the layer that bridges log records to the provider.
    pub filter: FilterChoice,
}

impl FilterChoice {
    /// Whether this is the filter for `log_level` under `env`: the directives
    /// of `RUST_LOG` where that is set and acceptable, else the level where it
    /// is acceptable, else `info`.
    pub open spec fn chosen_for(self, log_level: Seq<char>, env: Environment) -> bool {
        &&& self.source == filter_source(
            env.lookup("RUST_LOG"@),
            env.lookup("RUST_LOG"@) matches Some(v) && acceptable_directives(v),
            acceptable_directives(log_level),
        )
        &&& self.directives@ == filter_text(self.source, env.lookup("RUST_LOG"@), log_level)
    }
}

impl LoggerProviderPlan {
    /// Whether the plan holds what `config` resolves to under `env`: the
    /// export settings over gRPC, the batching, and the filter for the level.
    pub open spec fn planned_from(self, config: LoggingConfig, env: Environment) -> bool {
        &&& self.export.endpoint@ == config.endpoint_in(env)
        &&& self.export.protocol == Protocol::Grpc
        &&& self.export.timeout_ms == config.timeout_in(env)
        &&& self.batch.max_queue_size == config.queue_size_in(env)
        &&& self.batch.max_export_batch_size == config.batch_size_in(env)
        &&& self.batch.scheduled_delay_ms == config.interval_in(env)
        &&& self.filter.chosen_for(config.level_in(env), env)
    }
}

/// Decides whether a logger provider is built and from what. Disabled
/// logging yields no provider and no layer; enabled logging yields a batching
/// exporter at the resolved settings, with one bridging layer filtered at the
/// resolved level.
pub fn create_logging_provider(config: &LoggingConfig, env: &Environment) -> (plan: Option<
    LoggerProviderPlan,
>)
    ensures
        plan is Some <==> config.enabled_in(*env),
        plan matches Some(p) ==> p.planned_from(*config, *env),
{
    if !config.logging_enabled(env) {
        return None;
    }
    let level = config.level(env);
    Some(
        LoggerProviderPlan {
            export: config.create_export_config(env),
            batch: BatchConfig {
                max_queue_size: config.max_queue_size(env),
                max_export_batch_size: config.max_export_batch_size(env),
                scheduled_delay_ms: config.export_interval_ms(env),
            },
            filter: get_env_filter(level.as_str(), env),
        },
    )
}

/// The error for a log exporter that could not be built.
pub fn log_exporter_error(detail: &str) -> (e: CommandError)
    ensures
        e@.code == ErrorCode::InternalError,
        e@.message == "failed to build log exporter: "@ + detail@,
{
    let mut message = "failed to build log exporter: ".to_owned();
    message.append(detail);
    CommandError::internal_error(message)
}

} // verus!
