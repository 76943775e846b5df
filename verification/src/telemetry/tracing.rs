//! Tracing: configuration of the signal, the sampling ratio, and what the
//! tracer provider is built from.
//!
//! The sampling ratio is a binary64 number. It is kept here as the 64 bits of
//! its IEEE 754 form: a sign bit, eleven bits of exponent and 52 bits of
//! fraction. Among numbers of one sign, the larger magnitude has the larger
//! bits, so the comparisons with zero and one are comparisons of integers.

use vstd::prelude::*;
use vstd::string::*;
use crate::environment::{copy_text, first_of, resolve, text_of, Environment};
use crate::error::{CommandError, ErrorCode};
use crate::telemetry::config::{
    attribute_views, parse_resource_attributes, resource_attributes, text_or_empty, Attribute,
    ExportConfig, Protocol, DEFAULT_EXPORT_TIMEOUT_MS, DEFAULT_OTLP_ENDPOINT,
};

verus! {

pub const DEFAULT_TRACING_ENABLED: bool = false;

/// The bits of the ratio 0.1.
pub const DEFAULT_SAMPLING_RATIO: u64 = 0x3FB9_9999_9999_999A;

pub const DEFAULT_EXPORT_INTERVAL_MS: u64 = 5000;

pub const DEFAULT_MAX_EXPORT_BATCH_SIZE: usize = 512;

/// The bits of the ratio 0.0.
pub const RATIO_ZERO: u64 = 0;

/// The bits of the ratio 1.0.
pub const RATIO_ONE: u64 = 0x3FF0_0000_0000_0000;

/// The bits of positive infinity; a larger magnitude is no number.
pub const RATIO_INFINITY: u64 = 0x7FF0_0000_0000_0000;

/// The sign bit.
pub const RATIO_SIGN: u64 = 0x8000_0000_0000_0000;

/// The bits without the sign.
pub open spec fn ratio_magnitude(bits: u64) -> int {
    if bits >= RATIO_SIGN {
        bits - RATIO_SIGN
    } else {
        bits as int
    }
}

/// Whether the bits are no number.
pub open spec fn ratio_is_nan(bits: u64) -> bool {
    ratio_magnitude(bits) > RATIO_INFINITY
}

/// Whether the bits are a number below zero. Negative zero is not.
pub open spec fn ratio_below_zero(bits: u64) -> bool {
    bits > RATIO_SIGN && !ratio_is_nan(bits)
}

/// Whether the bits are a number above one.
pub open spec fn ratio_above_one(bits: u64) -> bool {
    bits < RATIO_SIGN && bits > RATIO_ONE && !ratio_is_nan(bits)
}

/// Whether the bits are a number from zero to one, the ends included.
pub open spec fn ratio_in_unit(bits: u64) -> bool {
    !ratio_is_nan(bits) && !ratio_below_zero(bits) && !ratio_above_one(bits)
}

/// The ratio held to the range from zero to one: a number below zero becomes
/// zero, a number above one becomes one, and anything else stays as it is.
pub open spec fn clamp_ratio(bits: u64) -> u64 {
    if ratio_below_zero(bits) {
        RATIO_ZERO
    } else if ratio_above_one(bits) {
        RATIO_ONE
    } else {
        bits
    }
}

/// Holds a ratio to the range from zero to one.
pub fn clamp_sampling_ratio(bits: u64) -> (r: u64)
    ensures
        r == clamp_ratio(bits),
{
    let magnitude: u64 = if bits >= RATIO_SIGN {
        bits - RATIO_SIGN
    } else {
        bits
    };
    let nan = magnitude > RATIO_INFINITY;
    if bits > RATIO_SIGN && !nan {
        RATIO_ZERO
    } else if bits < RATIO_SIGN && bits > RATIO_ONE && !nan {
        RATIO_ONE
    } else {
        bits
    }
}

/// Every number is clamped into the range from zero to one, to the nearer
/// end: below zero gives zero, above one gives one, and a number in the range
/// is kept. Clamping twice is clamping once.
pub proof fn lemma_clamp_ratio(bits: u64)
    ensures
        !ratio_is_nan(bits) ==> ratio_in_unit(clamp_ratio(bits)),
        ratio_below_zero(bits) ==> clamp_ratio(bits) == RATIO_ZERO,
        ratio_above_one(bits) ==> clamp_ratio(bits) == RATIO_ONE,
        ratio_in_unit(bits) ==> clamp_ratio(bits) == bits,
        clamp_ratio(clamp_ratio(bits)) == clamp_ratio(bits),
{
}

/// Explicit configuration of tracing, as read from the setup file. A field
/// that is `None` was not given.
#[derive(Debug, Clone, PartialEq, Eq)]
pub struct TracingOptions {
    /// Whether tracing is enabled
    pub enabled: Option<bool>,
    /// OTLP endpoint for trace export
    pub otlp_endpoint: Option<String>,
    /// Sampling ratio (0.0 to 1.0), as the bits of a binary64 number
    pub sampling_ratio: Option<u64>,
    /// Export interval in milliseconds
    pub export_interval_ms: Option<u64>,
    /// Maximum batch size for export
    pub max_export_batch_size: Option<usize>,
    /// Export timeout in milliseconds
    pub export_timeout_ms: Option<u64>,
}

impl Default for TracingOptions {
    fn default() -> (options: TracingOptions)
        ensures
            options.enabled is None,
            options.otlp_endpoint is None,
            options.sampling_ratio is None,
            options.export_interval_ms is None,
            options.max_export_batch_size is None,
            options.export_timeout_ms is None,
    {
        TracingOptions {
            enabled: None,
            otlp_endpoint: None,
            sampling_ratio: None,
            export_interval_ms: None,
            max_export_batch_size: None,
            export_timeout_ms: None,
        }
    }
}

/// Runtime configuration of tracing. It keeps the explicit values; each
/// accessor resolves its option: explicit value, then environment, then
/// default.
#[derive(Debug, Clone, PartialEq, Eq)]
pub struct TracingConfig {
    pub enabled: Option<bool>,
    pub otlp_endpoint: Option<String>,
    pub sampling_ratio: Option<u64>,
    pub export_interval_ms: Option<u64>,
    pub max_export_batch_size: Option<usize>,
    pub export_timeout_ms: Option<u64>,
}

impl TracingConfig {
    /// Whether tracing is on under `env`.
    pub open spec fn enabled_in(self, env: Environment) -> bool {
        resolve(self.enabled, env.bool_var("OTEL_TRACING_ENABLED"@), DEFAULT_TRACING_ENABLED)
    }

    /// The collector endpoint for traces under `env`.
    pub open spec fn endpoint_in(self, env: Environment) -> Seq<char> {
        resolve(
            text_of(self.otlp_endpoint),
            first_of(
                env.lookup("OTEL_EXPORTER_OTLP_TRACES_ENDPOINT"@),
                env.lookup("OTEL_EXPORTER_OTLP_ENDPOINT"@),
            ),
            DEFAULT_OTLP_ENDPOINT@,
        )
    }

    /// The sampling ratio, given what the environment holds for it.
    pub open spec fn ratio_with(self, from_env: Option<u64>) -> u64 {
        clamp_ratio(resolve(self.sampling_ratio, from_env, DEFAULT_SAMPLING_RATIO))
    }

    /// The export interval in milliseconds under `env`.
    pub open spec fn interval_in(self, env: Environment) -> u64 {
        resolve(
            self.export_interval_ms,
            env.u64_var("OTEL_BSP_SCHEDULE_DELAY"@),
            DEFAULT_EXPORT_INTERVAL_MS,
        )
    }

    /// The largest export batch under `env`.
    pub open spec fn batch_size_in(self, env: Environment) -> usize {
        resolve(
            self.max_export_batch_size,
            env.usize_var("OTEL_BSP_MAX_EXPORT_BATCH_SIZE"@),
            DEFAULT_MAX_EXPORT_BATCH_SIZE,
        )
    }

    /// The export timeout in milliseconds under `env`.
    pub open spec fn timeout_in(self, env: Environment) -> u64 {
        resolve(
            self.export_timeout_ms,
            first_of(
                env.u64_var("OTEL_EXPORTER_OTLP_TRACES_TIMEOUT"@),
                env.u64_var("OTEL_EXPORTER_OTLP_TIMEOUT"@),
            ),
            DEFAULT_EXPORT_TIMEOUT_MS,
        )
    }

    /// Whether this configuration keeps exactly the explicit values of
    /// `json_config`, or none where there are no explicit options.
    pub open spec fn made_from(self, json_config: Option<&TracingOptions>) -> bool {
        match json_config {
            Some(json) => {
                &&& self.enabled == json.enabled
                &&& text_of(self.otlp_endpoint) == text_of(json.otlp_endpoint)
                &&& self.sampling_ratio == json.sampling_ratio
                &&& self.export_interval_ms == json.export_interval_ms
                &&& self.max_export_batch_size == json.max_export_batch_size
                &&& self.export_timeout_ms == json.export_timeout_ms
            },
            None => {
                &&& self.enabled is None
                &&& self.otlp_endpoint is None
                &&& self.sampling_ratio is None
                &&& self.export_interval_ms is None
                &&& self.max_export_batch_size is None
                &&& self.export_timeout_ms is None
            },
        }
    }

    /// Resource attributes from `OTEL_RESOURCE_ATTRIBUTES`.
    pub fn resource_attributes(&self, env: &Environment) -> (attributes: Vec<Attribute>)
        ensures
            attribute_views(attributes@) == resource_attributes(
                text_or_empty(env.lookup("OTEL_RESOURCE_ATTRIBUTES"@)),
            ),
    {
        parse_resource_attributes(env)
    }

    /// Creates the configuration from the explicit options, or without any.
    pub fn new(json_config: Option<&TracingOptions>) -> (config: TracingConfig)
        ensures
            config.made_from(json_config),
    {
        match json_config {
            Some(json) => TracingConfig {
                enabled: json.enabled,
                otlp_endpoint: copy_text(&json.otlp_endpoint),
                sampling_ratio: json.sampling_ratio,
                export_interval_ms: json.export_interval_ms,
                max_export_batch_size: json.max_export_batch_size,
                export_timeout_ms: json.export_timeout_ms,
            },
            None => TracingConfig {
                enabled: None,
                otlp_endpoint: None,
                sampling_ratio: None,
                export_interval_ms: None,
                max_export_batch_size: None,
                export_timeout_ms: None,
            },
        }
    }

    /// Whether tracing is enabled: explicit value, then
    /// `OTEL_TRACING_ENABLED`, then off.
    pub fn tracing_enabled(&self, env: &Environment) -> (r: bool)
        ensures
            r == self.enabled_in(*env),
    {
        env.resolve_bool(self.enabled, "OTEL_TRACING_ENABLED", DEFAULT_TRACING_ENABLED)
    }

    /// Collector endpoint for traces: explicit value, then
    /// `OTEL_EXPORTER_OTLP_TRACES_ENDPOINT`, then
    /// `OTEL_EXPORTER_OTLP_ENDPOINT`, then the default endpoint.
    pub fn otlp_endpoint(&self, env: &Environment) -> (r: String)
        ensures
            r@ == self.endpoint_in(*env),
    {
        env.resolve_text_either(
            &self.otlp_endpoint,
            "OTEL_EXPORTER_OTLP_TRACES_ENDPOINT",
            "OTEL_EXPORTER_OTLP_ENDPOINT",
            DEFAULT_OTLP_ENDPOINT,
        )
    }

    /// Sampling ratio: explicit value, then the value that the environment
    /// holds under `OTEL_TRACES_SAMPLER_ARG`, then 0.1; whatever its source,
    /// held to the range from zero to one. `from_env` is that variable read
    /// as a binary64 number, `None` where it is unset or no number.
    pub fn sampling_ratio(&self, from_env: Option<u64>) -> (r: u64)
        ensures
            r == self.ratio_with(from_env),
    {
        let resolved = match self.sampling_ratio {
            Some(v) => v,
            None => match from_env {
                Some(v) => v,
                None => DEFAULT_SAMPLING_RATIO,
            },
        };
        clamp_sampling_ratio(resolved)
    }

    /// Export interval in milliseconds: explicit value, then
    /// `OTEL_BSP_SCHEDULE_DELAY`, then 5000.
    pub fn export_interval_ms(&self, env: &Environment) -> (r: u64)
        ensures
            r == self.interval_in(*env),
    {
        env.resolve_u64(self.export_interval_ms, "OTEL_BSP_SCHEDULE_DELAY", DEFAULT_EXPORT_INTERVAL_MS)
    }

    /// Max export batch size: explicit value, then
    /// `OTEL_BSP_MAX_EXPORT_BATCH_SIZE`, then 512.
    pub fn max_export_batch_size(&self, env: &Environment) -> (r: usize)
        ensures
            r == self.batch_size_in(*env),
    {
        env.resolve_usize(
            self.max_export_batch_size,
            "OTEL_BSP_MAX_EXPORT_BATCH_SIZE",
            DEFAULT_MAX_EXPORT_BATCH_SIZE,
        )
    }

    /// Export timeout in milliseconds: explicit value, then
    /// `OTEL_EXPORTER_OTLP_TRACES_TIMEOUT`, then
    /// `OTEL_EXPORTER_OTLP_TIMEOUT`, then 10000.
    pub fn export_timeout_ms(&self, env: &Environment) -> (r: u64)
        ensures
            r == self.timeout_in(*env),
    {
        env.resolve_u64_either(
            self.export_timeout_ms,
            "OTEL_EXPORTER_OTLP_TRACES_TIMEOUT",
            "OTEL_EXPORTER_OTLP_TIMEOUT",
            DEFAULT_EXPORT_TIMEOUT_MS,
        )
    }

    /// The export settings for traces: the resolved endpoint and timeout,
    /// over gRPC.
    pub fn create_export_config(&self, env: &Environment) -> (export: ExportConfig)
        ensures
            export.endpoint@ == self.endpoint_in(*env),
            export.protocol == Protocol::Grpc,
            export.timeout_ms == self.timeout_in(*env),
    {
        ExportConfig {
            endpoint: self.otlp_endpoint(env),
            protocol: Protocol::Grpc,
            timeout_ms: self.export_timeout_ms(env),
        }
    }
}

/// How spans are chosen for export.
#[derive(Clone, Copy, Debug, PartialEq, Eq, Structural)]
pub enum Sampler {
    /// A span with a parent follows the parent's decision; a root span is
    /// sampled at the given ratio of trace ids.
    ParentBasedRatio { ratio: u64 },
}

/// What the tracer provider is built from.
#[derive(Debug, Clone, PartialEq, Eq)]
pub struct TracerProviderPlan {
    pub export: ExportConfig,
    pub sampler: Sampler,
}

impl TracerProviderPlan {
    /// Whether the plan holds what `config` resolves to under `env`: the
    /// export settings over gRPC, and the sampler at the resolved ratio.
    pub open spec fn planned_from(
        self,
        config: TracingConfig,
        env: Environment,
        ratio_from_env: Option<u64>,
    ) -> bool {
        &&& self.export.endpoint@ == config.endpoint_in(env)
        &&& self.export.protocol == Protocol::Grpc
        &&& self.export.timeout_ms == config.timeout_in(env)
        &&& self.sampler == (Sampler::ParentBasedRatio {
            ratio: config.ratio_with(ratio_from_env),
        })
    }
}

/// Decides whether a tracer provider is built and from what. Disabled
/// tracing yields no provider; enabled tracing yields a batch exporter at the
/// resolved settings, sampling root spans at the resolved ratio and following
/// the parent's decision elsewhere.
pub fn create_tracer_provider(
    config: &TracingConfig,
    env: &Environment,
    ratio_from_env: Option<u64>,
) -> (plan: Option<TracerProviderPlan>)
    ensures
        plan is Some <==> config.enabled_in(*env),
        plan matches Some(p) ==> p.planned_from(*config, *env, ratio_from_env),
{
    if !config.tracing_enabled(env) {
        return None;
    }
    Some(
        TracerProviderPlan {
            export: config.create_export_config(env),
            sampler: Sampler::ParentBasedRatio { ratio: config.sampling_ratio(ratio_from_env) },
        },
    )
}

/// The error for a span exporter that could not be built.
pub fn tracer_exporter_error(detail: &str) -> (e: CommandError)
    ensures
        e@.code == ErrorCode::InternalError,
        e@.message == "failed to build tracer exporter: "@ + detail@,
{
    let mut message = "failed to build tracer exporter: ".to_owned();
    message.append(detail);
    CommandError::internal_error(message)
}

} // verus!
