//! Metrics: configuration of the signal, the instruments, and the points
//! that one completed request adds to them.

use vstd::prelude::*;
use vstd::string::*;
use crate::environment::{copy_text, first_of, resolve, text_of, Environment};
use crate::error::CommandError;
use crate::numbers::{signed_decimal, signed_decimal_text};
use crate::requests::{RequestIntervalKind, RequestTracker};
use crate::telemetry::config::{
    attribute_views, copy_attributes, parse_resource_attributes, resource_attributes,
    text_or_empty, Attribute, ExportConfig, Protocol, DEFAULT_EXPORT_TIMEOUT_MS,
    DEFAULT_OTLP_ENDPOINT,
};

verus! {

pub const DEFAULT_METRICS_ENABLED: bool = true;

pub const DEFAULT_COLLECTION_INTERVAL_MS: u64 = 15000;

/// Explicit configuration of metrics, as read from the setup file. A field
/// that is `None` was not given.
#[derive(Debug, Clone, PartialEq, Eq)]
pub struct MetricsOptions {
    /// Whether metrics are enabled
    pub enabled: Option<bool>,
    /// OTLP endpoint for metrics export
    pub otlp_endpoint: Option<String>,
    /// Export interval in milliseconds
    pub export_interval_ms: Option<u64>,
    /// Export timeout in milliseconds
    pub export_timeout_ms: Option<u64>,
}

impl Default for MetricsOptions {
    fn default() -> (options: MetricsOptions)
        ensures
            options.enabled is None,
            options.otlp_endpoint is None,
            options.export_interval_ms is None,
            options.export_timeout_ms is None,
    {
        MetricsOptions {
            enabled: None,
            otlp_endpoint: None,
            export_interval_ms: None,
            export_timeout_ms: None,
        }
    }
}

/// Runtime configuration of metrics. It keeps the explicit values; each
/// accessor resolves its option: explicit value, then environment, then
/// default.
#[derive(Debug, Clone, PartialEq, Eq)]
pub struct MetricsConfig {
    pub enabled: Option<bool>,
    pub otlp_endpoint: Option<String>,
    pub export_interval_ms: Option<u64>,
    pub export_timeout_ms: Option<u64>,
}

impl MetricsConfig {
    /// Whether metrics are on under `env`.
    pub open spec fn enabled_in(self, env: Environment) -> bool {
        resolve(self.enabled, env.bool_var("OTEL_METRICS_ENABLED"@), DEFAULT_METRICS_ENABLED)
    }

    /// The collector endpoint for metrics under `env`.
    pub open spec fn endpoint_in(self, env: Environment) -> Seq<char> {
        resolve(
            text_of(self.otlp_endpoint),
            first_of(
                env.lookup("OTEL_EXPORTER_OTLP_METRICS_ENDPOINT"@),
                env.lookup("OTEL_EXPORTER_OTLP_ENDPOINT"@),
            ),
            DEFAULT_OTLP_ENDPOINT@,
        )
    }

    /// The export interval in milliseconds under `env`.
    pub open spec fn interval_in(self, env: Environment) -> u64 {
        resolve(
            self.export_interval_ms,
            env.u64_var("OTEL_METRIC_EXPORT_INTERVAL"@),
            DEFAULT_COLLECTION_INTERVAL_MS,
        )
    }

    /// The export timeout in milliseconds under `env`.
    pub open spec fn timeout_in(self, env: Environment) -> u64 {
        resolve(
            self.export_timeout_ms,
            first_of(
                env.u64_var("OTEL_EXPORTER_OTLP_METRICS_TIMEOUT"@),
                env.u64_var("OTEL_EXPORTER_OTLP_TIMEOUT"@),
            ),
            DEFAULT_EXPORT_TIMEOUT_MS,
        )
    }

    /// Whether this configuration keeps exactly the explicit values of
    /// `json_config`, or none where there are no explicit options.
    pub open spec fn made_from(self, json_config: Option<&MetricsOptions>) -> bool {
        match json_config {
            Some(json) => {
                &&& self.enabled == json.enabled
                &&& text_of(self.otlp_endpoint) == text_of(json.otlp_endpoint)
                &&& self.export_interval_ms == json.export_interval_ms
                &&& self.export_timeout_ms == json.export_timeout_ms
            },
            None => {
                &&& self.enabled is None
                &&& self.otlp_endpoint is None
                &&& self.export_interval_ms is None
                &&& self.export_timeout_ms is None
            },
        }
    }

    /// Resource attributes from `OTEL_RESOURCE_ATTRIBUTES`.
    pub fn resource_attributes(&self, env: &Environment) -> (attributes: Vec<Attribute>)
        ensures
            attribute_views(attributes@) == resource_attributes(
                text_or_empty(env.lookup("OTEL_RESOURCE_ATTRIBUTES"@)),
            ),
    {
        parse_resource_attributes(env)
    }

    /// Creates the configuration from the explicit options, or without any.
    pub fn new(json_config: Option<&MetricsOptions>) -> (config: MetricsConfig)
        ensures
            config.made_from(json_config),
    {
        match json_config {
            Some(json) => MetricsConfig {
                enabled: json.enabled,
                otlp_endpoint: copy_text(&json.otlp_endpoint),
                export_interval_ms: json.export_interval_ms,
                export_timeout_ms: json.export_timeout_ms,
            },
            None => MetricsConfig {
                enabled: None,
                otlp_endpoint: None,
                export_interval_ms: None,
                export_timeout_ms: None,
            },
        }
    }

    /// Whether metrics are enabled: explicit value, then
    /// `OTEL_METRICS_ENABLED`, then on.
    pub fn metrics_enabled(&self, env: &Environment) -> (r: bool)
        ensures
            r == self.enabled_in(*env),
    {
        env.resolve_bool(self.enabled, "OTEL_METRICS_ENABLED", DEFAULT_METRICS_ENABLED)
    }

    /// Collector endpoint for metrics: explicit value, then
    /// `OTEL_EXPORTER_OTLP_METRICS_ENDPOINT`, then
    /// `OTEL_EXPORTER_OTLP_ENDPOINT`, then the default endpoint.
    pub fn otlp_endpoint(&self, env: &Environment) -> (r: String)
        ensures
            r@ == self.endpoint_in(*env),
    {
        env.resolve_text_either(
            &self.otlp_endpoint,
            "OTEL_EXPORTER_OTLP_METRICS_ENDPOINT",
            "OTEL_EXPORTER_OTLP_ENDPOINT",
            DEFAULT_OTLP_ENDPOINT,
        )
    }

    /// Export interval in milliseconds: explicit value, then
    /// `OTEL_METRIC_EXPORT_INTERVAL`, then 15000.
    pub fn export_interval_ms(&self, env: &Environment) -> (r: u64)
        ensures
            r == self.interval_in(*env),
    {
        env.resolve_u64(
            self.export_interval_ms,
            "OTEL_METRIC_EXPORT_INTERVAL",
            DEFAULT_COLLECTION_INTERVAL_MS,
        )
    }

    /// Export timeout in milliseconds: explicit value, then
    /// `OTEL_EXPORTER_OTLP_METRICS_TIMEOUT`, then
    /// `OTEL_EXPORTER_OTLP_TIMEOUT`, then 10000.
    pub fn export_timeout_ms(&self, env: &Environment) -> (r: u64)
        ensures
            r == self.timeout_in(*env),
    {
        env.resolve_u64_either(
            self.export_timeout_ms,
            "OTEL_EXPORTER_OTLP_METRICS_TIMEOUT",
            "OTEL_EXPORTER_OTLP_TIMEOUT",
            DEFAULT_EXPORT_TIMEOUT_MS,
        )
    }

    /// The export settings for metrics: the resolved endpoint and timeout,
    /// over gRPC.
    pub fn create_export_config(&self, env: &Environment) -> (export: ExportConfig)
        ensures
            export.endpoint@ == self.endpoint_in(*env),
            export.protocol == Protocol::Grpc,
            export.timeout_ms == self.timeout_in(*env),
    {
        ExportConfig {
            endpoint: self.otlp_endpoint(env),
            protocol: Protocol::Grpc,
            timeout_ms: self.export_timeout_ms(env),
        }
    }
}

/// How counters report between two exports.
#[derive(Clone, Copy, Debug, PartialEq, Eq, Structural)]
pub enum Temporality {
    /// Each export holds the change since the last one.
    Delta,
}

/// What the meter provider is to be built from.
#[derive(Debug, Clone, PartialEq, Eq)]
pub struct MeterProviderPlan {
    pub export: ExportConfig,
    pub temporality: Temporality,
    pub export_interval_ms: u64,
}

impl MeterProviderPlan {
    /// Whether the plan holds what `config` resolves to under `env`: the
    /// export settings over gRPC, delta temporality, and the export interval.
    pub open spec fn planned_from(self, config: MetricsConfig, env: Environment) -> bool {
        &&& self.export.endpoint@ == config.endpoint_in(env)
        &&& self.export.protocol == Protocol::Grpc
        &&& self.export.timeout_ms == config.timeout_in(env)
        &&& self.temporality == Temporality::Delta
        &&& self.export_interval_ms == config.interval_in(env)
    }
}

/// Decides whether a meter provider is built and from what. Disabled metrics
/// yield no provider; enabled metrics yield a periodic exporter with delta
/// temporality at the resolved endpoint, timeout and interval.
pub fn create_metrics_provider(config: &MetricsConfig, env: &Environment) -> (plan: Option<
    MeterProviderPlan,
>)
    ensures
        plan is Some <==> config.enabled_in(*env),
        plan matches Some(p) ==> p.planned_from(*config, *env),
{
    if !config.metrics_enabled(env) {
        return None;
    }
    Some(
        MeterProviderPlan {
            export: config.create_export_config(env),
            temporality: Temporality::Delta,
            export_interval_ms: config.export_interval_ms(env),
        },
    )
}

/// The error for a metrics exporter that could not be built.
pub fn metrics_exporter_error(detail: &str) -> (e: CommandError)
    ensures
        e@.code == crate::error::ErrorCode::InternalError,
        e@.message == "failed to build metrics exporter: "@ + detail@,
{
    let mut message = "failed to build metrics exporter: ".to_owned();
    message.append(detail);
    CommandError::internal_error(message)
}

/// The name of the meter that owns the instruments.
pub fn meter_name() -> (r: &'static str)
    ensures
        r@ == "documentdb_gateway"@,
{
    "documentdb_gateway"
}

/// The four counters that a request adds to.
#[derive(Clone, Copy, Debug, PartialEq, Eq, Structural)]
pub enum Instrument {
    /// Total duration of all operations, in seconds.
    OperationDurationTotal,
    /// Count of operations.
    OperationsCount,
    /// Total request payload bytes.
    RequestSizeTotal,
    /// Total response payload bytes.
    ResponseSizeTotal,
}

impl Instrument {
    pub open spec fn spec_name(self) -> Seq<char> {
        match self {
            Instrument::OperationDurationTotal => "db.client.operation.duration.total"@,
            Instrument::OperationsCount => "db.client.operations"@,
            Instrument::RequestSizeTotal => "db.client.request.size.total"@,
            Instrument::ResponseSizeTotal => "db.client.response.size.total"@,
        }
    }

    pub open spec fn spec_description(self) -> Seq<char> {
        match self {
            Instrument::OperationDurationTotal => "Total duration of database client operations (sum)"@,
            Instrument::OperationsCount => "Count of database client operations"@,
            Instrument::RequestSizeTotal => "Total size of database client request payloads"@,
            Instrument::ResponseSizeTotal => "Total size of database client response payloads"@,
        }
    }

    pub open spec fn spec_unit(self) -> Seq<char> {
        match self {
            Instrument::OperationDurationTotal => "s"@,
            Instrument::OperationsCount => "{operation}"@,
            Instrument::RequestSizeTotal => "By"@,
            Instrument::ResponseSizeTotal => "By"@,
        }
    }

    /// The name under which the instrument is registered.
    pub fn name(self) -> (r: &'static str)
        ensures
            r@ == self.spec_name(),
    {
        match self {
            Instrument::OperationDurationTotal => "db.client.operation.duration.total",
            Instrument::OperationsCount => "db.client.operations",
            Instrument::RequestSizeTotal => "db.client.request.size.total",
            Instrument::ResponseSizeTotal => "db.client.response.size.total",
        }
    }

    /// What the instrument measures, in words.
    pub fn description(self) -> (r: &'static str)
        ensures
            r@ == self.spec_description(),
    {
        match self {
            Instrument::OperationDurationTotal => "Total duration of database client operations (sum)",
            Instrument::OperationsCount => "Count of database client operations",
            Instrument::RequestSizeTotal => "Total size of database client request payloads",
            Instrument::ResponseSizeTotal => "Total size of database client response payloads",
        }
    }

    /// The unit of the instrument.
    pub fn unit(self) -> (r: &'static str)
        ensures
            r@ == self.spec_unit(),
    {
        match self {
            Instrument::OperationDurationTotal => "s",
            Instrument::OperationsCount => "{operation}",
            Instrument::RequestSizeTotal => "By",
            Instrument::ResponseSizeTotal => "By",
        }
    }
}

/// What a point adds to its counter.
#[derive(Clone, Copy, Debug, PartialEq, Eq, Structural)]
pub enum Measurement {
    /// A count or a number of bytes.
    Count(u64),
    /// A duration in nanoseconds; the counter takes it in seconds.
    Nanoseconds(u64),
}

/// What a metric point holds, with its attributes as characters.
pub struct MetricPointView {
    pub instrument: Instrument,
    pub value: Measurement,
    pub attributes: Seq<(Seq<char>, Seq<char>)>,
}

/// One addition to one counter.
#[derive(Debug, Clone, PartialEq, Eq)]
pub struct MetricPoint {
    pub instrument: Instrument,
    pub value: Measurement,
    pub attributes: Vec<Attribute>,
}

impl View for MetricPoint {
    type V = MetricPointView;

    open spec fn view(&self) -> MetricPointView {
        MetricPointView {
            instrument: self.instrument,
            value: self.value,
            attributes: attribute_views(self.attributes@),
        }
    }
}

/// The views of a sequence of points, in order.
pub open spec fn point_views(items: Seq<MetricPoint>) -> Seq<MetricPointView> {
    Seq::new(items.len(), |i: int| items[i]@)
}

/// How a request ended, with the size of what was sent back.
#[derive(Clone, Copy, Debug, PartialEq, Eq, Structural)]
pub enum RequestOutcome {
    /// A response of `response_size` bytes.
    Success { response_size: u64 },
    /// An error with its code, sent in `error_size` bytes.
    Failure { error_code: i32, error_size: usize },
}

/// What the metrics need to know of one completed request.
#[derive(Debug, Clone, PartialEq, Eq)]
pub struct RequestSummary {
    /// The length that the wire header declares.
    pub request_size: u64,
    /// The name of the command, where one was parsed.
    pub operation: Option<String>,
    /// The target database, where the request names one.
    pub database: Option<String>,
    /// The resolved collection name.
    pub collection: String,
    pub outcome: RequestOutcome,
}

/// A duration on the ledger as the counter takes it: negative time counts
/// as none.
pub open spec fn clamped_nanos(ns: int) -> u64 {
    if ns < 0 {
        0
    } else {
        ns as u64
    }
}

/// `name`, or `unknown` where there is none.
pub open spec fn name_or_unknown(name: Option<String>) -> Seq<char> {
    match name {
        Some(n) => n@,
        None => "unknown"@,
    }
}

/// The attributes that every point of a request carries: system, operation,
/// collection and namespace, and the error code where the request failed.
pub open spec fn base_attributes(summary: RequestSummary) -> Seq<(Seq<char>, Seq<char>)> {
    let common = seq![
        ("db.system.name"@, "documentdb"@),
        ("db.operation.name"@, name_or_unknown(summary.operation)),
        ("db.collection.name"@, summary.collection@),
        ("db.namespace"@, name_or_unknown(summary.database)),
    ];
    match summary.outcome {
        RequestOutcome::Success { .. } => common,
        RequestOutcome::Failure { error_code, .. } => common.push(
            ("error.type"@, signed_decimal(error_code as int)),
        ),
    }
}

/// The bytes sent back for a request.
pub open spec fn response_size(outcome: RequestOutcome) -> u64 {
    match outcome {
        RequestOutcome::Success { response_size } => response_size,
        RequestOutcome::Failure { error_size, .. } => error_size as u64,
    }
}

/// The four points that every request adds: one operation, its total
/// duration, the request size and the response size.
pub open spec fn base_points(summary: RequestSummary, tracker: RequestTracker) -> Seq<
    MetricPointView,
> {
    let attributes = base_attributes(summary);
    seq![
        MetricPointView {
            instrument: Instrument::OperationsCount,
            value: Measurement::Count(1),
            attributes,
        },
        MetricPointView {
            instrument: Instrument::OperationDurationTotal,
            value: Measurement::Nanoseconds(
                clamped_nanos(tracker.elapsed(RequestIntervalKind::HandleRequest)),
            ),
            attributes,
        },
        MetricPointView {
            instrument: Instrument::RequestSizeTotal,
            value: Measurement::Count(summary.request_size),
            attributes,
        },
        MetricPointView {
            instrument: Instrument::ResponseSizeTotal,
            value: Measurement::Count(response_size(summary.outcome)),
            attributes,
        },
    ]
}

/// The phases of the backend whose duration is reported on its own.
#[derive(Clone, Copy, Debug, PartialEq, Eq, Structural)]
pub enum BackendPhase {
    BeginTransaction,
    Execution,
    CommitTransaction,
}

impl BackendPhase {
    /// The interval of the ledger that holds the duration of the phase.
    pub open spec fn interval(self) -> RequestIntervalKind {
        match self {
            BackendPhase::BeginTransaction => RequestIntervalKind::PostgresBeginTransaction,
            BackendPhase::Execution => RequestIntervalKind::ProcessRequest,
            BackendPhase::CommitTransaction => RequestIntervalKind::PostgresCommitTransaction,
        }
    }

    /// The label under which the duration of the phase is reported.
    pub open spec fn spec_label(self) -> Seq<char> {
        match self {
            BackendPhase::BeginTransaction => "postgres_begin_transaction"@,
            BackendPhase::Execution => "postgres_execution"@,
            BackendPhase::CommitTransaction => "postgres_commit"@,
        }
    }

    /// The interval of the ledger that holds the duration of the phase.
    pub fn interval_kind(self) -> (r: RequestIntervalKind)
        ensures
            r == self.interval(),
    {
        match self {
            BackendPhase::BeginTransaction => RequestIntervalKind::PostgresBeginTransaction,
            BackendPhase::Execution => RequestIntervalKind::ProcessRequest,
            BackendPhase::CommitTransaction => RequestIntervalKind::PostgresCommitTransaction,
        }
    }

    /// The label under which the duration of the phase is reported.
    pub fn label(self) -> (r: &'static str)
        ensures
            r@ == self.spec_label(),
    {
        match self {
            BackendPhase::BeginTransaction => "postgres_begin_transaction",
            BackendPhase::Execution => "postgres_execution",
            BackendPhase::CommitTransaction => "postgres_commit",
        }
    }
}

/// The duration point of one backend phase: there is one exactly where the
/// phase took more than no time.
pub open spec fn phase_points(
    summary: RequestSummary,
    tracker: RequestTracker,
    phase: BackendPhase,
) -> Seq<MetricPointView> {
    if tracker.elapsed(phase.interval()) > 0 {
        seq![
            MetricPointView {
                instrument: Instrument::OperationDurationTotal,
                value: Measurement::Nanoseconds(clamped_nanos(tracker.elapsed(phase.interval()))),
                attributes: base_attributes(summary).push(
                    ("db.operation.phase"@, phase.spec_label()),
                ),
            },
        ]
    } else {
        Seq::<MetricPointView>::empty()
    }
}

/// Everything that one request adds to the counters, in order: the four
/// base points, then the phases begin, execution and commit that occurred.
pub open spec fn request_points(summary: RequestSummary, tracker: RequestTracker) -> Seq<
    MetricPointView,
> {
    base_points(summary, tracker) + phase_points(summary, tracker, BackendPhase::BeginTransaction)
        + phase_points(summary, tracker, BackendPhase::Execution) + phase_points(
        summary,
        tracker,
        BackendPhase::CommitTransaction,
    )
}

/// How many of the three backend phases occurred.
pub open spec fn phases_occurred(tracker: RequestTracker) -> nat {
    let begin: nat = if tracker.elapsed(RequestIntervalKind::PostgresBeginTransaction) > 0 {
        1
    } else {
        0
    };
    let execution: nat = if tracker.elapsed(RequestIntervalKind::ProcessRequest) > 0 {
        1
    } else {
        0
    };
    let commit: nat = if tracker.elapsed(RequestIntervalKind::PostgresCommitTransaction) > 0 {
        1
    } else {
        0
    };
    begin + execution + commit
}

/// A request adds its four base points and one point for each backend phase
/// that occurred, and no other.
pub proof fn lemma_request_point_count(summary: RequestSummary, tracker: RequestTracker)
    ensures
        request_points(summary, tracker).len() == 4 + phases_occurred(tracker),
        phases_occurred(tracker) == 0 ==> request_points(summary, tracker) == base_points(
            summary,
            tracker,
        ),
        request_points(summary, tracker).take(4) == base_points(summary, tracker),
        forall|i: int|
            4 <= i < request_points(summary, tracker).len() ==> (#[trigger] request_points(
                summary,
                tracker,
            )[i]).instrument == Instrument::OperationDurationTotal,
{
    let points = request_points(summary, tracker);
    let base = base_points(summary, tracker);
    assert(points.take(4) =~= base);
    if phases_occurred(tracker) == 0 {
        assert(points =~= base);
    }
}

fn clamp_nanos(ns: i64) -> (r: u64)
    ensures
        r == clamped_nanos(ns as int),
{
    if ns < 0 {
        0
    } else {
        ns as u64
    }
}

fn text_or_unknown(name: &Option<String>) -> (r: String)
    ensures
        r@ == name_or_unknown(*name),
{
    match name {
        Some(n) => n.clone(),
        None => "unknown".to_owned(),
    }
}

/// The attributes that every point of the request carries.
pub fn request_attributes(summary: &RequestSummary) -> (attributes: Vec<Attribute>)
    ensures
        attribute_views(attributes@) == base_attributes(*summary),
{
    let mut attributes: Vec<Attribute> = Vec::new();
    attributes.push(Attribute::new("db.system.name", "documentdb"));
    let operation = text_or_unknown(&summary.operation);
    attributes.push(Attribute::new("db.operation.name", operation.as_str()));
    attributes.push(Attribute::new("db.collection.name", summary.collection.as_str()));
    let database = text_or_unknown(&summary.database);
    attributes.push(Attribute::new("db.namespace", database.as_str()));
    match summary.outcome {
        RequestOutcome::Success { .. } => {},
        RequestOutcome::Failure { error_code, .. } => {
            let code = signed_decimal_text(error_code);
            attributes.push(Attribute::new("error.type", code.as_str()));
        },
    }
    assert(attribute_views(attributes@) =~= base_attributes(*summary));
    attributes
}

fn push_phase(
    points: &mut Vec<MetricPoint>,
    base: &Vec<Attribute>,
    summary: &RequestSummary,
    tracker: &RequestTracker,
    phase: BackendPhase,
)
    requires
        attribute_views(base@) == base_attributes(*summary),
    ensures
        point_views(final(points)@) == point_views(old(points)@) + phase_points(
            *summary,
            *tracker,
            phase,
        ),
{
    let ns = tracker.get_interval_elapsed_time(phase.interval_kind());
    if ns > 0 {
        let mut attributes = copy_attributes(base);
        attributes.push(Attribute::new("db.operation.phase", phase.label()));
        assert(attribute_views(attributes@) =~= base_attributes(*summary).push(
            ("db.operation.phase"@, phase.spec_label()),
        ));
        let point = MetricPoint {
            instrument: Instrument::OperationDurationTotal,
            value: Measurement::Nanoseconds(clamp_nanos(ns)),
            attributes,
        };
        let ghost before = points@;
        points.push(point);
        assert(point_views(points@) =~= point_views(before) + phase_points(
            *summary,
            *tracker,
            phase,
        ));
    } else {
        assert(point_views(points@) =~= point_views(points@) + phase_points(
            *summary,
            *tracker,
            phase,
        ));
    }
}

/// The points that one completed request adds to the counters: always one
/// operation, the total duration, the request size and the response size; and
/// for each of the backend phases begin, execution and commit a duration
/// under the phase's label, only where that phase took more than no time.
pub fn record_request_metrics(summary: &RequestSummary, tracker: &RequestTracker) -> (points: Vec<
    MetricPoint,
>)
    ensures
        point_views(points@) == request_points(*summary, *tracker),
{
    let base = request_attributes(summary);
    let duration_ns = tracker.get_interval_elapsed_time(RequestIntervalKind::HandleRequest);
    let response_size_bytes: u64 = match summary.outcome {
        RequestOutcome::Success { response_size } => response_size,
        RequestOutcome::Failure { error_size, .. } => error_size as u64,
    };
    let mut points: Vec<MetricPoint> = Vec::new();
    points.push(
        MetricPoint {
            instrument: Instrument::OperationsCount,
            value: Measurement::Count(1),
            attributes: copy_attributes(&base),
        },
    );
    points.push(
        MetricPoint {
            instrument: Instrument::OperationDurationTotal,
            value: Measurement::Nanoseconds(clamp_nanos(duration_ns)),
            attributes: copy_attributes(&base),
        },
    );
    points.push(
        MetricPoint {
            instrument: Instrument::RequestSizeTotal,
            value: Measurement::Count(summary.request_size),
            attributes: copy_attributes(&base),
        },
    );
    points.push(
        MetricPoint {
            instrument: Instrument::ResponseSizeTotal,
            value: Measurement::Count(response_size_bytes),
            attributes: copy_attributes(&base),
        },
    );
    assert(point_views(points@) =~= base_points(*summary, *tracker));
    push_phase(&mut points, &base, summary, tracker, BackendPhase::BeginTransaction);
    push_phase(&mut points, &base, summary, tracker, BackendPhase::Execution);
    push_phase(&mut points, &base, summary, tracker, BackendPhase::CommitTransaction);
    points
}

} // verus!
