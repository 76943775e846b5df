//! What the three signals share: defaults, the export settings, and the
//! resource attributes.

use vstd::prelude::*;
use vstd::string::*;
use crate::environment::{copy_text, resolve, text_of, Environment};
use crate::telemetry::logging::{LoggingConfig, LoggingOptions};
use crate::telemetry::metrics::{MetricsConfig, MetricsOptions};
use crate::telemetry::tracing::{TracingConfig, TracingOptions};
use crate::text::{split, split_once, split_text, split_text_once, trim, trim_text, views_of};

verus! {

/// The collector endpoint that is used where none is configured.
pub const DEFAULT_OTLP_ENDPOINT: &'static str = "http://localhost:4317";

/// The export timeout in milliseconds that is used where none is configured.
pub const DEFAULT_EXPORT_TIMEOUT_MS: u64 = 10000;

/// The service name that is used where none is configured.
pub const DEFAULT_SERVICE_NAME: &'static str = "documentdb_gateway";

/// The service version that is used where none is configured.
pub const DEFAULT_SERVICE_VERSION: &'static str = "0.1.0";

/// The transport by which telemetry is exported.
#[derive(Clone, Copy, Debug, PartialEq, Eq, Structural)]
pub enum Protocol {
    Grpc,
}

/// Where and how one signal is exported.
#[derive(Debug, Clone, PartialEq, Eq)]
pub struct ExportConfig {
    pub endpoint: String,
    pub protocol: Protocol,
    pub timeout_ms: u64,
}

/// One attribute of a resource or of a metric point: a key and its value.
#[derive(Debug, Clone, PartialEq, Eq)]
pub struct Attribute {
    pub key: String,
    pub value: String,
}

impl View for Attribute {
    type V = (Seq<char>, Seq<char>);

    open spec fn view(&self) -> (Seq<char>, Seq<char>) {
        (self.key@, self.value@)
    }
}

impl Attribute {
    pub fn new(key: &str, value: &str) -> (a: Attribute)
        ensures
            a@ == (key@, value@),
    {
        Attribute { key: key.to_owned(), value: value.to_owned() }
    }

    /// A copy of this attribute.
    pub fn duplicate(&self) -> (a: Attribute)
        ensures
            a@ == self@,
    {
        Attribute { key: self.key.clone(), value: self.value.clone() }
    }
}

/// The views of a sequence of attributes, in order.
pub open spec fn attribute_views(items: Seq<Attribute>) -> Seq<(Seq<char>, Seq<char>)> {
    Seq::new(items.len(), |i: int| items[i]@)
}

/// A copy of a list of attributes.
pub fn copy_attributes(items: &Vec<Attribute>) -> (r: Vec<Attribute>)
    ensures
        attribute_views(r@) == attribute_views(items@),
{
    let mut r: Vec<Attribute> = Vec::new();
    let mut i: usize = 0;
    while i < items.len()
        invariant
            0 <= i <= items.len(),
            r.len() == i,
            forall|j: int| 0 <= j < i ==> r[j]@ == items[j]@,
        decreases items.len() - i,
    {
        r.push(items[i].duplicate());
        i = i + 1;
    }
    assert(attribute_views(r@) =~= attribute_views(items@));
    r
}

/// The attribute that one `key=value` pair stands for, both sides trimmed;
/// a pair without `=` stands for none.
pub open spec fn attribute_of(pair: Seq<char>) -> Option<(Seq<char>, Seq<char>)> {
    match split_once(pair, '=') {
        Some((key, value)) => Some((trim(key), trim(value))),
        None => None,
    }
}

/// The attributes that the pairs stand for, in order, the malformed pairs
/// left out.
pub open spec fn attributes_of(pairs: Seq<Seq<char>>) -> Seq<(Seq<char>, Seq<char>)>
    decreases pairs.len(),
{
    if pairs.len() == 0 {
        Seq::<(Seq<char>, Seq<char>)>::empty()
    } else {
        let rest = attributes_of(pairs.drop_last());
        match attribute_of(pairs.last()) {
            Some(attribute) => rest.push(attribute),
            None => rest,
        }
    }
}

/// The resource attributes that a text of the form `key1=val1,key2=val2`
/// lists.
pub open spec fn resource_attributes(text: Seq<char>) -> Seq<(Seq<char>, Seq<char>)> {
    attributes_of(split(text, ','))
}

/// The text of a variable, empty where it is unset.
pub open spec fn text_or_empty(value: Option<Seq<char>>) -> Seq<char> {
    match value {
        Some(text) => text,
        None => Seq::<char>::empty(),
    }
}

/// Reads the resource attributes from a text of comma-separated `key=value`
/// pairs. Keys and values are trimmed; a pair without `=` is skipped.
pub fn parse_attribute_list(text: &str) -> (attributes: Vec<Attribute>)
    ensures
        attribute_views(attributes@) == resource_attributes(text@),
{
    let pairs = split_text(text, ',');
    let ghost pieces = split(text@, ',');
    let mut attributes: Vec<Attribute> = Vec::new();
    let mut i: usize = 0;
    proof {
        assert(views_of(pairs@).len() == pairs.len());
        assert(pieces.take(0) =~= Seq::<Seq<char>>::empty());
        assert(attribute_views(attributes@) =~= attributes_of(pieces.take(0)));
    }
    while i < pairs.len()
        invariant
            0 <= i <= pairs.len(),
            views_of(pairs@) == pieces,
            pieces.len() == pairs.len(),
            attribute_views(attributes@) == attributes_of(pieces.take(i as int)),
        decreases pairs.len() - i,
    {
        proof {
            assert(views_of(pairs@)[i as int] == pairs[i as int]@);
            assert(pieces.take(i + 1).drop_last() =~= pieces.take(i as int));
            assert(pieces.take(i + 1).last() == pieces[i as int]);
        }
        let ghost before = attributes@;
        match split_text_once(pairs[i].as_str(), '=') {
            Some((key, value)) => {
                let key = trim_text(key.as_str());
                let value = trim_text(value.as_str());
                attributes.push(Attribute { key, value });
                assert(attribute_views(attributes@) =~= attribute_views(before).push(
                    attributes[before.len() as int]@,
                ));
            },
            None => {},
        }
        i = i + 1;
    }
    proof {
        assert(pieces.take(pairs.len() as int) =~= pieces);
    }
    attributes
}

/// Reads the resource attributes from `OTEL_RESOURCE_ATTRIBUTES`. An unset
/// variable gives none.
pub fn parse_resource_attributes(env: &Environment) -> (attributes: Vec<Attribute>)
    ensures
        attribute_views(attributes@) == resource_attributes(
            text_or_empty(env.lookup("OTEL_RESOURCE_ATTRIBUTES"@)),
        ),
{
    match env.var("OTEL_RESOURCE_ATTRIBUTES") {
        Some(text) => parse_attribute_list(text.as_str()),
        None => {
            let empty = String::new();
            parse_attribute_list(empty.as_str())
        },
    }
}

/// Explicit configuration of telemetry, as read from the setup file. A field
/// that is `None` was not given.
#[derive(Debug, Clone, PartialEq, Eq)]
pub struct TelemetryOptions {
    /// Service name for telemetry identification
    pub service_name: Option<String>,
    /// Service version for telemetry identification
    pub service_version: Option<String>,
    /// Tracing configuration
    pub tracing: Option<TracingOptions>,
    /// Metrics configuration
    pub metrics: Option<MetricsOptions>,
    /// Logging configuration
    pub logging: Option<LoggingOptions>,
}

impl Default for TelemetryOptions {
    fn default() -> (options: TelemetryOptions)
        ensures
            options.service_name is None,
            options.service_version is None,
            options.tracing is None,
            options.metrics is None,
            options.logging is None,
    {
        TelemetryOptions {
            service_name: None,
            service_version: None,
            tracing: None,
            metrics: None,
            logging: None,
        }
    }
}

/// Unified runtime configuration for all telemetry signals.
#[derive(Debug, Clone, PartialEq, Eq)]
pub struct TelemetryConfig {
    pub service_name: Option<String>,
    pub service_version: Option<String>,
    pub tracing: TracingConfig,
    pub metrics: MetricsConfig,
    pub logging: LoggingConfig,
}

/// An optional value, borrowed.
pub open spec fn borrowed<T>(value: &Option<T>) -> Option<&T> {
    match value {
        Some(v) => Some(v),
        None => None,
    }
}

impl TelemetryConfig {
    /// Whether this configuration keeps exactly the explicit values of
    /// `json_config`, section by section, or none where there are no explicit
    /// options.
    pub open spec fn made_from(self, json_config: Option<&TelemetryOptions>) -> bool {
        match json_config {
            Some(json) => {
                &&& text_of(self.service_name) == text_of(json.service_name)
                &&& text_of(self.service_version) == text_of(json.service_version)
                &&& self.tracing.made_from(borrowed(&json.tracing))
                &&& self.metrics.made_from(borrowed(&json.metrics))
                &&& self.logging.made_from(borrowed(&json.logging))
            },
            None => {
                &&& self.service_name is None
                &&& self.service_version is None
                &&& self.tracing.made_from(None)
                &&& self.metrics.made_from(None)
                &&& self.logging.made_from(None)
            },
        }
    }

    /// The service name under `env`.
    pub open spec fn service_name_in(self, env: Environment) -> Seq<char> {
        resolve(text_of(self.service_name), env.lookup("OTEL_SERVICE_NAME"@), DEFAULT_SERVICE_NAME@)
    }

    /// The service version under `env`.
    pub open spec fn service_version_in(self, env: Environment) -> Seq<char> {
        resolve(
            text_of(self.service_version),
            env.lookup("OTEL_SERVICE_VERSION"@),
            DEFAULT_SERVICE_VERSION@,
        )
    }

    /// Whether at least one of the three signals is on under `env`.
    pub open spec fn any_enabled_in(self, env: Environment) -> bool {
        self.tracing.enabled_in(env) || self.metrics.enabled_in(env) || self.logging.enabled_in(
            env,
        )
    }

    /// Creates the configuration from the explicit options, or without any.
    pub fn new(json_config: Option<&TelemetryOptions>) -> (config: TelemetryConfig)
        ensures
            config.made_from(json_config),
    {
        match json_config {
            Some(json) => TelemetryConfig {
                service_name: copy_text(&json.service_name),
                service_version: copy_text(&json.service_version),
                tracing: TracingConfig::new(json.tracing.as_ref()),
                metrics: MetricsConfig::new(json.metrics.as_ref()),
                logging: LoggingConfig::new(json.logging.as_ref()),
            },
            None => TelemetryConfig {
                service_name: None,
                service_version: None,
                tracing: TracingConfig::new(None),
                metrics: MetricsConfig::new(None),
                logging: LoggingConfig::new(None),
            },
        }
    }

    /// Service name: explicit value, then `OTEL_SERVICE_NAME`, then the name
    /// of this crate.
    pub fn service_name(&self, env: &Environment) -> (r: String)
        ensures
            r@ == self.service_name_in(*env),
    {
        env.resolve_text(&self.service_name, "OTEL_SERVICE_NAME", DEFAULT_SERVICE_NAME)
    }

    /// Service version: explicit value, then `OTEL_SERVICE_VERSION`, then the
    /// version of this crate.
    pub fn service_version(&self, env: &Environment) -> (r: String)
        ensures
            r@ == self.service_version_in(*env),
    {
        env.resolve_text(&self.service_version, "OTEL_SERVICE_VERSION", DEFAULT_SERVICE_VERSION)
    }

    pub fn tracing(&self) -> (r: &TracingConfig)
        ensures
            *r == self.tracing,
    {
        &self.tracing
    }

    pub fn metrics(&self) -> (r: &MetricsConfig)
        ensures
            *r == self.metrics,
    {
        &self.metrics
    }

    pub fn logging(&self) -> (r: &LoggingConfig)
        ensures
            *r == self.logging,
    {
        &self.logging
    }

    /// Returns true if any telemetry signal (tracing, metrics, or logging) is
    /// enabled.
    pub fn any_signal_enabled(&self, env: &Environment) -> (r: bool)
        ensures
            r == self.any_enabled_in(*env),
    {
        self.tracing.tracing_enabled(env) || self.metrics.metrics_enabled(env)
            || self.logging.logging_enabled(env)
    }
}

} // verus!
