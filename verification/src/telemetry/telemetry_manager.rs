//! The life cycle of the telemetry providers: what is built at start, and
//! how the results of shutting down are reported.
//!
//! A manager is made by `init_telemetry`, is active while it exists, and ends
//! in `shutdown`, which takes it for good.

use vstd::prelude::*;
use vstd::string::*;
use crate::environment::Environment;
use crate::error::{CommandError, CommandErrorView, ErrorCode};
use crate::telemetry::config::{Attribute, TelemetryConfig};
use crate::telemetry::logging::{
    create_logging_provider, get_env_filter, FilterChoice, LoggerProviderPlan,
};
use crate::telemetry::metrics::{create_metrics_provider, MeterProviderPlan};
use crate::telemetry::tracing::{create_tracer_provider, TracerProviderPlan};

verus! {

/// The layers of the subscriber through which log records and spans pass.
#[derive(Clone, Copy, Debug, PartialEq, Eq, Structural)]
pub enum LayerKind {
    /// Bridges log records to the logger provider.
    LogBridge,
    /// Hands spans to the tracer.
    Trace,
    /// Mirrors records to the console, through a writer that does not block.
    Console,
}

/// The three providers.
#[derive(Clone, Copy, Debug, PartialEq, Eq, Structural)]
pub enum ProviderKind {
    Tracer,
    Meter,
    Logger,
}

/// Everything that is built when telemetry starts.
#[derive(Debug, Clone, PartialEq, Eq)]
pub struct TelemetryPlan {
    /// The attributes of the resource that all providers share.
    pub resource: Vec<Attribute>,
    pub logger: Option<LoggerProviderPlan>,
    pub tracer: Option<TracerProviderPlan>,
    pub meter: Option<MeterProviderPlan>,
    /// The layers of the subscriber, in the order in which they are composed.
    pub layers: Vec<LayerKind>,
    /// The filter of the trace layer and of the console layer.
    pub filter: FilterChoice,
}

/// The layers that are composed: the log bridge where there is a logger
/// provider, then the trace layer where there is a tracer provider, then the
/// console mirror where it is enabled. A signal that is off adds no layer.
pub open spec fn layers_for(logger: bool, tracer: bool, console: bool) -> Seq<LayerKind> {
    let bridge = if logger {
        seq![LayerKind::LogBridge]
    } else {
        Seq::<LayerKind>::empty()
    };
    let trace = if tracer {
        seq![LayerKind::Trace]
    } else {
        Seq::<LayerKind>::empty()
    };
    let mirror = if console {
        seq![LayerKind::Console]
    } else {
        Seq::<LayerKind>::empty()
    };
    bridge + trace + mirror
}

/// The providers that a manager owns and the resources that flush in the
/// background, which stay alive as long as the manager does. A manager is
/// neither copied nor cloned: `shutdown` ends the only one there is.
#[derive(Debug, PartialEq, Eq, Structural)]
pub struct TelemetryManager {
    pub meter_provider: bool,
    pub tracer_provider: bool,
    pub logger_provider: bool,
    /// The number of console writers whose guard the manager keeps.
    pub guards: usize,
}

/// What became of shutting down each provider: the error text where it
/// failed, `None` where it succeeded or where there was no such provider.
#[derive(Debug, Clone, PartialEq, Eq)]
pub struct ShutdownOutcomes {
    pub tracer: Option<String>,
    pub meter: Option<String>,
    pub logger: Option<String>,
}

/// What `shutdown` reports: the first failure as its result, and every later
/// failure as a warning to be logged.
#[derive(Debug, PartialEq, Eq)]
pub struct ShutdownReport {
    pub result: Result<(), CommandError>,
    pub warnings: Vec<String>,
}

/// The name of a provider in messages.
pub open spec fn provider_name(kind: ProviderKind) -> Seq<char> {
    match kind {
        ProviderKind::Tracer => "tracer"@,
        ProviderKind::Meter => "meter"@,
        ProviderKind::Logger => "logger"@,
    }
}

/// A failure as a sequence of none or one.
pub open spec fn failure(kind: ProviderKind, present: bool, outcome: Option<String>) -> Seq<
    (ProviderKind, Seq<char>),
> {
    if present && outcome is Some {
        seq![(kind, outcome->0@)]
    } else {
        Seq::<(ProviderKind, Seq<char>)>::empty()
    }
}

/// The error that reports a failure as the first one.
pub open spec fn shutdown_error(failed: (ProviderKind, Seq<char>)) -> CommandErrorView {
    CommandErrorView {
        code: ErrorCode::InternalError,
        message: "failed to shutdown "@ + provider_name(failed.0) + " provider: "@ + failed.1,
    }
}

/// The warning that reports a failure after the first one.
pub open spec fn shutdown_warning(failed: (ProviderKind, Seq<char>)) -> Seq<char> {
    "additional shutdown error ("@ + provider_name(failed.0) + "): "@ + failed.1
}

/// Whether an error and warnings report the failures: none of either where
/// nothing failed, else the first failure as the error and each later one as
/// a warning, in order.
pub open spec fn reports(
    failures: Seq<(ProviderKind, Seq<char>)>,
    first_error: Option<CommandError>,
    warnings: Seq<String>,
) -> bool {
    if failures.len() == 0 {
        first_error is None && warnings.len() == 0
    } else {
        &&& first_error matches Some(e) && e@ == shutdown_error(failures[0])
        &&& warnings.len() == failures.len() - 1
        &&& forall|i: int|
            0 <= i < warnings.len() ==> (#[trigger] warnings[i])@ == shutdown_warning(
                failures[i + 1],
            )
    }
}

fn provider_text(kind: ProviderKind) -> (r: &'static str)
    ensures
        r@ == provider_name(kind),
{
    match kind {
        ProviderKind::Tracer => "tracer",
        ProviderKind::Meter => "meter",
        ProviderKind::Logger => "logger",
    }
}

fn note_outcome(
    kind: ProviderKind,
    present: bool,
    outcome: &Option<String>,
    first_error: &mut Option<CommandError>,
    warnings: &mut Vec<String>,
    Ghost(failures): Ghost<Seq<(ProviderKind, Seq<char>)>>,
)
    requires
        reports(failures, *old(first_error), old(warnings)@),
    ensures
        reports(failures + failure(kind, present, *outcome), *final(first_error), final(warnings)@),
{
    if !present {
        assert(failures + failure(kind, present, *outcome) =~= failures);
        return ;
    }
    match outcome {
        None => {
            assert(failures + failure(kind, present, *outcome) =~= failures);
        },
        Some(detail) => {
            let ghost now = failures + failure(kind, present, *outcome);
            if first_error.is_none() {
                let mut message = "failed to shutdown ".to_owned();
                message.append(provider_text(kind));
                message.append(" provider: ");
                message.append(detail.as_str());
                assert(message@ =~= shutdown_error((kind, detail@)).message);
                *first_error = Some(CommandError::internal_error(message));
                assert(now =~= seq![(kind, detail@)]);
            } else {
                let mut message = "additional shutdown error (".to_owned();
                message.append(provider_text(kind));
                message.append("): ");
                message.append(detail.as_str());
                assert(message@ =~= shutdown_warning((kind, detail@)));
                let ghost before = warnings@;
                warnings.push(message);
                assert(now[0] == failures[0]);
                assert forall|i: int| 0 <= i < warnings.len() implies (#[trigger] warnings[i])@
                    == shutdown_warning(now[i + 1]) by {
                    if i < before.len() {
                        assert(warnings[i] == before[i]);
                        assert(now[i + 1] == failures[i + 1]);
                    } else {
                        assert(now[i + 1] == (kind, detail@));
                    }
                }
            }
        },
    }
}

impl TelemetryManager {
    /// The providers that are shut down, in order: tracer, meter, logger,
    /// each only where the manager has it.
    pub open spec fn shutdown_sequence(self) -> Seq<ProviderKind> {
        let tracer = if self.tracer_provider {
            seq![ProviderKind::Tracer]
        } else {
            Seq::<ProviderKind>::empty()
        };
        let meter = if self.meter_provider {
            seq![ProviderKind::Meter]
        } else {
            Seq::<ProviderKind>::empty()
        };
        let logger = if self.logger_provider {
            seq![ProviderKind::Logger]
        } else {
            Seq::<ProviderKind>::empty()
        };
        tracer + meter + logger
    }

    /// The failures among the outcomes, in the order of shutting down. An
    /// outcome for a provider that the manager does not have counts for
    /// nothing.
    pub open spec fn failures(self, outcomes: ShutdownOutcomes) -> Seq<(ProviderKind, Seq<char>)> {
        failure(ProviderKind::Tracer, self.tracer_provider, outcomes.tracer) + failure(
            ProviderKind::Meter,
            self.meter_provider,
            outcomes.meter,
        ) + failure(ProviderKind::Logger, self.logger_provider, outcomes.logger)
    }

    /// Decides what telemetry is built from. Each signal is decided on its
    /// own: a signal that is off yields no provider and no layer. The manager
    /// that is returned has the providers of the plan, and one guard where the
    /// console mirror is on.
    pub fn init_telemetry(
        config: &TelemetryConfig,
        attributes: Vec<Attribute>,
        env: &Environment,
        ratio_from_env: Option<u64>,
    ) -> (r: (TelemetryManager, TelemetryPlan))
        ensures
            r.1.resource == attributes,
            r.1.logger is Some <==> config.logging.enabled_in(*env),
            r.1.logger matches Some(p) ==> p.planned_from(config.logging, *env),
            r.1.tracer is Some <==> config.tracing.enabled_in(*env),
            r.1.tracer matches Some(p) ==> p.planned_from(config.tracing, *env, ratio_from_env),
            r.1.meter is Some <==> config.metrics.enabled_in(*env),
            r.1.meter matches Some(p) ==> p.planned_from(config.metrics, *env),
            r.1.layers@ == layers_for(
                config.logging.enabled_in(*env),
                config.tracing.enabled_in(*env),
                config.logging.console_in(*env),
            ),
            r.1.filter.chosen_for(config.logging.level_in(*env), *env),
            r.0.logger_provider == r.1.logger is Some,
            r.0.tracer_provider == r.1.tracer is Some,
            r.0.meter_provider == r.1.meter is Some,
            r.0.guards == (if config.logging.console_in(*env) {
                1usize
            } else {
                0usize
            }),
    {
        let mut guards: usize = 0;
        let logger = create_logging_provider(config.logging(), env);
        let tracer = create_tracer_provider(config.tracing(), env, ratio_from_env);
        let meter = create_metrics_provider(config.metrics(), env);
        let mut layers: Vec<LayerKind> = Vec::new();
        if logger.is_some() {
            layers.push(LayerKind::LogBridge);
        }
        if tracer.is_some() {
            layers.push(LayerKind::Trace);
        }
        let level = config.logging().level(env);
        let filter = get_env_filter(level.as_str(), env);
        if config.logging().console_enabled(env) {
            layers.push(LayerKind::Console);
            guards = guards + 1;
        }
        assert(layers@ =~= layers_for(
            config.logging.enabled_in(*env),
            config.tracing.enabled_in(*env),
            config.logging.console_in(*env),
        ));
        let manager = TelemetryManager {
            meter_provider: meter.is_some(),
            tracer_provider: tracer.is_some(),
            logger_provider: logger.is_some(),
            guards,
        };
        (manager, TelemetryPlan { resource: attributes, logger, tracer, meter, layers, filter })
    }

    /// The providers to shut down, in order. Each of them is shut down
    /// whatever became of the ones before it.
    pub fn shutdown_order(&self) -> (order: Vec<ProviderKind>)
        ensures
            order@ == self.shutdown_sequence(),
    {
        let mut order: Vec<ProviderKind> = Vec::new();
        if self.tracer_provider {
            order.push(ProviderKind::Tracer);
        }
        if self.meter_provider {
            order.push(ProviderKind::Meter);
        }
        if self.logger_provider {
            order.push(ProviderKind::Logger);
        }
        assert(order@ =~= self.shutdown_sequence());
        order
    }

    /// Ends the manager and reports what became of shutting down its
    /// providers. Nothing failed: the result is `Ok` and there are no
    /// warnings. Else the first failure, in the order tracer, meter, logger, is
    /// the error, and every later failure is a warning: no failure is lost.
    pub fn shutdown(self, outcomes: &ShutdownOutcomes) -> (report: ShutdownReport)
        ensures
            match report.result {
                Ok(()) => reports(self.failures(*outcomes), None, report.warnings@),
                Err(e) => reports(self.failures(*outcomes), Some(e), report.warnings@),
            },
    {
        let mut first_error: Option<CommandError> = None;
        let mut warnings: Vec<String> = Vec::new();
        let ghost none = Seq::<(ProviderKind, Seq<char>)>::empty();
        let ghost tracer = failure(ProviderKind::Tracer, self.tracer_provider, outcomes.tracer);
        let ghost meter = failure(ProviderKind::Meter, self.meter_provider, outcomes.meter);
        note_outcome(
            ProviderKind::Tracer,
            self.tracer_provider,
            &outcomes.tracer,
            &mut first_error,
            &mut warnings,
            Ghost(none),
        );
        assert(none + tracer =~= tracer);
        note_outcome(
            ProviderKind::Meter,
            self.meter_provider,
            &outcomes.meter,
            &mut first_error,
            &mut warnings,
            Ghost(tracer),
        );
        note_outcome(
            ProviderKind::Logger,
            self.logger_provider,
            &outcomes.logger,
            &mut first_error,
            &mut warnings,
            Ghost(tracer + meter),
        );
        match first_error {
            Some(e) => ShutdownReport { result: Err(e), warnings },
            None => ShutdownReport { result: Ok(()), warnings },
        }
    }
}

/// The error for a subscriber that could not be installed.
pub fn subscriber_error(detail: &str) -> (e: CommandError)
    ensures
        e@.code == ErrorCode::InternalError,
        e@.message == "failed to initialize tracing subscriber: "@ + detail@,
{
    let mut message = "failed to initialize tracing subscriber: ".to_owned();
    message.append(detail);
    CommandError::internal_error(message)
}

/// Shutting down loses no failure and invents none: the error and the
/// warnings together are as many as the failures, and there is an error
/// exactly where something failed.
pub proof fn lemma_shutdown_reports_all(
    failures: Seq<(ProviderKind, Seq<char>)>,
    first_error: Option<CommandError>,
    warnings: Seq<String>,
)
    requires
        reports(failures, first_error, warnings),
    ensures
        first_error is Some <==> failures.len() > 0,
        failures.len() == warnings.len() + (if first_error is Some {
            1int
        } else {
            0int
        }),
{
}

} // verus!
