//! Signal provider factory.
//!
//! Given one collector endpoint and one resource identity, plan the three
//! export pipelines: batched traces, batched logs, and periodically pushed
//! metrics, every record carrying the shared resource.  A malformed
//! endpoint fails the whole initialization fast; the unverified shell
//! installs providers only from a plan produced here, so nothing is ever
//! installed from a configuration this factory rejected.

use vstd::prelude::*;

use crate::config::TelemetryConfig;
use crate::config::valid_endpoint;

verus! {

/// The three telemetry signals.
#[derive(Clone, Copy, PartialEq, Eq, Structural, Debug)]
pub enum Signal {
    Trace,
    Log,
    Metric,
}

/// Initialization failures; each aborts startup.
#[derive(Clone, Copy, PartialEq, Eq, Structural, Debug)]
pub enum InitError {
    /// The collector endpoint is not a usable network address.
    InvalidEndpoint,
}

/// Everything one export pipeline is built from: its signal, the collector
/// it targets, the resource identity it stamps on every record, and its
/// flush or push cadence.
pub struct PipelinePlan {
    pub signal: Signal,
    pub endpoint: String,
    pub service_name: String,
    pub interval_ms: u64,
}

/// A pipeline plan carries exactly the given signal, the configuration's
/// endpoint and service identity, and the given cadence.
pub open spec fn plan_matches(
    plan: PipelinePlan,
    signal: Signal,
    cfg: TelemetryConfig,
    interval_ms: u64,
) -> bool {
    &&& plan.signal == signal
    &&& plan.endpoint@ == cfg.endpoint@
    &&& plan.service_name@ == cfg.service_name@
    &&& plan.interval_ms == interval_ms
}

/// The full provider plan: one pipeline per signal, plus the drain budget
/// handed on to the shutdown coordinator.
pub struct TelemetryPlan {
    pub trace: PipelinePlan,
    pub log: PipelinePlan,
    pub metric: PipelinePlan,
    pub shutdown_timeout_ms: u64,
}

/// Plan the batched trace pipeline.
pub fn init_tracer_provider(cfg: &TelemetryConfig) -> (r: Result<PipelinePlan, InitError>)
    ensures
        r is Ok <==> valid_endpoint(cfg.endpoint@),
        r matches Ok(plan) ==> plan_matches(plan, Signal::Trace, *cfg, cfg.trace_batch_interval_ms),
        !valid_endpoint(cfg.endpoint@) ==> r == Result::<PipelinePlan, InitError>::Err(
            InitError::InvalidEndpoint,
        ),
{
    plan_pipeline(cfg, Signal::Trace, cfg.trace_batch_interval_ms)
}

/// Plan the batched log pipeline.
pub fn init_logs_provider(cfg: &TelemetryConfig) -> (r: Result<PipelinePlan, InitError>)
    ensures
        r is Ok <==> valid_endpoint(cfg.endpoint@),
        r matches Ok(plan) ==> plan_matches(plan, Signal::Log, *cfg, cfg.log_batch_interval_ms),
        !valid_endpoint(cfg.endpoint@) ==> r == Result::<PipelinePlan, InitError>::Err(
            InitError::InvalidEndpoint,
        ),
{
    plan_pipeline(cfg, Signal::Log, cfg.log_batch_interval_ms)
}

/// Plan the periodic metric pipeline.
pub fn init_meter_provider(cfg: &TelemetryConfig) -> (r: Result<PipelinePlan, InitError>)
    ensures
        r is Ok <==> valid_endpoint(cfg.endpoint@),
        r matches Ok(plan) ==> plan_matches(plan, Signal::Metric, *cfg, cfg.metric_interval_ms),
        !valid_endpoint(cfg.endpoint@) ==> r == Result::<PipelinePlan, InitError>::Err(
            InitError::InvalidEndpoint,
        ),
{
    plan_pipeline(cfg, Signal::Metric, cfg.metric_interval_ms)
}

/// Plan all three pipelines, or fail startup fast on a malformed endpoint.
pub fn init_telemetry(cfg: &TelemetryConfig) -> (r: Result<TelemetryPlan, InitError>)
    ensures
        r is Ok <==> valid_endpoint(cfg.endpoint@),
        r matches Ok(plan) ==> ({
            &&& plan_matches(plan.trace, Signal::Trace, *cfg, cfg.trace_batch_interval_ms)
            &&& plan_matches(plan.log, Signal::Log, *cfg, cfg.log_batch_interval_ms)
            &&& plan_matches(plan.metric, Signal::Metric, *cfg, cfg.metric_interval_ms)
            &&& plan.shutdown_timeout_ms == cfg.shutdown_timeout_ms
        }),
        !valid_endpoint(cfg.endpoint@) ==> r == Result::<TelemetryPlan, InitError>::Err(
            InitError::InvalidEndpoint,
        ),
{
    let trace = match init_tracer_provider(cfg) {
        Ok(plan) => plan,
        Err(e) => {
            return Err(e);
        },
    };
    let log = match init_logs_provider(cfg) {
        Ok(plan) => plan,
        Err(e) => {
            return Err(e);
        },
    };
    let metric = match init_meter_provider(cfg) {
        Ok(plan) => plan,
        Err(e) => {
            return Err(e);
        },
    };
    Ok(TelemetryPlan { trace, log, metric, shutdown_timeout_ms: cfg.shutdown_timeout_ms })
}

/// Plan one pipeline against the shared endpoint and resource identity.
fn plan_pipeline(cfg: &TelemetryConfig, signal: Signal, interval_ms: u64) -> (r: Result<
    PipelinePlan,
    InitError,
>)
    ensures
        r is Ok <==> valid_endpoint(cfg.endpoint@),
        r matches Ok(plan) ==> plan_matches(plan, signal, *cfg, interval_ms),
        !valid_endpoint(cfg.endpoint@) ==> r == Result::<PipelinePlan, InitError>::Err(
            InitError::InvalidEndpoint,
        ),
{
    if !crate::config::endpoint_is_valid(cfg.endpoint.as_str()) {
        return Err(InitError::InvalidEndpoint);
    }
    Ok(
        PipelinePlan {
            signal,
            endpoint: cfg.endpoint.clone(),
            service_name: cfg.service_name.clone(),
            interval_ms,
        },
    )
}

} // verus!
