use vstd::prelude::*;
use crate::error::{ConstellationError, ConstellationResult};
use crate::params::NodeConfig;
use crate::graph::{Node, NodeGraph, reachable, is_cycle_report, acyclic};
use crate::hardware::{
    CompatibilityLevel, CompatibilityReport, HardwareCompatibilityChecker, SystemInfo,
    is_full_report, is_linux_system_info, is_standard_requirements, texts,
};
use crate::ident::{NodeId, new_uuid, uuid_hyphenated};
use crate::resilience::{RecoveryAction, ResilienceManager, handles_error, lemma_handled_error_action};
use crate::telemetry::{MAX_COMPLETED_SPANS, SessionStats, TelemetryManager, is_session_stats, push_capped};
use crate::text::same_text;
use crate::types::{ConnectionType, NodeType, ProcessorType};
use crate::vulkan::VulkanError;

verus! {

/// One step of the frame processing chain.
#[derive(Debug, Clone, Copy)]
pub struct FrameProcessor {
    pub node_id: NodeId,
    pub processor_type: ProcessorType,
}

impl FrameProcessor {
    /// A processor of the given type for node `node_id`.
    pub fn new(node_id: NodeId, processor_type: ProcessorType) -> (p: Self)
        ensures
            p.node_id == node_id,
            p.processor_type == processor_type,
    {
        FrameProcessor { node_id, processor_type }
    }
}

/// The engine error for an error of the GPU layer: initialisation and device
/// failures become initialisation failures, the others keep their kind.
pub open spec fn spec_engine_error(e: VulkanError) -> ConstellationError {
    match e {
        VulkanError::InitializationFailed { reason } => ConstellationError::EngineInitializationFailed { reason },
        VulkanError::DeviceCreationFailed { reason } => ConstellationError::EngineInitializationFailed { reason },
        VulkanError::HardwareNotSupported { hardware } => ConstellationError::HardwareNotSupported { hardware },
        VulkanError::InsufficientMemory { required_bytes } => ConstellationError::InsufficientMemory { required_bytes },
        VulkanError::GpuProcessingFailed { reason } => ConstellationError::GpuProcessingFailed { reason },
    }
}

/// The engine error for an error of the GPU layer.
pub fn engine_error(e: VulkanError) -> (r: ConstellationError)
    ensures
        r == spec_engine_error(e),
{
    match e {
        VulkanError::InitializationFailed { reason } => ConstellationError::EngineInitializationFailed { reason },
        VulkanError::DeviceCreationFailed { reason } => ConstellationError::EngineInitializationFailed { reason },
        VulkanError::HardwareNotSupported { hardware } => ConstellationError::HardwareNotSupported { hardware },
        VulkanError::InsufficientMemory { required_bytes } => ConstellationError::InsufficientMemory { required_bytes },
        VulkanError::GpuProcessingFailed { reason } => ConstellationError::GpuProcessingFailed { reason },
    }
}

/// The engine refuses a machine that supports no phase.
pub fn check_hardware_admission(report: &CompatibilityReport) -> (r: ConstellationResult<()>)
    ensures
        report.overall_compatibility == CompatibilityLevel::NotSupported ==> (r matches Err(
            ConstellationError::HardwareNotSupported { hardware },
        ) && hardware@ == "System does not meet minimum requirements for any phase"@),
        report.overall_compatibility != CompatibilityLevel::NotSupported ==> r is Ok,
{
    match report.overall_compatibility {
        CompatibilityLevel::NotSupported => Err(
            ConstellationError::HardwareNotSupported {
                hardware: String::from_str("System does not meet minimum requirements for any phase"),
            },
        ),
        _ => Ok(()),
    }
}

/// What to do after a processor failed on a frame.
#[derive(Debug)]
pub enum FrameErrorStep {
    /// Run the processor again up to `max_attempts` times, waiting `delay_ms`
    /// before the first attempt and multiplying the wait by `backoff_multiplier`.
    Retry { max_attempts: u32, delay_ms: u64, backoff_multiplier: u32 },
    /// Go on with the frame as it is.
    Continue,
    /// Process the frame with a new processor of this type.
    UseFallback(ProcessorType),
    /// Stop processing the frame with this error.
    Fail(ConstellationError),
}

/// The step for a recovery outcome: `None` when resilience is off (the
/// processor's error stands), else what the resilience manager answered.
pub open spec fn spec_frame_error_step(
    outcome: Option<ConstellationResult<RecoveryAction>>,
    error: ConstellationError,
    step: FrameErrorStep,
) -> bool {
    match outcome {
        None => step == FrameErrorStep::Fail(error),
        Some(Err(e)) => step == FrameErrorStep::Fail(e),
        Some(Ok(RecoveryAction::Retry { max_attempts, delay_ms, backoff_multiplier })) => step
            == FrameErrorStep::Retry { max_attempts, delay_ms, backoff_multiplier },
        Some(Ok(RecoveryAction::QualityReduced)) => step == FrameErrorStep::Continue,
        Some(Ok(RecoveryAction::Fallback { processor, .. })) => step == FrameErrorStep::UseFallback(processor),
        Some(Ok(RecoveryAction::GracefulShutdown { .. })) => step == FrameErrorStep::Fail(ConstellationError::EngineNotRunning),
        Some(Ok(RecoveryAction::LogAndContinue)) => step == FrameErrorStep::Continue,
    }
}

/// The step for a recovery outcome.
pub fn frame_error_step(outcome: Option<ConstellationResult<RecoveryAction>>, error: ConstellationError) -> (step: FrameErrorStep)
    ensures
        spec_frame_error_step(outcome, error, step),
        outcome matches Some(Ok(RecoveryAction::Fallback { processor, .. })) ==> step
            == FrameErrorStep::UseFallback(processor),
{
    match outcome {
        None => FrameErrorStep::Fail(error),
        Some(Err(e)) => FrameErrorStep::Fail(e),
        Some(Ok(RecoveryAction::Retry { max_attempts, delay_ms, backoff_multiplier })) => FrameErrorStep::Retry {
            max_attempts,
            delay_ms,
            backoff_multiplier,
        },
        Some(Ok(RecoveryAction::QualityReduced)) => FrameErrorStep::Continue,
        Some(Ok(RecoveryAction::Fallback { processor, .. })) => FrameErrorStep::UseFallback(processor),
        Some(Ok(RecoveryAction::GracefulShutdown { .. })) => FrameErrorStep::Fail(ConstellationError::EngineNotRunning),
        Some(Ok(RecoveryAction::LogAndContinue)) => FrameErrorStep::Continue,
    }
}

/// The step after a failed processor follows the recovery action: a
/// fallback action runs the frame through the very processor type it names,
/// a retry keeps its attempts, delay and multiplier, quality reduction and
/// logging go on with the frame, a shutdown stops the engine, and a failed
/// or absent recovery hands on its error. Exactly one step fits each outcome.
pub proof fn lemma_step_follows_action(
    outcome: Option<ConstellationResult<RecoveryAction>>,
    error: ConstellationError,
    step: FrameErrorStep,
    other: FrameErrorStep,
)
    requires
        spec_frame_error_step(outcome, error, step),
    ensures
        outcome matches Some(Ok(RecoveryAction::Fallback { processor, .. })) ==> step
            == FrameErrorStep::UseFallback(processor),
        outcome matches Some(Ok(RecoveryAction::Retry { max_attempts, delay_ms, backoff_multiplier })) ==> step
            == (FrameErrorStep::Retry { max_attempts, delay_ms, backoff_multiplier }),
        outcome matches Some(Ok(a)) && (a is QualityReduced || a is LogAndContinue) ==> step
            == FrameErrorStep::Continue,
        outcome matches Some(Ok(RecoveryAction::GracefulShutdown { .. })) ==> step == FrameErrorStep::Fail(
            ConstellationError::EngineNotRunning,
        ),
        outcome matches Some(Err(e)) ==> step == FrameErrorStep::Fail(e),
        outcome is None ==> step == FrameErrorStep::Fail(error),
        spec_frame_error_step(outcome, error, other) ==> other == step,
{
}

/// A GPU failure met with resilience on sends the frame through the
/// pass-through processor.
pub proof fn lemma_gpu_error_uses_pass_through(
    m0: ResilienceManager,
    m1: ResilienceManager,
    error: ConstellationError,
    outcome: ConstellationResult<RecoveryAction>,
    step: FrameErrorStep,
)
    requires
        error is GpuProcessingFailed,
        handles_error(m0, m1, error, outcome),
        spec_frame_error_step(Some(outcome), error, step),
    ensures
        step == FrameErrorStep::UseFallback(ProcessorType::PassThrough),
{
    lemma_handled_error_action(m0, m1, error, outcome);
}

/// The wait before the next retry: the current wait times the multiplier,
/// held at the largest value that fits.
pub fn next_retry_delay(delay_ms: u64, backoff_multiplier: u32) -> (next: u64)
    ensures
        next == (if delay_ms * backoff_multiplier > u64::MAX {
            u64::MAX as int
        } else {
            delay_ms * backoff_multiplier
        }),
{
    proof {
        vstd::arithmetic::mul::lemma_mul_upper_bound(
            delay_ms as int,
            u64::MAX as int,
            backoff_multiplier as int,
            u32::MAX as int,
        );
    }
    let product: u128 = delay_ms as u128 * backoff_multiplier as u128;
    if product > u64::MAX as u128 {
        u64::MAX
    } else {
        product as u64
    }
}

/// Whether a failed retry ends the frame with its error: once the attempts
/// made reach the limit.
pub fn retry_exhausted(attempts: u32, max_attempts: u32) -> (b: bool)
    ensures
        b == (attempts >= max_attempts),
{
    attempts >= max_attempts
}

/// The processing engine without its GPU context: the node graph, the chain
/// of frame processors, resilience, telemetry and the hardware check.
pub struct ConstellationEngine {
    node_graph: NodeGraph,
    frame_processors: Vec<FrameProcessor>,
    resilience_manager: Option<ResilienceManager>,
    telemetry_manager: TelemetryManager,
    hardware_checker: HardwareCompatibilityChecker,
}

impl ConstellationEngine {
    /// The node graph.
    pub closed spec fn spec_graph(&self) -> NodeGraph {
        self.node_graph
    }

    /// The telemetry.
    pub closed spec fn spec_telemetry(&self) -> TelemetryManager {
        self.telemetry_manager
    }

    /// The hardware checker.
    pub closed spec fn spec_checker(&self) -> HardwareCompatibilityChecker {
        self.hardware_checker
    }

    /// The chain of frame processors.
    pub closed spec fn spec_processors(&self) -> Seq<FrameProcessor> {
        self.frame_processors@
    }

    /// Whether resilience is on.
    pub closed spec fn spec_resilient(&self) -> bool {
        self.resilience_manager is Some
    }

    /// The resilience manager, when resilience is on.
    pub closed spec fn spec_resilience(&self) -> Option<ResilienceManager> {
        self.resilience_manager
    }

    /// The internal invariant.
    pub closed spec fn wf(&self) -> bool {
        &&& self.telemetry_manager.wf()
        &&& (self.resilience_manager matches Some(m) ==> m.wf())
        &&& acyclic(self.node_graph.spec_connections())
    }

    /// An engine for this machine (`arch` is the architecture the program was
    /// built for): the hardware is checked first, and a machine that supports
    /// no phase is refused.
    pub fn new(arch: &str) -> (r: ConstellationResult<Self>)
        ensures
            r matches Ok(e) ==> {
                &&& e.wf()
                &&& e.spec_graph().spec_nodes().dom().is_empty()
                &&& e.spec_graph().spec_connections().len() == 0
                &&& !e.spec_resilient()
                &&& e.spec_checker().compatibility_report matches Some(rep)
                &&& is_full_report(rep, e.spec_checker().system_info, e.spec_checker().requirements.phases@)
                &&& rep.overall_compatibility != CompatibilityLevel::NotSupported
            },
            r matches Err(ConstellationError::HardwareNotSupported { hardware }) ==> hardware@
                == "System does not meet minimum requirements for any phase"@,
            r is Err ==> r matches Err(ConstellationError::HardwareNotSupported { .. }),
            r is Err ==> exists|c: HardwareCompatibilityChecker, rep: CompatibilityReport|
                #[trigger] is_full_report(rep, c.system_info, c.requirements.phases@)
                && is_linux_system_info(c.system_info, c.system_info.cpu.cores, arch@)
                && is_standard_requirements(c.requirements)
                && rep.overall_compatibility == CompatibilityLevel::NotSupported,
    {
        let mut hardware_checker = match HardwareCompatibilityChecker::new(arch) {
            Ok(c) => c,
            Err(e) => {
                return Err(ConstellationError::HardwareNotSupported {
                    hardware: String::from_str("System does not meet minimum requirements for any phase"),
                });
            },
        };
        let ghost c0 = hardware_checker;
        let admitted = match hardware_checker.check_compatibility() {
            Ok(report) => check_hardware_admission(report),
            Err(e) => Err(ConstellationError::HardwareNotSupported {
                hardware: String::from_str("System does not meet minimum requirements for any phase"),
            }),
        };
        match admitted {
            Ok(()) => {},
            Err(e) => {
                proof {
                    let rep = hardware_checker.compatibility_report->0;
                    assert(is_full_report(rep, c0.system_info, c0.requirements.phases@));
                }
                return Err(e);
            },
        }
        Ok(ConstellationEngine {
            node_graph: NodeGraph::new(),
            frame_processors: Vec::new(),
            resilience_manager: None,
            telemetry_manager: TelemetryManager::new(),
            hardware_checker,
        })
    }

    /// Turn resilience on with a fresh resilience manager.
    pub fn enable_resilience(&mut self) -> (r: ConstellationResult<()>)
        requires
            old(self).wf(),
        ensures
            r is Ok,
            final(self).wf(),
            final(self).spec_resilient(),
            final(self).spec_graph() == old(self).spec_graph(),
            final(self).spec_telemetry() == old(self).spec_telemetry(),
    {
        self.resilience_manager = Some(ResilienceManager::new());
        Ok(())
    }

    /// Add a node of the given type under a fresh identifier, which is returned.
    pub fn add_node(&mut self, node_type: NodeType, config: NodeConfig) -> (r: ConstellationResult<NodeId>)
        requires
            old(self).wf(),
        ensures
            final(self).wf(),
            r matches Ok(id) && final(self).spec_graph().spec_nodes().contains_key(id)
                && final(self).spec_graph().spec_nodes()[id].id == id
                && final(self).spec_graph().spec_nodes()[id].node_type == node_type
                && final(self).spec_graph().spec_nodes().dom() == old(self).spec_graph().spec_nodes().dom().insert(id),
            final(self).spec_graph().spec_connections() == old(self).spec_graph().spec_connections(),
    {
        let node_id = new_uuid();
        let node = Node::new(node_id, node_type, config);
        self.node_graph.add_node(node);
        Ok(node_id)
    }

    /// Connect two nodes of the graph (see `NodeGraph::connect_nodes`).
    pub fn connect_nodes(&mut self, source_id: NodeId, target_id: NodeId, connection_type: ConnectionType) -> (r: ConstellationResult<()>)
        requires
            old(self).wf(),
        ensures
            final(self).wf(),
            !old(self).spec_graph().spec_nodes().contains_key(source_id) ==> (r matches Err(
                ConstellationError::NodeNotFound { node_id },
            ) && node_id == source_id),
            old(self).spec_graph().spec_nodes().contains_key(source_id) && !old(self).spec_graph().spec_nodes().contains_key(
                target_id,
            ) ==> (r matches Err(ConstellationError::NodeNotFound { node_id }) && node_id == target_id),
            old(self).spec_graph().spec_nodes().contains_key(source_id) && old(self).spec_graph().spec_nodes().contains_key(
                target_id,
            ) && reachable(old(self).spec_graph().spec_connections(), target_id, source_id) ==> (r matches Err(
                ConstellationError::ConnectionCycleDetected { path },
            ) && is_cycle_report(old(self).spec_graph().spec_connections(), source_id, target_id, path@)),
            old(self).spec_graph().spec_nodes().contains_key(source_id) && old(self).spec_graph().spec_nodes().contains_key(
                target_id,
            ) && !reachable(old(self).spec_graph().spec_connections(), target_id, source_id) ==> r is Ok
                && final(self).spec_graph().spec_connections() == old(self).spec_graph().spec_connections().push(
                (source_id, target_id, connection_type),
            ),
            r is Err ==> final(self).spec_graph().spec_connections() == old(self).spec_graph().spec_connections(),
            final(self).spec_graph().spec_nodes() == old(self).spec_graph().spec_nodes(),
    {
        self.node_graph.connect_nodes(source_id, target_id, connection_type)
    }

    /// The node graph.
    pub fn graph(&self) -> (g: &NodeGraph)
        ensures
            *g == self.spec_graph(),
    {
        &self.node_graph
    }

    /// The chain of frame processors.
    pub fn frame_processors(&self) -> (v: &Vec<FrameProcessor>)
        ensures
            v@ == self.spec_processors(),
    {
        &self.frame_processors
    }

    /// Decide what to do after a processor failed with `error` on a frame:
    /// the error goes to the telemetry; with resilience on, the resilience
    /// manager picks the step, else the error stands.
    pub fn handle_processor_error(&mut self, error: ConstellationError) -> (step: FrameErrorStep)
        requires
            old(self).wf(),
        ensures
            final(self).wf(),
            exists|ts: u64| #[trigger] crate::telemetry::is_recorded_error(
                old(self).spec_telemetry(),
                final(self).spec_telemetry(),
                error,
                None,
                ts,
            ),
            old(self).spec_resilience() is None ==> final(self).spec_resilience() is None
                && step == FrameErrorStep::Fail(error),
            old(self).spec_resilience() matches Some(m0) ==> final(self).spec_resilience() matches Some(m1)
                && exists|outcome: ConstellationResult<RecoveryAction>|
                #[trigger] handles_error(m0, m1, error, outcome) && spec_frame_error_step(Some(outcome), error, step),
            old(self).spec_resilience() is Some && error is GpuProcessingFailed ==> step
                == FrameErrorStep::UseFallback(ProcessorType::PassThrough),
            final(self).spec_graph() == old(self).spec_graph(),
            final(self).spec_resilient() == old(self).spec_resilient(),
    {
        let ghost t0 = self.telemetry_manager;
        self.telemetry_manager.record_error(&error, None);
        let ghost t1 = self.telemetry_manager;
        let ghost mut o: ConstellationResult<RecoveryAction> = Ok(RecoveryAction::LogAndContinue);
        let step = match &mut self.resilience_manager {
            Some(rm) => {
                let outcome = rm.handle_error(&error);
                proof {
                    o = outcome;
                }
                frame_error_step(Some(outcome), error)
            },
            None => frame_error_step(None, error),
        };
        proof {
            if old(self).resilience_manager is Some {
                assert(handles_error(old(self).resilience_manager->0, self.resilience_manager->0, error, o));
                assert(spec_frame_error_step(Some(o), error, step));
                if error is GpuProcessingFailed {
                    lemma_gpu_error_uses_pass_through(
                        old(self).resilience_manager->0,
                        self.resilience_manager->0,
                        error,
                        o,
                        step,
                    );
                }
            }
            let ts = choose|ts: u64| #[trigger] crate::telemetry::is_recorded_error(t0, t1, error, None, ts);
            assert(self.telemetry_manager == t1);
            assert(crate::telemetry::is_recorded_error(old(self).spec_telemetry(), self.spec_telemetry(), error, None, ts));
        }
        step
    }

    /// Open the telemetry span of a frame: a span named `frame_processing`,
    /// with no parent and tagged with the frame's identifier, filed under the
    /// returned identifier; the other open spans, the finished spans, the
    /// metrics and the event log stay as they were.
    pub fn start_frame(&mut self, frame_id: NodeId) -> (span: NodeId)
        requires
            old(self).wf(),
        ensures
            final(self).wf(),
            final(self).spec_telemetry().spec_open_spans().dom()
                == old(self).spec_telemetry().spec_open_spans().dom().insert(span),
            final(self).spec_telemetry().spec_open_spans()[span].name@ == "frame_processing"@,
            final(self).spec_telemetry().spec_open_spans()[span].parent_id is None,
            final(self).spec_telemetry().spec_open_spans()[span].tags@.map_values(
                |t: (String, String)| (t.0@, t.1@),
            ) =~= seq![("frame_id"@, uuid_hyphenated(frame_id))],
            forall|k: NodeId| k != span && old(self).spec_telemetry().spec_open_spans().contains_key(k)
                ==> final(self).spec_telemetry().spec_open_spans()[k]
                    == old(self).spec_telemetry().spec_open_spans()[k],
            final(self).spec_telemetry().spec_completed_spans() == old(self).spec_telemetry().spec_completed_spans(),
            final(self).spec_telemetry().spec_metrics() == old(self).spec_telemetry().spec_metrics(),
            final(self).spec_telemetry().spec_events() == old(self).spec_telemetry().spec_events(),
            final(self).spec_graph() == old(self).spec_graph(),
            final(self).spec_resilient() == old(self).spec_resilient(),
    {
        self.telemetry_manager.start_frame_processing(frame_id)
    }

    /// Close the telemetry span of a frame: the span `span`, if open, leaves
    /// the open spans and becomes the newest finished span (the oldest goes
    /// once more than 1000 are kept); an unknown identifier changes no span.
    /// The metrics and the event log stay as they were.
    pub fn end_frame(&mut self, span: NodeId)
        requires
            old(self).wf(),
        ensures
            final(self).wf(),
            final(self).spec_telemetry().spec_open_spans() == old(self).spec_telemetry().spec_open_spans().remove(span),
            !old(self).spec_telemetry().spec_open_spans().contains_key(span)
                ==> final(self).spec_telemetry().spec_completed_spans()
                    == old(self).spec_telemetry().spec_completed_spans(),
            old(self).spec_telemetry().spec_open_spans().contains_key(span) ==> {
                let c = final(self).spec_telemetry().spec_completed_spans().last();
                &&& final(self).spec_telemetry().spec_completed_spans() == push_capped(
                    old(self).spec_telemetry().spec_completed_spans(),
                    c,
                    MAX_COMPLETED_SPANS as nat,
                )
                &&& c.id == span
                &&& c.name == old(self).spec_telemetry().spec_open_spans()[span].name
            },
            final(self).spec_telemetry().spec_metrics() == old(self).spec_telemetry().spec_metrics(),
            final(self).spec_telemetry().spec_events() == old(self).spec_telemetry().spec_events(),
            final(self).spec_graph() == old(self).spec_graph(),
            final(self).spec_resilient() == old(self).spec_resilient(),
    {
        self.telemetry_manager.end_span(span);
    }

    /// Account for a frame that went through the chain in `processing_ns`
    /// nanoseconds: the telemetry counts it (in whole microseconds) and, with
    /// resilience on, the performance monitor records its time.
    pub fn finish_frame(&mut self, processing_ns: u64)
        requires
            old(self).wf(),
        ensures
            final(self).wf(),
            final(self).spec_telemetry().spec_metrics().frame_count
                == old(self).spec_telemetry().spec_metrics().frame_count.wrapping_add(1),
            final(self).spec_telemetry().spec_metrics().total_processing_time
                == old(self).spec_telemetry().spec_metrics().total_processing_time.wrapping_add(processing_ns / 1000),
            final(self).spec_graph() == old(self).spec_graph(),
            final(self).spec_resilient() == old(self).spec_resilient(),
    {
        self.telemetry_manager.record_frame_processed(processing_ns / 1000);
        match &mut self.resilience_manager {
            Some(rm) => rm.monitor_performance(processing_ns),
            None => {},
        }
    }

    /// Record the state of the system (see `TelemetryManager::record_system_state`).
    pub fn record_system_state(&mut self, memory_usage: u64, gpu_usage: u32)
        requires
            old(self).wf(),
        ensures
            final(self).wf(),
            final(self).spec_telemetry().spec_metrics().memory_usage_peak == (if memory_usage
                > old(self).spec_telemetry().spec_metrics().memory_usage_peak {
                memory_usage
            } else {
                old(self).spec_telemetry().spec_metrics().memory_usage_peak
            }),
            final(self).spec_graph() == old(self).spec_graph(),
    {
        self.telemetry_manager.record_system_state(memory_usage, gpu_usage);
    }

    /// The figures of the session.
    pub fn get_session_stats(&self) -> (st: SessionStats)
        requires
            self.spec_telemetry().spec_metrics().frame_count == 0
                || (self.spec_telemetry().spec_metrics().frame_count as u32) != 0,
        ensures
            exists|up: u64| #[trigger] is_session_stats(
                st,
                self.spec_telemetry().spec_metrics(),
                self.spec_telemetry().spec_session_id(),
                up,
            ),
    {
        self.telemetry_manager.get_session_stats()
    }

    /// The telemetry.
    pub fn telemetry(&self) -> (t: &TelemetryManager)
        ensures
            *t == self.spec_telemetry(),
    {
        &self.telemetry_manager
    }

    /// The description of the machine.
    pub fn get_system_info(&self) -> (s: &SystemInfo)
        ensures
            *s == self.spec_checker().system_info,
    {
        self.hardware_checker.get_system_info()
    }

    /// The hardware compatibility report.
    pub fn get_compatibility_report(&self) -> (r: Option<&CompatibilityReport>)
        ensures
            r matches Some(x) ==> self.spec_checker().compatibility_report == Some(*x),
            r is None <==> self.spec_checker().compatibility_report is None,
    {
        self.hardware_checker.get_compatibility_report()
    }

    /// The phases the machine supports (none before a report exists).
    pub fn get_supported_phases(&self) -> (v: Vec<String>)
        ensures
            self.spec_checker().compatibility_report matches Some(rep) ==> v@ == rep.supported_phases@,
            self.spec_checker().compatibility_report is None ==> v@.len() == 0,
    {
        match self.hardware_checker.get_compatibility_report() {
            Some(report) => {
                let mut v: Vec<String> = Vec::new();
                let n = report.supported_phases.len();
                let mut i: usize = 0;
                while i < n
                    invariant
                        n == report.supported_phases@.len(),
                        i <= n,
                        v@ =~= report.supported_phases@.take(i as int),
                    decreases n - i,
                {
                    v.push(report.supported_phases[i].clone());
                    proof {
                        assert(report.supported_phases@.take(i + 1) =~= report.supported_phases@.take(i as int).push(
                            report.supported_phases@[i as int],
                        ));
                    }
                    i = i + 1;
                }
                proof {
                    assert(report.supported_phases@.take(n as int) =~= report.supported_phases@);
                }
                v
            },
            None => Vec::new(),
        }
    }

    /// Whether the machine supports the phase `phase`.
    pub fn can_run_phase(&self, phase: &str) -> (b: bool)
        ensures
            b == (self.spec_checker().compatibility_report matches Some(rep) && texts(
                rep.supported_phases@,
            ).contains(phase@)),
    {
        let phases = self.get_supported_phases();
        let n = phases.len();
        let mut i: usize = 0;
        while i < n
            invariant
                n == phases@.len(),
                i <= n,
                forall|j: int| 0 <= j < i ==> phases@[j]@ != phase@,
                self.hardware_checker.compatibility_report matches Some(rep) ==> phases@ == rep.supported_phases@,
                self.hardware_checker.compatibility_report is None ==> n == 0,
            decreases n - i,
        {
            if same_text(phases[i].as_str(), phase) {
                proof {
                    let rep = self.hardware_checker.compatibility_report.unwrap();
                    assert(texts(rep.supported_phases@)[i as int] == phase@);
                }
                return true;
            }
            i = i + 1;
        }
        proof {
            if texts(phases@).contains(phase@) {
                let k = choose|k: int| 0 <= k < texts(phases@).len() && texts(phases@)[k] == phase@;
                assert(phases@[k]@ == phase@);
            }
        }
        false
    }
}

} // verus!
