use vstd::prelude::*;
use crate::error::ConstellationError;
use crate::error::ConstellationResult;
use crate::types::{NodeType, ProcessorType};

verus! {

/// Overall health of the system.
#[derive(Debug)]
pub enum SystemStatus {
    Healthy,
    Degraded(Vec<String>),
    Critical(String),
    FailSafe,
}

/// Detailed error classes used to pick a recovery strategy.
#[derive(Debug, Clone, Copy, PartialEq, Eq, Structural)]
pub enum ErrorCategory {
    FrameProcessing,
    MemoryAllocation,
    GpuProcessing,
    NetworkConnection,
    NodeProcessing,
    ResourceExhaustion,
    HardwareFailure,
}

/// How to recover from a class of errors. Durations are in milliseconds.
#[derive(Debug)]
pub enum RecoveryStrategy {
    /// Retry the failed step, waiting `delay_ms` and multiplying the wait by
    /// `backoff_multiplier` after each attempt.
    Retry { max_attempts: u32, delay_ms: u64, backoff_multiplier: u32 },
    /// Continue at reduced quality.
    QualityDegradation {
        reduced_resolution: Option<(u32, u32)>,
        reduced_framerate: Option<u32>,
        disable_effects: Vec<ProcessorType>,
    },
    /// Switch to a simpler processor.
    Fallback { fallback_processor: ProcessorType, fallback_nodes: Vec<NodeType> },
    /// Shut the system down in order.
    GracefulShutdown { preserve_data: bool, notify_users: bool, cleanup_timeout_ms: u64 },
}

/// Two strategies agree field by field (lists compared by content).
pub open spec fn same_strategy(a: RecoveryStrategy, b: RecoveryStrategy) -> bool {
    match (a, b) {
        (
            RecoveryStrategy::Retry { max_attempts: m1, delay_ms: d1, backoff_multiplier: b1 },
            RecoveryStrategy::Retry { max_attempts: m2, delay_ms: d2, backoff_multiplier: b2 },
        ) => m1 == m2 && d1 == d2 && b1 == b2,
        (
            RecoveryStrategy::QualityDegradation {
                reduced_resolution: r1,
                reduced_framerate: f1,
                disable_effects: e1,
            },
            RecoveryStrategy::QualityDegradation {
                reduced_resolution: r2,
                reduced_framerate: f2,
                disable_effects: e2,
            },
        ) => r1 == r2 && f1 == f2 && e1@ == e2@,
        (
            RecoveryStrategy::Fallback { fallback_processor: p1, fallback_nodes: n1 },
            RecoveryStrategy::Fallback { fallback_processor: p2, fallback_nodes: n2 },
        ) => p1 == p2 && n1@ == n2@,
        (
            RecoveryStrategy::GracefulShutdown {
                preserve_data: p1,
                notify_users: u1,
                cleanup_timeout_ms: t1,
            },
            RecoveryStrategy::GracefulShutdown {
                preserve_data: p2,
                notify_users: u2,
                cleanup_timeout_ms: t2,
            },
        ) => p1 == p2 && u1 == u2 && t1 == t2,
        _ => false,
    }
}

impl Clone for RecoveryStrategy {
    fn clone(&self) -> (r: Self)
        ensures
            same_strategy(r, *self),
    {
        match self {
            RecoveryStrategy::Retry { max_attempts, delay_ms, backoff_multiplier } => {
                RecoveryStrategy::Retry {
                    max_attempts: *max_attempts,
                    delay_ms: *delay_ms,
                    backoff_multiplier: *backoff_multiplier,
                }
            },
            RecoveryStrategy::QualityDegradation {
                reduced_resolution,
                reduced_framerate,
                disable_effects,
            } => {
                let effects = disable_effects.clone();
                assert(effects@ =~= disable_effects@);
                let resolution = match reduced_resolution {
                    Some(r) => Some((r.0, r.1)),
                    None => None,
                };
                RecoveryStrategy::QualityDegradation {
                    reduced_resolution: resolution,
                    reduced_framerate: *reduced_framerate,
                    disable_effects: effects,
                }
            },
            RecoveryStrategy::Fallback { fallback_processor, fallback_nodes } => {
                let nodes = fallback_nodes.clone();
                assert(nodes@ =~= fallback_nodes@);
                RecoveryStrategy::Fallback { fallback_processor: *fallback_processor, fallback_nodes: nodes }
            },
            RecoveryStrategy::GracefulShutdown { preserve_data, notify_users, cleanup_timeout_ms } => {
                RecoveryStrategy::GracefulShutdown {
                    preserve_data: *preserve_data,
                    notify_users: *notify_users,
                    cleanup_timeout_ms: *cleanup_timeout_ms,
                }
            },
        }
    }
}

/// What the caller should do after an error.
#[derive(Debug)]
pub enum RecoveryAction {
    Retry { max_attempts: u32, delay_ms: u64, backoff_multiplier: u32 },
    QualityReduced,
    Fallback { processor: ProcessorType, nodes: Vec<NodeType> },
    GracefulShutdown { preserve_data: bool, cleanup_timeout_ms: u64 },
    LogAndContinue,
}

/// Failure counters and the last assessed status.
#[derive(Debug)]
pub struct HealthMonitor {
    pub frame_processing_failures: u64,
    pub memory_allocation_failures: u64,
    pub gpu_processing_failures: u64,
    pub connection_failures: u64,
    /// Time of the last successful frame (milliseconds), if any was recorded.
    pub last_successful_frame: Option<u64>,
    pub system_status: SystemStatus,
}

/// A counter after one more event; counters wrap around like atomic additions.
pub open spec fn bumped(c: u64) -> u64 {
    if c == u64::MAX {
        0
    } else {
        (c + 1) as u64
    }
}

fn bump(c: u64) -> (r: u64)
    ensures
        r == bumped(c),
{
    if c == u64::MAX {
        0
    } else {
        c + 1
    }
}

impl HealthMonitor {
    /// A monitor with every counter at zero and a healthy status.
    pub fn new() -> (m: Self)
        ensures
            m.frame_processing_failures == 0,
            m.memory_allocation_failures == 0,
            m.gpu_processing_failures == 0,
            m.connection_failures == 0,
            m.last_successful_frame is None,
            m.system_status is Healthy,
    {
        HealthMonitor {
            frame_processing_failures: 0,
            memory_allocation_failures: 0,
            gpu_processing_failures: 0,
            connection_failures: 0,
            last_successful_frame: None,
            system_status: SystemStatus::Healthy,
        }
    }

    /// Replace the recorded status.
    pub fn update_status(&mut self, status: SystemStatus)
        ensures
            final(self).system_status == status,
            final(self).frame_processing_failures == old(self).frame_processing_failures,
            final(self).memory_allocation_failures == old(self).memory_allocation_failures,
            final(self).gpu_processing_failures == old(self).gpu_processing_failures,
            final(self).connection_failures == old(self).connection_failures,
            final(self).last_successful_frame == old(self).last_successful_frame,
    {
        self.system_status = status;
    }

    /// Frame, memory and GPU failures together.
    pub open spec fn spec_failure_total(&self) -> int {
        self.frame_processing_failures + self.memory_allocation_failures
            + self.gpu_processing_failures
    }
}

/// Quality modes, from full quality to emergency operation.
#[derive(Debug, Clone, Copy, PartialEq, Eq, Structural)]
pub enum FallbackMode {
    Normal,
    ReducedQuality,
    SafeMode,
    EmergencyMode,
}

/// A snapshot of the settings that degraded modes change.
#[derive(Debug)]
pub struct SystemConfiguration {
    pub resolution: (u32, u32),
    pub framerate: u32,
    pub enabled_effects: Vec<ProcessorType>,
    pub gpu_acceleration: bool,
    pub memory_limit: u64,
}

/// Tracks the quality mode and a degradation level from 0 (best) to 10 (worst).
#[derive(Debug)]
pub struct FallbackModeManager {
    pub current_mode: FallbackMode,
    pub original_config: Option<SystemConfiguration>,
    pub degradation_level: u8,
}

/// The quality mode that a degradation level calls for.
pub open spec fn mode_for_level(level: u8, current: FallbackMode) -> FallbackMode {
    if 1 <= level <= 3 {
        FallbackMode::ReducedQuality
    } else if 4 <= level <= 7 {
        FallbackMode::SafeMode
    } else if 8 <= level <= 10 {
        FallbackMode::EmergencyMode
    } else {
        current
    }
}

/// One level worse, capped at 10.
pub open spec fn next_level(level: u8) -> u8 {
    if level + 1 < 10 {
        (level + 1) as u8
    } else {
        10
    }
}

impl FallbackModeManager {
    /// The degradation level never exceeds 10.
    pub open spec fn wf(&self) -> bool {
        self.degradation_level <= 10
    }

    /// Normal mode, level 0, no saved configuration.
    pub fn new() -> (m: Self)
        ensures
            m.wf(),
            m.current_mode == FallbackMode::Normal,
            m.original_config is None,
            m.degradation_level == 0,
    {
        FallbackModeManager { current_mode: FallbackMode::Normal, original_config: None, degradation_level: 0 }
    }

    /// Enter reduced-quality mode one level worse, saving the default
    /// configuration the first time.
    pub fn activate_degraded_mode(
        &mut self,
        reduced_resolution: Option<(u32, u32)>,
        reduced_framerate: Option<u32>,
        disable_effects: Vec<ProcessorType>,
    ) -> (r: ConstellationResult<()>)
        requires
            old(self).wf(),
        ensures
            r is Ok,
            final(self).wf(),
            final(self).current_mode == FallbackMode::ReducedQuality,
            final(self).degradation_level == next_level(old(self).degradation_level),
            old(self).original_config is Some ==> final(self).original_config == old(self).original_config,
            old(self).original_config is None ==> (final(self).original_config matches Some(c)
                && c.resolution == (1920u32, 1080u32) && c.framerate == 60 && c.enabled_effects@.len()
                == 0 && c.gpu_acceleration && c.memory_limit == 1024 * 1024 * 1024),
    {
        if self.original_config.is_none() {
            self.original_config = Some(
                SystemConfiguration {
                    resolution: (1920, 1080),
                    framerate: 60,
                    enabled_effects: Vec::new(),
                    gpu_acceleration: true,
                    memory_limit: 1024 * 1024 * 1024,
                },
            );
        }
        self.current_mode = FallbackMode::ReducedQuality;
        let next = self.degradation_level + 1;
        self.degradation_level = if next < 10 {
            next
        } else {
            10
        };
        Ok(())
    }

    /// Degrade one more level (capped at 10) and switch to the mode the level calls for.
    pub fn increase_degradation_level(&mut self) -> (r: ConstellationResult<()>)
        requires
            old(self).wf(),
        ensures
            r is Ok,
            final(self).wf(),
            final(self).degradation_level == next_level(old(self).degradation_level),
            final(self).current_mode == mode_for_level(
                final(self).degradation_level,
                old(self).current_mode,
            ),
            final(self).original_config == old(self).original_config,
    {
        let next = self.degradation_level + 1;
        self.degradation_level = if next < 10 {
            next
        } else {
            10
        };
        let level = self.degradation_level;
        if 1 <= level && level <= 3 {
            self.current_mode = FallbackMode::ReducedQuality;
        } else if 4 <= level && level <= 7 {
            self.current_mode = FallbackMode::SafeMode;
        } else if 8 <= level && level <= 10 {
            self.current_mode = FallbackMode::EmergencyMode;
        }
        Ok(())
    }
}

/// Degradation never goes back: each step raises the level by one up to 10,
/// and after `increase_degradation_level` the mode is the one the level calls for.
pub proof fn lemma_degradation_monotone(level: u8)
    requires
        level <= 10,
    ensures
        level <= next_level(level) <= 10,
        level < 10 ==> next_level(level) == level + 1,
        mode_for_level(next_level(level), FallbackMode::Normal) != FallbackMode::Normal,
{
}

/// The processing times kept: the last 100 at most, in nanoseconds.
pub open spec fn record_window(times: Seq<u64>, t: u64) -> Seq<u64> {
    let pushed = times.push(t);
    if pushed.len() > 100 {
        pushed.subrange(1, pushed.len() as int)
    } else {
        pushed
    }
}

/// Sum of a sequence of durations.
pub open spec fn sum_times(s: Seq<u64>) -> int
    decreases s.len(),
{
    if s.len() == 0 {
        0
    } else {
        sum_times(s.drop_last()) + s.last()
    }
}

/// Whether the average of the last ten processing times (rounded down to the
/// nanosecond) exceeds 33 ms, the budget of a 30 fps frame.
pub open spec fn spec_degraded(times: Seq<u64>) -> bool {
    times.len() >= 10 && sum_times(times.subrange(times.len() - 10, times.len() as int)) / 10
        > 33_000_000
}

/// The degradation verdict looks only at the last ten recorded times: with
/// any older times before them, it holds exactly when those ten average
/// (rounded down) more than 33 ms; with fewer than ten times it never holds.
pub proof fn lemma_degraded_by_last_ten(older: Seq<u64>, last: Seq<u64>)
    requires
        last.len() == 10,
    ensures
        spec_degraded(older + last) == ((last[0] + last[1] + last[2] + last[3] + last[4] + last[5] + last[6]
            + last[7] + last[8] + last[9]) / 10 > 33_000_000),
        forall|t: Seq<u64>| t.len() < 10 ==> !#[trigger] spec_degraded(t),
{
    let all = older + last;
    assert(all.subrange(all.len() - 10, all.len() as int) =~= last);
    reveal_with_fuel(sum_times, 11);
    assert(last.drop_last().drop_last().drop_last().drop_last().drop_last().drop_last().drop_last().drop_last()
        .drop_last().drop_last().len() == 0);
    assert(sum_times(last) == last[0] + last[1] + last[2] + last[3] + last[4] + last[5] + last[6] + last[7]
        + last[8] + last[9]);
}

/// Recent frame processing times (nanoseconds) and memory use.
#[derive(Debug)]
pub struct PerformanceMonitor {
    pub frame_processing_times: Vec<u64>,
    pub memory_usage_history: Vec<u64>,
}

proof fn lemma_sum_times_bound(s: Seq<u64>)
    ensures
        0 <= sum_times(s) <= s.len() * u64::MAX,
    decreases s.len(),
{
    if s.len() > 0 {
        lemma_sum_times_bound(s.drop_last());
    }
}

impl PerformanceMonitor {
    /// At most 100 processing times are kept.
    pub open spec fn wf(&self) -> bool {
        self.frame_processing_times@.len() <= 100
    }

    pub fn new() -> (m: Self)
        ensures
            m.wf(),
            m.frame_processing_times@.len() == 0,
            m.memory_usage_history@.len() == 0,
    {
        PerformanceMonitor { frame_processing_times: Vec::new(), memory_usage_history: Vec::new() }
    }

    /// Record one frame's processing time, keeping the last 100.
    pub fn record_frame_time(&mut self, processing_time_ns: u64)
        requires
            old(self).wf(),
        ensures
            final(self).wf(),
            final(self).frame_processing_times@ == record_window(
                old(self).frame_processing_times@,
                processing_time_ns,
            ),
            final(self).memory_usage_history == old(self).memory_usage_history,
    {
        self.frame_processing_times.push(processing_time_ns);
        if self.frame_processing_times.len() > 100 {
            self.frame_processing_times.remove(0);
        }
        proof {
            let pushed = old(self).frame_processing_times@.push(processing_time_ns);
            if pushed.len() > 100 {
                assert(self.frame_processing_times@ =~= pushed.subrange(1, pushed.len() as int));
            }
        }
    }

    /// Whether the last ten frames took more than 33 ms on average.
    pub fn is_performance_degraded(&self) -> (b: bool)
        ensures
            b == spec_degraded(self.frame_processing_times@),
    {
        let n = self.frame_processing_times.len();
        if n < 10 {
            return false;
        }
        let ghost s = self.frame_processing_times@;
        let ghost recent = s.subrange(n - 10, n as int);
        let mut total: u128 = 0;
        let mut i: usize = n - 10;
        while i < n
            invariant
                n == s.len(),
                n >= 10,
                s == self.frame_processing_times@,
                recent == s.subrange(n - 10, n as int),
                n - 10 <= i <= n,
                total == sum_times(s.subrange(n - 10, i as int)),
                total <= (i - (n - 10)) * u64::MAX,
            decreases n - i,
        {
            proof {
                assert(s.subrange(n - 10, i + 1).drop_last() =~= s.subrange(n - 10, i as int));
            }
            total = total + self.frame_processing_times[i] as u128;
            i = i + 1;
        }
        total / 10 > 33_000_000
    }
}

/// Which detailed class an engine error belongs to.
pub open spec fn spec_classify(error: ConstellationError) -> ErrorCategory {
    match error {
        ConstellationError::FrameProcessingFailed { .. }
        | ConstellationError::FrameDataCorrupted { .. }
        | ConstellationError::FrameProcessingTimeout { .. } => ErrorCategory::FrameProcessing,
        ConstellationError::InsufficientMemory { .. }
        | ConstellationError::ResourceAllocationFailed { .. } => ErrorCategory::MemoryAllocation,
        ConstellationError::GpuProcessingFailed { .. } => ErrorCategory::GpuProcessing,
        ConstellationError::NetworkConnectionFailed { .. }
        | ConstellationError::DataTransmissionFailed { .. } => ErrorCategory::NetworkConnection,
        ConstellationError::NodeProcessingFailed { .. }
        | ConstellationError::NodeNotFound { .. } => ErrorCategory::NodeProcessing,
        ConstellationError::ResourceLimitExceeded { .. } => ErrorCategory::ResourceExhaustion,
        ConstellationError::HardwareNotSupported { .. }
        | ConstellationError::DriverIncompatible { .. }
        | ConstellationError::DeviceAccessFailed { .. } => ErrorCategory::HardwareFailure,
        _ => ErrorCategory::NodeProcessing,
    }
}

/// Whether the detailed class `c` has a default recovery strategy.
pub open spec fn has_default_strategy(c: ErrorCategory) -> bool {
    c == ErrorCategory::FrameProcessing || c == ErrorCategory::MemoryAllocation || c
        == ErrorCategory::GpuProcessing || c == ErrorCategory::HardwareFailure
}

/// `s` is the default recovery strategy of class `c`: retry three times from
/// 100 ms doubling for frame errors, 720p at 30 fps without blur for memory
/// errors, pass-through processing for GPU errors, and an orderly shutdown
/// (keeping data, telling users, 30 s to clean up) for hardware failures.
pub open spec fn is_default_strategy(c: ErrorCategory, s: RecoveryStrategy) -> bool {
    match c {
        ErrorCategory::FrameProcessing => s == RecoveryStrategy::Retry {
            max_attempts: 3,
            delay_ms: 100,
            backoff_multiplier: 2,
        },
        ErrorCategory::MemoryAllocation => s matches RecoveryStrategy::QualityDegradation {
            reduced_resolution,
            reduced_framerate,
            disable_effects,
        } && reduced_resolution == Some((1280u32, 720u32)) && reduced_framerate == Some(30u32)
            && disable_effects@ == seq![ProcessorType::Blur],
        ErrorCategory::GpuProcessing => s matches RecoveryStrategy::Fallback {
            fallback_processor,
            fallback_nodes,
        } && fallback_processor == ProcessorType::PassThrough && fallback_nodes@.len() == 0,
        ErrorCategory::HardwareFailure => s == RecoveryStrategy::GracefulShutdown {
            preserve_data: true,
            notify_users: true,
            cleanup_timeout_ms: 30_000,
        },
        _ => false,
    }
}

/// The action that strategy `s` produces.
pub open spec fn action_of(s: RecoveryStrategy, a: RecoveryAction) -> bool {
    match s {
        RecoveryStrategy::Retry { max_attempts, delay_ms, backoff_multiplier } => a
            == RecoveryAction::Retry { max_attempts, delay_ms, backoff_multiplier },
        RecoveryStrategy::QualityDegradation { .. } => a is QualityReduced,
        RecoveryStrategy::Fallback { fallback_processor, fallback_nodes } => a matches RecoveryAction::Fallback {
            processor,
            nodes,
        } && processor == fallback_processor && nodes@ == fallback_nodes@,
        RecoveryStrategy::GracefulShutdown { preserve_data, cleanup_timeout_ms, .. } => a
            == RecoveryAction::GracefulShutdown { preserve_data, cleanup_timeout_ms },
    }
}

/// The health status that the failure total calls for.
pub open spec fn status_for(total: int, s: SystemStatus) -> bool {
    if total == 0 {
        s is Healthy
    } else if total < 5 {
        s matches SystemStatus::Degraded(v) && v@.len() == 1 && v@[0]@ == "Minor errors detected"@
    } else if total < 20 {
        s matches SystemStatus::Critical(m) && m@ == "Multiple system errors"@
    } else {
        s is FailSafe
    }
}

/// The counters after one failure of class `c`.
pub open spec fn counted(before: HealthMonitor, after: HealthMonitor, c: ErrorCategory) -> bool {
    &&& after.frame_processing_failures == if c == ErrorCategory::FrameProcessing {
        bumped(before.frame_processing_failures)
    } else {
        before.frame_processing_failures
    }
    &&& after.memory_allocation_failures == if c == ErrorCategory::MemoryAllocation {
        bumped(before.memory_allocation_failures)
    } else {
        before.memory_allocation_failures
    }
    &&& after.gpu_processing_failures == if c == ErrorCategory::GpuProcessing {
        bumped(before.gpu_processing_failures)
    } else {
        before.gpu_processing_failures
    }
    &&& after.connection_failures == if c == ErrorCategory::NetworkConnection {
        bumped(before.connection_failures)
    } else {
        before.connection_failures
    }
    &&& after.last_successful_frame == before.last_successful_frame
}

/// The counter `after` is `before` plus one, wrapping at the top of `u64`.
pub open spec fn one_more(before: u64, after: u64) -> bool {
    after as int == (before as int + 1) % 0x1_0000_0000_0000_0000
}

/// Handling an engine error gives the recovery action of its kind and counts
/// it against the matching failure counter:
/// - frame failures, corrupted frames and timeouts: retry 3 times from
///   100 ms, doubling; one more frame failure;
/// - short memory and failed resource allocation: reduced quality; one more
///   memory failure;
/// - GPU failures: fall back to pass-through processing with no nodes; one
///   more GPU failure;
/// - unsupported hardware, incompatible drivers and device access failures:
///   an orderly shutdown keeping data with 30 s to clean up;
/// - any other error: log and continue.
/// The GPU failure counter moves exactly on a GPU failure.
pub proof fn lemma_handled_error_action(
    m0: ResilienceManager,
    m1: ResilienceManager,
    e: ConstellationError,
    r: ConstellationResult<RecoveryAction>,
)
    requires
        handles_error(m0, m1, e, r),
    ensures
        (e is FrameProcessingFailed || e is FrameDataCorrupted || e is FrameProcessingTimeout) ==> r
            == Ok::<RecoveryAction, ConstellationError>(
            RecoveryAction::Retry { max_attempts: 3, delay_ms: 100, backoff_multiplier: 2 },
        ) && one_more(m0.spec_health().frame_processing_failures, m1.spec_health().frame_processing_failures),
        (e is InsufficientMemory || e is ResourceAllocationFailed) ==> r == Ok::<
            RecoveryAction,
            ConstellationError,
        >(RecoveryAction::QualityReduced) && one_more(
            m0.spec_health().memory_allocation_failures,
            m1.spec_health().memory_allocation_failures,
        ),
        e is GpuProcessingFailed ==> (r matches Ok(RecoveryAction::Fallback { processor, nodes })
            && processor == ProcessorType::PassThrough && nodes@.len() == 0) && one_more(
            m0.spec_health().gpu_processing_failures,
            m1.spec_health().gpu_processing_failures,
        ),
        (e is HardwareNotSupported || e is DriverIncompatible || e is DeviceAccessFailed) ==> r == Ok::<
            RecoveryAction,
            ConstellationError,
        >(RecoveryAction::GracefulShutdown { preserve_data: true, cleanup_timeout_ms: 30_000 }),
        !(e is FrameProcessingFailed || e is FrameDataCorrupted || e is FrameProcessingTimeout
            || e is InsufficientMemory || e is ResourceAllocationFailed || e is GpuProcessingFailed
            || e is HardwareNotSupported || e is DriverIncompatible || e is DeviceAccessFailed) ==> r == Ok::<
            RecoveryAction,
            ConstellationError,
        >(RecoveryAction::LogAndContinue),
        e is GpuProcessingFailed <==> m1.spec_health().gpu_processing_failures
            != m0.spec_health().gpu_processing_failures,
{
    let c = spec_classify(e);
    if has_default_strategy(c) {
        let s = choose|s: RecoveryStrategy| #[trigger] is_default_strategy(c, s) && action_of(s, r->Ok_0);
        assert(is_default_strategy(c, s) && action_of(s, r->Ok_0));
    }
}

/// Error handling with automatic recovery: classifies errors, keeps failure
/// statistics and health, and chooses a recovery action.
pub struct ResilienceManager {
    health_monitor: HealthMonitor,
    recovery_strategies: Vec<(ErrorCategory, RecoveryStrategy)>,
    fallback_modes: FallbackModeManager,
    performance_monitor: PerformanceMonitor,
}


/// What handling `error` does, from manager `m0` to manager `m1` with result
/// `r`: the error's class is counted, the health status is reassessed, the
/// result is `Ok` of the action of the class's default strategy (log and
/// continue for a class without one), a memory error degrades the fallback
/// one level into reduced quality while other errors leave it alone, and the
/// performance record stays.
pub open spec fn handles_error(
    m0: ResilienceManager,
    m1: ResilienceManager,
    error: ConstellationError,
    r: ConstellationResult<RecoveryAction>,
) -> bool {
    &&& counted(m0.spec_health(), m1.spec_health(), spec_classify(error))
    &&& status_for(m1.spec_health().spec_failure_total(), m1.spec_health().system_status)
    &&& r matches Ok(a) && (if has_default_strategy(spec_classify(error)) {
        exists|s: RecoveryStrategy| #[trigger] is_default_strategy(spec_classify(error), s) && action_of(s, a)
    } else {
        a is LogAndContinue
    })
    &&& spec_classify(error) == ErrorCategory::MemoryAllocation ==> m1.spec_fallback().current_mode
        == FallbackMode::ReducedQuality && m1.spec_fallback().degradation_level
        == next_level(m0.spec_fallback().degradation_level)
    &&& spec_classify(error) != ErrorCategory::MemoryAllocation ==> m1.spec_fallback() == m0.spec_fallback()
    &&& m1.spec_performance() == m0.spec_performance()
}

impl ResilienceManager {
    pub closed spec fn spec_health(&self) -> HealthMonitor {
        self.health_monitor
    }

    pub closed spec fn spec_fallback(&self) -> FallbackModeManager {
        self.fallback_modes
    }

    pub closed spec fn spec_performance(&self) -> PerformanceMonitor {
        self.performance_monitor
    }

    /// The strategy table holds one default strategy for each class that has one,
    /// and the monitors keep their bounds.
    pub closed spec fn wf(&self) -> bool {
        &&& self.fallback_modes.wf()
        &&& self.performance_monitor.wf()
        &&& self.recovery_strategies@.len() == 4
        &&& self.recovery_strategies@[0].0 == ErrorCategory::FrameProcessing
        &&& self.recovery_strategies@[1].0 == ErrorCategory::MemoryAllocation
        &&& self.recovery_strategies@[2].0 == ErrorCategory::GpuProcessing
        &&& self.recovery_strategies@[3].0 == ErrorCategory::HardwareFailure
        &&& forall|i: int|
            0 <= i < 4 ==> is_default_strategy(
                #[trigger] self.recovery_strategies@[i].0,
                self.recovery_strategies@[i].1,
            )
    }

    /// A manager with healthy counters, normal quality and the default strategies.
    pub fn new() -> (m: Self)
        ensures
            m.wf(),
            m.spec_health().frame_processing_failures == 0,
            m.spec_health().memory_allocation_failures == 0,
            m.spec_health().gpu_processing_failures == 0,
            m.spec_health().connection_failures == 0,
            m.spec_health().system_status is Healthy,
            m.spec_fallback().current_mode == FallbackMode::Normal,
            m.spec_fallback().degradation_level == 0,
            m.spec_performance().frame_processing_times@.len() == 0,
    {
        let mut strategies: Vec<(ErrorCategory, RecoveryStrategy)> = Vec::new();
        strategies.push(
            (
                ErrorCategory::FrameProcessing,
                RecoveryStrategy::Retry { max_attempts: 3, delay_ms: 100, backoff_multiplier: 2 },
            ),
        );
        let mut blur: Vec<ProcessorType> = Vec::new();
        blur.push(ProcessorType::Blur);
        assert(blur@ =~= seq![ProcessorType::Blur]);
        strategies.push(
            (
                ErrorCategory::MemoryAllocation,
                RecoveryStrategy::QualityDegradation {
                    reduced_resolution: Some((1280, 720)),
                    reduced_framerate: Some(30),
                    disable_effects: blur,
                },
            ),
        );
        strategies.push(
            (
                ErrorCategory::GpuProcessing,
                RecoveryStrategy::Fallback {
                    fallback_processor: ProcessorType::PassThrough,
                    fallback_nodes: Vec::new(),
                },
            ),
        );
        strategies.push(
            (
                ErrorCategory::HardwareFailure,
                RecoveryStrategy::GracefulShutdown {
                    preserve_data: true,
                    notify_users: true,
                    cleanup_timeout_ms: 30_000,
                },
            ),
        );
        let m = ResilienceManager {
            health_monitor: HealthMonitor::new(),
            recovery_strategies: strategies,
            fallback_modes: FallbackModeManager::new(),
            performance_monitor: PerformanceMonitor::new(),
        };
        m
    }

    /// Handle an engine error: classify it, count it, reassess health and
    /// return the action of the class's strategy (log and continue when it has none).
    pub fn handle_error(&mut self, error: &ConstellationError) -> (r: ConstellationResult<RecoveryAction>)
        requires
            old(self).wf(),
        ensures
            final(self).wf(),
            handles_error(*old(self), *final(self), *error, r),
            *error is GpuProcessingFailed ==> (r matches Ok(RecoveryAction::Fallback { processor, nodes })
                && processor == ProcessorType::PassThrough && nodes@.len() == 0),
            *error is GpuProcessingFailed <==> final(self).spec_health().gpu_processing_failures
                != old(self).spec_health().gpu_processing_failures,
    {
        let category = self.classify_error(error);
        self.update_error_statistics(category);
        let status = self.evaluate_system_health();
        self.health_monitor.update_status(status);
        let r = match self.find_strategy(category) {
            Some(i) => {
                let strategy = self.recovery_strategies[i].1.clone();
                let ghost stored = self.recovery_strategies@[i as int].1;
                assert(is_default_strategy(category, stored));
                let r = self.execute_recovery_strategy(&strategy, error);
                proof {
                    assert(is_default_strategy(category, strategy));
                }
                r
            },
            None => Ok(RecoveryAction::LogAndContinue),
        };
        proof {
            lemma_handled_error_action(*old(self), *self, *error, r);
        }
        r
    }

    /// Position of the strategy for class `c` in the table.
    fn find_strategy(&self, c: ErrorCategory) -> (r: Option<usize>)
        requires
            self.wf(),
        ensures
            r matches Some(i) ==> i < self.recovery_strategies@.len()
                && self.recovery_strategies@[i as int].0 == c,
            r is None ==> !has_default_strategy(c),
    {
        let n = self.recovery_strategies.len();
        let mut i: usize = 0;
        while i < n
            invariant
                n == self.recovery_strategies@.len(),
                i <= n,
                forall|j: int| 0 <= j < i ==> self.recovery_strategies@[j].0 != c,
            decreases n - i,
        {
            if self.recovery_strategies[i].0 == c {
                return Some(i);
            }
            i = i + 1;
        }
        None
    }

    /// The detailed class of an error.
    fn classify_error(&self, error: &ConstellationError) -> (c: ErrorCategory)
        ensures
            c == spec_classify(*error),
    {
        match error {
            ConstellationError::FrameProcessingFailed { .. }
            | ConstellationError::FrameDataCorrupted { .. }
            | ConstellationError::FrameProcessingTimeout { .. } => ErrorCategory::FrameProcessing,
            ConstellationError::InsufficientMemory { .. }
            | ConstellationError::ResourceAllocationFailed { .. } => ErrorCategory::MemoryAllocation,
            ConstellationError::GpuProcessingFailed { .. } => ErrorCategory::GpuProcessing,
            ConstellationError::NetworkConnectionFailed { .. }
            | ConstellationError::DataTransmissionFailed { .. } => ErrorCategory::NetworkConnection,
            ConstellationError::NodeProcessingFailed { .. }
            | ConstellationError::NodeNotFound { .. } => ErrorCategory::NodeProcessing,
            ConstellationError::ResourceLimitExceeded { .. } => ErrorCategory::ResourceExhaustion,
            ConstellationError::HardwareNotSupported { .. }
            | ConstellationError::DriverIncompatible { .. }
            | ConstellationError::DeviceAccessFailed { .. } => ErrorCategory::HardwareFailure,
            _ => ErrorCategory::NodeProcessing,
        }
    }

    /// Count one failure of class `category`.
    fn update_error_statistics(&mut self, category: ErrorCategory)
        requires
            old(self).wf(),
        ensures
            final(self).wf(),
            counted(old(self).health_monitor, final(self).health_monitor, category),
            final(self).health_monitor.system_status == old(self).health_monitor.system_status,
            final(self).fallback_modes == old(self).fallback_modes,
            final(self).performance_monitor == old(self).performance_monitor,
            final(self).recovery_strategies == old(self).recovery_strategies,
    {
        match category {
            ErrorCategory::FrameProcessing => {
                self.health_monitor.frame_processing_failures = bump(
                    self.health_monitor.frame_processing_failures,
                );
            },
            ErrorCategory::MemoryAllocation => {
                self.health_monitor.memory_allocation_failures = bump(
                    self.health_monitor.memory_allocation_failures,
                );
            },
            ErrorCategory::GpuProcessing => {
                self.health_monitor.gpu_processing_failures = bump(
                    self.health_monitor.gpu_processing_failures,
                );
            },
            ErrorCategory::NetworkConnection => {
                self.health_monitor.connection_failures = bump(
                    self.health_monitor.connection_failures,
                );
            },
            _ => {},
        }
    }

    /// The status that the frame, memory and GPU failure total calls for.
    fn evaluate_system_health(&self) -> (s: SystemStatus)
        ensures
            status_for(self.health_monitor.spec_failure_total(), s),
    {
        let total: u128 = self.health_monitor.frame_processing_failures as u128
            + self.health_monitor.memory_allocation_failures as u128
            + self.health_monitor.gpu_processing_failures as u128;
        if total == 0 {
            SystemStatus::Healthy
        } else if total < 5 {
            let mut v: Vec<String> = Vec::new();
            v.push(String::from_str("Minor errors detected"));
            SystemStatus::Degraded(v)
        } else if total < 20 {
            SystemStatus::Critical(String::from_str("Multiple system errors"))
        } else {
            SystemStatus::FailSafe
        }
    }

    /// Carry out a strategy: quality degradation changes the fallback mode; the
    /// others only describe what the caller should do.
    fn execute_recovery_strategy(
        &mut self,
        strategy: &RecoveryStrategy,
        error: &ConstellationError,
    ) -> (r: ConstellationResult<RecoveryAction>)
        requires
            old(self).wf(),
        ensures
            final(self).wf(),
            r matches Ok(a) && action_of(*strategy, a),
            strategy is QualityDegradation ==> final(self).fallback_modes.current_mode
                == FallbackMode::ReducedQuality && final(self).fallback_modes.degradation_level
                == next_level(old(self).fallback_modes.degradation_level),
            !(strategy is QualityDegradation) ==> final(self).fallback_modes == old(self).fallback_modes,
            final(self).health_monitor == old(self).health_monitor,
            final(self).performance_monitor == old(self).performance_monitor,
            final(self).recovery_strategies == old(self).recovery_strategies,
    {
        match strategy {
            RecoveryStrategy::Retry { max_attempts, delay_ms, backoff_multiplier } => Ok(
                RecoveryAction::Retry {
                    max_attempts: *max_attempts,
                    delay_ms: *delay_ms,
                    backoff_multiplier: *backoff_multiplier,
                },
            ),
            RecoveryStrategy::QualityDegradation {
                reduced_resolution,
                reduced_framerate,
                disable_effects,
            } => {
                let resolution = match reduced_resolution {
                    Some(r) => Some((r.0, r.1)),
                    None => None,
                };
                let effects = disable_effects.clone();
                match self.fallback_modes.activate_degraded_mode(resolution, *reduced_framerate, effects) {
                    Ok(()) => {},
                    Err(e) => return Err(e),
                }
                Ok(RecoveryAction::QualityReduced)
            },
            RecoveryStrategy::Fallback { fallback_processor, fallback_nodes } => {
                let nodes = fallback_nodes.clone();
                assert(nodes@ =~= fallback_nodes@);
                Ok(RecoveryAction::Fallback { processor: *fallback_processor, nodes })
            },
            RecoveryStrategy::GracefulShutdown { preserve_data, notify_users, cleanup_timeout_ms } => {
                Ok(
                    RecoveryAction::GracefulShutdown {
                        preserve_data: *preserve_data,
                        cleanup_timeout_ms: *cleanup_timeout_ms,
                    },
                )
            },
        }
    }

    /// Record a frame's processing time and degrade quality when the recent
    /// average is too slow.
    pub fn monitor_performance(&mut self, processing_time_ns: u64)
        requires
            old(self).wf(),
        ensures
            final(self).wf(),
            final(self).spec_performance().frame_processing_times@ == record_window(
                old(self).spec_performance().frame_processing_times@,
                processing_time_ns,
            ),
            spec_degraded(final(self).spec_performance().frame_processing_times@) ==> final(self).spec_fallback().degradation_level == next_level(
                old(self).spec_fallback().degradation_level,
            ) && final(self).spec_fallback().current_mode == mode_for_level(
                final(self).spec_fallback().degradation_level,
                old(self).spec_fallback().current_mode,
            ),
            !spec_degraded(final(self).spec_performance().frame_processing_times@) ==> final(self).spec_fallback() == old(self).spec_fallback(),
            final(self).spec_health() == old(self).spec_health(),
    {
        self.performance_monitor.record_frame_time(processing_time_ns);
        if self.performance_monitor.is_performance_degraded() {
            let _ = self.handle_performance_degradation();
        }
    }

    /// React to slow frames by degrading one level.
    fn handle_performance_degradation(&mut self) -> (r: ConstellationResult<()>)
        requires
            old(self).wf(),
        ensures
            r is Ok,
            final(self).wf(),
            final(self).fallback_modes.degradation_level == next_level(
                old(self).fallback_modes.degradation_level,
            ),
            final(self).fallback_modes.current_mode == mode_for_level(
                final(self).fallback_modes.degradation_level,
                old(self).fallback_modes.current_mode,
            ),
            final(self).health_monitor == old(self).health_monitor,
            final(self).performance_monitor == old(self).performance_monitor,
            final(self).recovery_strategies == old(self).recovery_strategies,
    {
        self.fallback_modes.increase_degradation_level()
    }
}

} // verus!
