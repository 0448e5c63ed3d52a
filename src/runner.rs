use vstd::prelude::*;

use crate::child::{child_plan, child_steps, ChildStep};
use crate::config::Config;
use crate::error::ErrorCode;

verus! {

/// Signal number of `SIGSEGV` (Linux).
pub const SIGSEGV: i32 = 11;

/// Signal number of `SIGUSR1` (Linux, x86 and Arm numbering).
pub const SIGUSR1: i32 = 10;

pub assume_specification[ nix::libc::WIFSIGNALED ](status: nix::libc::c_int) -> (r: bool)
    ensures
        r == ((status & 0x7f) != 0 && (status & 0x7f) != 0x7f),
;

pub assume_specification[ nix::libc::WTERMSIG ](status: nix::libc::c_int) -> (r: nix::libc::c_int)
    ensures
        r == status & 0x7f,
;

pub assume_specification[ nix::libc::WEXITSTATUS ](status: nix::libc::c_int) -> (r: nix::libc::c_int)
    ensures
        r == (status >> 8) & 0xff,
;

/// Result of one run.
#[derive(Debug)]
pub struct RunResult {
    /// CPU time used in milliseconds.
    pub cpu_time: i32,
    /// Real time used in milliseconds.
    pub real_time: i32,
    /// Memory used in bytes.
    pub memory: i64,
    /// Signal that terminated the process, 0 if it exited.
    pub signal: i32,
    /// Exit code of the process.
    pub exit_code: i32,
    /// Setup error or verdict.
    pub result: ErrorCode,
}

impl RunResult {
    /// A result with every measurement zero and the given outcome.
    pub fn with_result(result: ErrorCode) -> (r: RunResult)
        ensures
            r.cpu_time == 0,
            r.real_time == 0,
            r.memory == 0,
            r.signal == 0,
            r.exit_code == 0,
            r.result == result,
    {
        RunResult { cpu_time: 0, real_time: 0, memory: 0, signal: 0, exit_code: 0, result }
    }
}

impl Default for RunResult {
    /// Every measurement zero, and success.
    fn default() -> (r: RunResult)
        ensures
            r.cpu_time == 0,
            r.real_time == 0,
            r.memory == 0,
            r.signal == 0,
            r.exit_code == 0,
            r.result == ErrorCode::Success,
    {
        RunResult::with_result(ErrorCode::Success)
    }
}

/// What `getrusage`/`wait4` report of the guest's resource use.
#[derive(Debug, Clone, Copy, PartialEq, Eq, Structural)]
pub struct ResourceUsage {
    /// Whole seconds of user CPU time.
    pub utime_sec: u64,
    /// Further microseconds of user CPU time.
    pub utime_usec: u64,
    /// Peak resident set size in KiB.
    pub maxrss: u64,
}

/// `v` capped at the largest `i32`.
pub open spec fn cap_i32(v: int) -> i32 {
    if v > i32::MAX {
        i32::MAX
    } else {
        v as i32
    }
}

/// `v` capped at the largest `i64`.
pub open spec fn cap_i64(v: int) -> i64 {
    if v > i64::MAX {
        i64::MAX
    } else {
        v as i64
    }
}

/// User CPU time in milliseconds, capped at the largest `i32`.
pub open spec fn cpu_time_spec(u: ResourceUsage) -> i32 {
    cap_i32(u.utime_sec * 1000 + u.utime_usec / 1000)
}

/// Peak memory in bytes, capped at the largest `i64`.
pub open spec fn memory_spec(u: ResourceUsage) -> i64 {
    cap_i64(u.maxrss * 1024)
}

/// The terminating signal that a wait status records, 0 if the process
/// exited normally (or is stopped).
pub open spec fn status_signal(status: i32) -> i32 {
    if (status & 0x7f) != 0 && (status & 0x7f) != 0x7f {
        status & 0x7f
    } else {
        0
    }
}

/// The exit status byte that a wait status records.
pub open spec fn status_exit_code(status: i32) -> i32 {
    (status >> 8) & 0xff
}

/// Whether a usage exceeds a limit that is not unlimited.
pub open spec fn exceeds(limit: int, used: int) -> bool {
    limit != -1 && used > limit
}

/// The verdict on a finished guest. `SIGUSR1` marks a failure of the
/// supervisor's own setup. Otherwise the tightest broken budget wins: CPU
/// time, then real time, then memory; a guest within its budgets that was
/// signaled or exited non-zero has a runtime error; else it succeeded.
pub open spec fn verdict(c: Config, signal: i32, exit_code: i32, cpu_time: i32, real_time: i32, memory: i64) -> ErrorCode {
    if signal == SIGUSR1 {
        ErrorCode::SystemError
    } else if exceeds(c.max_cpu_time as int, cpu_time as int) {
        ErrorCode::CpuTimeLimitExceeded
    } else if exceeds(c.max_real_time as int, real_time as int) {
        ErrorCode::RealTimeLimitExceeded
    } else if exceeds(c.max_memory as int, memory as int) {
        ErrorCode::MemoryLimitExceeded
    } else if signal != 0 || exit_code != 0 {
        ErrorCode::RuntimeError
    } else {
        ErrorCode::Success
    }
}

/// User CPU time in milliseconds.
pub fn cpu_time_ms(usage: &ResourceUsage) -> (r: i32)
    ensures
        r == cpu_time_spec(*usage),
{
    let cap = i32::MAX as u64;
    if usage.utime_sec > cap / 1000 || usage.utime_usec / 1000 > cap {
        return i32::MAX;
    }
    let ms = usage.utime_sec * 1000 + usage.utime_usec / 1000;
    if ms > cap {
        i32::MAX
    } else {
        ms as i32
    }
}

/// Peak memory in bytes.
pub fn memory_bytes(usage: &ResourceUsage) -> (r: i64)
    ensures
        r == memory_spec(*usage),
{
    if usage.maxrss > (i64::MAX as u64) / 1024 {
        i64::MAX
    } else {
        (usage.maxrss * 1024) as i64
    }
}

/// Milliseconds of wall-clock time as recorded, capped at the largest `i32`.
pub fn real_time_ms(elapsed_ms: u64) -> (r: i32)
    ensures
        r == cap_i32(elapsed_ms as int),
{
    if elapsed_ms > i32::MAX as u64 {
        i32::MAX
    } else {
        elapsed_ms as i32
    }
}

/// Classifies a finished guest by refining from success: a non-zero exit
/// code or a signal is a runtime error; a `SIGSEGV` beyond the memory budget,
/// or any run beyond it, exceeded memory; then real time, then CPU time.
pub fn classify(config: &Config, signal: i32, exit_code: i32, cpu_time: i32, real_time: i32, memory: i64) -> (r: ErrorCode)
    ensures
        r == verdict(*config, signal, exit_code, cpu_time, real_time, memory),
{
    if signal == SIGUSR1 {
        return ErrorCode::SystemError;
    }
    let mut result = ErrorCode::Success;
    if exit_code != 0 {
        result = ErrorCode::RuntimeError;
    }
    if signal == SIGSEGV {
        if config.max_memory != -1 && memory > config.max_memory {
            result = ErrorCode::MemoryLimitExceeded;
        } else {
            result = ErrorCode::RuntimeError;
        }
    } else if signal != 0 {
        result = ErrorCode::RuntimeError;
    }
    if config.max_memory != -1 && memory > config.max_memory {
        result = ErrorCode::MemoryLimitExceeded;
    }
    if config.max_real_time != -1 && real_time > config.max_real_time {
        result = ErrorCode::RealTimeLimitExceeded;
    }
    if config.max_cpu_time != -1 && cpu_time > config.max_cpu_time {
        result = ErrorCode::CpuTimeLimitExceeded;
    }
    result
}

/// The record of a guest that `wait4` reaped with `status` and `usage`,
/// `elapsed_ms` after the start: its measurements and its verdict.
pub fn account(config: &Config, status: i32, usage: &ResourceUsage, elapsed_ms: u64) -> (r: RunResult)
    ensures
        r.signal == status_signal(status),
        r.exit_code == status_exit_code(status),
        r.cpu_time == cpu_time_spec(*usage),
        r.memory == memory_spec(*usage),
        r.real_time == cap_i32(elapsed_ms as int),
        r.result == verdict(*config, r.signal, r.exit_code, r.cpu_time, r.real_time, r.memory),
{
    let signal = if nix::libc::WIFSIGNALED(status) {
        nix::libc::WTERMSIG(status)
    } else {
        0
    };
    let exit_code = nix::libc::WEXITSTATUS(status);
    let cpu_time = cpu_time_ms(usage);
    let memory = memory_bytes(usage);
    let real_time = real_time_ms(elapsed_ms);
    let result = classify(config, signal, exit_code, cpu_time, real_time, memory);
    RunResult { cpu_time, real_time, memory, signal, exit_code, result }
}

/// Why a run is refused before any process is created, if it is: the
/// caller must be root, then the configuration must be valid.
pub open spec fn refusal(is_root: bool, c: Config) -> Option<ErrorCode> {
    if !is_root {
        Some(ErrorCode::RootRequired)
    } else if !c.is_valid() {
        Some(ErrorCode::InvalidConfig)
    } else {
        None
    }
}

/// The wall-clock watchdog's delay in milliseconds, if real time is limited.
pub open spec fn watchdog_spec(c: Config) -> Option<u64> {
    if c.max_real_time == -1 {
        None
    } else {
        Some(c.max_real_time as u64)
    }
}

/// What the supervisor sets up for an admitted run.
#[derive(Debug)]
pub struct LaunchPlan {
    /// The guest initializer's steps, run in the child.
    pub steps: Vec<ChildStep>,
    /// Whether the guest talks to an interactor through pipes.
    pub piped: bool,
    /// Delay after which the watchdog kills the guest, if any.
    pub watchdog_ms: Option<u64>,
}

/// How a run starts: refused with an error and no process created, or
/// launched with a plan.
#[derive(Debug)]
pub enum Start {
    /// The run is refused; nothing is forked.
    Refuse(ErrorCode),
    /// The run goes ahead.
    Launch(LaunchPlan),
}

/// Decides how a run starts, given whether the caller is root and whether
/// an interactor takes part.
pub fn plan_run(is_root: bool, config: &Config, interactive: bool) -> (r: Start)
    ensures
        r is Refuse <==> refusal(is_root, *config) is Some,
        r is Refuse ==> Some(r->Refuse_0) == refusal(is_root, *config),
        r is Launch ==> r->Launch_0.steps@ == child_plan(*config, interactive),
        r is Launch ==> r->Launch_0.piped == interactive,
        r is Launch ==> r->Launch_0.watchdog_ms == watchdog_spec(*config),
{
    if !is_root {
        return Start::Refuse(ErrorCode::RootRequired);
    }
    if !config.check() {
        return Start::Refuse(ErrorCode::InvalidConfig);
    }
    let watchdog_ms = if config.max_real_time == -1 {
        None
    } else {
        Some(config.max_real_time as u64)
    };
    Start::Launch(LaunchPlan { steps: child_steps(config, interactive), piped: interactive, watchdog_ms })
}

/// The verdict once the interactor is reaped: a guest that would otherwise
/// succeed gets a wrong answer, with the interactor's message, when the
/// interactor did not exit with status 0.
pub open spec fn with_interactor(v: ErrorCode, interactor_ok: bool, message: String) -> ErrorCode {
    if !interactor_ok && v == ErrorCode::Success {
        ErrorCode::WrongAnswer(message)
    } else {
        v
    }
}

/// Folds the interactor's outcome into a guest's result.
pub fn settle_interactor(result: RunResult, interactor_ok: bool, message: String) -> (r: RunResult)
    ensures
        r.cpu_time == result.cpu_time,
        r.real_time == result.real_time,
        r.memory == result.memory,
        r.signal == result.signal,
        r.exit_code == result.exit_code,
        r.result == with_interactor(result.result, interactor_ok, message),
{
    if !interactor_ok && matches!(result.result, ErrorCode::Success) {
        RunResult { result: ErrorCode::WrongAnswer(message), ..result }
    } else {
        result
    }
}

/// A caller that is not root is refused for every configuration, so no
/// child is ever started.
pub proof fn lemma_root_gate(c: Config)
    ensures
        refusal(false, c) == Some(ErrorCode::RootRequired),
{
}

/// For root, a configuration with a limit that is 0 or below -1, or a
/// stack limit below 1, is refused as invalid.
pub proof fn lemma_invalid_config_refused(c: Config)
    requires
        c.max_cpu_time == 0 || c.max_cpu_time < -1 || c.max_real_time == 0 || c.max_real_time < -1
            || c.max_memory == 0 || c.max_memory < -1 || c.max_process_number == 0
            || c.max_process_number < -1 || c.max_output_size == 0 || c.max_output_size < -1
            || c.max_stack < 1,
    ensures
        refusal(true, c) == Some(ErrorCode::InvalidConfig),
{
}

/// A guest that exceeds both its CPU and its memory budget is reported as
/// exceeding CPU time, unless `SIGUSR1` marked a setup failure.
pub proof fn lemma_cpu_dominates_memory(
    c: Config,
    signal: i32,
    exit_code: i32,
    cpu_time: i32,
    real_time: i32,
    memory: i64,
)
    requires
        signal != SIGUSR1,
        exceeds(c.max_cpu_time as int, cpu_time as int),
        exceeds(c.max_memory as int, memory as int),
    ensures
        verdict(c, signal, exit_code, cpu_time, real_time, memory) == ErrorCode::CpuTimeLimitExceeded,
{
}

/// A guest killed by a signal (such as the one a syscall filter sends)
/// within all its budgets has a runtime error.
pub proof fn lemma_signaled_is_runtime_error(
    c: Config,
    signal: i32,
    exit_code: i32,
    cpu_time: i32,
    real_time: i32,
    memory: i64,
)
    requires
        signal != 0,
        signal != SIGUSR1,
        !exceeds(c.max_cpu_time as int, cpu_time as int),
        !exceeds(c.max_real_time as int, real_time as int),
        !exceeds(c.max_memory as int, memory as int),
    ensures
        verdict(c, signal, exit_code, cpu_time, real_time, memory) == ErrorCode::RuntimeError,
{
}

/// Two runs of one configuration whose guests end alike (same signal and
/// exit code, and each measurement on the same side of its limit) get the
/// same verdict, however much their measured times and memory differ.
pub proof fn lemma_verdict_ignores_measurement_noise(
    c: Config,
    signal: i32,
    exit_code: i32,
    cpu1: i32,
    real1: i32,
    mem1: i64,
    cpu2: i32,
    real2: i32,
    mem2: i64,
)
    requires
        exceeds(c.max_cpu_time as int, cpu1 as int) == exceeds(c.max_cpu_time as int, cpu2 as int),
        exceeds(c.max_real_time as int, real1 as int) == exceeds(c.max_real_time as int, real2 as int),
        exceeds(c.max_memory as int, mem1 as int) == exceeds(c.max_memory as int, mem2 as int),
    ensures
        verdict(c, signal, exit_code, cpu1, real1, mem1) == verdict(c, signal, exit_code, cpu2, real2, mem2),
{
}

} // verus!
