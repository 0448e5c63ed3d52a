use vstd::prelude::*;

use crate::config::Config;
use crate::error::ErrorCode;
use crate::seccomp::SeccompRuleName;

verus! {

/// A kernel resource limit that the guest initializer sets.
#[derive(Debug, Clone, Copy, PartialEq, Eq, Structural)]
pub enum Rlimit {
    /// `RLIMIT_STACK`, in bytes.
    Stack,
    /// `RLIMIT_AS`, in bytes.
    AddressSpace,
    /// `RLIMIT_CPU`, in seconds.
    Cpu,
    /// `RLIMIT_NPROC`, in processes.
    Processes,
    /// `RLIMIT_FSIZE`, in bytes.
    FileSize,
}

/// One step of the guest initializer, run in the forked child before the
/// guest's image replaces it.
#[derive(Debug, Clone, Copy, PartialEq, Eq, Structural)]
pub enum ChildStep {
    /// Set both the soft and the hard limit of a resource.
    SetLimit(Rlimit, u64),
    /// Duplicate the supplied pipe ends onto standard input and output.
    UsePipes,
    /// Open the input path for reading onto standard input.
    OpenInput,
    /// Create the output path onto standard output.
    CreateOutput,
    /// Create the error path onto standard error.
    CreateError,
    /// Set the group ID.
    SetGid(u32),
    /// Set the user ID.
    SetUid(u32),
    /// Install the named syscall filter.
    LoadFilter(SeccompRuleName),
    /// Replace the process image with the guest.
    Exec,
}

impl ChildStep {
    /// The error that the child exits with when the step fails.
    pub open spec fn failure_spec(&self) -> ErrorCode {
        match self {
            ChildStep::SetLimit(_, _) => ErrorCode::SetrlimitFailed,
            ChildStep::UsePipes => ErrorCode::Dup2Failed,
            ChildStep::OpenInput => ErrorCode::Dup2Failed,
            ChildStep::CreateOutput => ErrorCode::Dup2Failed,
            ChildStep::CreateError => ErrorCode::Dup2Failed,
            ChildStep::SetGid(_) => ErrorCode::SetuidFailed,
            ChildStep::SetUid(_) => ErrorCode::SetuidFailed,
            ChildStep::LoadFilter(_) => ErrorCode::LoadSeccompFailed,
            ChildStep::Exec => ErrorCode::ExecveFailed,
        }
    }

    /// The error that the child exits with when the step fails.
    pub fn failure(&self) -> (r: ErrorCode)
        ensures
            r == self.failure_spec(),
    {
        match self {
            ChildStep::SetLimit(_, _) => ErrorCode::SetrlimitFailed,
            ChildStep::UsePipes => ErrorCode::Dup2Failed,
            ChildStep::OpenInput => ErrorCode::Dup2Failed,
            ChildStep::CreateOutput => ErrorCode::Dup2Failed,
            ChildStep::CreateError => ErrorCode::Dup2Failed,
            ChildStep::SetGid(_) => ErrorCode::SetuidFailed,
            ChildStep::SetUid(_) => ErrorCode::SetuidFailed,
            ChildStep::LoadFilter(_) => ErrorCode::LoadSeccompFailed,
            ChildStep::Exec => ErrorCode::ExecveFailed,
        }
    }
}

/// The kernel CPU limit for a budget of `ms` milliseconds: whole seconds,
/// rounded up, plus one, so that the kernel never stops the guest before the
/// supervisor can classify it.
pub open spec fn cpu_limit_secs(ms: int) -> int {
    (ms + 999) / 1000 + 1
}

/// One limit step when `on` holds, none otherwise.
pub open spec fn limit_if(on: bool, which: Rlimit, value: int) -> Seq<ChildStep> {
    if on {
        seq![ChildStep::SetLimit(which, value as u64)]
    } else {
        Seq::empty()
    }
}

/// The limit steps: the stack always; the address space at twice the memory
/// budget, the CPU time, the process count and the output size when they are
/// not unlimited.
pub open spec fn limit_plan(c: Config) -> Seq<ChildStep> {
    seq![ChildStep::SetLimit(Rlimit::Stack, c.max_stack as u64)]
        + limit_if(c.max_memory != -1, Rlimit::AddressSpace, 2 * c.max_memory)
        + limit_if(c.max_cpu_time != -1, Rlimit::Cpu, cpu_limit_secs(c.max_cpu_time as int))
        + limit_if(c.max_process_number != -1, Rlimit::Processes, c.max_process_number as int)
        + limit_if(c.max_output_size != -1, Rlimit::FileSize, c.max_output_size as int)
}

/// The redirection steps: the supplied pipes, or the input and output
/// paths; then the error path.
pub open spec fn redirect_plan(piped: bool) -> Seq<ChildStep> {
    if piped {
        seq![ChildStep::UsePipes, ChildStep::CreateError]
    } else {
        seq![ChildStep::OpenInput, ChildStep::CreateOutput, ChildStep::CreateError]
    }
}

/// The filter step, if a filter is named.
pub open spec fn filter_plan(name: Option<SeccompRuleName>) -> Seq<ChildStep> {
    match name {
        Some(n) => seq![ChildStep::LoadFilter(n)],
        None => Seq::empty(),
    }
}

/// The guest initializer: limits, redirection, group then user, filter,
/// and last the exec.
pub open spec fn child_plan(c: Config, piped: bool) -> Seq<ChildStep> {
    limit_plan(c) + redirect_plan(piped) + seq![ChildStep::SetGid(c.gid), ChildStep::SetUid(c.uid)]
        + filter_plan(c.seccomp_rule_name) + seq![ChildStep::Exec]
}

/// Appends a limit step when `on` holds.
fn push_limit_if(steps: &mut Vec<ChildStep>, on: bool, which: Rlimit, value: u64)
    ensures
        final(steps)@ == old(steps)@ + limit_if(on, which, value as int),
{
    let ghost before = steps@;
    if on {
        steps.push(ChildStep::SetLimit(which, value));
    }
    assert(steps@ =~= before + limit_if(on, which, value as int));
}

/// The limit steps for a valid configuration.
fn limit_steps(config: &Config) -> (r: Vec<ChildStep>)
    requires
        config.is_valid(),
    ensures
        r@ == limit_plan(*config),
{
    let mut steps: Vec<ChildStep> = Vec::new();
    steps.push(ChildStep::SetLimit(Rlimit::Stack, config.max_stack as u64));
    let ghost s0 = steps@;
    let memory = config.max_memory != -1;
    let address_space: u64 = if memory { (config.max_memory as u64) * 2 } else { 0 };
    push_limit_if(&mut steps, memory, Rlimit::AddressSpace, address_space);
    let cpu = config.max_cpu_time != -1;
    let cpu_secs: u64 = if cpu { ((config.max_cpu_time as u64) + 999) / 1000 + 1 } else { 0 };
    push_limit_if(&mut steps, cpu, Rlimit::Cpu, cpu_secs);
    let procs = config.max_process_number != -1;
    let nproc: u64 = if procs { config.max_process_number as u64 } else { 0 };
    push_limit_if(&mut steps, procs, Rlimit::Processes, nproc);
    let output = config.max_output_size != -1;
    let fsize: u64 = if output { config.max_output_size as u64 } else { 0 };
    push_limit_if(&mut steps, output, Rlimit::FileSize, fsize);
    proof {
        assert(s0 =~= seq![ChildStep::SetLimit(Rlimit::Stack, config.max_stack as u64)]);
        assert(limit_if(memory, Rlimit::AddressSpace, address_space as int)
            == limit_if(config.max_memory != -1, Rlimit::AddressSpace, 2 * config.max_memory));
        assert(limit_if(cpu, Rlimit::Cpu, cpu_secs as int)
            == limit_if(config.max_cpu_time != -1, Rlimit::Cpu, cpu_limit_secs(config.max_cpu_time as int)));
        assert(limit_if(procs, Rlimit::Processes, nproc as int)
            == limit_if(config.max_process_number != -1, Rlimit::Processes, config.max_process_number as int));
        assert(limit_if(output, Rlimit::FileSize, fsize as int)
            == limit_if(config.max_output_size != -1, Rlimit::FileSize, config.max_output_size as int));
    }
    steps
}

/// The steps of the guest initializer for a valid configuration; `piped`
/// tells whether an interactor's pipes take the place of the input and
/// output paths.
pub fn child_steps(config: &Config, piped: bool) -> (r: Vec<ChildStep>)
    requires
        config.is_valid(),
    ensures
        r@ == child_plan(*config, piped),
{
    let mut steps = limit_steps(config);
    let ghost s4 = steps@;
    if piped {
        steps.push(ChildStep::UsePipes);
    } else {
        steps.push(ChildStep::OpenInput);
        steps.push(ChildStep::CreateOutput);
    }
    steps.push(ChildStep::CreateError);
    steps.push(ChildStep::SetGid(config.gid));
    steps.push(ChildStep::SetUid(config.uid));
    assert(steps@ =~= s4 + redirect_plan(piped) + seq![
        ChildStep::SetGid(config.gid),
        ChildStep::SetUid(config.uid),
    ]);
    let ghost s5 = steps@;
    match config.seccomp_rule_name {
        Some(n) => steps.push(ChildStep::LoadFilter(n)),
        None => {},
    }
    assert(steps@ =~= s5 + filter_plan(config.seccomp_rule_name));
    let ghost s6 = steps@;
    steps.push(ChildStep::Exec);
    assert(steps@ =~= s6 + seq![ChildStep::Exec]);
    steps
}

} // verus!
