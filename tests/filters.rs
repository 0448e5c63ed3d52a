use judger::seccomp::{O_RDWR, O_WRONLY};
use judger::{child_steps, policy_for, ChildStep, Config, ErrorCode, FilterAction, Rlimit, SeccompRuleName};

fn call(policy: &judger::FilterPolicy, name: &str, args: [u64; 6]) -> FilterAction {
    policy.action_for(&name.to_string(), &args)
}

const O_CREAT: u64 = 0o100;

#[test]
fn ccpp_allows_whitelist_and_read_only_open() {
    let p = policy_for(&SeccompRuleName::CCpp);
    assert_eq!(p.default_action, FilterAction::KillProcess);
    assert_eq!(p.rules.len(), 28);
    for name in ["read", "write", "exit_group", "mmap", "execve", "brk"] {
        assert_eq!(call(&p, name, [0; 6]), FilterAction::Allow, "{}", name);
    }
    assert_eq!(call(&p, "openat", [0, 0, 0, 0, 0, 0]), FilterAction::Allow);
    assert_eq!(call(&p, "open", [0, 0o2000000, 0, 0, 0, 0]), FilterAction::Allow);
}

#[test]
fn ccpp_kills_forbidden_calls() {
    let p = policy_for(&SeccompRuleName::CCpp);
    for name in ["socket", "fork", "clone", "kill", "dup2", "unlink"] {
        assert_eq!(call(&p, name, [0; 6]), FilterAction::KillProcess, "{}", name);
    }
    // fopen("x", "w") opens with O_WRONLY | O_CREAT | O_TRUNC
    assert_eq!(call(&p, "openat", [0, 0, O_WRONLY | O_CREAT | 0o1000, 0o666, 0, 0]), FilterAction::KillProcess);
    assert_eq!(call(&p, "open", [0, O_RDWR, 0, 0, 0, 0]), FilterAction::KillProcess);
}

#[test]
fn ccpp_file_io_allows_opening_for_write() {
    let p = policy_for(&SeccompRuleName::CCppFileIO);
    assert_eq!(p.rules.len(), 31);
    assert_eq!(call(&p, "openat", [0, 0, O_WRONLY | O_CREAT, 0, 0, 0]), FilterAction::Allow);
    assert_eq!(call(&p, "dup3", [0; 6]), FilterAction::Allow);
    assert_eq!(call(&p, "socket", [0; 6]), FilterAction::KillProcess);
}

#[test]
fn golang_and_node_blacklists() {
    for rule in [SeccompRuleName::Golang, SeccompRuleName::Node] {
        let p = policy_for(&rule);
        assert_eq!(p.default_action, FilterAction::Allow);
        assert_eq!(p.rules.len(), 5);
        for name in ["socket", "fork", "vfork", "kill", "execveat"] {
            assert_eq!(call(&p, name, [0; 6]), FilterAction::KillProcess, "{}", name);
        }
        assert_eq!(call(&p, "clone", [0; 6]), FilterAction::Allow);
        assert_eq!(call(&p, "openat", [0, 0, O_WRONLY, 0, 0, 0]), FilterAction::Allow);
    }
}

#[test]
fn general_kills_writes_and_process_calls() {
    let p = policy_for(&SeccompRuleName::General);
    assert_eq!(p.default_action, FilterAction::Allow);
    assert_eq!(p.rules.len(), 10);
    for name in ["clone", "fork", "vfork", "kill", "execveat", "socket"] {
        assert_eq!(call(&p, name, [0; 6]), FilterAction::KillProcess, "{}", name);
    }
    assert_eq!(call(&p, "open", [0, O_WRONLY, 0, 0, 0, 0]), FilterAction::KillProcess);
    assert_eq!(call(&p, "open", [0, O_RDWR, 0, 0, 0, 0]), FilterAction::KillProcess);
    assert_eq!(call(&p, "openat", [0, 0, O_RDWR | O_CREAT, 0, 0, 0]), FilterAction::KillProcess);
    assert_eq!(call(&p, "openat", [0, 0, 0, 0, 0, 0]), FilterAction::Allow);
    assert_eq!(call(&p, "read", [0; 6]), FilterAction::Allow);
}

#[test]
fn open_flags_match_the_platform() {
    assert_eq!(O_WRONLY, nix::libc::O_WRONLY as u64);
    assert_eq!(O_RDWR, nix::libc::O_RDWR as u64);
    assert_eq!(O_CREAT, nix::libc::O_CREAT as u64);
}

fn hello_world_config() -> Config {
    Config {
        max_cpu_time: 1000,
        max_real_time: 2000,
        max_memory: 128 * 1024 * 1024,
        max_stack: 32 * 1024 * 1024,
        max_process_number: 200,
        max_output_size: 10000,
        exe_path: "hello_world".to_string(),
        input_path: "1.in".to_string(),
        output_path: "1.out".to_string(),
        error_path: "1.err".to_string(),
        seccomp_rule_name: Some(SeccompRuleName::CCpp),
        uid: 65534,
        gid: 65534,
        ..Default::default()
    }
}

#[test]
fn child_plan_for_files() {
    let steps = child_steps(&hello_world_config(), false);
    assert_eq!(
        steps,
        vec![
            ChildStep::SetLimit(Rlimit::Stack, 32 * 1024 * 1024),
            ChildStep::SetLimit(Rlimit::AddressSpace, 256 * 1024 * 1024),
            ChildStep::SetLimit(Rlimit::Cpu, 2),
            ChildStep::SetLimit(Rlimit::Processes, 200),
            ChildStep::SetLimit(Rlimit::FileSize, 10000),
            ChildStep::OpenInput,
            ChildStep::CreateOutput,
            ChildStep::CreateError,
            ChildStep::SetGid(65534),
            ChildStep::SetUid(65534),
            ChildStep::LoadFilter(SeccompRuleName::CCpp),
            ChildStep::Exec,
        ]
    );
}

#[test]
fn child_plan_for_pipes_and_unlimited() {
    let c = Config {
        max_cpu_time: 1500,
        max_memory: -1,
        max_process_number: -1,
        max_output_size: -1,
        seccomp_rule_name: None,
        uid: 3,
        gid: 4,
        ..hello_world_config()
    };
    let steps = child_steps(&c, true);
    assert_eq!(
        steps,
        vec![
            ChildStep::SetLimit(Rlimit::Stack, 32 * 1024 * 1024),
            ChildStep::SetLimit(Rlimit::Cpu, 3),
            ChildStep::UsePipes,
            ChildStep::CreateError,
            ChildStep::SetGid(4),
            ChildStep::SetUid(3),
            ChildStep::Exec,
        ]
    );
    let c = Config { max_cpu_time: 1, max_memory: i64::MAX, ..c };
    let steps = child_steps(&c, true);
    assert_eq!(steps[1], ChildStep::SetLimit(Rlimit::AddressSpace, (i64::MAX as u64) * 2));
    assert_eq!(steps[2], ChildStep::SetLimit(Rlimit::Cpu, 2));
}

#[test]
fn child_step_failures() {
    assert_eq!(ChildStep::SetLimit(Rlimit::Cpu, 1).failure(), ErrorCode::SetrlimitFailed);
    assert_eq!(ChildStep::OpenInput.failure(), ErrorCode::Dup2Failed);
    assert_eq!(ChildStep::UsePipes.failure(), ErrorCode::Dup2Failed);
    assert_eq!(ChildStep::SetUid(0).failure(), ErrorCode::SetuidFailed);
    assert_eq!(ChildStep::LoadFilter(SeccompRuleName::Node).failure(), ErrorCode::LoadSeccompFailed);
    assert_eq!(ChildStep::Exec.failure(), ErrorCode::ExecveFailed);
}
