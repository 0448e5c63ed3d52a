use judger::runner::{cpu_time_ms, memory_bytes, real_time_ms, SIGSEGV, SIGUSR1};
use judger::{account, classify, plan_run, settle_interactor, Config, ErrorCode, ResourceUsage, RunResult, Start};

fn limits() -> Config {
    Config {
        max_cpu_time: 1000,
        max_real_time: 2000,
        max_memory: 128 * 1024 * 1024,
        max_stack: 32 * 1024 * 1024,
        max_process_number: 200,
        max_output_size: 10000,
        ..Default::default()
    }
}

fn usage(cpu_ms: u64, rss_kib: u64) -> ResourceUsage {
    ResourceUsage { utime_sec: cpu_ms / 1000, utime_usec: (cpu_ms % 1000) * 1000, maxrss: rss_kib }
}

#[test]
fn hello_world_is_success() {
    let r = account(&limits(), 0, &usage(2, 1500), 5);
    assert_eq!(r.result, ErrorCode::Success);
    assert_eq!(r.cpu_time, 2);
    assert_eq!(r.memory, 1500 * 1024);
    assert_eq!(r.real_time, 5);
    assert_eq!(r.signal, 0);
    assert_eq!(r.exit_code, 0);
}

#[test]
fn tight_loop_exceeds_cpu_time() {
    // killed by SIGKILL from the CPU rlimit after 2 s of CPU
    let r = account(&limits(), 9, &usage(2003, 1200), 2010);
    assert_eq!(r.signal, 9);
    assert_eq!(r.result, ErrorCode::CpuTimeLimitExceeded);
}

#[test]
fn wall_clock_watchdog_gives_real_time_exceeded() {
    let r = account(&limits(), 9, &usage(400, 1200), 2001);
    assert_eq!(r.result, ErrorCode::RealTimeLimitExceeded);
}

#[test]
fn large_allocation_exceeds_memory() {
    let r = account(&limits(), 0, &usage(50, 131073), 80);
    assert_eq!(r.memory, 131073 * 1024);
    assert_eq!(r.result, ErrorCode::MemoryLimitExceeded);
}

#[test]
fn segfault_beyond_memory_is_memory_exceeded() {
    let r = account(&limits(), SIGSEGV, &usage(50, 140000), 80);
    assert_eq!(r.signal, SIGSEGV);
    assert_eq!(r.result, ErrorCode::MemoryLimitExceeded);
}

#[test]
fn stack_overflow_is_runtime_error() {
    let r = account(&limits(), SIGSEGV, &usage(10, 9000), 20);
    assert_eq!(r.result, ErrorCode::RuntimeError);
}

#[test]
fn filter_kill_is_runtime_error() {
    // SIGSYS from the syscall filter
    let r = account(&limits(), 31, &usage(1, 900), 3);
    assert_eq!(r.signal, 31);
    assert_eq!(r.result, ErrorCode::RuntimeError);
}

#[test]
fn core_dump_bit_is_not_part_of_the_signal() {
    let r = account(&limits(), 0x80 | SIGSEGV, &usage(10, 9000), 20);
    assert_eq!(r.signal, SIGSEGV);
    assert_eq!(r.exit_code, 0);
    assert_eq!(r.result, ErrorCode::RuntimeError);
}

#[test]
fn nonzero_exit_is_runtime_error() {
    let r = account(&limits(), 3 << 8, &usage(1, 900), 3);
    assert_eq!(r.exit_code, 3);
    assert_eq!(r.signal, 0);
    assert_eq!(r.result, ErrorCode::RuntimeError);
}

#[test]
fn stopped_status_records_no_signal() {
    let r = account(&limits(), 0x137f, &usage(1, 900), 3);
    assert_eq!(r.signal, 0);
    assert_eq!(r.exit_code, 0x13);
}

#[test]
fn sigusr1_is_system_error() {
    let r = account(&limits(), SIGUSR1, &usage(5000, 999999), 9000);
    assert_eq!(r.result, ErrorCode::SystemError);
}

#[test]
fn cpu_and_memory_both_exceeded_reports_cpu() {
    let c = limits();
    assert_eq!(classify(&c, 0, 0, 1001, 10, 200 * 1024 * 1024), ErrorCode::CpuTimeLimitExceeded);
    assert_eq!(classify(&c, SIGSEGV, 0, 1001, 10, 200 * 1024 * 1024), ErrorCode::CpuTimeLimitExceeded);
    assert_eq!(classify(&c, 9, 0, 1001, 3000, 200 * 1024 * 1024), ErrorCode::CpuTimeLimitExceeded);
}

#[test]
fn unlimited_budgets_never_exceeded() {
    let c = Config { max_cpu_time: -1, max_real_time: -1, max_memory: -1, ..limits() };
    assert_eq!(classify(&c, 0, 0, i32::MAX, i32::MAX, i64::MAX), ErrorCode::Success);
}

#[test]
fn limit_equal_to_usage_is_not_exceeded() {
    let c = limits();
    assert_eq!(classify(&c, 0, 0, 1000, 2000, 128 * 1024 * 1024), ErrorCode::Success);
}

#[test]
fn same_config_twice_same_verdict() {
    let c = limits();
    let a = account(&c, 0, &usage(12, 1400), 20);
    let b = account(&c, 0, &usage(17, 1550), 31);
    assert_eq!(a.result, b.result);
    let a = account(&c, 9, &usage(2004, 1400), 2020);
    let b = account(&c, 9, &usage(2011, 1550), 2035);
    assert_eq!(a.result, b.result);
}

#[test]
fn measurements_saturate() {
    assert_eq!(cpu_time_ms(&ResourceUsage { utime_sec: 3, utime_usec: 999_999, maxrss: 0 }), 3999);
    assert_eq!(cpu_time_ms(&ResourceUsage { utime_sec: u64::MAX, utime_usec: 0, maxrss: 0 }), i32::MAX);
    assert_eq!(cpu_time_ms(&ResourceUsage { utime_sec: 2_147_483, utime_usec: 648_000, maxrss: 0 }), i32::MAX);
    assert_eq!(cpu_time_ms(&ResourceUsage { utime_sec: 2_147_483, utime_usec: 647_000, maxrss: 0 }), i32::MAX);
    assert_eq!(cpu_time_ms(&ResourceUsage { utime_sec: 2_147_483, utime_usec: 646_999, maxrss: 0 }), 2_147_483_646);
    assert_eq!(memory_bytes(&ResourceUsage { utime_sec: 0, utime_usec: 0, maxrss: u64::MAX }), i64::MAX);
    assert_eq!(real_time_ms(u64::MAX), i32::MAX);
    assert_eq!(real_time_ms(1234), 1234);
}

#[test]
fn non_root_is_refused() {
    match plan_run(false, &limits(), false) {
        Start::Refuse(e) => assert_eq!(e, ErrorCode::RootRequired),
        Start::Launch(_) => panic!("launched without root"),
    }
    let bad = Config { max_cpu_time: 0, ..limits() };
    match plan_run(false, &bad, true) {
        Start::Refuse(e) => assert_eq!(e, ErrorCode::RootRequired),
        Start::Launch(_) => panic!("launched without root"),
    }
}

#[test]
fn invalid_configs_are_refused() {
    let cases = vec![
        Config { max_cpu_time: 0, ..limits() },
        Config { max_real_time: -2, ..limits() },
        Config { max_memory: 0, ..limits() },
        Config { max_process_number: -5, ..limits() },
        Config { max_output_size: 0, ..limits() },
        Config { max_stack: 0, ..limits() },
        Config { max_stack: -1, ..limits() },
    ];
    for c in cases {
        assert!(!c.check());
        match plan_run(true, &c, false) {
            Start::Refuse(e) => assert_eq!(e, ErrorCode::InvalidConfig),
            Start::Launch(_) => panic!("launched an invalid config"),
        }
    }
}

#[test]
fn valid_config_launches_with_watchdog() {
    let c = limits();
    assert!(c.check());
    match plan_run(true, &c, true) {
        Start::Launch(p) => {
            assert!(p.piped);
            assert_eq!(p.watchdog_ms, Some(2000));
        }
        Start::Refuse(e) => panic!("refused: {:?}", e),
    }
    let c = Config { max_real_time: -1, ..limits() };
    match plan_run(true, &c, false) {
        Start::Launch(p) => {
            assert!(!p.piped);
            assert_eq!(p.watchdog_ms, None);
        }
        Start::Refuse(e) => panic!("refused: {:?}", e),
    }
}

#[test]
fn interactor_accepts() {
    let r = settle_interactor(account(&limits(), 0, &usage(3, 1000), 10), true, String::new());
    assert_eq!(r.result, ErrorCode::Success);
}

#[test]
fn interactor_rejects() {
    let msg = "wrong answer Query 1: expected 30, found -10\n".to_string();
    let r = settle_interactor(account(&limits(), 0, &usage(3, 1000), 10), false, msg.clone());
    assert_eq!(r.result, ErrorCode::WrongAnswer(msg));
    assert_eq!(r.cpu_time, 3);
}

#[test]
fn interactor_failure_keeps_guest_verdict() {
    let base = account(&limits(), 31, &usage(3, 1000), 10);
    let r = settle_interactor(base, false, "x".to_string());
    assert_eq!(r.result, ErrorCode::RuntimeError);
}

#[test]
fn default_run_result() {
    let r = RunResult::default();
    assert_eq!(r.cpu_time, 0);
    assert_eq!(r.memory, 0);
    assert_eq!(r.result, ErrorCode::Success);
    assert_eq!(RunResult::with_result(ErrorCode::ForkFailed).result, ErrorCode::ForkFailed);
}

#[test]
fn signal_numbers_match_the_platform() {
    assert_eq!(SIGSEGV, nix::libc::SIGSEGV);
    assert_eq!(SIGUSR1, nix::libc::SIGUSR1);
}
