use judger::{log_line, Config, ErrorCode, LogLevel, SeccompRuleName};

#[test]
fn error_codes_have_numbers() {
    assert_eq!(ErrorCode::Success.to_i32(), 0);
    assert_eq!(ErrorCode::InvalidConfig.to_i32(), -1);
    assert_eq!(ErrorCode::RootRequired.to_i32(), -5);
    assert_eq!(ErrorCode::LoadSeccompFailed.to_i32(), -6);
    assert_eq!(ErrorCode::SystemError.to_i32(), -12);
    assert_eq!(ErrorCode::CpuTimeLimitExceeded.to_i32(), 1);
    assert_eq!(ErrorCode::RuntimeError.to_i32(), 4);
    assert_eq!(ErrorCode::WrongAnswer("m".to_string()).to_i32(), 5);
}

#[test]
fn error_codes_print() {
    assert_eq!(ErrorCode::MemoryLimitExceeded.to_string(), "MemoryLimitExceeded");
    assert_eq!(ErrorCode::WrongAnswer("bad\n".to_string()).to_string(), "Wrong Answer: bad\n");
}

#[test]
fn default_config_is_valid() {
    let c = Config::default();
    assert!(c.check());
    assert_eq!(c.max_cpu_time, 1000);
    assert_eq!(c.max_memory, 128 * 1024 * 1024);
    assert_eq!(c.max_process_number, 1);
    assert_eq!(c.seccomp_rule_name, Some(SeccompRuleName::General));
}

#[test]
fn unlimited_config_is_valid() {
    let c = Config {
        max_cpu_time: -1,
        max_real_time: -1,
        max_memory: -1,
        max_process_number: -1,
        max_output_size: -1,
        max_stack: 1,
        ..Default::default()
    };
    assert!(c.check());
}

#[test]
fn log_records_have_one_line_each() {
    let s = log_line(LogLevel::Fatal, 1700000000, "src/runner.rs", 42, "Error: Invalid configuration provided.");
    assert_eq!(s, "Fatal [1700000000] [src/runner.rs:42] Error: Invalid configuration provided.\n");
    let s = log_line(LogLevel::Debug, 0, "a.rs", 7, "");
    assert_eq!(s, "Debug [0] [a.rs:7] \n");
    assert_eq!(LogLevel::Warning.name(), "Warning");
    assert_eq!(LogLevel::Info.name(), "Info");
}
