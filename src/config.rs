use vstd::prelude::*;

use crate::seccomp::SeccompRuleName;

verus! {

/// A limit that is either a positive amount or `-1` for "unlimited".
pub open spec fn limit_ok(v: int) -> bool {
    v >= 1 || v == -1
}

/// Configuration for one run of the judger.
#[derive(Debug, Clone)]
pub struct Config {
    /// Maximum CPU time in milliseconds (-1 for unlimited).
    pub max_cpu_time: i32,
    /// Maximum real time in milliseconds (-1 for unlimited).
    pub max_real_time: i32,
    /// Maximum memory in bytes (-1 for unlimited).
    pub max_memory: i64,
    /// Maximum stack size in bytes.
    pub max_stack: i64,
    /// Maximum number of processes (-1 for unlimited).
    pub max_process_number: i32,
    /// Maximum output size in bytes (-1 for unlimited).
    pub max_output_size: i64,
    /// Path to the executable.
    pub exe_path: String,
    /// Path to the input file.
    pub input_path: String,
    /// Path to the output file.
    pub output_path: String,
    /// Path to the error file.
    pub error_path: String,
    /// Arguments to pass to the executable.
    pub args: Vec<String>,
    /// Environment variables for the executable.
    pub env: Vec<String>,
    /// Path to the log file.
    pub log_path: String,
    /// Name of the seccomp rule to apply.
    pub seccomp_rule_name: Option<SeccompRuleName>,
    /// User ID to run the process as.
    pub uid: u32,
    /// Group ID to run the process as.
    pub gid: u32,
}

impl Config {
    /// Every positive-or-unlimited limit is at least 1 or exactly -1, and the
    /// stack limit is at least 1.
    pub open spec fn is_valid(&self) -> bool {
        &&& limit_ok(self.max_cpu_time as int)
        &&& limit_ok(self.max_real_time as int)
        &&& limit_ok(self.max_memory as int)
        &&& limit_ok(self.max_process_number as int)
        &&& limit_ok(self.max_output_size as int)
        &&& self.max_stack >= 1
    }

    /// Whether the configuration may be run.
    pub fn check(&self) -> (r: bool)
        ensures
            r == self.is_valid(),
    {
        !((self.max_cpu_time < 1 && self.max_cpu_time != -1)
            || (self.max_real_time < 1 && self.max_real_time != -1)
            || (self.max_stack < 1)
            || (self.max_memory < 1 && self.max_memory != -1)
            || (self.max_process_number < 1 && self.max_process_number != -1)
            || (self.max_output_size < 1 && self.max_output_size != -1))
    }
}

impl Default for Config {
    /// One second of CPU, two of wall clock, 128 MiB of memory, a 32 MiB
    /// stack, one process, 10000 bytes of output, the general filter, and
    /// empty paths, arguments and environment.
    fn default() -> (r: Config)
        ensures
            r.max_cpu_time == 1000,
            r.max_real_time == 2000,
            r.max_memory == 128 * 1024 * 1024,
            r.max_stack == 32 * 1024 * 1024,
            r.max_process_number == 1,
            r.max_output_size == 10000,
            r.exe_path@.len() == 0,
            r.input_path@.len() == 0,
            r.output_path@.len() == 0,
            r.error_path@.len() == 0,
            r.args@.len() == 0,
            r.env@.len() == 0,
            r.log_path@.len() == 0,
            r.seccomp_rule_name == Some(SeccompRuleName::General),
            r.uid == 0,
            r.gid == 0,
            r.is_valid(),
    {
        Config {
            max_cpu_time: 1000,
            max_real_time: 2000,
            max_memory: 128 * 1024 * 1024,
            max_stack: 32 * 1024 * 1024,
            max_process_number: 1,
            max_output_size: 10000,
            exe_path: String::new(),
            input_path: String::new(),
            output_path: String::new(),
            error_path: String::new(),
            args: Vec::new(),
            env: Vec::new(),
            log_path: String::new(),
            seccomp_rule_name: Some(SeccompRuleName::General),
            uid: 0,
            gid: 0,
        }
    }
}

} // verus!
