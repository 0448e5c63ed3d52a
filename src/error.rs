use vstd::prelude::*;

verus! {

/// Outcome of a run: either a setup error (the supervisor could not complete
/// a fair run) or a verdict on the guest.
#[derive(Debug, Clone, PartialEq, Eq)]
pub enum ErrorCode {
    /// Operation completed successfully.
    Success,
    /// Configuration is invalid.
    InvalidConfig,
    /// Forking a new process failed.
    ForkFailed,
    /// Compiling the source code failed.
    CompileError,
    /// Waiting for a process failed.
    WaitFailed,
    /// Root privileges are required.
    RootRequired,
    /// Loading seccomp rules failed.
    LoadSeccompFailed,
    /// Setting resource limits failed.
    SetrlimitFailed,
    /// Duplicating file descriptors failed.
    Dup2Failed,
    /// Setting user ID failed.
    SetuidFailed,
    /// Executing the target program failed.
    ExecveFailed,
    /// Special judge program error.
    SpjError,
    /// System error.
    SystemError,
    /// CPU time limit exceeded.
    CpuTimeLimitExceeded,
    /// Real time limit exceeded.
    RealTimeLimitExceeded,
    /// Memory limit exceeded.
    MemoryLimitExceeded,
    /// Runtime error.
    RuntimeError,
    /// The interactor rejected the guest's answer, with its message.
    WrongAnswer(String),
}

impl ErrorCode {
    /// The numeric code of each outcome: setup errors are negative, guest
    /// verdicts other than success are positive.
    pub open spec fn code(&self) -> int {
        match self {
            ErrorCode::Success => 0,
            ErrorCode::InvalidConfig => -1,
            ErrorCode::ForkFailed => -2,
            ErrorCode::CompileError => -3,
            ErrorCode::WaitFailed => -4,
            ErrorCode::RootRequired => -5,
            ErrorCode::LoadSeccompFailed => -6,
            ErrorCode::SetrlimitFailed => -7,
            ErrorCode::Dup2Failed => -8,
            ErrorCode::SetuidFailed => -9,
            ErrorCode::ExecveFailed => -10,
            ErrorCode::SpjError => -11,
            ErrorCode::SystemError => -12,
            ErrorCode::CpuTimeLimitExceeded => 1,
            ErrorCode::RealTimeLimitExceeded => 2,
            ErrorCode::MemoryLimitExceeded => 3,
            ErrorCode::RuntimeError => 4,
            ErrorCode::WrongAnswer(_) => 5,
        }
    }

    /// The name of a message-less outcome, as it is printed.
    pub open spec fn name(&self) -> Seq<char> {
        match self {
            ErrorCode::Success => "Success"@,
            ErrorCode::InvalidConfig => "InvalidConfig"@,
            ErrorCode::ForkFailed => "ForkFailed"@,
            ErrorCode::CompileError => "CompileError"@,
            ErrorCode::WaitFailed => "WaitFailed"@,
            ErrorCode::RootRequired => "RootRequired"@,
            ErrorCode::LoadSeccompFailed => "LoadSeccompFailed"@,
            ErrorCode::SetrlimitFailed => "SetrlimitFailed"@,
            ErrorCode::Dup2Failed => "Dup2Failed"@,
            ErrorCode::SetuidFailed => "SetuidFailed"@,
            ErrorCode::ExecveFailed => "ExecveFailed"@,
            ErrorCode::SpjError => "SpjError"@,
            ErrorCode::SystemError => "SystemError"@,
            ErrorCode::CpuTimeLimitExceeded => "CpuTimeLimitExceeded"@,
            ErrorCode::RealTimeLimitExceeded => "RealTimeLimitExceeded"@,
            ErrorCode::MemoryLimitExceeded => "MemoryLimitExceeded"@,
            ErrorCode::RuntimeError => "RuntimeError"@,
            ErrorCode::WrongAnswer(_) => "WrongAnswer"@,
        }
    }

    /// The printed form: the outcome's name, or `Wrong Answer: ` followed by
    /// the interactor's message.
    pub open spec fn text(&self) -> Seq<char> {
        match self {
            ErrorCode::WrongAnswer(msg) => "Wrong Answer: "@ + msg@,
            _ => self.name(),
        }
    }

    /// Convert the ErrorCode to its corresponding i32 value.
    pub fn to_i32(&self) -> (r: i32)
        ensures
            r == self.code(),
    {
        match self {
            ErrorCode::Success => 0,
            ErrorCode::InvalidConfig => -1,
            ErrorCode::ForkFailed => -2,
            ErrorCode::CompileError => -3,
            ErrorCode::WaitFailed => -4,
            ErrorCode::RootRequired => -5,
            ErrorCode::LoadSeccompFailed => -6,
            ErrorCode::SetrlimitFailed => -7,
            ErrorCode::Dup2Failed => -8,
            ErrorCode::SetuidFailed => -9,
            ErrorCode::ExecveFailed => -10,
            ErrorCode::SpjError => -11,
            ErrorCode::SystemError => -12,
            ErrorCode::CpuTimeLimitExceeded => 1,
            ErrorCode::RealTimeLimitExceeded => 2,
            ErrorCode::MemoryLimitExceeded => 3,
            ErrorCode::RuntimeError => 4,
            ErrorCode::WrongAnswer(_) => 5,
        }
    }

    /// The printed form of the outcome.
    pub fn to_string(&self) -> (r: String)
        ensures
            r@ == self.text(),
    {
        match self {
            ErrorCode::Success => String::from_str("Success"),
            ErrorCode::InvalidConfig => String::from_str("InvalidConfig"),
            ErrorCode::ForkFailed => String::from_str("ForkFailed"),
            ErrorCode::CompileError => String::from_str("CompileError"),
            ErrorCode::WaitFailed => String::from_str("WaitFailed"),
            ErrorCode::RootRequired => String::from_str("RootRequired"),
            ErrorCode::LoadSeccompFailed => String::from_str("LoadSeccompFailed"),
            ErrorCode::SetrlimitFailed => String::from_str("SetrlimitFailed"),
            ErrorCode::Dup2Failed => String::from_str("Dup2Failed"),
            ErrorCode::SetuidFailed => String::from_str("SetuidFailed"),
            ErrorCode::ExecveFailed => String::from_str("ExecveFailed"),
            ErrorCode::SpjError => String::from_str("SpjError"),
            ErrorCode::SystemError => String::from_str("SystemError"),
            ErrorCode::CpuTimeLimitExceeded => String::from_str("CpuTimeLimitExceeded"),
            ErrorCode::RealTimeLimitExceeded => String::from_str("RealTimeLimitExceeded"),
            ErrorCode::MemoryLimitExceeded => String::from_str("MemoryLimitExceeded"),
            ErrorCode::RuntimeError => String::from_str("RuntimeError"),
            ErrorCode::WrongAnswer(msg) => String::from_str("Wrong Answer: ").concat(msg.as_str()),
        }
    }
}

} // verus!
