use vstd::prelude::*;

verus! {

/// Log levels supported by the logger.
#[derive(Debug, Clone, Copy, PartialEq, Eq, Structural)]
pub enum LogLevel {
    /// A critical error.
    Fatal,
    /// A potential issue.
    Warning,
    /// General information.
    Info,
    /// Detailed debugging information.
    Debug,
}

impl LogLevel {
    /// The level's name as it opens a log line.
    pub open spec fn name_spec(&self) -> Seq<char> {
        match self {
            LogLevel::Fatal => "Fatal"@,
            LogLevel::Warning => "Warning"@,
            LogLevel::Info => "Info"@,
            LogLevel::Debug => "Debug"@,
        }
    }

    /// The level's name as it opens a log line.
    pub fn name(&self) -> (r: &'static str)
        ensures
            r@ == self.name_spec(),
    {
        match self {
            LogLevel::Fatal => "Fatal",
            LogLevel::Warning => "Warning",
            LogLevel::Info => "Info",
            LogLevel::Debug => "Debug",
        }
    }
}

/// The decimal digit `d`.
pub open spec fn digit(d: nat) -> Seq<char> {
    if d == 0 {
        "0"@
    } else if d == 1 {
        "1"@
    } else if d == 2 {
        "2"@
    } else if d == 3 {
        "3"@
    } else if d == 4 {
        "4"@
    } else if d == 5 {
        "5"@
    } else if d == 6 {
        "6"@
    } else if d == 7 {
        "7"@
    } else if d == 8 {
        "8"@
    } else {
        "9"@
    }
}

/// `n` in decimal, without leading zeros.
pub open spec fn decimal(n: nat) -> Seq<char>
    decreases n,
{
    if n < 10 {
        digit(n)
    } else {
        decimal(n / 10) + digit(n % 10)
    }
}

/// One log record: `LEVEL [unix_ts] [file:line] message` and a newline.
pub open spec fn log_line_spec(level: LogLevel, timestamp: u64, file: Seq<char>, line: u32, message: Seq<char>) -> Seq<char> {
    level.name_spec() + " ["@ + decimal(timestamp as nat) + "] ["@ + file + ":"@ + decimal(line as nat) + "] "@
        + message + "\n"@
}

fn digit_str(d: u64) -> (r: &'static str)
    requires
        d < 10,
    ensures
        r@ == digit(d as nat),
{
    if d == 0 {
        "0"
    } else if d == 1 {
        "1"
    } else if d == 2 {
        "2"
    } else if d == 3 {
        "3"
    } else if d == 4 {
        "4"
    } else if d == 5 {
        "5"
    } else if d == 6 {
        "6"
    } else if d == 7 {
        "7"
    } else if d == 8 {
        "8"
    } else {
        "9"
    }
}

/// Appends `n` in decimal.
fn push_decimal(s: &mut String, n: u64)
    ensures
        final(s)@ == old(s)@ + decimal(n as nat),
    decreases n,
{
    if n >= 10 {
        push_decimal(s, n / 10);
    }
    s.append(digit_str(n % 10));
}

/// Formats one log record.
pub fn log_line(level: LogLevel, timestamp: u64, file: &str, line: u32, message: &str) -> (r: String)
    ensures
        r@ == log_line_spec(level, timestamp, file@, line, message@),
{
    let mut s = String::from_str(level.name());
    s.append(" [");
    push_decimal(&mut s, timestamp);
    s.append("] [");
    s.append(file);
    s.append(":");
    push_decimal(&mut s, line as u64);
    s.append("] ");
    s.append(message);
    s.append("\n");
    s
}

} // verus!
