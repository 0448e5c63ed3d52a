use vstd::prelude::*;

verus! {

/// The named syscall-filter policies.
#[derive(Debug, Clone, Copy, PartialEq, Eq, Structural)]
pub enum SeccompRuleName {
    /// C/C++: a strict whitelist; files may be opened for reading only.
    CCpp,
    /// C/C++ with file I/O: the whitelist, plus opening and duplicating files.
    CCppFileIO,
    /// Go: a blacklist of process-creation, signal and network calls.
    Golang,
    /// Node.js: the same blacklist as Go.
    Node,
    /// General: a blacklist, and no opening of files for writing.
    General,
}


/// What a filter does with a system call.
#[derive(Debug, Clone, Copy, PartialEq, Eq, Structural)]
pub enum FilterAction {
    /// The call proceeds.
    Allow,
    /// The calling process is killed.
    KillProcess,
}

/// The other of the two actions.
pub open spec fn opposite(a: FilterAction) -> FilterAction {
    match a {
        FilterAction::Allow => FilterAction::KillProcess,
        FilterAction::KillProcess => FilterAction::Allow,
    }
}

/// A condition on one syscall argument: `(args[arg] & mask) == datum`.
#[derive(Debug, Clone, Copy, PartialEq, Eq, Structural)]
pub struct ArgCondition {
    /// Zero-based index of the argument.
    pub arg: u32,
    /// Bits of the argument that are compared.
    pub mask: u64,
    /// Value the masked argument must equal.
    pub datum: u64,
}

/// `open(2)` flag: write only (Linux).
pub const O_WRONLY: u64 = 1;

/// `open(2)` flag: read and write (Linux).
pub const O_RDWR: u64 = 2;

/// One rule of a policy: the action taken on a named system call, when the
/// condition (if any) holds of its arguments.
#[derive(Debug, Clone)]
pub struct FilterRule {
    /// Name of the system call.
    pub syscall: String,
    /// Action taken when the rule matches.
    pub action: FilterAction,
    /// Argument condition; `None` matches every call.
    pub condition: Option<ArgCondition>,
}

/// A rule as a mathematical value: syscall name, action, condition.
pub type RuleView = (Seq<char>, FilterAction, Option<ArgCondition>);

/// A policy as a mathematical value: default action and rules.
pub type PolicyView = (FilterAction, Seq<RuleView>);

impl View for FilterRule {
    type V = RuleView;

    open spec fn view(&self) -> RuleView {
        (self.syscall@, self.action, self.condition)
    }
}

/// A syscall-filter policy: a default action and the rules that override it.
#[derive(Debug, Clone)]
pub struct FilterPolicy {
    /// Action for calls that no rule matches.
    pub default_action: FilterAction,
    /// The rules, in the order they are installed.
    pub rules: Vec<FilterRule>,
}

impl View for FilterPolicy {
    type V = PolicyView;

    open spec fn view(&self) -> PolicyView {
        (self.default_action, self.rules@.map_values(|r: FilterRule| r@))
    }
}

/// Whether a rule applies to a call of `name` with arguments `args`.
pub open spec fn rule_matches(r: RuleView, name: Seq<char>, args: Seq<u64>) -> bool {
    &&& r.0 == name
    &&& match r.2 {
        None => true,
        Some(c) => (c.arg as int) < args.len() && args[c.arg as int] & c.mask == c.datum,
    }
}

/// Whether some rule of the policy applies to the call.
pub open spec fn some_rule_matches(p: PolicyView, name: Seq<char>, args: Seq<u64>) -> bool {
    exists|i: int| 0 <= i < p.1.len() && #[trigger] rule_matches(p.1[i], name, args)
}

/// Every rule overrides the default: its action is the other one.
pub open spec fn single_action(p: PolicyView) -> bool {
    forall|i: int| 0 <= i < p.1.len() ==> (#[trigger] p.1[i]).1 == opposite(p.0)
}

/// What a policy whose rules all override the default does with a call: the
/// rules' action if one of them matches, else the default.
pub open spec fn decide(p: PolicyView, name: Seq<char>, args: Seq<u64>) -> FilterAction {
    if some_rule_matches(p, name, args) {
        opposite(p.0)
    } else {
        p.0
    }
}

/// Unconditional rules with one action, one per name, in order.
pub open spec fn unconditional(names: Seq<Seq<char>>, action: FilterAction) -> Seq<RuleView> {
    names.map_values(|n: Seq<char>| (n, action, None::<ArgCondition>))
}

/// The system calls that the C/C++ policies allow.
pub open spec fn ccpp_whitelist() -> Seq<Seq<char>> {
    seq![
        "access"@, "arch_prctl"@, "brk"@, "clock_gettime"@, "close"@, "exit_group"@,
        "faccessat"@, "fstat"@, "futex"@, "getrandom"@, "lseek"@, "mmap"@, "mprotect"@,
        "munmap"@, "newfstatat"@, "pread64"@, "prlimit64"@, "read"@, "readlink"@, "readv"@,
        "rseq"@, "set_robust_list"@, "set_tid_address"@, "write"@, "writev"@, "execve"@,
    ]
}

/// The calls that the C/C++ policy with file I/O allows on top of the whitelist.
pub open spec fn file_io_calls() -> Seq<Seq<char>> {
    seq!["open"@, "openat"@, "dup"@, "dup2"@, "dup3"@]
}

/// The calls that the Go and Node.js policies kill.
pub open spec fn runtime_blacklist() -> Seq<Seq<char>> {
    seq!["socket"@, "fork"@, "vfork"@, "kill"@, "execveat"@]
}

/// The calls that the general policy kills unconditionally.
pub open spec fn general_blacklist() -> Seq<Seq<char>> {
    seq!["clone"@, "fork"@, "vfork"@, "kill"@, "execveat"@, "socket"@]
}

/// `open` (flags are argument 1) and `openat` (argument 2) allowed when
/// neither write bit is set.
pub open spec fn read_only_open_rules() -> Seq<RuleView> {
    let both = O_WRONLY | O_RDWR;
    seq![
        ("open"@, FilterAction::Allow, Some(ArgCondition { arg: 1, mask: both, datum: 0 })),
        ("openat"@, FilterAction::Allow, Some(ArgCondition { arg: 2, mask: both, datum: 0 })),
    ]
}

/// `open` and `openat` killed when the write-only bit is set, and when the
/// read-write bit is set: one rule per bit.
pub open spec fn write_open_rules() -> Seq<RuleView> {
    seq![
        ("open"@, FilterAction::KillProcess, Some(ArgCondition { arg: 1, mask: O_WRONLY, datum: O_WRONLY })),
        ("open"@, FilterAction::KillProcess, Some(ArgCondition { arg: 1, mask: O_RDWR, datum: O_RDWR })),
        ("openat"@, FilterAction::KillProcess, Some(ArgCondition { arg: 2, mask: O_WRONLY, datum: O_WRONLY })),
        ("openat"@, FilterAction::KillProcess, Some(ArgCondition { arg: 2, mask: O_RDWR, datum: O_RDWR })),
    ]
}

/// The policy that each rule name stands for.
pub open spec fn policy_spec(name: SeccompRuleName) -> PolicyView {
    match name {
        SeccompRuleName::CCpp => (
            FilterAction::KillProcess,
            unconditional(ccpp_whitelist(), FilterAction::Allow) + read_only_open_rules(),
        ),
        SeccompRuleName::CCppFileIO => (
            FilterAction::KillProcess,
            unconditional(ccpp_whitelist() + file_io_calls(), FilterAction::Allow),
        ),
        SeccompRuleName::Golang => (
            FilterAction::Allow,
            unconditional(runtime_blacklist(), FilterAction::KillProcess),
        ),
        SeccompRuleName::Node => (
            FilterAction::Allow,
            unconditional(runtime_blacklist(), FilterAction::KillProcess),
        ),
        SeccompRuleName::General => (
            FilterAction::Allow,
            unconditional(general_blacklist(), FilterAction::KillProcess) + write_open_rules(),
        ),
    }
}

/// Appends one unconditional rule per name.
fn push_unconditional(rules: &mut Vec<FilterRule>, names: &[&str], action: FilterAction)
    ensures
        final(rules)@.map_values(|r: FilterRule| r@) == old(rules)@.map_values(
            |r: FilterRule| r@,
        ) + unconditional(names@.map_values(|s: &str| s@), action),
{
    let ghost start = rules@;
    let mut i: usize = 0;
    while i < names.len()
        invariant
            i <= names@.len(),
            rules@.map_values(|r: FilterRule| r@) == start.map_values(|r: FilterRule| r@)
                + unconditional(names@.subrange(0, i as int).map_values(|s: &str| s@), action),
        decreases names@.len() - i,
    {
        let ghost before = rules@;
        let rule = FilterRule { syscall: String::from_str(names[i]), action, condition: None };
        assert(rule@ == (names@[i as int]@, action, None::<ArgCondition>));
        rules.push(rule);
        proof {
            let prefix = names@.subrange(0, i as int);
            assert(names@.subrange(0, i + 1) =~= prefix.push(names@[i as int]));
            assert(rules@ == before.push(rule));
            assert(rules@.map_values(|r: FilterRule| r@) =~= before.map_values(|r: FilterRule| r@).push(rule@));
            assert(unconditional(prefix.push(names@[i as int]).map_values(|s: &str| s@), action)
                =~= unconditional(prefix.map_values(|s: &str| s@), action).push(rule@));
        }
        i = i + 1;
    }
    assert(names@.subrange(0, i as int) =~= names@);
}

/// Appends one rule with an argument condition.
fn push_conditional(rules: &mut Vec<FilterRule>, name: &str, action: FilterAction, condition: ArgCondition)
    ensures
        final(rules)@.map_values(|r: FilterRule| r@) == old(rules)@.map_values(|r: FilterRule| r@).push(
            (name@, action, Some(condition)),
        ),
{
    let ghost before = rules@;
    let rule = FilterRule { syscall: String::from_str(name), action, condition: Some(condition) };
    rules.push(rule);
    assert(rules@.map_values(|r: FilterRule| r@) =~= before.map_values(|r: FilterRule| r@).push(rule@));
}

/// The C/C++ policy: kill by default, allow the whitelist; with
/// `allow_write_file`, also allow opening and duplicating files, else allow
/// `open` and `openat` only without a write bit in their flags.
fn c_cpp_policy(allow_write_file: bool) -> (r: FilterPolicy)
    ensures
        r@ == policy_spec(
            if allow_write_file {
                SeccompRuleName::CCppFileIO
            } else {
                SeccompRuleName::CCpp
            },
        ),
{
    let mut rules: Vec<FilterRule> = Vec::new();
    let whitelist: &[&str] = &[
        "access", "arch_prctl", "brk", "clock_gettime", "close", "exit_group",
        "faccessat", "fstat", "futex", "getrandom", "lseek", "mmap", "mprotect",
        "munmap", "newfstatat", "pread64", "prlimit64", "read", "readlink", "readv",
        "rseq", "set_robust_list", "set_tid_address", "write", "writev", "execve",
    ];
    assert(whitelist@.map_values(|s: &str| s@) =~= ccpp_whitelist());
    push_unconditional(&mut rules, whitelist, FilterAction::Allow);
    if allow_write_file {
        let file_io: &[&str] = &["open", "openat", "dup", "dup2", "dup3"];
        assert(file_io@.map_values(|s: &str| s@) =~= file_io_calls());
        push_unconditional(&mut rules, file_io, FilterAction::Allow);
        assert(unconditional(ccpp_whitelist() + file_io_calls(), FilterAction::Allow)
            =~= unconditional(ccpp_whitelist(), FilterAction::Allow)
            + unconditional(file_io_calls(), FilterAction::Allow));
    } else {
        let both = O_WRONLY | O_RDWR;
        push_conditional(&mut rules, "open", FilterAction::Allow, ArgCondition { arg: 1, mask: both, datum: 0 });
        push_conditional(&mut rules, "openat", FilterAction::Allow, ArgCondition { arg: 2, mask: both, datum: 0 });
    }
    let r = FilterPolicy { default_action: FilterAction::KillProcess, rules };
    proof {
        let empty = Seq::<FilterRule>::empty().map_values(|r: FilterRule| r@);
        assert(empty =~= Seq::<RuleView>::empty());
        if !allow_write_file {
            assert(r@.1 =~= unconditional(ccpp_whitelist(), FilterAction::Allow) + read_only_open_rules());
        } else {
            assert(r@.1 =~= unconditional(ccpp_whitelist() + file_io_calls(), FilterAction::Allow));
        }
    }
    r
}

/// The Go policy: allow by default, kill the runtime blacklist.
fn golang_policy() -> (r: FilterPolicy)
    ensures
        r@ == policy_spec(SeccompRuleName::Golang),
{
    let mut rules: Vec<FilterRule> = Vec::new();
    let blacklist: &[&str] = &["socket", "fork", "vfork", "kill", "execveat"];
    assert(blacklist@.map_values(|s: &str| s@) =~= runtime_blacklist());
    push_unconditional(&mut rules, blacklist, FilterAction::KillProcess);
    let r = FilterPolicy { default_action: FilterAction::Allow, rules };
    assert(r@.1 =~= unconditional(runtime_blacklist(), FilterAction::KillProcess));
    r
}

/// The Node.js policy: the same blacklist as Go.
fn node_policy() -> (r: FilterPolicy)
    ensures
        r@ == policy_spec(SeccompRuleName::Node),
{
    let mut rules: Vec<FilterRule> = Vec::new();
    let blacklist: &[&str] = &["socket", "fork", "vfork", "kill", "execveat"];
    assert(blacklist@.map_values(|s: &str| s@) =~= runtime_blacklist());
    push_unconditional(&mut rules, blacklist, FilterAction::KillProcess);
    let r = FilterPolicy { default_action: FilterAction::Allow, rules };
    assert(r@.1 =~= unconditional(runtime_blacklist(), FilterAction::KillProcess));
    r
}

/// The general policy: allow by default, kill the general blacklist, and
/// kill `open` and `openat` when either write bit is set in their flags.
fn general_policy() -> (r: FilterPolicy)
    ensures
        r@ == policy_spec(SeccompRuleName::General),
{
    let mut rules: Vec<FilterRule> = Vec::new();
    let blacklist: &[&str] = &["clone", "fork", "vfork", "kill", "execveat", "socket"];
    assert(blacklist@.map_values(|s: &str| s@) =~= general_blacklist());
    push_unconditional(&mut rules, blacklist, FilterAction::KillProcess);
    let kill = FilterAction::KillProcess;
    push_conditional(&mut rules, "open", kill, ArgCondition { arg: 1, mask: O_WRONLY, datum: O_WRONLY });
    push_conditional(&mut rules, "open", kill, ArgCondition { arg: 1, mask: O_RDWR, datum: O_RDWR });
    push_conditional(&mut rules, "openat", kill, ArgCondition { arg: 2, mask: O_WRONLY, datum: O_WRONLY });
    push_conditional(&mut rules, "openat", kill, ArgCondition { arg: 2, mask: O_RDWR, datum: O_RDWR });
    let r = FilterPolicy { default_action: FilterAction::Allow, rules };
    assert(r@.1 =~= unconditional(general_blacklist(), kill) + write_open_rules());
    r
}

/// Every named policy overrides its default with the other action only.
pub proof fn lemma_policy_single_action(name: SeccompRuleName)
    ensures
        single_action(policy_spec(name)),
{
    let p = policy_spec(name);
    assert forall|i: int| 0 <= i < p.1.len() implies (#[trigger] p.1[i]).1 == opposite(p.0) by {
        match name {
            SeccompRuleName::CCpp => {
                let n = ccpp_whitelist().len() as int;
                if i >= n {
                    assert(p.1[i] == read_only_open_rules()[i - n]);
                }
            },
            SeccompRuleName::General => {
                let n = general_blacklist().len() as int;
                if i >= n {
                    assert(p.1[i] == write_open_rules()[i - n]);
                }
            },
            _ => {},
        }
    }
}

/// The policy that a rule name stands for.
pub fn policy_for(rule_name: &SeccompRuleName) -> (r: FilterPolicy)
    ensures
        r@ == policy_spec(*rule_name),
        single_action(r@),
{
    proof {
        lemma_policy_single_action(*rule_name);
    }
    match rule_name {
        SeccompRuleName::CCpp => c_cpp_policy(false),
        SeccompRuleName::CCppFileIO => c_cpp_policy(true),
        SeccompRuleName::Golang => golang_policy(),
        SeccompRuleName::Node => node_policy(),
        SeccompRuleName::General => general_policy(),
    }
}

impl FilterRule {
    /// Whether the rule applies to a call of `name` with arguments `args`.
    pub fn matches(&self, name: &String, args: &[u64]) -> (r: bool)
        ensures
            r == rule_matches(self@, name@, args@),
    {
        if self.syscall != *name {
            return false;
        }
        match self.condition {
            None => true,
            Some(c) => (c.arg as usize) < args.len() && args[c.arg as usize] & c.mask == c.datum,
        }
    }
}

impl FilterPolicy {
    /// What the policy does with a call of `name` with arguments `args`,
    /// for a policy whose rules all override its default.
    pub fn action_for(&self, name: &String, args: &[u64]) -> (r: FilterAction)
        ensures
            r == decide(self@, name@, args@),
    {
        let mut i: usize = 0;
        while i < self.rules.len()
            invariant
                i <= self.rules@.len(),
                forall|k: int| 0 <= k < i ==> !rule_matches(#[trigger] self@.1[k], name@, args@),
            decreases self.rules@.len() - i,
        {
            if self.rules[i].matches(name, args) {
                assert(rule_matches(self@.1[i as int], name@, args@));
                return match self.default_action {
                    FilterAction::Allow => FilterAction::KillProcess,
                    FilterAction::KillProcess => FilterAction::Allow,
                };
            }
            i = i + 1;
        }
        self.default_action
    }
}

/// Under the C/C++ policy, a call of any system call outside the whitelist,
/// other than `open` and `openat`, kills the process.
pub proof fn lemma_ccpp_kills_unlisted(name: Seq<char>, args: Seq<u64>)
    requires
        !ccpp_whitelist().contains(name),
        name != "open"@,
        name != "openat"@,
    ensures
        decide(policy_spec(SeccompRuleName::CCpp), name, args) == FilterAction::KillProcess,
{
    let p = policy_spec(SeccompRuleName::CCpp);
    let n = ccpp_whitelist().len() as int;
    assert forall|i: int| 0 <= i < p.1.len() implies !rule_matches(#[trigger] p.1[i], name, args) by {
        if i < n {
            assert(p.1[i].0 == ccpp_whitelist()[i]);
        } else {
            assert(p.1[i] == read_only_open_rules()[i - n]);
        }
    }
}

/// Under the C/C++ policy, every whitelisted system call is allowed,
/// whatever its arguments.
pub proof fn lemma_ccpp_allows_whitelist(name: Seq<char>, args: Seq<u64>)
    requires
        ccpp_whitelist().contains(name),
    ensures
        decide(policy_spec(SeccompRuleName::CCpp), name, args) == FilterAction::Allow,
{
    let p = policy_spec(SeccompRuleName::CCpp);
    let i = choose|i: int| 0 <= i < ccpp_whitelist().len() && ccpp_whitelist()[i] == name;
    assert(rule_matches(p.1[i], name, args));
}

/// Under the C/C++ policy, `open` with a write bit in its flags (argument
/// 1), or `openat` with one in its flags (argument 2), kills the process.
pub proof fn lemma_ccpp_kills_writable_open(args: Seq<u64>)
    requires
        args.len() == 6,
    ensures
        args[1] & (O_WRONLY | O_RDWR) != 0 ==> decide(policy_spec(SeccompRuleName::CCpp), "open"@, args)
            == FilterAction::KillProcess,
        args[2] & (O_WRONLY | O_RDWR) != 0 ==> decide(policy_spec(SeccompRuleName::CCpp), "openat"@, args)
            == FilterAction::KillProcess,
{
    reveal_strlit("open");
    reveal_strlit("openat");
    reveal_strlit("access");
    reveal_strlit("arch_prctl");
    reveal_strlit("brk");
    reveal_strlit("clock_gettime");
    reveal_strlit("close");
    reveal_strlit("exit_group");
    reveal_strlit("faccessat");
    reveal_strlit("fstat");
    reveal_strlit("futex");
    reveal_strlit("getrandom");
    reveal_strlit("lseek");
    reveal_strlit("mmap");
    reveal_strlit("mprotect");
    reveal_strlit("munmap");
    reveal_strlit("newfstatat");
    reveal_strlit("pread64");
    reveal_strlit("prlimit64");
    reveal_strlit("read");
    reveal_strlit("readlink");
    reveal_strlit("readv");
    reveal_strlit("rseq");
    reveal_strlit("set_robust_list");
    reveal_strlit("set_tid_address");
    reveal_strlit("write");
    reveal_strlit("writev");
    reveal_strlit("execve");
    let p = policy_spec(SeccompRuleName::CCpp);
    let n = ccpp_whitelist().len() as int;
    let w = ccpp_whitelist();
    assert forall|i: int| 0 <= i < n implies (#[trigger] w[i]).len() > 0 && w[i][0] != 'o' by {
        if i < 13 {
            if i < 4 {} else if i < 8 {} else {}
        } else {
            if i < 17 {} else if i < 21 {} else {}
        }
    }
    assert forall|i: int| 0 <= i < p.1.len() && #[trigger] rule_matches(p.1[i], "open"@, args)
        implies args[1] & (O_WRONLY | O_RDWR) == 0 by {
        if i < n {
            assert(p.1[i].0 == ccpp_whitelist()[i]);
            assert(ccpp_whitelist()[i][0] != "open"@[0]);
        } else {
            assert(p.1[i] == read_only_open_rules()[i - n]);
            if i == n {
                assert(args[1] & (O_WRONLY | O_RDWR) == 0);
            } else {
                assert("openat"@.len() != "open"@.len());
            }
        }
    }
    assert forall|i: int| 0 <= i < p.1.len() && #[trigger] rule_matches(p.1[i], "openat"@, args)
        implies args[2] & (O_WRONLY | O_RDWR) == 0 by {
        if i < n {
            assert(p.1[i].0 == ccpp_whitelist()[i]);
            assert(ccpp_whitelist()[i][0] != "openat"@[0]);
        } else {
            assert(p.1[i] == read_only_open_rules()[i - n]);
            if i == n {
                assert("openat"@.len() != "open"@.len());
            } else {
                assert(args[2] & (O_WRONLY | O_RDWR) == 0);
            }
        }
    }
}

} // verus!
