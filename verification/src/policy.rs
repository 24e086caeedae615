//! The execution policy for the worker, as data: a default-deny syscall
//! filter whose allow-list is exactly what serving requests on the channel
//! endpoint needs — reads and writes on the inherited standard descriptors,
//! receive and send on the channel descriptor (plus plain write there, since
//! the C library may map send to write), and the entropy call restricted to
//! non-blocking flag usage. Building the
//! rule list is pure and verified here; loading it into the kernel is a
//! one-shot, irreversible platform call left to the surrounding application,
//! which must apply it before the first request is served and must treat a
//! failure to load as fatal to worker startup.

use vstd::prelude::*;

verus! {

/// The read syscall's number on x86_64.
pub const SYS_READ: u64 = 0;
/// The write syscall's number on x86_64.
pub const SYS_WRITE: u64 = 1;
/// The sendto syscall's number on x86_64.
pub const SYS_SENDTO: u64 = 44;
/// The recvfrom syscall's number on x86_64.
pub const SYS_RECVFROM: u64 = 45;
/// The getrandom syscall's number on x86_64.
pub const SYS_GETRANDOM: u64 = 318;
/// The errno a denied syscall fails with (permission denied), so that an
/// unauthorized action errors instead of crashing the worker.
pub const EPERM_CODE: u32 = 1;
/// The non-blocking flag of the entropy syscall (GRND_NONBLOCK); the flags
/// are its third argument.
pub const GRND_NONBLOCK: u64 = 1;

/// How a rule compares a syscall argument to its reference value.
#[derive(Clone, Copy, PartialEq, Eq, Structural, Debug)]
pub enum CompareOp {
    /// The argument must equal the value.
    Eq,
    /// The argument must differ from the value.
    Ne,
}

/// What the filter does with a matching (or, for the default, any other)
/// syscall.
#[derive(Clone, Copy, PartialEq, Eq, Structural, Debug)]
pub enum PolicyAction {
    /// Let the syscall proceed.
    Allow,
    /// Fail the syscall with this errno, without killing the process.
    Errno(u32),
}

/// One allow rule: a syscall, a comparison on one of its arguments, and the
/// action taken when the comparison holds.
#[derive(Clone, Copy, PartialEq, Eq, Structural, Debug)]
pub struct FilterRule {
    /// The syscall the rule is about.
    pub syscall: u64,
    /// Which argument the comparison reads.
    pub arg: u32,
    /// The reference value the argument is compared to.
    pub value: u64,
    /// The comparison itself.
    pub op: CompareOp,
    /// What happens when the comparison holds.
    pub action: PolicyAction,
}

/// A whole filter: what happens to syscalls no rule allows, and the rules.
pub struct WorkerPolicy {
    /// The default action — deny with permission-denied.
    pub default_action: PolicyAction,
    /// The allow-list, in the order the rules are installed.
    pub rules: Vec<FilterRule>,
}

/// The rule that allows read on one descriptor.
pub open spec fn read_rule(fd: u64) -> FilterRule {
    FilterRule { syscall: SYS_READ, arg: 0, value: fd, op: CompareOp::Eq, action: PolicyAction::Allow }
}

/// The rule that allows write on one descriptor.
pub open spec fn write_rule(fd: u64) -> FilterRule {
    FilterRule { syscall: SYS_WRITE, arg: 0, value: fd, op: CompareOp::Eq, action: PolicyAction::Allow }
}

/// The rule that allows recvfrom on one descriptor.
pub open spec fn recv_from_rule(fd: u64) -> FilterRule {
    FilterRule {
        syscall: SYS_RECVFROM,
        arg: 0,
        value: fd,
        op: CompareOp::Eq,
        action: PolicyAction::Allow,
    }
}

/// The rule that allows sendto on one descriptor.
pub open spec fn send_to_rule(fd: u64) -> FilterRule {
    FilterRule {
        syscall: SYS_SENDTO,
        arg: 0,
        value: fd,
        op: CompareOp::Eq,
        action: PolicyAction::Allow,
    }
}

/// The rule that allows the entropy call, restricted to non-blocking flag
/// usage: its flags argument (the third) must be exactly GRND_NONBLOCK.
pub open spec fn getrandom_rule() -> FilterRule {
    FilterRule {
        syscall: SYS_GETRANDOM,
        arg: 2,
        value: GRND_NONBLOCK,
        op: CompareOp::Eq,
        action: PolicyAction::Allow,
    }
}

/// The worker's whole allow-list, in installation order: standard input,
/// standard output and standard error, then receive, send and plain write on
/// the channel descriptor, then entropy.
pub open spec fn worker_rules(ipc_fd: u64) -> Seq<FilterRule> {
    seq![
        read_rule(0),
        write_rule(1),
        write_rule(2),
        recv_from_rule(ipc_fd),
        send_to_rule(ipc_fd),
        write_rule(ipc_fd),
        getrandom_rule(),
    ]
}

/// Builds the rule that allows read on a descriptor.
pub fn allow_read_fd(fd: u64) -> (r: FilterRule)
    ensures
        r == read_rule(fd),
{
    FilterRule { syscall: SYS_READ, arg: 0, value: fd, op: CompareOp::Eq, action: PolicyAction::Allow }
}

/// Builds the rule that allows write on a descriptor.
pub fn allow_write_fd(fd: u64) -> (r: FilterRule)
    ensures
        r == write_rule(fd),
{
    FilterRule { syscall: SYS_WRITE, arg: 0, value: fd, op: CompareOp::Eq, action: PolicyAction::Allow }
}

/// Builds the rule that allows recvfrom on a descriptor.
pub fn allow_recv_from_fd(fd: u64) -> (r: FilterRule)
    ensures
        r == recv_from_rule(fd),
{
    FilterRule {
        syscall: SYS_RECVFROM,
        arg: 0,
        value: fd,
        op: CompareOp::Eq,
        action: PolicyAction::Allow,
    }
}

/// Builds the rule that allows sendto on a descriptor.
pub fn allow_send_to_fd(fd: u64) -> (r: FilterRule)
    ensures
        r == send_to_rule(fd),
{
    FilterRule {
        syscall: SYS_SENDTO,
        arg: 0,
        value: fd,
        op: CompareOp::Eq,
        action: PolicyAction::Allow,
    }
}

/// Builds the rule that allows the entropy call, restricted to non-blocking
/// flag usage.
pub fn allow_getrandom() -> (r: FilterRule)
    ensures
        r == getrandom_rule(),
{
    FilterRule {
        syscall: SYS_GETRANDOM,
        arg: 2,
        value: GRND_NONBLOCK,
        op: CompareOp::Eq,
        action: PolicyAction::Allow,
    }
}

/// Builds the worker's whole execution policy for a given channel
/// descriptor: deny everything with permission-denied by default, and allow
/// exactly the seven listed operations.
pub fn worker_policy(ipc_fd: u64) -> (p: WorkerPolicy)
    ensures
        p.default_action == PolicyAction::Errno(EPERM_CODE),
        p.rules@ == worker_rules(ipc_fd),
{
    let mut rules: Vec<FilterRule> = Vec::new();
    rules.push(allow_read_fd(0));
    rules.push(allow_write_fd(1));
    rules.push(allow_write_fd(2));
    rules.push(allow_recv_from_fd(ipc_fd));
    rules.push(allow_send_to_fd(ipc_fd));
    rules.push(allow_write_fd(ipc_fd));
    rules.push(allow_getrandom());
    proof {
        assert(rules@ =~= worker_rules(ipc_fd));
    }
    WorkerPolicy { default_action: PolicyAction::Errno(EPERM_CODE), rules }
}

} // verus!
