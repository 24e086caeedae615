use keyvault::policy::allow_getrandom;
use keyvault::policy::allow_read_fd;
use keyvault::policy::allow_recv_from_fd;
use keyvault::policy::allow_send_to_fd;
use keyvault::policy::allow_write_fd;
use keyvault::policy::worker_policy;
use keyvault::policy::CompareOp;
use keyvault::policy::PolicyAction;

#[test]
fn worker_policy_is_default_deny_with_seven_rules() {
    let p = worker_policy(5);
    assert_eq!(p.default_action, PolicyAction::Errno(1));
    assert_eq!(p.rules.len(), 7);
    assert_eq!(p.rules[0], allow_read_fd(0));
    assert_eq!(p.rules[1], allow_write_fd(1));
    assert_eq!(p.rules[2], allow_write_fd(2));
    assert_eq!(p.rules[3], allow_recv_from_fd(5));
    assert_eq!(p.rules[4], allow_send_to_fd(5));
    assert_eq!(p.rules[5], allow_write_fd(5));
    assert_eq!(p.rules[6], allow_getrandom());
}

#[test]
fn rules_name_the_expected_syscalls() {
    let r = allow_read_fd(3);
    assert_eq!(r.syscall, 0);
    assert_eq!((r.arg, r.value, r.op), (0, 3, CompareOp::Eq));
    assert_eq!(allow_write_fd(3).syscall, 1);
    assert_eq!(allow_send_to_fd(3).syscall, 44);
    assert_eq!(allow_recv_from_fd(3).syscall, 45);

    let g = allow_getrandom();
    assert_eq!(g.syscall, 318);
    assert_eq!((g.arg, g.value, g.op), (2, 1, CompareOp::Eq));
    assert_eq!(g.action, PolicyAction::Allow);
}
