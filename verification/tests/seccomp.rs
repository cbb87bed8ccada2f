use sandbox_server::environ::Environment;
use sandbox_server::sandbox_seccomp::{
    apply_landlock, apply_landlock_one, code_of_failure, get_allowed_syscalls,
    get_lib_feature_static, init_seccomp, landlock_paths, rules_for, set_memory_limit,
    Initializer, Platform, Progress, Rule, RuleAction, RulesetStatus, Runtime, Step,
    SyscallTable,
};
use sandbox_server::seccomp_redbear;
use sandbox_server::seccomp_redbear::python_syscalls::python_table;

fn env(vars: &[(&str, &str)]) -> Environment {
    Environment { vars: vars.iter().map(|(n, v)| (n.to_string(), v.to_string())).collect() }
}

fn table() -> SyscallTable {
    SyscallTable { allowed: vec![0, 257], failing: vec![56], network: vec![41] }
}

fn platform() -> Platform {
    Platform {
        openat: libc::SYS_openat as i32,
        o_creat: libc::O_CREAT as u64,
        eperm: libc::EPERM as u16,
    }
}

fn steps(mut way: Initializer) -> Vec<Step> {
    let mut steps = Vec::new();
    let mut progress = way.progress();
    while let Progress::Perform(step) = progress {
        steps.push(step);
        progress = way.report(true);
    }
    assert_eq!(progress, Progress::Finished(0));
    assert_eq!(way.progress(), Progress::Finished(0));
    steps
}

/// A cap of 0 means "disabled" and must be a no-op, so it can never fail.
#[test]
fn zero_cap_is_disabled_noop() {
    assert!(set_memory_limit(0).is_none());
}

#[test]
fn a_cap_is_a_step() {
    assert_eq!(set_memory_limit(1), Some(Step::LimitAddressSpace { bytes: 1 }));
}

#[test]
fn system_calls_come_from_the_environment_or_the_table() {
    let allowed = |vars: &[(&str, &str)], net: bool| {
        let (allowed, failing) = get_allowed_syscalls(&table(), &env(vars), net);
        assert_eq!(failing, vec![56]);
        allowed
    };
    assert_eq!(allowed(&[], false), vec![0, 257]);
    assert_eq!(allowed(&[], true), vec![0, 257, 41]);
    assert_eq!(allowed(&[("ALLOWED_SYSCALLS", "")], true), vec![0, 257, 41]);
    assert_eq!(allowed(&[("ALLOWED_SYSCALLS", "x, 1")], false), vec![0, 257]);
    assert_eq!(allowed(&[("ALLOWED_SYSCALLS", "3,x,-4,+5, 6")], true), vec![3, -4, 5]);
    assert_eq!(allowed(&[("ALLOWED_SYSCALLS", "2147483648,2147483647")], true), vec![i32::MAX]);
}

#[test]
fn openat_is_let_through_without_o_creat_only() {
    let rules = rules_for(&table(), &platform(), &env(&[]), false);
    assert_eq!(
        rules,
        vec![
            Rule { syscall: 0, action: RuleAction::Allow },
            Rule {
                syscall: libc::SYS_openat as i32,
                action: RuleAction::AllowMasked { arg: 2, mask: 0o100, value: 0 },
            },
            Rule { syscall: 56, action: RuleAction::Errno(1) },
        ]
    );
}

#[test]
fn the_way_in_depends_on_privileges() {
    let filter = vec![
        Step::CreateFilter { default: RuleAction::KillProcess },
        Step::AddRule(Rule { syscall: 9, action: RuleAction::Allow }),
        Step::AddRule(Rule { syscall: 56, action: RuleAction::Errno(1) }),
        Step::LoadFilter,
    ];
    let vars = env(&[("ALLOWED_SYSCALLS", "9")]);
    let mut privileged = vec![
        Step::LimitAddressSpace { bytes: 100 },
        Step::ChangeRoot,
        Step::ChangeDirectory,
        Step::NoNewPrivileges,
        Step::HideProcess,
        Step::ClearGroups,
        Step::SetGroup { gid: 2 },
        Step::SetUser { uid: 1 },
    ];
    privileged.extend_from_slice(&filter);
    let way = init_seccomp(1, 2, 0, 100, 1, &table(), &platform(), &vars);
    assert_eq!(steps(way), privileged);
    let mut plain = vec![Step::NoNewPrivileges, Step::HideProcess];
    plain.extend_from_slice(&filter);
    let way = init_seccomp(1, 2, 1, 0, 0, &table(), &platform(), &vars);
    assert_eq!(steps(way), plain);
}

#[test]
fn a_failed_step_ends_the_way_with_its_code() {
    let codes: Vec<i32> = steps(init_seccomp(1, 2, 0, 9, 1, &table(), &platform(), &env(&[])))
        .iter()
        .map(code_of_failure)
        .collect();
    assert_eq!(codes, vec![-11, -1, -2, -3, -12, -10, -4, -5, -6, -7, -7, -8, -9]);
    for (failing, code) in codes.iter().enumerate() {
        let mut way = init_seccomp(1, 2, 0, 9, 1, &table(), &platform(), &env(&[]));
        for _ in 0..failing {
            assert!(matches!(way.report(true), Progress::Perform(_)));
        }
        assert_eq!(way.report(false), Progress::Finished(*code));
        assert_eq!(way.progress(), Progress::Finished(0));
    }
}

#[test]
fn landlock_needs_a_readable_path() {
    let paths = |list: &[&[u8]]| {
        let all: Vec<Vec<u8>> = list.iter().map(|p| p.to_vec()).collect();
        landlock_paths(Some(&all))
    };
    assert_eq!(paths(&[b"/a", b"\xff", b"/b"]), Ok(vec!["/a".to_string(), "/b".to_string()]));
    assert_eq!(paths(&[b"\xff"]), Err(-20));
    assert_eq!(paths(&[]), Err(-20));
    assert_eq!(landlock_paths(None), Err(-20));
    assert_eq!(apply_landlock_one(Some(b"/a".to_vec())), vec![b"/a".to_vec()]);
    assert!(apply_landlock_one(None).is_empty());
    assert_eq!(apply_landlock(Some(RulesetStatus::FullyEnforced)), 0);
    assert_eq!(apply_landlock(Some(RulesetStatus::PartiallyEnforced)), 0);
    assert_eq!(apply_landlock(Some(RulesetStatus::NotEnforced)), -23);
    assert_eq!(apply_landlock(None), -21);
    assert_eq!(get_lib_feature_static(Runtime::Python3), "python3");
    assert_eq!(get_lib_feature_static(Runtime::Nodejs), "nodejs");
}

#[test]
fn the_smaller_sandbox_has_fewer_steps() {
    let way = seccomp_redbear::init_seccomp(1, 2, 1, &table(), 1, &env(&[]));
    assert_eq!(
        steps(way),
        vec![
            Step::ChangeRoot,
            Step::ChangeDirectory,
            Step::NoNewPrivileges,
            Step::SetGroup { gid: 2 },
            Step::SetUser { uid: 1 },
            Step::CreateFilter { default: RuleAction::KillProcess },
            Step::AddRule(Rule { syscall: 0, action: RuleAction::Allow }),
            Step::AddRule(Rule { syscall: 257, action: RuleAction::Allow }),
            Step::AddRule(Rule { syscall: 41, action: RuleAction::Allow }),
            Step::AddRule(Rule { syscall: 56, action: RuleAction::Errno(1) }),
            Step::LoadFilter,
        ]
    );
}

#[test]
fn python_tables_hold_the_numbers_of_the_platform() {
    let found = python_table();
    let expected: Vec<i32> = [
        libc::SYS_read,
        libc::SYS_write,
        libc::SYS_openat,
        libc::SYS_close,
        libc::SYS_newfstatat,
        libc::SYS_ioctl,
        libc::SYS_lseek,
        libc::SYS_getdents64,
        libc::SYS_fstat,
        libc::SYS_rt_sigreturn,
        libc::SYS_rt_sigaction,
        libc::SYS_rt_sigprocmask,
        libc::SYS_sigaltstack,
        libc::SYS_tgkill,
        libc::SYS_futex,
        libc::SYS_mmap,
        libc::SYS_brk,
        libc::SYS_mprotect,
        libc::SYS_munmap,
        libc::SYS_mremap,
        libc::SYS_getuid,
        libc::SYS_getpid,
        libc::SYS_getppid,
        libc::SYS_gettid,
        libc::SYS_exit,
        libc::SYS_exit_group,
        libc::SYS_sched_yield,
        libc::SYS_set_robust_list,
        libc::SYS_get_robust_list,
        libc::SYS_rseq,
        libc::SYS_clock_gettime,
        libc::SYS_gettimeofday,
        libc::SYS_time,
        libc::SYS_nanosleep,
        libc::SYS_clock_nanosleep,
        libc::SYS_epoll_create1,
        libc::SYS_epoll_ctl,
        libc::SYS_pselect6,
        libc::SYS_getrandom,
    ]
    .iter()
    .map(|&n| n as i32)
    .collect();
    assert_eq!(found.allowed, expected);
    let expected: Vec<i32> = [
        libc::SYS_clone,
        libc::SYS_mkdirat,
        libc::SYS_mkdir,
    ]
    .iter()
    .map(|&n| n as i32)
    .collect();
    assert_eq!(found.failing, expected);
    let expected: Vec<i32> = [
        libc::SYS_socket,
        libc::SYS_connect,
        libc::SYS_bind,
        libc::SYS_listen,
        libc::SYS_accept,
        libc::SYS_sendto,
        libc::SYS_recvfrom,
        libc::SYS_getsockname,
        libc::SYS_recvmsg,
        libc::SYS_getpeername,
        libc::SYS_setsockopt,
        libc::SYS_ppoll,
        libc::SYS_uname,
        libc::SYS_sendmsg,
        libc::SYS_sendmmsg,
        libc::SYS_getsockopt,
        libc::SYS_fcntl,
        libc::SYS_fstatfs,
        libc::SYS_poll,
        libc::SYS_epoll_pwait,
    ]
    .iter()
    .map(|&n| n as i32)
    .collect();
    assert_eq!(found.network, expected);
}
