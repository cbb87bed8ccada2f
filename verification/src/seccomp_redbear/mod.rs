//! A smaller sandbox, for privileged interpreters only: it caps no memory, keeps the
//! supplementary groups and lets `openat` create files.

pub mod python_syscalls;

use vstd::prelude::*;

use crate::environ::Environment;
use crate::sandbox_seccomp;
use crate::sandbox_seccomp::{
    get_allowed_syscalls,
    install_filter,
    setup_root,
    Initializer,
    Rule,
    RuleAction,
    Step,
    SyscallTable,
};

verus! {

/// The rules of a filter: every allowed system call is let through whatever its arguments.
pub open spec fn filter_rules(allowed: Seq<i32>, failing: Seq<i32>, eperm: u16) -> Seq<Rule> {
    allowed.map_values(|sc: i32| Rule { syscall: sc, action: RuleAction::Allow })
        + failing.map_values(|sc: i32| Rule { syscall: sc, action: RuleAction::Errno(eperm) })
}

/// All steps into the sandbox.
pub open spec fn init_steps(uid: u32, gid: u32, rules: Seq<Rule>) -> Seq<Step> {
    sandbox_seccomp::root_steps() + seq![
        Step::NoNewPrivileges,
        Step::SetGroup { gid },
        Step::SetUser { uid },
    ] + sandbox_seccomp::filter_steps(rules)
}

fn push_rules(rules: &mut Vec<Rule>, syscalls: &Vec<i32>, action: RuleAction)
    ensures
        final(rules)@ == old(rules)@ + syscalls@.map_values(
            |sc: i32| Rule { syscall: sc, action },
        ),
{
    let ghost before = rules@;
    let ghost added = syscalls@.map_values(|sc: i32| Rule { syscall: sc, action });
    let mut i: usize = 0;
    assert(before + added.take(0) =~= before);
    while i < syscalls.len()
        invariant
            i <= syscalls@.len(),
            added == syscalls@.map_values(|sc: i32| Rule { syscall: sc, action }),
            rules@ == before + added.take(i as int),
        decreases syscalls@.len() - i,
    {
        rules.push(Rule { syscall: syscalls[i], action });
        assert(rules@ =~= before + added.take(i + 1));
        i = i + 1;
    }
    assert(added.take(i as int) =~= added);
}

/// The rules of the filter for a language.
pub fn rules_for(
    table: &SyscallTable,
    eperm: u16,
    env: &Environment,
    enable_network: bool,
) -> (res: Vec<Rule>)
    ensures
        res@ == filter_rules(
            sandbox_seccomp::allowed_syscalls(table@, env@, enable_network),
            table@.failing,
            eperm,
        ),
{
    let (allowed, failing) = get_allowed_syscalls(table, env, enable_network);
    let mut rules: Vec<Rule> = Vec::new();
    push_rules(&mut rules, &allowed, RuleAction::Allow);
    push_rules(&mut rules, &failing, RuleAction::Errno(eperm));
    assert(rules@ =~= filter_rules(allowed@, failing@, eperm));
    rules
}

/// Starts the way into the sandbox: chroot → no_new_privs → drop privileges → seccomp.
pub fn init_seccomp(
    uid: u32,
    gid: u32,
    enable_network: i32,
    table: &SyscallTable,
    eperm: u16,
    env: &Environment,
) -> (res: Initializer)
    ensures
        res@ == init_steps(
            uid,
            gid,
            filter_rules(
                sandbox_seccomp::allowed_syscalls(table@, env@, enable_network != 0),
                table@.failing,
                eperm,
            ),
        ),
{
    let mut steps: Vec<Step> = Vec::new();
    setup_root(&mut steps);
    steps.push(Step::NoNewPrivileges);
    steps.push(Step::SetGroup { gid });
    steps.push(Step::SetUser { uid });
    assert(steps@ =~= sandbox_seccomp::root_steps() + seq![
        Step::NoNewPrivileges,
        Step::SetGroup { gid },
        Step::SetUser { uid },
    ]);
    let rules = rules_for(table, eperm, env, enable_network != 0);
    install_filter(&mut steps, &rules);
    Initializer::new(steps)
}

/// Steps are taken in the order of [`sandbox_seccomp::rank`]: the root before the
/// privileges, the group before the user, and the filter last.
pub proof fn steps_are_ordered(uid: u32, gid: u32, rules: Seq<Rule>, i: int, j: int)
    requires
        0 <= i <= j < init_steps(uid, gid, rules).len(),
    ensures
        sandbox_seccomp::rank(init_steps(uid, gid, rules)[i]) <= sandbox_seccomp::rank(
            init_steps(uid, gid, rules)[j],
        ),
        init_steps(uid, gid, rules).last() is LoadFilter,
{
}

/// There is one rule for each system call on either list, in order: the allowed ones are let
/// through and the failing ones fail.
pub proof fn every_listed_call_has_its_rule(
    table: &SyscallTable,
    eperm: u16,
    env: &Environment,
    enable_network: bool,
    lists: (Vec<i32>, Vec<i32>),
    res: Vec<Rule>,
)
    requires
        call_ensures(get_allowed_syscalls, (table, env, enable_network), lists),
        call_ensures(rules_for, (table, eperm, env, enable_network), res),
    ensures
        res@.len() == lists.0@.len() + lists.1@.len(),
        forall|i: int|
            0 <= i < lists.0@.len() ==> (#[trigger] res@[i]).syscall == lists.0@[i]
                && res@[i].action is Allow,
        forall|i: int|
            lists.0@.len() <= i < res@.len() ==> (#[trigger] res@[i]).syscall
                == lists.1@[i - lists.0@.len()] && res@[i].action == RuleAction::Errno(eperm),
{
}

/// The steps into the sandbox, place by place.
pub proof fn the_way_in_is_this(
    uid: u32,
    gid: u32,
    enable_network: i32,
    table: &SyscallTable,
    eperm: u16,
    env: &Environment,
    rules: Vec<Rule>,
    res: Initializer,
)
    requires
        call_ensures(rules_for, (table, eperm, env, enable_network != 0), rules),
        call_ensures(init_seccomp, (uid, gid, enable_network, table, eperm, env), res),
    ensures
        res@.len() == rules@.len() + 7,
        res@[0] is ChangeRoot,
        res@[1] is ChangeDirectory,
        res@[2] is NoNewPrivileges,
        res@[3] == (Step::SetGroup { gid }),
        res@[4] == (Step::SetUser { uid }),
        res@[5] == (Step::CreateFilter { default: RuleAction::KillProcess }),
        forall|i: int|
            0 <= i < rules@.len() ==> res@[6 + i] == Step::AddRule(#[trigger] rules@[i]),
        res@.last() is LoadFilter,
{
    let rs = filter_rules(
        sandbox_seccomp::allowed_syscalls(table@, env@, enable_network != 0),
        table@.failing,
        eperm,
    );
    let steps = sandbox_seccomp::filter_steps(rs);
    assert(res@.skip(5) =~= steps);
    assert forall|i: int| 0 <= i < rules@.len() implies res@[6 + i] == Step::AddRule(
        #[trigger] rules@[i],
    ) by {
        assert(steps[1 + i] == Step::AddRule(rs[i]));
        assert(res@.skip(5)[1 + i] == res@[6 + i]);
    }
    assert(steps.last() is LoadFilter);
}

} // verus!
