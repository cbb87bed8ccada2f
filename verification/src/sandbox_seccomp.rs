//! The sandbox that an interpreter puts itself into before it runs code: what has to be
//! done, in which order, and what a failure is reported as.
//!
//! The system calls themselves are made by whoever drives an [`Initializer`].

use vstd::prelude::*;

use crate::environ;
use crate::environ::Environment;
use crate::text;
use crate::text::{from_utf8, parse_i32, split};

verus! {

/// The system calls of a language's interpreter, by number.
pub struct SyscallTable {
    /// Those that are let through.
    pub allowed: Vec<i32>,
    /// Those that fail with an error instead of killing the process.
    pub failing: Vec<i32>,
    /// Those that are let through as well where network access is enabled.
    pub network: Vec<i32>,
}

#[verifier::ext_equal]
pub ghost struct TableModel {
    pub allowed: Seq<i32>,
    pub failing: Seq<i32>,
    pub network: Seq<i32>,
}

impl View for SyscallTable {
    type V = TableModel;

    open spec fn view(&self) -> TableModel {
        TableModel { allowed: self.allowed@, failing: self.failing@, network: self.network@ }
    }
}

/// Numbers that the platform gives to what the filter speaks of.
#[derive(Clone, Copy, PartialEq, Eq, Structural, Debug)]
pub struct Platform {
    /// The number of the `openat` system call.
    pub openat: i32,
    /// The `O_CREAT` flag.
    pub o_creat: u64,
    /// The `EPERM` error.
    pub eperm: u16,
}

/// The numbers in a list of texts; what is no number is passed over.
pub open spec fn numbers(parts: Seq<Seq<char>>) -> Seq<i32>
    decreases parts.len(),
{
    if parts.len() == 0 {
        Seq::empty()
    } else {
        let front = numbers(parts.drop_last());
        match text::i32_value(parts.last()) {
            Some(n) => front.push(n as i32),
            None => front,
        }
    }
}

/// The system calls that `ALLOWED_SYSCALLS` lists, separated by commas.
pub open spec fn listed_syscalls(env: Seq<(Seq<char>, Seq<char>)>) -> Seq<i32> {
    match environ::lookup(env, "ALLOWED_SYSCALLS"@) {
        Some(value) => numbers(text::split_at(value, ',')),
        None => Seq::empty(),
    }
}

/// The system calls that are let through: those that the environment lists, or the
/// language's own if it lists none, with those for network access where that is enabled.
pub open spec fn allowed_syscalls(
    table: TableModel,
    env: Seq<(Seq<char>, Seq<char>)>,
    enable_network: bool,
) -> Seq<i32> {
    let listed = listed_syscalls(env);
    if listed.len() > 0 {
        listed
    } else if enable_network {
        table.allowed + table.network
    } else {
        table.allowed
    }
}

fn append_numbers(list: &mut Vec<i32>, more: &Vec<i32>)
    ensures
        final(list)@ == old(list)@ + more@,
{
    let ghost before = list@;
    let mut i: usize = 0;
    while i < more.len()
        invariant
            i <= more@.len(),
            list@ == before + more@.take(i as int),
        decreases more@.len() - i,
    {
        list.push(more[i]);
        assert(list@ =~= before + more@.take(i + 1));
        i = i + 1;
    }
    assert(more@.take(i as int) =~= more@);
}

fn parse_numbers(parts: &Vec<String>) -> (res: Vec<i32>)
    ensures
        res@ == numbers(text::texts(parts@)),
{
    let ghost all = text::texts(parts@);
    let mut res: Vec<i32> = Vec::new();
    let mut i: usize = 0;
    assert(res@ =~= numbers(all.take(0)));
    while i < parts.len()
        invariant
            i <= parts@.len(),
            all == text::texts(parts@),
            res@ == numbers(all.take(i as int)),
        decreases parts@.len() - i,
    {
        assert(all.take(i + 1).drop_last() =~= all.take(i as int));
        assert(all[i as int] == parts@[i as int]@);
        if let Some(n) = parse_i32(parts[i].as_str()) {
            res.push(n);
        }
        i = i + 1;
    }
    assert(all.take(i as int) =~= all);
    res
}

/// The system calls that are let through, and those that fail with an error.
pub fn get_allowed_syscalls(
    table: &SyscallTable,
    env: &Environment,
    enable_network: bool,
) -> (res: (Vec<i32>, Vec<i32>))
    ensures
        res.0@ == allowed_syscalls(table@, env@, enable_network),
        res.1@ == table@.failing,
{
    let mut failing: Vec<i32> = Vec::new();
    append_numbers(&mut failing, &table.failing);
    assert(failing@ =~= table@.failing);
    let mut allowed: Vec<i32> = match env.var("ALLOWED_SYSCALLS") {
        Some(value) => parse_numbers(&split(value.as_str(), ',')),
        None => Vec::new(),
    };
    assert(allowed@ =~= listed_syscalls(env@));
    if allowed.len() == 0 {
        append_numbers(&mut allowed, &table.allowed);
        assert(allowed@ =~= table@.allowed);
        if enable_network {
            append_numbers(&mut allowed, &table.network);
        }
    }
    (allowed, failing)
}

/// What the filter does with a system call.
#[derive(Clone, Copy, PartialEq, Eq, Structural, Debug)]
pub enum RuleAction {
    /// Lets it through.
    Allow,
    /// Lets it through if an argument, restricted to the bits of a mask, has this value.
    AllowMasked { arg: u32, mask: u64, value: u64 },
    /// Makes it fail with an error.
    Errno(u16),
    /// Kills the process.
    KillProcess,
}

/// A rule of the filter.
#[derive(Clone, Copy, PartialEq, Eq, Structural, Debug)]
pub struct Rule {
    pub syscall: i32,
    pub action: RuleAction,
}

/// The rule that lets a system call through. `openat` is let through only without
/// `O_CREAT` in its flags, its argument number 2.
pub open spec fn allow_rule(syscall: i32, platform: Platform) -> Rule {
    Rule {
        syscall,
        action: if syscall == platform.openat {
            RuleAction::AllowMasked { arg: 2, mask: platform.o_creat, value: 0 }
        } else {
            RuleAction::Allow
        },
    }
}

/// The rule that makes a system call fail.
pub open spec fn errno_rule(syscall: i32, platform: Platform) -> Rule {
    Rule { syscall, action: RuleAction::Errno(platform.eperm) }
}

/// The rules of a filter.
pub open spec fn filter_rules(
    allowed: Seq<i32>,
    failing: Seq<i32>,
    platform: Platform,
) -> Seq<Rule> {
    allowed.map_values(|sc: i32| allow_rule(sc, platform)) + failing.map_values(
        |sc: i32| errno_rule(sc, platform),
    )
}

/// Whether a rule's action lets a call through, given the call's arguments.
pub open spec fn admits(action: RuleAction, args: Seq<u64>) -> bool {
    match action {
        RuleAction::Allow => true,
        RuleAction::AllowMasked { arg, mask, value } => args[arg as int] & mask == value,
        RuleAction::Errno(_) => false,
        RuleAction::KillProcess => false,
    }
}

/// One step into the sandbox.
#[derive(Clone, Copy, PartialEq, Eq, Structural, Debug)]
pub enum Step {
    /// Cap the virtual address space (RLIMIT_AS).
    LimitAddressSpace { bytes: u64 },
    /// Make the working directory the root directory.
    ChangeRoot,
    /// Change to the root directory.
    ChangeDirectory,
    /// Prevent privilege escalation via execve.
    NoNewPrivileges,
    /// Hide the process's files under /proc from others of the same user.
    HideProcess,
    /// Leave all supplementary groups.
    ClearGroups,
    SetGroup { gid: u32 },
    SetUser { uid: u32 },
    /// Create a filter without rules, which does this with any system call.
    CreateFilter { default: RuleAction },
    AddRule(Rule),
    /// Put the filter into force.
    LoadFilter,
}

/// The code that a failure of a step is reported as.
pub open spec fn failure_code(step: Step) -> int {
    match step {
        Step::ChangeRoot => -1,
        Step::ChangeDirectory => -2,
        Step::NoNewPrivileges => -3,
        Step::SetGroup { .. } => -4,
        Step::SetUser { .. } => -5,
        Step::CreateFilter { .. } => -6,
        Step::AddRule(rule) => if rule.action is Errno {
            -8
        } else {
            -7
        },
        Step::LoadFilter => -9,
        Step::ClearGroups => -10,
        Step::LimitAddressSpace { .. } => -11,
        Step::HideProcess => -12,
    }
}

/// The code that a failure of a step is reported as.
pub fn code_of_failure(step: &Step) -> (res: i32)
    ensures
        res == failure_code(*step),
{
    match step {
        Step::ChangeRoot => -1,
        Step::ChangeDirectory => -2,
        Step::NoNewPrivileges => -3,
        Step::SetGroup { .. } => -4,
        Step::SetUser { .. } => -5,
        Step::CreateFilter { .. } => -6,
        Step::AddRule(rule) => match rule.action {
            RuleAction::Errno(_) => -8,
            _ => -7,
        },
        Step::LoadFilter => -9,
        Step::ClearGroups => -10,
        Step::LimitAddressSpace { .. } => -11,
        Step::HideProcess => -12,
    }
}

pub open spec fn memory_steps(max_as_bytes: u64) -> Seq<Step> {
    if max_as_bytes == 0 {
        Seq::empty()
    } else {
        seq![Step::LimitAddressSpace { bytes: max_as_bytes }]
    }
}

pub open spec fn root_steps() -> Seq<Step> {
    seq![Step::ChangeRoot, Step::ChangeDirectory]
}

pub open spec fn no_new_privs_steps() -> Seq<Step> {
    seq![Step::NoNewPrivileges, Step::HideProcess]
}

pub open spec fn privilege_steps(uid: u32, gid: u32) -> Seq<Step> {
    seq![Step::ClearGroups, Step::SetGroup { gid }, Step::SetUser { uid }]
}

/// The filter kills the process on any system call that no rule is about.
pub open spec fn filter_steps(rules: Seq<Rule>) -> Seq<Step> {
    seq![Step::CreateFilter { default: RuleAction::KillProcess }] + rules.map_values(
        |rule: Rule| Step::AddRule(rule),
    ) + seq![Step::LoadFilter]
}

/// All steps into the sandbox. Without privileges the root and the user stay as they are;
/// the file system is then restricted by [`apply_landlock`].
pub open spec fn init_steps(
    uid: u32,
    gid: u32,
    max_as_bytes: u64,
    privilege: bool,
    rules: Seq<Rule>,
) -> Seq<Step> {
    if privilege {
        memory_steps(max_as_bytes) + root_steps() + no_new_privs_steps() + privilege_steps(
            uid,
            gid,
        ) + filter_steps(rules)
    } else {
        memory_steps(max_as_bytes) + no_new_privs_steps() + filter_steps(rules)
    }
}

/// Caps the virtual address space; 0 disables the cap.
pub fn set_memory_limit(max_as_bytes: u64) -> (res: Option<Step>)
    ensures
        memory_steps(max_as_bytes) == (match res {
            Some(step) => seq![step],
            None => Seq::empty(),
        }),
{
    if max_as_bytes == 0 {
        return None;
    }
    Some(Step::LimitAddressSpace { bytes: max_as_bytes })
}

/// Restricts the file system to the working directory.
pub(crate) fn setup_root(steps: &mut Vec<Step>)
    ensures
        final(steps)@ == old(steps)@ + root_steps(),
{
    steps.push(Step::ChangeRoot);
    steps.push(Step::ChangeDirectory);
    assert(steps@ =~= old(steps)@ + root_steps());
}

/// Rules out that privileges come back, and hides the process.
fn set_no_new_privs(steps: &mut Vec<Step>)
    ensures
        final(steps)@ == old(steps)@ + no_new_privs_steps(),
{
    steps.push(Step::NoNewPrivileges);
    steps.push(Step::HideProcess);
    assert(steps@ =~= old(steps)@ + no_new_privs_steps());
}

/// Leaves all supplementary groups, which takes privileges, then the group, then the user.
fn drop_privileges(steps: &mut Vec<Step>, uid: u32, gid: u32)
    ensures
        final(steps)@ == old(steps)@ + privilege_steps(uid, gid),
{
    steps.push(Step::ClearGroups);
    steps.push(Step::SetGroup { gid });
    steps.push(Step::SetUser { uid });
    assert(steps@ =~= old(steps)@ + privilege_steps(uid, gid));
}

/// Installs a filter with these rules.
pub(crate) fn install_filter(steps: &mut Vec<Step>, rules: &Vec<Rule>)
    ensures
        final(steps)@ == old(steps)@ + filter_steps(rules@),
{
    let ghost before = steps@;
    let ghost added = rules@.map_values(|rule: Rule| Step::AddRule(rule));
    let create = Step::CreateFilter { default: RuleAction::KillProcess };
    steps.push(create);
    let mut i: usize = 0;
    assert(steps@ =~= before + seq![create] + added.take(0));
    while i < rules.len()
        invariant
            i <= rules@.len(),
            added == rules@.map_values(|rule: Rule| Step::AddRule(rule)),
            steps@ == before + seq![create] + added.take(i as int),
        decreases rules@.len() - i,
    {
        steps.push(Step::AddRule(rules[i]));
        assert(steps@ =~= before + seq![create] + added.take(i + 1));
        i = i + 1;
    }
    steps.push(Step::LoadFilter);
    assert(added.take(i as int) =~= added);
    assert(steps@ =~= before + filter_steps(rules@));
}

/// The rules of the filter for a language.
pub fn rules_for(
    table: &SyscallTable,
    platform: &Platform,
    env: &Environment,
    enable_network: bool,
) -> (res: Vec<Rule>)
    ensures
        res@ == filter_rules(
            allowed_syscalls(table@, env@, enable_network),
            table@.failing,
            *platform,
        ),
{
    let (allowed, failing) = get_allowed_syscalls(table, env, enable_network);
    let mut rules: Vec<Rule> = Vec::new();
    let ghost lets = allowed@.map_values(|sc: i32| allow_rule(sc, *platform));
    let ghost fails = failing@.map_values(|sc: i32| errno_rule(sc, *platform));
    let mut i: usize = 0;
    assert(rules@ =~= lets.take(0));
    while i < allowed.len()
        invariant
            i <= allowed@.len(),
            lets == allowed@.map_values(|sc: i32| allow_rule(sc, *platform)),
            rules@ == lets.take(i as int),
        decreases allowed@.len() - i,
    {
        let sc = allowed[i];
        let action = if sc == platform.openat {
            RuleAction::AllowMasked { arg: 2, mask: platform.o_creat, value: 0 }
        } else {
            RuleAction::Allow
        };
        rules.push(Rule { syscall: sc, action });
        assert(rules@ =~= lets.take(i + 1));
        i = i + 1;
    }
    assert(lets.take(i as int) =~= lets);
    let mut j: usize = 0;
    assert(rules@ =~= lets + fails.take(0));
    while j < failing.len()
        invariant
            j <= failing@.len(),
            fails == failing@.map_values(|sc: i32| errno_rule(sc, *platform)),
            rules@ == lets + fails.take(j as int),
        decreases failing@.len() - j,
    {
        rules.push(
            Rule { syscall: failing[j], action: RuleAction::Errno(platform.eperm) },
        );
        assert(rules@ =~= lets + fails.take(j + 1));
        j = j + 1;
    }
    assert(fails.take(j as int) =~= fails);
    rules
}

/// Installs the filter for a language.
fn install_seccomp(
    steps: &mut Vec<Step>,
    table: &SyscallTable,
    platform: &Platform,
    env: &Environment,
    enable_network: bool,
)
    ensures
        final(steps)@ == old(steps)@ + filter_steps(
            filter_rules(
                allowed_syscalls(table@, env@, enable_network),
                table@.failing,
                *platform,
            ),
        ),
{
    let rules = rules_for(table, platform, env, enable_network);
    install_filter(steps, &rules);
}

/// What comes next on the way into the sandbox.
#[derive(Clone, Copy, PartialEq, Eq, Structural, Debug)]
pub enum Progress {
    /// This step has to be taken.
    Perform(Step),
    /// It is over, with this code: 0 if all went well.
    Finished(i32),
}

/// What comes next where these steps are left.
pub open spec fn next_progress(remaining: Seq<Step>) -> Progress {
    if remaining.len() == 0 {
        Progress::Finished(0)
    } else {
        Progress::Perform(remaining[0])
    }
}

/// The code at the end of the way, given how each step went.
pub open spec fn exit_code(steps: Seq<Step>, went: Seq<bool>) -> int
    recommends
        steps.len() == went.len(),
    decreases steps.len(),
{
    if steps.len() == 0 {
        0
    } else if went[0] {
        exit_code(steps.skip(1), went.skip(1))
    } else {
        failure_code(steps[0])
    }
}

/// The way into the sandbox, one step at a time.
pub struct Initializer {
    steps: Vec<Step>,
    next: usize,
}

impl View for Initializer {
    type V = Seq<Step>;

    /// The steps that are left.
    closed spec fn view(&self) -> Seq<Step> {
        self.steps@.skip(self.next as int)
    }
}

impl Initializer {
    #[verifier::type_invariant]
    spec fn in_range(self) -> bool {
        self.next <= self.steps@.len()
    }

    /// A way that consists of these steps.
    pub fn new(steps: Vec<Step>) -> (res: Self)
        ensures
            res@ == steps@,
    {
        assert(steps@.skip(0) =~= steps@);
        Initializer { steps, next: 0 }
    }

    /// The next step.
    pub fn progress(&self) -> (res: Progress)
        ensures
            res == next_progress(self@),
    {
        proof {
            use_type_invariant(self);
        }
        if self.next < self.steps.len() {
            Progress::Perform(self.steps[self.next])
        } else {
            Progress::Finished(0)
        }
    }

    /// Takes in how the step went, and gives the one after it. A failure ends it all with
    /// the step's code.
    pub fn report(&mut self, ok: bool) -> (res: Progress)
        requires
            old(self)@.len() > 0,
        ensures
            ok ==> final(self)@ == old(self)@.skip(1) && res == next_progress(final(self)@),
            !ok ==> final(self)@ == Seq::<Step>::empty() && (res matches Progress::Finished(code)
                && code == failure_code(old(self)@[0])),
            forall|rest: Seq<bool>| #[trigger]
                exit_code(old(self)@, seq![ok] + rest) == (match res {
                    Progress::Finished(code) => code as int,
                    Progress::Perform(_) => exit_code(final(self)@, rest),
                }),
    {
        proof {
            use_type_invariant(&*self);
        }
        assert(self.next < self.steps.len());
        let ghost before = self@;
        assert forall|rest: Seq<bool>| #[trigger] exit_code(before, seq![ok] + rest) == (if ok {
            exit_code(before.skip(1), rest)
        } else {
            failure_code(before[0])
        }) by {
            assert((seq![ok] + rest).skip(1) =~= rest);
        }
        if ok {
            self.next = self.next + 1;
            assert(self@ =~= old(self)@.skip(1));
            self.progress()
        } else {
            let code = code_of_failure(&self.steps[self.next]);
            self.next = self.steps.len();
            assert(self@ =~= Seq::empty());
            Progress::Finished(code)
        }
    }
}

/// Starts the way into the sandbox. It must be gone once per process, before untrusted code
/// is executed.
///
/// Privileged: RLIMIT_AS → chroot → no_new_privs → drop privileges → seccomp.
/// Not privileged: RLIMIT_AS → no_new_privs → seccomp.
pub fn init_seccomp(
    uid: u32,
    gid: u32,
    enable_network: i32,
    max_as_bytes: u64,
    privilege: i32,
    table: &SyscallTable,
    platform: &Platform,
    env: &Environment,
) -> (res: Initializer)
    ensures
        res@ == init_steps(
            uid,
            gid,
            max_as_bytes,
            privilege != 0,
            filter_rules(
                allowed_syscalls(table@, env@, enable_network != 0),
                table@.failing,
                *platform,
            ),
        ),
{
    let mut steps: Vec<Step> = Vec::new();
    if let Some(step) = set_memory_limit(max_as_bytes) {
        steps.push(step);
    }
    assert(steps@ =~= memory_steps(max_as_bytes));
    if privilege != 0 {
        setup_root(&mut steps);
    }
    set_no_new_privs(&mut steps);
    if privilege != 0 {
        drop_privileges(&mut steps, uid, gid);
    }
    install_seccomp(&mut steps, table, platform, env, enable_network != 0);
    Initializer::new(steps)
}

/// The interpreter that a build of the sandbox library is for.
#[derive(Clone, Copy, PartialEq, Eq, Structural, Debug)]
pub enum Runtime {
    Python3,
    Nodejs,
}

/// The name of the interpreter that a build of the sandbox library is for.
pub fn get_lib_feature_static(runtime: Runtime) -> (res: &'static str)
    ensures
        res@ == (match runtime {
            Runtime::Python3 => "python3"@,
            Runtime::Nodejs => "nodejs"@,
        }),
{
    match runtime {
        Runtime::Python3 => "python3",
        Runtime::Nodejs => "nodejs",
    }
}

/// How far Landlock could enforce a ruleset.
#[derive(Clone, Copy, PartialEq, Eq, Structural, Debug)]
pub enum RulesetStatus {
    FullyEnforced,
    PartiallyEnforced,
    NotEnforced,
}

/// The texts among a list of byte strings: those that are UTF-8.
pub open spec fn readable(paths: Seq<Vec<u8>>) -> Seq<Seq<char>>
    decreases paths.len(),
{
    if paths.len() == 0 {
        Seq::empty()
    } else {
        let front = readable(paths.drop_last());
        if vstd::utf8::valid_utf8(paths.last()@) {
            front.push(vstd::utf8::decode_utf8(paths.last()@))
        } else {
            front
        }
    }
}

/// The directory trees that Landlock is to leave readable, given those asked for, if any.
/// Paths that are not UTF-8 are passed over; where none is left, the error is -20.
pub fn landlock_paths(paths: Option<&Vec<Vec<u8>>>) -> (res: Result<Vec<String>, i32>)
    ensures
        match res {
            Ok(list) => paths matches Some(all) && readable(all@).len() > 0 && text::texts(list@)
                == readable(all@),
            Err(code) => code == -20 && (paths matches Some(all) ==> readable(all@).len() == 0),
        },
{
    match paths {
        Some(all) => {
            let mut list: Vec<String> = Vec::new();
            let mut i: usize = 0;
            assert(text::texts(list@) =~= readable(all@.take(0)));
            while i < all.len()
                invariant
                    i <= all@.len(),
                    text::texts(list@) == readable(all@.take(i as int)),
                decreases all@.len() - i,
            {
                assert(all@.take(i + 1).drop_last() =~= all@.take(i as int));
                if let Some(path) = from_utf8(all[i].as_slice()) {
                    let ghost before = text::texts(list@);
                    list.push(path);
                    assert(text::texts(list@) =~= before.push(path@));
                }
                i = i + 1;
            }
            assert(all@.take(i as int) =~= all@);
            assert(list@.len() == text::texts(list@).len());
            if list.len() == 0 {
                Err(-20)
            } else {
                Ok(list)
            }
        },
        None => Err(-20),
    }
}

/// The code that applying a ruleset is reported as: 0 if it is enforced at least in part,
/// -23 if it is not, and -21 if applying it failed.
pub fn apply_landlock(status: Option<RulesetStatus>) -> (res: i32)
    ensures
        res == (match status {
            Some(RulesetStatus::FullyEnforced) => 0int,
            Some(RulesetStatus::PartiallyEnforced) => 0int,
            Some(RulesetStatus::NotEnforced) => -23int,
            None => -21int,
        }),
{
    match status {
        Some(RulesetStatus::FullyEnforced) => 0,
        Some(RulesetStatus::PartiallyEnforced) => 0,
        Some(RulesetStatus::NotEnforced) => -23,
        None => -21,
    }
}

/// The list that asks for a single path, if there is one.
pub fn apply_landlock_one(path: Option<Vec<u8>>) -> (res: Vec<Vec<u8>>)
    ensures
        res@ == (match path {
            Some(path) => seq![path],
            None => Seq::empty(),
        }),
{
    let mut res: Vec<Vec<u8>> = Vec::new();
    if let Some(path) = path {
        res.push(path);
        assert(res@ =~= seq![path]);
    }
    res
}

/// The end is reported as 0 if and only if every step went well.
pub proof fn success_means_every_step(steps: Seq<Step>, went: Seq<bool>)
    requires
        steps.len() == went.len(),
    ensures
        exit_code(steps, went) == 0 <==> forall|i: int| 0 <= i < went.len() ==> went[i],
    decreases steps.len(),
{
    if steps.len() > 0 {
        success_means_every_step(steps.skip(1), went.skip(1));
        if went[0] {
            assert forall|i: int| 0 <= i < went.len() implies (went.skip(1)[i - 1] == went[i]
                || i == 0) by {}
            if forall|i: int| 0 <= i < went.skip(1).len() ==> went.skip(1)[i] {
                assert forall|i: int| 0 <= i < went.len() implies went[i] by {
                    if i > 0 {
                        assert(went.skip(1)[i - 1]);
                    }
                }
            }
        }
    }
}

/// Where a step has its place on the way.
pub open spec fn rank(step: Step) -> int {
    match step {
        Step::LimitAddressSpace { .. } => 0,
        Step::ChangeRoot => 1,
        Step::ChangeDirectory => 2,
        Step::NoNewPrivileges => 3,
        Step::HideProcess => 4,
        Step::ClearGroups => 5,
        Step::SetGroup { .. } => 6,
        Step::SetUser { .. } => 7,
        Step::CreateFilter { .. } => 8,
        Step::AddRule(_) => 9,
        Step::LoadFilter => 10,
    }
}

/// Steps are taken in one order: what takes privileges comes before they are dropped, the
/// groups before the user, and the filter, under which none of it would be possible, last.
pub proof fn steps_are_ordered(
    uid: u32,
    gid: u32,
    max_as_bytes: u64,
    privilege: bool,
    rules: Seq<Rule>,
    i: int,
    j: int,
)
    requires
        0 <= i <= j < init_steps(uid, gid, max_as_bytes, privilege, rules).len(),
    ensures
        rank(init_steps(uid, gid, max_as_bytes, privilege, rules)[i]) <= rank(
            init_steps(uid, gid, max_as_bytes, privilege, rules)[j],
        ),
{
}

/// The filter is put into force at the very end, in either mode.
pub proof fn filter_comes_last(
    uid: u32,
    gid: u32,
    max_as_bytes: u64,
    privilege: bool,
    rules: Seq<Rule>,
)
    ensures
        init_steps(uid, gid, max_as_bytes, privilege, rules).len() > 0,
        init_steps(uid, gid, max_as_bytes, privilege, rules).last() is LoadFilter,
{
}

/// The root, the groups and the user are changed in privileged mode and in no other.
pub proof fn privileges_are_dropped_when_held(
    uid: u32,
    gid: u32,
    max_as_bytes: u64,
    privilege: bool,
    rules: Seq<Rule>,
)
    ensures
        ({
            let steps = init_steps(uid, gid, max_as_bytes, privilege, rules);
            &&& privilege <==> steps.contains(Step::ChangeRoot)
            &&& privilege <==> steps.contains(Step::ClearGroups)
            &&& privilege <==> steps.contains(Step::SetGroup { gid })
            &&& privilege <==> steps.contains(Step::SetUser { uid })
            &&& steps.contains(Step::NoNewPrivileges)
            &&& steps.contains(Step::HideProcess)
        }),
{
    let steps = init_steps(uid, gid, max_as_bytes, privilege, rules);
    let base = memory_steps(max_as_bytes).len() as int;
    if privilege {
        assert(steps[base] == Step::ChangeRoot);
        assert(steps[base + 2] == Step::NoNewPrivileges);
        assert(steps[base + 3] == Step::HideProcess);
        assert(steps[base + 4] == Step::ClearGroups);
        assert(steps[base + 5] == Step::SetGroup { gid });
        assert(steps[base + 6] == Step::SetUser { uid });
    } else {
        assert(steps[base] == Step::NoNewPrivileges);
        assert(steps[base + 1] == Step::HideProcess);
        assert forall|i: int| 0 <= i < steps.len() implies {
            let r = rank(#[trigger] steps[i]);
            r == 0 || r == 3 || r == 4 || r >= 8
        } by {}
    }
}

/// No rule of a filter lets `openat` through with `O_CREAT` in its flags: files cannot be
/// created by it.
pub proof fn openat_cannot_create(
    allowed: Seq<i32>,
    failing: Seq<i32>,
    platform: Platform,
    i: int,
    args: Seq<u64>,
)
    requires
        0 <= i < filter_rules(allowed, failing, platform).len(),
        filter_rules(allowed, failing, platform)[i].syscall == platform.openat,
        args[2] & platform.o_creat != 0,
    ensures
        !admits(filter_rules(allowed, failing, platform)[i].action, args),
{
}

/// A system call that is on neither list kills the process: no rule is about it, and the
/// filter's default is to kill.
pub proof fn unlisted_calls_are_killed(
    allowed: Seq<i32>,
    failing: Seq<i32>,
    platform: Platform,
    syscall: i32,
)
    requires
        !allowed.contains(syscall),
        !failing.contains(syscall),
    ensures
        ({
            let rules = filter_rules(allowed, failing, platform);
            &&& filter_steps(rules)[0] == Step::CreateFilter { default: RuleAction::KillProcess }
            &&& forall|i: int|
                0 <= i < rules.len() ==> (#[trigger] rules[i]).syscall != syscall
        }),
{
    let rules = filter_rules(allowed, failing, platform);
    assert forall|i: int| 0 <= i < rules.len() implies (#[trigger] rules[i]).syscall
        != syscall by {
        if i < allowed.len() {
            assert(rules[i].syscall == allowed[i]);
        } else {
            assert(rules[i].syscall == failing[i - allowed.len()]);
        }
    }
}

/// Without network access, the system calls for it are not let through, unless the
/// environment or the language's own table lists them.
pub proof fn network_calls_need_network(
    table: TableModel,
    env: Seq<(Seq<char>, Seq<char>)>,
    syscall: i32,
)
    requires
        !listed_syscalls(env).contains(syscall),
        !table.allowed.contains(syscall),
    ensures
        !allowed_syscalls(table, env, false).contains(syscall),
{
}

/// A list in the environment replaces the tables.
pub proof fn listed_calls_replace_tables(
    first: TableModel,
    second: TableModel,
    env: Seq<(Seq<char>, Seq<char>)>,
    network: bool,
)
    requires
        listed_syscalls(env).len() > 0,
    ensures
        allowed_syscalls(first, env, network) == allowed_syscalls(second, env, !network),
        allowed_syscalls(first, env, network) == listed_syscalls(env),
{
}

/// The numbers of a list are read in order, and what is no number is passed over.
pub proof fn lists_are_read_in_turn(parts: Seq<Seq<char>>, part: Seq<char>)
    ensures
        numbers(Seq::empty()).len() == 0,
        text::i32_value(part) matches Some(n) ==> numbers(parts.push(part)) == numbers(parts).push(
            n as i32,
        ),
        text::i32_value(part) is None ==> numbers(parts.push(part)) == numbers(parts),
{
    assert(parts.push(part).drop_last() =~= parts);
}

/// The environment lists system calls by number, separated by commas. Where it lists any,
/// those are let through and no others; where it lists none, those of the table are, and
/// behind them those for network access if it is enabled. The failing ones are those of the
/// table either way.
pub proof fn system_calls_are_listed_or_tabled(
    table: &SyscallTable,
    env: &Environment,
    enable_network: bool,
    res: (Vec<i32>, Vec<i32>),
)
    requires
        call_ensures(get_allowed_syscalls, (table, env, enable_network), res),
    ensures
        ({
            let listed = match environ::lookup(env@, "ALLOWED_SYSCALLS"@) {
                Some(value) => numbers(text::split_at(value, ',')),
                None => Seq::empty(),
            };
            &&& listed.len() > 0 ==> res.0@ == listed
            &&& listed.len() == 0 && !enable_network ==> res.0@ == table.allowed@
            &&& listed.len() == 0 && enable_network ==> {
                &&& res.0@.len() == table.allowed@.len() + table.network@.len()
                &&& res.0@.take(table.allowed@.len() as int) == table.allowed@
                &&& res.0@.skip(table.allowed@.len() as int) == table.network@
            }
            &&& res.1@ == table.failing@
        }),
{
    let n = table.allowed@.len() as int;
    assert((table.allowed@ + table.network@).take(n) =~= table.allowed@);
    assert((table.allowed@ + table.network@).skip(n) =~= table.network@);
}

/// There is one rule for each system call on either list, in order: the allowed ones are let
/// through, `openat` only with the `O_CREAT` bit of its third argument clear, and the failing
/// ones fail.
pub proof fn every_listed_call_has_its_rule(
    table: &SyscallTable,
    platform: &Platform,
    env: &Environment,
    enable_network: bool,
    lists: (Vec<i32>, Vec<i32>),
    res: Vec<Rule>,
)
    requires
        call_ensures(get_allowed_syscalls, (table, env, enable_network), lists),
        call_ensures(rules_for, (table, platform, env, enable_network), res),
    ensures
        res@.len() == lists.0@.len() + lists.1@.len(),
        forall|i: int|
            0 <= i < lists.0@.len() ==> (#[trigger] res@[i]).syscall == lists.0@[i],
        forall|i: int|
            0 <= i < lists.0@.len() && lists.0@[i] == platform.openat ==> (
            #[trigger] res@[i]).action == (RuleAction::AllowMasked {
                arg: 2,
                mask: platform.o_creat,
                value: 0,
            }),
        forall|i: int|
            0 <= i < lists.0@.len() && lists.0@[i] != platform.openat ==> (
            #[trigger] res@[i]).action is Allow,
        forall|i: int|
            lists.0@.len() <= i < res@.len() ==> (#[trigger] res@[i]).syscall
                == lists.1@[i - lists.0@.len()] && res@[i].action == RuleAction::Errno(
                platform.eperm,
            ),
{
}

/// Each step that fails is reported as its own code.
pub proof fn failures_have_codes(step: &Step, res: i32)
    requires
        call_ensures(code_of_failure, (step,), res),
    ensures
        *step is ChangeRoot ==> res == -1,
        *step is ChangeDirectory ==> res == -2,
        *step is NoNewPrivileges ==> res == -3,
        *step is SetGroup ==> res == -4,
        *step is SetUser ==> res == -5,
        *step is CreateFilter ==> res == -6,
        *step matches Step::AddRule(rule) ==> res == (if rule.action is Errno {
            -8int
        } else {
            -7int
        }),
        *step is LoadFilter ==> res == -9,
        *step is ClearGroups ==> res == -10,
        *step is LimitAddressSpace ==> res == -11,
        *step is HideProcess ==> res == -12,
{
}

/// The steps into the sandbox, place by place: the memory cap if there is one; with
/// privileges the new root and the change to it; that no privileges come back and that the
/// process is hidden; with privileges no more groups, then the group, then the user; and the
/// filter, which kills by default, with its rules, put into force at the end.
pub proof fn the_way_in_is_this(
    uid: u32,
    gid: u32,
    enable_network: i32,
    max_as_bytes: u64,
    privilege: i32,
    table: &SyscallTable,
    platform: &Platform,
    env: &Environment,
    rules: Vec<Rule>,
    res: Initializer,
)
    requires
        call_ensures(rules_for, (table, platform, env, enable_network != 0), rules),
        call_ensures(
            init_seccomp,
            (uid, gid, enable_network, max_as_bytes, privilege, table, platform, env),
            res,
        ),
    ensures
        ({
            let at: int = if max_as_bytes > 0 {
                1
            } else {
                0
            };
            let filter: int = if privilege != 0 {
                at + 7
            } else {
                at + 2
            };
            &&& res@.len() == filter + rules@.len() + 2
            &&& max_as_bytes > 0 ==> res@[0] == (Step::LimitAddressSpace { bytes: max_as_bytes })
            &&& privilege != 0 ==> {
                &&& res@[at] is ChangeRoot
                &&& res@[at + 1] is ChangeDirectory
                &&& res@[at + 2] is NoNewPrivileges
                &&& res@[at + 3] is HideProcess
                &&& res@[at + 4] is ClearGroups
                &&& res@[at + 5] == (Step::SetGroup { gid })
                &&& res@[at + 6] == (Step::SetUser { uid })
            }
            &&& privilege == 0 ==> {
                &&& res@[at] is NoNewPrivileges
                &&& res@[at + 1] is HideProcess
            }
            &&& res@[filter] == (Step::CreateFilter { default: RuleAction::KillProcess })
            &&& forall|i: int|
                0 <= i < rules@.len() ==> res@[filter + 1 + i] == Step::AddRule(
                    #[trigger] rules@[i],
                )
            &&& res@.last() is LoadFilter
        }),
{
    let rs = filter_rules(
        allowed_syscalls(table@, env@, enable_network != 0),
        table@.failing,
        *platform,
    );
    assert(rules@ == rs);
    let at: int = if max_as_bytes > 0 {
        1
    } else {
        0
    };
    let filter: int = if privilege != 0 {
        at + 7
    } else {
        at + 2
    };
    let steps = filter_steps(rs);
    assert(res@.skip(filter) =~= steps);
    assert forall|i: int| 0 <= i < rules@.len() implies res@[filter + 1 + i] == Step::AddRule(
        #[trigger] rules@[i],
    ) by {
        assert(steps[1 + i] == Step::AddRule(rs[i]));
        assert(res@.skip(filter)[1 + i] == res@[filter + 1 + i]);
    }
    assert(steps.last() is LoadFilter);
}

/// A cap of 0 is none, and any other is that.
pub proof fn caps_are_set(max_as_bytes: u64, res: Option<Step>)
    requires
        call_ensures(set_memory_limit, (max_as_bytes,), res),
    ensures
        max_as_bytes == 0 ==> res is None,
        max_as_bytes > 0 ==> res == Some(Step::LimitAddressSpace { bytes: max_as_bytes }),
{
    let steps = memory_steps(max_as_bytes);
    if let Some(step) = res {
        assert(seq![step].len() == 1);
        assert(seq![step][0] == step);
        if max_as_bytes > 0 {
            assert(steps[0] == Step::LimitAddressSpace { bytes: max_as_bytes });
        }
    } else {
        assert(steps.len() == 0);
    }
}

/// The end of the way, step by step: an empty one is reported as 0, one whose first step
/// went well as what is left of it, and one whose first step failed as that step's code.
pub proof fn the_first_failure_is_reported(step: Step, steps: Seq<Step>, went: Seq<bool>)
    ensures
        exit_code(Seq::empty(), went) == 0,
        exit_code(seq![step] + steps, seq![true] + went) == exit_code(steps, went),
        exit_code(seq![step] + steps, seq![false] + went) == failure_code(step),
{
    assert((seq![step] + steps).skip(1) =~= steps);
    assert((seq![true] + went).skip(1) =~= went);
}

/// A way begins with its first step, and one without steps is over and went well.
pub proof fn ways_begin_at_the_start(steps: Vec<Step>, way: Initializer, res: Progress)
    requires
        call_ensures(Initializer::new, (steps,), way),
        call_ensures(Initializer::progress, (&way,), res),
    ensures
        steps@.len() == 0 ==> res == Progress::Finished(0),
        steps@.len() > 0 ==> res == Progress::Perform(steps@[0]),
{
}

/// Of a list of paths, those that are UTF-8 are kept, in order.
pub proof fn readable_paths_are_kept(paths: Seq<Vec<u8>>, path: Vec<u8>)
    ensures
        readable(Seq::empty()).len() == 0,
        vstd::utf8::valid_utf8(path@) ==> readable(paths.push(path)) == readable(paths).push(
            vstd::utf8::decode_utf8(path@),
        ),
        !vstd::utf8::valid_utf8(path@) ==> readable(paths.push(path)) == readable(paths),
{
    assert(paths.push(path).drop_last() =~= paths);
}

/// Landlock is given the readable paths; where there is none, or no list at all, the code is
/// -20.
pub proof fn landlock_needs_paths(
    paths: Option<&Vec<Vec<u8>>>,
    res: Result<Vec<String>, i32>,
)
    requires
        call_ensures(landlock_paths, (paths,), res),
    ensures
        paths is None ==> (res matches Err(code) && code == -20),
        paths matches Some(all) ==> {
            &&& readable(all@).len() == 0 ==> (res matches Err(code) && code == -20)
            &&& readable(all@).len() > 0 ==> (res matches Ok(list) && text::texts(list@)
                == readable(all@))
        },
{
}

/// A ruleset that is enforced, if only in part, is a success; one that is not is -23, and
/// one that could not be applied -21.
pub proof fn rulesets_have_codes(status: Option<RulesetStatus>, res: i32)
    requires
        call_ensures(apply_landlock, (status,), res),
    ensures
        status == Some(RulesetStatus::FullyEnforced) ==> res == 0,
        status == Some(RulesetStatus::PartiallyEnforced) ==> res == 0,
        status == Some(RulesetStatus::NotEnforced) ==> res == -23,
        status is None ==> res == -21,
{
}

/// A single path is a list of one, and no path a list of none.
pub proof fn one_path_is_a_list(path: Option<Vec<u8>>, res: Vec<Vec<u8>>)
    requires
        call_ensures(apply_landlock_one, (path,), res),
    ensures
        path is None ==> res@.len() == 0,
        path matches Some(p) ==> res@.len() == 1 && res@[0] == p,
{
}

/// A step that went well is followed by the next, or by the end with 0; one that failed ends
/// the way with its code.
pub proof fn steps_lead_on(way: &mut Initializer, ok: bool, res: Progress)
    requires
        old(way)@.len() > 0,
        call_ensures(Initializer::report, (way, ok), res),
    ensures
        ok && old(way)@.len() == 1 ==> res == Progress::Finished(0),
        ok && old(way)@.len() > 1 ==> res == Progress::Perform(old(way)@[1]),
        ok ==> final(way)@ == old(way)@.skip(1),
        !ok ==> (res matches Progress::Finished(code) && code == failure_code(old(way)@[0])
            && code < 0),
{
}

} // verus!
