//! Sandbox environment preparation — copies the standard library and system files into the
//! chroot jail.

use vstd::prelude::*;

use crate::command::{concat, push_arg, CommandModel, CommandSpec, Input, InputModel};
use crate::config::Config;
use crate::runners::LIB_PATH;
use crate::text;
use crate::text::from_utf8_lossy;

verus! {

/// The process that copies a path into the jail.
pub open spec fn copy_process(src: Seq<char>) -> CommandModel {
    CommandModel {
        program: "bash"@,
        args: seq![LIB_PATH@ + "/script/env.sh"@, src, LIB_PATH@],
        clear_env: false,
        env: Seq::empty(),
        cwd: None,
        input: InputModel::Inherited,
        captured: false,
        kill_on_drop: false,
        timeout_secs: None,
    }
}

/// What copying a source file or directory tree into the jail takes: a process, or nothing
/// if there is no such path.
pub fn copy_into_jail(src: &str, exists: bool) -> (res: Option<CommandSpec>)
    ensures
        match res {
            Some(command) => exists && command@ == copy_process(src@),
            None => !exists,
        },
{
    if !exists {
        return None;
    }
    let mut args: Vec<String> = Vec::new();
    push_arg(&mut args, concat(LIB_PATH, "/script/env.sh").as_str());
    push_arg(&mut args, src);
    push_arg(&mut args, LIB_PATH);
    let env: Vec<(String, String)> = Vec::new();
    let res = CommandSpec {
        program: "bash".to_owned(),
        args,
        clear_env: false,
        env,
        cwd: None,
        input: Input::Inherited,
        captured: false,
        kill_on_drop: false,
        timeout_secs: None,
    };
    assert(res@.args =~= copy_process(src@).args);
    assert(res@.env =~= Seq::empty());
    Some(res)
}

/// How copying a path went.
pub enum CopyEvent {
    /// The process could not be started, with the system's message.
    SpawnFailed(String),
    /// Waiting for it failed.
    WaitFailed(String),
    /// It ended, with success or not.
    Exited { success: bool, stderr: Vec<u8> },
}

/// What copying a path comes to. Where there was no process to run, nothing went wrong.
pub open spec fn copy_outcome(src: Seq<char>, event: Option<CopyEvent>) -> Result<(), Seq<char>> {
    match event {
        None => Ok(()),
        Some(CopyEvent::SpawnFailed(e)) => Err("spawn env.sh for "@ + src + ": "@ + e@),
        Some(CopyEvent::WaitFailed(e)) => Err("env.sh "@ + src + ": "@ + e@),
        Some(CopyEvent::Exited { success, stderr }) => if success {
            Ok(())
        } else {
            Err("env.sh "@ + src + " failed: "@ + text::lossy_text(stderr@))
        },
    }
}

/// The result of copying a path into the jail, given how the process of [`copy_into_jail`]
/// went.
pub fn copy_result(src: &str, event: Option<CopyEvent>) -> (res: Result<(), String>)
    ensures
        match res {
            Ok(_) => copy_outcome(src@, event) is Ok,
            Err(message) => copy_outcome(src@, event) matches Err(m) && m == message@,
        },
{
    match event {
        None => Ok(()),
        Some(CopyEvent::SpawnFailed(e)) => {
            let mut message = concat("spawn env.sh for ", src);
            message.append(": ");
            message.append(e.as_str());
            Err(message)
        },
        Some(CopyEvent::WaitFailed(e)) => {
            let mut message = concat("env.sh ", src);
            message.append(": ");
            message.append(e.as_str());
            Err(message)
        },
        Some(CopyEvent::Exited { success, stderr }) => {
            if success {
                Ok(())
            } else {
                let mut message = concat("env.sh ", src);
                message.append(" failed: ");
                message.append(from_utf8_lossy(stderr.as_slice()).as_str());
                Err(message)
            }
        },
    }
}

/// The paths that are copied into the jail, in this order: those of Python, then those of
/// Node.js.
pub fn prepare_environment(config: &Config) -> (res: Vec<String>)
    ensures
        text::texts(res@) == config@.python_lib_paths + config@.nodejs_lib_paths,
{
    let mut res: Vec<String> = Vec::new();
    append_paths(&mut res, &config.python_lib_paths);
    append_paths(&mut res, &config.nodejs_lib_paths);
    assert(text::texts(res@) =~= config@.python_lib_paths + config@.nodejs_lib_paths);
    res
}

fn append_paths(list: &mut Vec<String>, more: &Vec<String>)
    ensures
        text::texts(final(list)@) == text::texts(old(list)@) + text::texts(more@),
{
    let ghost before = text::texts(list@);
    let ghost wanted = text::texts(more@);
    let mut i: usize = 0;
    assert(before + wanted.take(0) =~= before);
    while i < more.len()
        invariant
            i <= more@.len(),
            wanted == text::texts(more@),
            text::texts(list@) == before + wanted.take(i as int),
        decreases more@.len() - i,
    {
        assert(wanted[i as int] == more@[i as int]@);
        push_arg(list, more[i].as_str());
        assert(text::texts(list@) =~= before + wanted.take(i + 1));
        i = i + 1;
    }
    assert(wanted.take(i as int) =~= wanted);
}

/// A path that is there is copied by the script, which is told where from and where to; one
/// that is not is passed over.
pub proof fn paths_that_are_there_are_copied(
    src: &str,
    exists: bool,
    res: Option<CommandSpec>,
)
    requires
        call_ensures(copy_into_jail, (src, exists), res),
    ensures
        res is Some <==> exists,
        res matches Some(command) ==> {
            &&& command.program@ == "bash"@
            &&& command.args@.len() == 3
            &&& command.args@[0]@ == "/usr/local/share/sandbox"@ + "/script/env.sh"@
            &&& command.args@[1]@ == src@
            &&& command.args@[2]@ == "/usr/local/share/sandbox"@
            &&& !command.clear_env
            &&& command.env@.len() == 0
            &&& command.cwd is None
            &&& command.input is Inherited
            &&& !command.captured
            &&& !command.kill_on_drop
            &&& command.timeout_secs is None
        },
{
    if let Some(command) = res {
        text::lemma_texts(command.args@, command.env@);
    }
}

/// Copying fails if the script could not be started, waited for, or failed, and says which
/// and for what path; and not otherwise.
pub proof fn failed_copies_say_why(
    src: &str,
    event: Option<CopyEvent>,
    res: Result<(), String>,
)
    requires
        call_ensures(copy_result, (src, event), res),
    ensures
        event is None ==> res is Ok,
        event matches Some(CopyEvent::SpawnFailed(e)) ==> (res matches Err(m) && m@
            == "spawn env.sh for "@ + src@ + ": "@ + e@),
        event matches Some(CopyEvent::WaitFailed(e)) ==> (res matches Err(m) && m@ == "env.sh "@
            + src@ + ": "@ + e@),
        event matches Some(CopyEvent::Exited { success, stderr }) ==> {
            &&& success ==> res is Ok
            &&& !success ==> (res matches Err(m) && m@ == "env.sh "@ + src@ + " failed: "@
                + text::lossy_text(stderr@))
        },
{
}

/// All paths of Python are prepared, and then all of Node.js, in the order of the
/// configuration.
pub proof fn all_paths_are_prepared(config: &Config, res: Vec<String>)
    requires
        call_ensures(prepare_environment, (config,), res),
    ensures
        res@.len() == config.python_lib_paths@.len() + config.nodejs_lib_paths@.len(),
        forall|i: int|
            0 <= i < config.python_lib_paths@.len() ==> (#[trigger] res@[i])@
                == config.python_lib_paths@[i]@,
        forall|i: int|
            config.python_lib_paths@.len() <= i < res@.len() ==> (#[trigger] res@[i])@
                == config.nodejs_lib_paths@[i - config.python_lib_paths@.len()]@,
{
    text::lemma_texts(res@, Seq::empty());
    text::lemma_texts(config.python_lib_paths@, Seq::empty());
    text::lemma_texts(config.nodejs_lib_paths@, Seq::empty());
}

} // verus!
