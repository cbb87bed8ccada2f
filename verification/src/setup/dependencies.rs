//! Dependency management — `pip list` and `pip install` via subprocess.

use vstd::prelude::*;

use crate::command;
use crate::command::{concat, push_arg, CommandModel, CommandSpec, Input, InputModel};
use crate::config::Config;
use crate::runners::LIB_PATH;
use crate::text;
use crate::text::{chars_of, from_utf8_lossy, split, split_once, trim};

verus! {

pub struct Package {
    pub name: String,
    pub version: String,
}

pub open spec fn package_models(list: Seq<Package>) -> Seq<(Seq<char>, Seq<char>)> {
    list.map_values(|p: Package| (p.name@, p.version@))
}

/// The packages in the output of `pip list --format=freeze`: the trimmed lines that hold
/// `==`, split there. A line ends with `\n`; a `\r` before it is trimmed.
pub open spec fn frozen_packages(output: Seq<char>) -> Seq<(Seq<char>, Seq<char>)> {
    frozen_lines(text::split_at(output, '\n'))
}

/// The packages in a list of lines.
pub open spec fn frozen_lines(lines: Seq<Seq<char>>) -> Seq<(Seq<char>, Seq<char>)>
    decreases lines.len(),
{
    if lines.len() == 0 {
        Seq::empty()
    } else {
        let front = frozen_lines(lines.drop_last());
        match text::split_once_at(text::trimmed(lines.last()), "=="@) {
            Some((name, version)) => front.push((name, version)),
            None => front,
        }
    }
}

/// The requirements in a requirements file: the trimmed lines that are neither empty nor
/// comments.
pub open spec fn requirements(content: Seq<char>) -> Seq<Seq<char>> {
    requirement_lines(text::split_at(content, '\n'))
}

/// The requirements in a list of lines.
pub open spec fn requirement_lines(lines: Seq<Seq<char>>) -> Seq<Seq<char>>
    decreases lines.len(),
{
    if lines.len() == 0 {
        Seq::empty()
    } else {
        let front = requirement_lines(lines.drop_last());
        let line = text::trimmed(lines.last());
        if line.len() > 0 && line[0] != '#' {
            front.push(line)
        } else {
            front
        }
    }
}

/// Parses the output of `pip list --format=freeze`.
pub fn parse_packages(output: &str) -> (res: Vec<Package>)
    ensures
        package_models(res@) == frozen_packages(output@),
{
    let lines = split(output, '\n');
    let ghost all = text::texts(lines@);
    let mut res: Vec<Package> = Vec::new();
    let mut i: usize = 0;
    assert(package_models(res@) =~= frozen_lines(all.take(0)));
    while i < lines.len()
        invariant
            i <= lines@.len(),
            all == text::texts(lines@),
            package_models(res@) == frozen_lines(all.take(i as int)),
        decreases lines@.len() - i,
    {
        assert(all.take(i + 1).drop_last() =~= all.take(i as int));
        assert(all[i as int] == lines@[i as int]@);
        let line = trim(lines[i].as_str());
        if let Some((name, version)) = split_once(line.as_str(), "==") {
            let ghost before = package_models(res@);
            res.push(Package { name, version });
            assert(package_models(res@) =~= before.push((name@, version@)));
        }
        i = i + 1;
    }
    assert(all.take(i as int) =~= all);
    res
}

/// Parses a requirements file.
pub fn parse_requirements(content: &str) -> (res: Vec<String>)
    ensures
        text::texts(res@) == requirements(content@),
{
    let lines = split(content, '\n');
    let ghost all = text::texts(lines@);
    let mut res: Vec<String> = Vec::new();
    let mut i: usize = 0;
    assert(text::texts(res@) =~= requirement_lines(all.take(0)));
    while i < lines.len()
        invariant
            i <= lines@.len(),
            all == text::texts(lines@),
            text::texts(res@) == requirement_lines(all.take(i as int)),
        decreases lines@.len() - i,
    {
        assert(all.take(i + 1).drop_last() =~= all.take(i as int));
        assert(all[i as int] == lines@[i as int]@);
        let line = trim(lines[i].as_str());
        let chars = chars_of(line.as_str());
        if chars.len() > 0 && chars[0] != '#' {
            push_arg(&mut res, line.as_str());
        }
        i = i + 1;
    }
    assert(all.take(i as int) =~= all);
    res
}

/// How a pip process went.
pub enum PipEvent {
    /// It could not be started, with the system's message.
    SpawnFailed(String),
    /// Waiting for it failed.
    WaitFailed(String),
    /// It ended, with success or not.
    Exited { success: bool, stdout: Vec<u8>, stderr: Vec<u8> },
}

/// A pip process of the configured interpreter.
pub open spec fn pip_process(python_path: Seq<char>, args: Seq<Seq<char>>) -> CommandModel {
    CommandModel {
        program: python_path,
        args: seq!["-m"@, "pip"@] + args,
        clear_env: false,
        env: Seq::empty(),
        cwd: None,
        input: InputModel::Inherited,
        captured: true,
        kill_on_drop: false,
        timeout_secs: None,
    }
}

fn pip_command(python_path: &str, args: Vec<String>) -> (res: CommandSpec)
    requires
        text::texts(args@).len() >= 2,
        text::texts(args@).take(2) == seq!["-m"@, "pip"@],
    ensures
        res@ == pip_process(python_path@, text::texts(args@).skip(2)),
{
    let env: Vec<(String, String)> = Vec::new();
    let res = CommandSpec {
        program: python_path.to_owned(),
        args,
        clear_env: false,
        env,
        cwd: None,
        input: Input::Inherited,
        captured: true,
        kill_on_drop: false,
        timeout_secs: None,
    };
    assert(res@.args =~= seq!["-m"@, "pip"@] + text::texts(args@).skip(2)) by {
        assert(text::texts(args@) =~= text::texts(args@).take(2) + text::texts(args@).skip(2));
    }
    assert(res@.env =~= Seq::empty());
    res
}

/// The process that lists the installed packages.
pub fn list_command(config: &Config) -> (res: CommandSpec)
    ensures
        res@ == pip_process(config@.python_path, seq!["list"@, "--format=freeze"@]),
{
    let mut args: Vec<String> = Vec::new();
    push_arg(&mut args, "-m");
    push_arg(&mut args, "pip");
    push_arg(&mut args, "list");
    push_arg(&mut args, "--format=freeze");
    assert(text::texts(args@).take(2) =~= seq!["-m"@, "pip"@]);
    assert(text::texts(args@).skip(2) =~= seq!["list"@, "--format=freeze"@]);
    pip_command(config.python_path.as_str(), args)
}

/// The packages that listing them gives: none if it failed.
pub open spec fn listed_packages(event: PipEvent) -> Seq<(Seq<char>, Seq<char>)> {
    match event {
        PipEvent::Exited { success, stdout, .. } => if success {
            frozen_packages(text::lossy_text(stdout@))
        } else {
            Seq::empty()
        },
        _ => Seq::empty(),
    }
}

/// The installed packages, given how the process of [`list_command`] went.
pub fn list_python_packages(event: PipEvent) -> (res: Vec<Package>)
    ensures
        package_models(res@) == listed_packages(event),
{
    if let PipEvent::Exited { success, stdout, .. } = event {
        if success {
            return parse_packages(from_utf8_lossy(stdout.as_slice()).as_str());
        }
    }
    let none: Vec<Package> = Vec::new();
    assert(package_models(none@) =~= Seq::empty());
    none
}

/// The file that names the packages to be installed.
pub fn requirements_path() -> (res: String)
    ensures
        res@ == LIB_PATH@ + "/requirements.txt"@,
{
    concat(LIB_PATH, "/requirements.txt")
}

/// The process that installs the packages of a requirements file. There is none if there is
/// no file, or if it asks for nothing.
pub fn install_command(config: &Config, file: Option<&str>) -> (res: Option<CommandSpec>)
    ensures
        match res {
            Some(command) => {
                &&& file matches Some(content)
                &&& requirements(content@).len() > 0
                &&& command@ == pip_process(
                    config@.python_path,
                    seq!["install"@, "--upgrade"@] + requirements(content@),
                )
            },
            None => file matches Some(content) ==> requirements(content@).len() == 0,
        },
{
    match file {
        Some(content) => {
            let packages = parse_requirements(content);
            let ghost wanted = text::texts(packages@);
            if packages.len() == 0 {
                return None;
            }
            let mut args: Vec<String> = Vec::new();
            push_arg(&mut args, "-m");
            push_arg(&mut args, "pip");
            push_arg(&mut args, "install");
            push_arg(&mut args, "--upgrade");
            let ghost fixed = seq!["-m"@, "pip"@, "install"@, "--upgrade"@];
            assert(text::texts(args@) =~= fixed + wanted.take(0));
            let mut i: usize = 0;
            while i < packages.len()
                invariant
                    i <= packages@.len(),
                    wanted == text::texts(packages@),
                    text::texts(args@) == fixed + wanted.take(i as int),
                decreases packages@.len() - i,
            {
                assert(wanted[i as int] == packages@[i as int]@);
                push_arg(&mut args, packages[i].as_str());
                assert(text::texts(args@) =~= fixed + wanted.take(i + 1));
                i = i + 1;
            }
            assert(wanted.take(i as int) =~= wanted);
            assert(text::texts(args@).take(2) =~= seq!["-m"@, "pip"@]);
            assert(text::texts(args@).skip(2) =~= seq!["install"@, "--upgrade"@] + wanted);
            Some(pip_command(config.python_path.as_str(), args))
        },
        None => None,
    }
}

/// How installing went: an error holds why. Where there was no process to run, nothing went
/// wrong.
pub open spec fn install_outcome(event: Option<PipEvent>) -> Result<(), Seq<char>> {
    match event {
        None => Ok(()),
        Some(PipEvent::SpawnFailed(e)) => Err("pip install spawn: "@ + e@),
        Some(PipEvent::WaitFailed(e)) => Err("pip install: "@ + e@),
        Some(PipEvent::Exited { success, stderr, .. }) => if success {
            Ok(())
        } else {
            Err(text::lossy_text(stderr@))
        },
    }
}

/// The result of installing packages, given how the process of [`install_command`] went.
pub fn install_python_dependencies(event: Option<PipEvent>) -> (res: Result<(), String>)
    ensures
        match res {
            Ok(_) => install_outcome(event) is Ok,
            Err(message) => install_outcome(event) matches Err(m) && m == message@,
        },
{
    match event {
        None => Ok(()),
        Some(PipEvent::SpawnFailed(e)) => Err(concat("pip install spawn: ", e.as_str())),
        Some(PipEvent::WaitFailed(e)) => Err(concat("pip install: ", e.as_str())),
        Some(PipEvent::Exited { success, stderr, .. }) => if success {
            Ok(())
        } else {
            Err(from_utf8_lossy(stderr.as_slice()))
        },
    }
}

/// pip runs as a module of the configured interpreter, in the server's environment, and its
/// output is read.
pub proof fn pip_lists_packages(config: &Config, command: CommandSpec)
    requires
        call_ensures(list_command, (config,), command),
    ensures
        command.program@ == config.python_path@,
        command.args@.len() == 4,
        command.args@[0]@ == "-m"@,
        command.args@[1]@ == "pip"@,
        command.args@[2]@ == "list"@,
        command.args@[3]@ == "--format=freeze"@,
        !command.clear_env,
        command.env@.len() == 0,
        command.cwd is None,
        command.input is Inherited,
        command.captured,
        !command.kill_on_drop,
        command.timeout_secs is None,
{
    text::lemma_texts(command.args@, command.env@);
}

/// A line with `==` in it, white space at its ends aside, is a package: its name stands
/// before the first `==`, its version behind. Any other line is none. Lines are read in
/// order.
pub proof fn lines_are_packages(lines: Seq<Seq<char>>, line: Seq<char>)
    ensures
        frozen_lines(Seq::empty()).len() == 0,
        text::split_once_at(text::trimmed(line), "=="@) matches Some((name, version))
            ==> frozen_lines(lines.push(line)) == frozen_lines(lines).push((name, version)),
        text::split_once_at(text::trimmed(line), "=="@) is None ==> frozen_lines(lines.push(line))
            == frozen_lines(lines),
{
    assert(lines.push(line).drop_last() =~= lines);
}

/// The packages are those of the output's lines.
pub proof fn output_is_read_by_lines(output: &str, res: Vec<Package>)
    requires
        call_ensures(parse_packages, (output,), res),
    ensures
        ({
            let found = frozen_lines(text::split_at(output@, '\n'));
            &&& res@.len() == found.len()
            &&& forall|i: int|
                0 <= i < res@.len() ==> found[i] == ((#[trigger] res@[i]).name@, res@[i].version@)
        }),
{
    let found = frozen_lines(text::split_at(output@, '\n'));
    assert(package_models(res@) == found);
    assert(package_models(res@).len() == res@.len());
    assert forall|i: int| 0 <= i < res@.len() implies found[i] == (
        (#[trigger] res@[i]).name@,
        res@[i].version@,
    ) by {
        assert(package_models(res@)[i] == (res@[i].name@, res@[i].version@));
    }
}

/// There are packages only where pip succeeded, and they are those in its output.
pub proof fn packages_come_from_pip(event: PipEvent, res: Vec<Package>)
    requires
        call_ensures(list_python_packages, (event,), res),
    ensures
        !(event is Exited) ==> res@.len() == 0,
        event matches PipEvent::Exited { success, stdout, .. } ==> {
            &&& !success ==> res@.len() == 0
            &&& success ==> package_models(res@) == frozen_lines(
                text::split_at(text::lossy_text(stdout@), '\n'),
            )
        },
{
    assert(package_models(res@).len() == res@.len());
}

/// A line is a requirement, white space at its ends aside, unless it is empty or starts with
/// `#`. Lines are read in order.
pub proof fn lines_are_requirements(lines: Seq<Seq<char>>, line: Seq<char>)
    ensures
        requirement_lines(Seq::empty()).len() == 0,
        ({
            let t = text::trimmed(line);
            if t.len() == 0 || t[0] == '#' {
                requirement_lines(lines.push(line)) == requirement_lines(lines)
            } else {
                requirement_lines(lines.push(line)) == requirement_lines(lines).push(t)
            }
        }),
{
    assert(lines.push(line).drop_last() =~= lines);
}

/// A requirements file is read by lines.
pub proof fn files_are_read_by_lines(content: &str, res: Vec<String>)
    requires
        call_ensures(parse_requirements, (content,), res),
    ensures
        text::texts(res@) == requirement_lines(text::split_at(content@, '\n')),
{
}

/// What a requirements file asks for is installed by pip, all of it and in order, and
/// upgraded. Without a file, or where it asks for nothing, nothing is run.
pub proof fn requirements_are_installed(
    config: &Config,
    file: Option<&str>,
    res: Option<CommandSpec>,
)
    requires
        call_ensures(install_command, (config, file), res),
    ensures
        file is None ==> res is None,
        file matches Some(content) ==> {
            let wanted = requirement_lines(text::split_at(content@, '\n'));
            &&& res is Some <==> wanted.len() > 0
            &&& res matches Some(command) ==> {
                &&& command.program@ == config.python_path@
                &&& command.args@.len() == 4 + wanted.len()
                &&& command.args@[0]@ == "-m"@
                &&& command.args@[1]@ == "pip"@
                &&& command.args@[2]@ == "install"@
                &&& command.args@[3]@ == "--upgrade"@
                &&& forall|i: int|
                    0 <= i < wanted.len() ==> command.args@[4 + i]@ == #[trigger] wanted[i]
                &&& !command.clear_env
                &&& command.env@.len() == 0
                &&& command.cwd is None
                &&& command.input is Inherited
                &&& command.captured
                &&& !command.kill_on_drop
                &&& command.timeout_secs is None
            }
        },
{
    if let Some(command) = res {
        text::lemma_texts(command.args@, command.env@);
        if let Some(content) = file {
            let wanted = requirement_lines(text::split_at(content@, '\n'));
            assert forall|i: int| 0 <= i < wanted.len() implies command.args@[4 + i]@
                == #[trigger] wanted[i] by {
                assert(text::texts(command.args@)[4 + i] == wanted[i]);
            }
        }
    }
}

/// Installing fails if pip could not be started, waited for, or failed, and says why; and
/// not otherwise.
pub proof fn failed_installs_say_why(event: Option<PipEvent>, res: Result<(), String>)
    requires
        call_ensures(install_python_dependencies, (event,), res),
    ensures
        event is None ==> res is Ok,
        event matches Some(PipEvent::SpawnFailed(e)) ==> (res matches Err(m) && m@
            == "pip install spawn: "@ + e@),
        event matches Some(PipEvent::WaitFailed(e)) ==> (res matches Err(m) && m@
            == "pip install: "@ + e@),
        event matches Some(PipEvent::Exited { success, stderr, .. }) ==> {
            &&& success ==> res is Ok
            &&& !success ==> (res matches Err(m) && m@ == text::lossy_text(stderr@))
        },
{
}

/// The requirements file is in the sandbox's directory.
pub proof fn requirements_are_in_the_sandbox(res: String)
    requires
        call_ensures(requirements_path, (), res),
    ensures
        res@ == "/usr/local/share/sandbox"@ + "/requirements.txt"@,
{
}

} // verus!
