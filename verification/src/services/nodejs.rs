//! Node.js executions: the code is validated, spliced into the bootstrap script and fed to
//! a fresh interpreter.

use vstd::prelude::*;

use crate::command;
use crate::command::{
    concat,
    finish_process,
    path_env,
    push_arg,
    push_proxy,
    push_var,
    CommandModel,
    CommandSpec,
    Input,
    InputModel,
    ProcessEvent,
};
use crate::config;
use crate::config::{Config, ConfigModel};
use crate::crypto;
use crate::crypto::{base64_decode, base64_encode};
use crate::environ;
use crate::environ::Environment;
use crate::models::RunnerOptions;
use crate::runners;
use crate::runners::{network_allowed, ExecutionResult, LIB_PATH};
use crate::text;
use crate::text::{decimal_text, parse_unsigned, replace, trim};

verus! {

/// What validating code gives: its canonical base64 text, or why it is none.
pub open spec fn validated(code_b64: Seq<char>) -> Result<Seq<char>, Seq<char>> {
    match crypto::base64_decoded(code_b64) {
        Ok(bytes) => Ok(crypto::base64_encoded(bytes)),
        Err(e) => Err("invalid base64 code: "@ + e),
    }
}

/// Validates base64 and returns its canonical re-encoding. What comes out is of the base64
/// alphabet, so it holds nothing that could end the string literal it is spliced into; and
/// whatever holds another character is refused.
pub fn validate_base64(code_b64: &str) -> (res: Result<String, String>)
    ensures
        match res {
            Ok(canonical) => validated(code_b64@) matches Ok(c) && c == canonical@,
            Err(message) => validated(code_b64@) matches Err(m) && m == message@,
        },
        res matches Ok(canonical) ==> crypto::is_base64_text(canonical@),
        res matches Ok(canonical) ==> canonical@ == code_b64@,
        !crypto::is_base64_text(code_b64@) ==> res is Err,
{
    match base64_decode(code_b64) {
        Ok(decoded) => Ok(base64_encode(decoded.as_slice())),
        Err(e) => Err(concat("invalid base64 code: ", e.as_str())),
    }
}

/// The expression that decodes and evaluates the code.
pub open spec fn eval_call(code_b64: Seq<char>) -> Seq<char> {
    "eval(Buffer.from('"@ + code_b64 + "', 'base64').toString('utf-8'))"@
}

/// The bootstrap script, with the preloaded code and the call that runs the code.
pub open spec fn script_text(
    template: Seq<char>,
    code_b64: Seq<char>,
    preload: Seq<char>,
) -> Seq<char> {
    text::replaced(
        text::replaced(template, "{{preload}}"@, preload),
        "{{code}}"@,
        eval_call(code_b64),
    )
}

/// Builds the sandbox script in memory. `code_b64` must already be validated.
pub fn build_script(template: &str, code_b64: &str, preload: &str) -> (res: String)
    ensures
        res@ == script_text(template@, code_b64@, preload@),
{
    proof {
        reveal_strlit("{{preload}}");
        reveal_strlit("{{code}}");
    }
    let script = replace(template, "{{preload}}", preload);
    let mut eval_code = concat("eval(Buffer.from('", code_b64);
    eval_code.append("', 'base64').toString('utf-8'))");
    replace(script.as_str(), "{{code}}", eval_code.as_str())
}

/// V8's heap cap in MiB: that of `NODE_MAX_OLD_SPACE_MB` if it is a positive number, else
/// 768.
pub open spec fn old_space_mb(env: Seq<(Seq<char>, Seq<char>)>) -> nat {
    match environ::lookup(env, "NODE_MAX_OLD_SPACE_MB"@) {
        Some(v) => match text::unsigned_value(text::trimmed(v), u32::MAX as nat) {
            Some(n) => if n > 0 {
                n
            } else {
                768
            },
            None => 768,
        },
        None => 768,
    }
}

/// V8's heap cap, which makes JS-object bombs die with a clean heap-OOM below the
/// RLIMIT_AS ceiling.
pub fn max_old_space_mb(env: &Environment) -> (res: u32)
    ensures
        res == old_space_mb(env@),
        res > 0,
{
    match env.var("NODE_MAX_OLD_SPACE_MB") {
        Some(v) => match parse_unsigned(trim(v.as_str()).as_str(), u32::MAX as u64) {
            Some(n) => if n > 0 {
                n as u32
            } else {
                768
            },
            None => 768,
        },
        None => 768,
    }
}

/// `true` or `false`.
pub open spec fn flag_text(flag: bool) -> Seq<char> {
    if flag {
        "true"@
    } else {
        "false"@
    }
}

/// The options that the bootstrap script is given, as a JSON object.
pub open spec fn options_text(enable_network: bool, max_as: nat) -> Seq<char> {
    "{\"enable_network\":"@ + flag_text(enable_network) + ",\"max_as\":"@ + text::decimal(max_as)
        + "}"@
}

/// The environment of a Node.js process: `PATH`, no io_uring, the bundled modules, and the
/// proxies.
pub open spec fn node_env(
    c: ConfigModel,
    env: Seq<(Seq<char>, Seq<char>)>,
) -> Seq<(Seq<char>, Seq<char>)> {
    command::path_vars(env) + seq![
        ("UV_USE_IO_URING"@, "0"@),
        ("NODE_PATH"@, LIB_PATH@ + "/node_modules"@),
    ] + config::proxy_vars(c.proxy)
}

/// The process that executes a script: Node.js reads it from its input.
pub open spec fn node_process(
    c: ConfigModel,
    script: Seq<char>,
    args: Seq<Seq<char>>,
    env: Seq<(Seq<char>, Seq<char>)>,
) -> CommandModel {
    CommandModel {
        program: c.nodejs_path,
        args,
        clear_env: true,
        env: node_env(c, env),
        cwd: Some(LIB_PATH@),
        input: InputModel::Text(script),
        captured: true,
        kill_on_drop: true,
        timeout_secs: Some(c.worker_timeout as u64),
    }
}

/// Makes the process that executes a script with these arguments.
pub(crate) fn node_command(
    config: &Config,
    script: String,
    args: Vec<String>,
    env: &Environment,
) -> (res: CommandSpec)
    ensures
        res@ == node_process(config@, script@, text::texts(args@), env@),
{
    let mut vars = path_env(env);
    push_var(&mut vars, "UV_USE_IO_URING", "0");
    push_var(&mut vars, "NODE_PATH", concat(LIB_PATH, "/node_modules").as_str());
    assert(text::text_pairs(vars@) =~= command::path_vars(env@) + seq![
        ("UV_USE_IO_URING"@, "0"@),
        ("NODE_PATH"@, LIB_PATH@ + "/node_modules"@),
    ]);
    push_proxy(&mut vars, &config.proxy);
    CommandSpec {
        program: config.nodejs_path.as_str().to_owned(),
        args,
        clear_env: true,
        env: vars,
        cwd: Some(LIB_PATH.to_owned()),
        input: Input::Text(script),
        captured: true,
        kill_on_drop: true,
        timeout_secs: Some(config.worker_timeout),
    }
}

/// The arguments of an execution: the heap cap, that the script comes on the input, and
/// what the bootstrap script reads.
pub open spec fn node_args(
    c: ConfigModel,
    options: RunnerOptions,
    env: Seq<(Seq<char>, Seq<char>)>,
) -> Seq<Seq<char>> {
    seq![
        "--max-old-space-size="@ + text::decimal(old_space_mb(env)),
        "-"@,
        LIB_PATH@,
        text::decimal(c.sandbox_uid),
        text::decimal(c.sandbox_gid),
        options_text(runners::network(c, options), c.nodejs_max_as_bytes),
    ]
}

/// What executing code takes: a process, or the reason why there is none.
pub open spec fn planned(
    c: ConfigModel,
    template: Seq<char>,
    code_b64: Seq<char>,
    preload: Seq<char>,
    options: RunnerOptions,
    env: Seq<(Seq<char>, Seq<char>)>,
) -> Result<CommandModel, Seq<char>> {
    match validated(code_b64) {
        Ok(canonical) => Ok(
            node_process(
                c,
                script_text(template, canonical, runners::checked_preload(c, preload)),
                node_args(c, options, env),
                env,
            ),
        ),
        Err(message) => Err(message),
    }
}

/// Starts executing code: gives the process that does it. Code that is not base64 is
/// refused before it is spliced into the script.
pub fn run(
    config: &Config,
    template: &str,
    code_b64: &str,
    preload: &str,
    options: &RunnerOptions,
    env: &Environment,
) -> (res: Result<CommandSpec, String>)
    ensures
        match res {
            Ok(command) => planned(
                config@,
                template@,
                code_b64@,
                preload@,
                *options,
                env@,
            ) matches Ok(c) && c == command@,
            Err(message) => planned(
                config@,
                template@,
                code_b64@,
                preload@,
                *options,
                env@,
            ) matches Err(m) && m == message@,
        },
        res is Ok ==> validated(code_b64@) == Ok::<Seq<char>, Seq<char>>(code_b64@)
            && crypto::is_base64_text(code_b64@),
{
    let enable_network = network_allowed(config, options);
    let canonical = match validate_base64(code_b64) {
        Ok(canonical) => canonical,
        Err(message) => {
            return Err(message);
        },
    };
    let script = if config.enable_preload {
        build_script(template, canonical.as_str(), preload)
    } else {
        build_script(template, canonical.as_str(), String::new().as_str())
    };

    let mut opts_json = concat(
        "{\"enable_network\":",
        if enable_network {
            "true"
        } else {
            "false"
        },
    );
    opts_json.append(",\"max_as\":");
    opts_json.append(decimal_text(config.nodejs_max_as_bytes).as_str());
    opts_json.append("}");

    let mut args: Vec<String> = Vec::new();
    let heap = max_old_space_mb(env);
    push_arg(
        &mut args,
        concat("--max-old-space-size=", decimal_text(heap as u64).as_str()).as_str(),
    );
    push_arg(&mut args, "-");
    push_arg(&mut args, LIB_PATH);
    push_arg(&mut args, decimal_text(config.sandbox_uid as u64).as_str());
    push_arg(&mut args, decimal_text(config.sandbox_gid as u64).as_str());
    push_arg(&mut args, opts_json.as_str());
    assert(text::texts(args@) =~= node_args(config@, *options, env@));
    Ok(node_command(config, script, args, env))
}

/// Ends an execution: gives its result.
pub fn finish(event: ProcessEvent) -> (res: Result<ExecutionResult, String>)
    requires
        event matches ProcessEvent::Exited { signal, .. } ==> signal != Some(i32::MIN),
    ensures
        command::outcome_is(res, command::process_outcome("nodejs"@, event)),
{
    finish_process("nodejs", event)
}

/// Base64 text cannot break out of the string literal it is spliced into: within the call,
/// it stands verbatim between the quotes and holds no quote, backslash or line end.
pub proof fn eval_call_is_closed(code_b64: Seq<char>)
    requires
        crypto::is_base64_text(code_b64),
    ensures
        ({
            let start = "eval(Buffer.from('"@.len();
            let end = start + code_b64.len();
            &&& eval_call(code_b64).subrange(start as int, end as int) == code_b64
            &&& eval_call(code_b64).skip(end as int) == "', 'base64').toString('utf-8'))"@
            &&& forall|i: int|
                start <= i < end ==> {
                    let c = #[trigger] eval_call(code_b64)[i];
                    c != '\'' && c != '\\' && c != '\n' && c != '\r'
                }
        }),
{
    let head = "eval(Buffer.from('"@;
    let start = head.len();
    let end = start + code_b64.len();
    let call = eval_call(code_b64);
    assert(call.subrange(start as int, end as int) =~= code_b64);
    assert(call.skip(end as int) =~= "', 'base64').toString('utf-8'))"@);
    assert forall|i: int| start <= i < end implies ({
        let c = #[trigger] call[i];
        c != '\'' && c != '\\' && c != '\n' && c != '\r'
    }) by {
        assert(call[i] == code_b64[i - start]);
        assert(crypto::is_base64_char(code_b64[i - start]));
    }
}

/// A script whose template has a place for the code, once the preloaded code is in it, runs
/// the code: it holds the call.
pub proof fn script_holds_call(template: Seq<char>, code_b64: Seq<char>, preload: Seq<char>)
    requires
        text::occurs_in(text::replaced(template, "{{preload}}"@, preload), "{{code}}"@),
    ensures
        text::occurs_in(script_text(template, code_b64, preload), eval_call(code_b64)),
{
    reveal_strlit("{{code}}");
    text::replaced_holds_replacement(
        text::replaced(template, "{{preload}}"@, preload),
        "{{code}}"@,
        eval_call(code_b64),
    );
}

/// The preloaded code of a request counts for nothing unless the configuration enables it.
pub proof fn preload_needs_configuration(
    c: ConfigModel,
    template: Seq<char>,
    code_b64: Seq<char>,
    first: Seq<char>,
    second: Seq<char>,
    options: RunnerOptions,
    env: Seq<(Seq<char>, Seq<char>)>,
)
    requires
        !c.enable_preload,
    ensures
        planned(c, template, code_b64, first, options, env) == planned(
            c,
            template,
            code_b64,
            second,
            options,
            env,
        ),
{
}

/// Asking for network access counts for nothing unless the configuration grants it.
pub proof fn network_needs_configuration(
    c: ConfigModel,
    template: Seq<char>,
    code_b64: Seq<char>,
    preload: Seq<char>,
    first: RunnerOptions,
    second: RunnerOptions,
    env: Seq<(Seq<char>, Seq<char>)>,
)
    requires
        !c.enable_network,
    ensures
        planned(c, template, code_b64, preload, first, env) == planned(
            c,
            template,
            code_b64,
            preload,
            second,
            env,
        ),
{
}

/// Whatever is executed is bounded and confined: the process is waited for no longer than
/// the configured time, then killed, and starts from an empty environment in the sandbox's
/// directory.
pub proof fn executions_are_confined(
    c: ConfigModel,
    template: Seq<char>,
    code_b64: Seq<char>,
    preload: Seq<char>,
    options: RunnerOptions,
    env: Seq<(Seq<char>, Seq<char>)>,
)
    ensures
        planned(c, template, code_b64, preload, options, env) matches Ok(command) ==> {
            &&& command.timeout_secs == Some(c.worker_timeout as u64)
            &&& command.kill_on_drop
            &&& command.clear_env
            &&& command.cwd == Some(LIB_PATH@)
        },
{
}

/// Code is accepted if and only if it is base64, and is then what it was; if it is not, the
/// decoder's message says why.
pub proof fn base64_is_accepted_as_it_is(code_b64: &str, res: Result<String, String>)
    requires
        call_ensures(validate_base64, (code_b64,), res),
    ensures
        res is Ok <==> crypto::base64_decoded(code_b64@) is Ok,
        res matches Ok(canonical) ==> canonical@ == code_b64@,
        res matches Ok(canonical) ==> forall|i: int|
            0 <= i < canonical@.len() ==> {
                let c = #[trigger] canonical@[i];
                'A' <= c <= 'Z' || 'a' <= c <= 'z' || '0' <= c <= '9' || c == '+' || c == '/' || c
                    == '='
            },
        crypto::base64_decoded(code_b64@) matches Err(e) ==> (res matches Err(m) && m@
            == "invalid base64 code: "@ + e),
{
    if let Ok(canonical) = res {
        assert forall|i: int| 0 <= i < canonical@.len() implies ({
            let c = #[trigger] canonical@[i];
            'A' <= c <= 'Z' || 'a' <= c <= 'z' || '0' <= c <= '9' || c == '+' || c == '/' || c
                == '='
        }) by {
            assert(crypto::is_base64_char(canonical@[i]));
        }
    }
}

/// The names of the slots of the bootstrap script.
pub open spec fn slot_names() -> Seq<Seq<char>> {
    seq!["preload"@, "code"@]
}

/// The script is the bootstrap script with its slots filled: the preloaded code, and a call
/// that decodes and evaluates the code.
pub proof fn scripts_are_filled_templates(
    pieces: Seq<text::Piece>,
    template: &str,
    code_b64: &str,
    preload: &str,
    res: String,
)
    requires
        text::is_template(pieces, slot_names()),
        template@ == text::assembled(pieces, slot_names(), seq![None, None]),
        text::is_plain(preload@),
        call_ensures(build_script, (template, code_b64, preload), res),
    ensures
        res@ == text::assembled(
            pieces,
            slot_names(),
            seq![
                Some(preload@),
                Some(
                    "eval(Buffer.from('"@ + code_b64@
                        + "', 'base64').toString('utf-8'))"@,
                ),
            ],
        ),
{
    let names = slot_names();
    reveal_strlit("preload");
    reveal_strlit("code");
    reveal_strlit("{{preload}}");
    reveal_strlit("{{code}}");
    assert(text::slot_mark(names[0]) =~= "{{preload}}"@);
    assert(text::slot_mark(names[1]) =~= "{{code}}"@);
    let none: Option<Seq<char>> = None;
    let v0 = seq![none, none];
    let v1 = v0.update(0, Some(preload@));
    let v2 = v1.update(1, Some(eval_call(code_b64@)));
    text::filling_a_slot(pieces, names, v0, 0, preload@);
    text::filling_a_slot(pieces, names, v1, 1, eval_call(code_b64@));
    assert(v2 =~= seq![Some(preload@), Some(eval_call(code_b64@))]);
}

/// The preloaded code is filled in first, and then the call in every place for the code,
/// those that the preloaded code marks included.
pub proof fn slots_are_filled_in_turn(
    template: &str,
    code_b64: &str,
    preload: &str,
    res: String,
)
    requires
        call_ensures(build_script, (template, code_b64, preload), res),
    ensures
        res@ == text::replaced(
            text::replaced(template@, "{{preload}}"@, preload@),
            "{{code}}"@,
            "eval(Buffer.from('"@ + code_b64@ + "', 'base64').toString('utf-8'))"@,
        ),
{
}

/// The heap cap is the number in the variable, white space aside, if it is positive and
/// fits; otherwise it is 768.
pub proof fn the_heap_cap_can_be_set(env: &Environment, res: u32)
    requires
        call_ensures(max_old_space_mb, (env,), res),
    ensures
        environ::lookup(env@, "NODE_MAX_OLD_SPACE_MB"@) matches Some(v) ==> text::unsigned_value(
            text::trimmed(v),
            4294967295,
        ) matches Some(n) ==> n > 0 ==> res == n,
        environ::lookup(env@, "NODE_MAX_OLD_SPACE_MB"@) matches Some(v) ==> (
        text::unsigned_value(text::trimmed(v), 4294967295) is None || text::unsigned_value(
            text::trimmed(v),
            4294967295,
        ) == Some(0nat)) ==> res == 768,
        environ::lookup(env@, "NODE_MAX_OLD_SPACE_MB"@) is None ==> res == 768,
{
}

/// The process is the configured interpreter, which reads the script from its input. It has
/// no more than `PATH`, two settings of its own and the proxies in its environment, and is
/// killed when its time is up. Its arguments are the heap cap, the sandbox's directory, who
/// to become, and the options. The script is that of [`build_script`].
pub proof fn processes_run_the_script(
    config: &Config,
    template: &str,
    code_b64: &str,
    preload: &str,
    options: &RunnerOptions,
    env: &Environment,
    res: Result<CommandSpec, String>,
    heap: u32,
)
    requires
        call_ensures(run, (config, template, code_b64, preload, options, env), res),
        call_ensures(max_old_space_mb, (env,), heap),
    ensures
        res is Ok <==> crypto::base64_decoded(code_b64@) is Ok,
        crypto::base64_decoded(code_b64@) matches Err(e) ==> (res matches Err(m) && m@
            == "invalid base64 code: "@ + e),
        res matches Ok(command) ==> {
            let at: int = if environ::lookup(env@, "PATH"@) is Some {
                1
            } else {
                0
            };
            &&& command.program@ == config.nodejs_path@
            &&& command.clear_env
            &&& environ::lookup(env@, "PATH"@) matches Some(path) ==> command.env@[0].0@
                == "PATH"@ && command.env@[0].1@ == path
            &&& command.env@[at].0@ == "UV_USE_IO_URING"@ && command.env@[at].1@ == "0"@
            &&& command.env@[at + 1].0@ == "NODE_PATH"@ && command.env@[at + 1].1@
                == "/usr/local/share/sandbox"@ + "/node_modules"@
            &&& config.proxy.socks5@.len() > 0 ==> {
                &&& command.env@.len() == at + 4
                &&& command.env@[at + 2].0@ == "HTTPS_PROXY"@ && command.env@[at + 2].1@
                    == config.proxy.socks5@
                &&& command.env@[at + 3].0@ == "HTTP_PROXY"@ && command.env@[at + 3].1@
                    == config.proxy.socks5@
            }
            &&& config.proxy.socks5@.len() == 0 ==> {
                let https = config.proxy.https@.len() > 0;
                let http = config.proxy.http@.len() > 0;
                &&& command.env@.len() == at + 2 + (if https {
                    1int
                } else {
                    0
                }) + (if http {
                    1int
                } else {
                    0
                })
                &&& https ==> command.env@[at + 2].0@ == "HTTPS_PROXY"@ && command.env@[at
                    + 2].1@ == config.proxy.https@
                &&& http ==> command.env@.last().0@ == "HTTP_PROXY"@ && command.env@.last().1@
                    == config.proxy.http@
            }
            &&& command.cwd matches Some(dir) && dir@ == "/usr/local/share/sandbox"@
            &&& command.captured
            &&& command.kill_on_drop
            &&& command.timeout_secs == Some(config.worker_timeout)
            &&& command.args@.len() == 6
            &&& command.args@[0]@ == "--max-old-space-size="@ + text::decimal(heap as nat)
            &&& command.args@[1]@ == "-"@
            &&& command.args@[2]@ == "/usr/local/share/sandbox"@
            &&& command.args@[3]@ == text::decimal(config.sandbox_uid as nat)
            &&& command.args@[4]@ == text::decimal(config.sandbox_gid as nat)
            &&& command.args@[5]@ == "{\"enable_network\":"@ + (if options.enable_network
                && config.enable_network {
                "true"@
            } else {
                "false"@
            }) + ",\"max_as\":"@ + text::decimal(config.nodejs_max_as_bytes as nat) + "}"@
            &&& command.input matches Input::Text(script) && script@ == script_text(
                template@,
                code_b64@,
                if config.enable_preload {
                    preload@
                } else {
                    Seq::empty()
                },
            )
        },
{
    if let Ok(command) = res {
        text::lemma_texts(command.args@, command.env@);
    }
}

/// An execution comes to what the process did; one that could not be started says
/// `spawn nodejs`.
pub proof fn node_processes_come_to_results(
    event: ProcessEvent,
    res: Result<ExecutionResult, String>,
)
    requires
        call_ensures(finish, (event,), res),
    ensures
        event matches ProcessEvent::Exited { stdout, stderr, signal, code } ==> (
        res matches Ok(result) && result.stdout@ == text::lossy_text(stdout@) && result.stderr@
            == text::lossy_text(stderr@) && result.exit_code == (match (signal, code) {
            (Some(n), _) => -(n as int),
            (None, Some(n)) => n as int,
            (None, None) => -1int,
        })),
        event matches ProcessEvent::SpawnFailed(e) ==> (res matches Err(m) && m@ == "spawn "@
            + "nodejs"@ + ": "@ + e@),
        event matches ProcessEvent::InputFailed(e) ==> (res matches Err(m) && m@
            == "stdin write: "@ + e@),
        event is TimedOut ==> (res matches Err(m) && m@ == "Execution timeout"@),
        event matches ProcessEvent::WaitFailed(e) ==> (res matches Err(m) && m@ == "process: "@
            + e@),
{
}

} // verus!
