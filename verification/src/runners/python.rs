//! Python executions: in the pre-warmed zygote where there is one, else in a fresh
//! interpreter.

use vstd::prelude::*;

use crate::command;
use crate::command::{
    concat,
    finish_process,
    path_env,
    push_arg,
    CommandModel,
    CommandSpec,
    Input,
    InputModel,
    ProcessEvent,
};
use crate::config::{Config, ConfigModel};
use crate::crypto;
use crate::crypto::{base64_decode, base64_encode, encrypt_code, generate_key};
use crate::environ;
use crate::environ::Environment;
use crate::models::RunnerOptions;
use crate::runners;
use crate::runners::{network_allowed, ExecutionResult, LIB_PATH};
use crate::services::zygote::SandboxLimits;
use crate::text;
use crate::text::{decimal_text, replace};

verus! {

/// The length of the key that the code of a request is encrypted with.
pub const KEY_LENGTH: usize = 64;

/// The bootstrap script with everything but the code: who to become, whether to allow
/// network access, how much address space to allow, and the preloaded code.
pub open spec fn configured_template(
    c: ConfigModel,
    template: Seq<char>,
    preload: Seq<char>,
    options: RunnerOptions,
) -> Seq<char> {
    let uid = text::replaced(template, "{{uid}}"@, text::decimal(c.sandbox_uid));
    let gid = text::replaced(uid, "{{gid}}"@, text::decimal(c.sandbox_gid));
    let flag = if runners::network(c, options) {
        "1"@
    } else {
        "0"@
    };
    let net = text::replaced(gid, "{{enable_network}}"@, flag);
    let max_as = text::replaced(net, "{{max_as}}"@, text::decimal(c.python_max_as_bytes));
    text::replaced(max_as, "{{preload}}"@, runners::checked_preload(c, preload) + "\n"@)
}

/// The script that decrypts and runs the code.
pub open spec fn script_text(
    c: ConfigModel,
    template: Seq<char>,
    code: Seq<u8>,
    key: Seq<u8>,
    preload: Seq<char>,
    options: RunnerOptions,
) -> Seq<char> {
    text::replaced(
        configured_template(c, template, preload, options),
        "{{code}}"@,
        crypto::base64_encoded(crypto::xored(code, key)),
    )
}

/// Whether the texts that travel to the interpreter are enough to get the code back: the
/// key's text decodes to the key, and the code's text to the code XORed with the key.
pub open spec fn is_decryptable(code: Seq<u8>, key: Seq<u8>) -> bool {
    &&& crypto::decodes_to(crypto::base64_encoded(key), key)
    &&& crypto::decodes_to(
        crypto::base64_encoded(crypto::xored(code, key)),
        crypto::xored(code, key),
    )
}

/// Builds the sandbox script with a given key, and the key's text.
pub fn build_script_with_key(
    config: &Config,
    template: &str,
    code: &[u8],
    key: &[u8],
    preload: &str,
    options: &RunnerOptions,
) -> (res: (String, String))
    requires
        code@.len() > 0 ==> key@.len() > 0,
        crypto::base64_length(code@.len()) <= isize::MAX,
        crypto::base64_length(key@.len()) <= isize::MAX,
    ensures
        res.0@ == script_text(config@, template@, code@, key@, preload@, *options),
        res.1@ == crypto::base64_encoded(key@),
        is_decryptable(code@, key@),
{
    proof {
        reveal_strlit("{{uid}}");
        reveal_strlit("{{gid}}");
        reveal_strlit("{{enable_network}}");
        reveal_strlit("{{max_as}}");
        reveal_strlit("{{preload}}");
        reveal_strlit("{{code}}");
    }
    let encoded_key = base64_encode(key);
    let enable_net = if network_allowed(config, options) {
        "1"
    } else {
        "0"
    };
    let checked_preload = if config.enable_preload {
        concat(preload, "\n")
    } else {
        concat(String::new().as_str(), "\n")
    };
    let uid = replace(template, "{{uid}}", decimal_text(config.sandbox_uid as u64).as_str());
    let gid = replace(uid.as_str(), "{{gid}}", decimal_text(config.sandbox_gid as u64).as_str());
    let net = replace(gid.as_str(), "{{enable_network}}", enable_net);
    let max_as = replace(
        net.as_str(),
        "{{max_as}}",
        decimal_text(config.python_max_as_bytes).as_str(),
    );
    let configured = replace(max_as.as_str(), "{{preload}}", checked_preload.as_str());
    let encoded_code = encrypt_code(code, key);
    (replace(configured.as_str(), "{{code}}", encoded_code.as_str()), encoded_key)
}

/// Builds the sandbox script with a key of its own, and the key's text.
pub fn build_script(
    config: &Config,
    template: &str,
    code: &[u8],
    preload: &str,
    options: &RunnerOptions,
) -> (res: (String, String))
    requires
        crypto::base64_length(code@.len()) <= isize::MAX,
    ensures
        exists|key: Seq<u8>|
            key.len() == KEY_LENGTH && #[trigger] is_decryptable(code@, key) && res.1@
                == crypto::base64_encoded(key) && res.0@ == script_text(
                config@,
                template@,
                code@,
                key,
                preload@,
                *options,
            ),
{
    let key = generate_key(KEY_LENGTH);
    build_script_with_key(config, template, code, key.as_slice(), preload, options)
}

/// The state of the zygote.
pub enum ZygoteStatus {
    /// None was started.
    Absent,
    /// It has died.
    Dead,
    /// It takes requests.
    Running,
}

/// How a request is executed.
pub enum PythonRun {
    /// In the zygote: the encrypted code, the key and the limits to be passed to
    /// [`crate::services::zygote::ZygoteManager::run`].
    Zygote { code_b64: String, key_b64: String, limits: SandboxLimits },
    /// In a process of its own; `restart` tells whether the zygote is to be restarted.
    Process { command: CommandSpec, restart: bool },
}

pub ghost enum PythonRunModel {
    Zygote { code_b64: Seq<char>, key_b64: Seq<char>, limits: SandboxLimits },
    Process { command: CommandModel, restart: bool },
}

impl View for PythonRun {
    type V = PythonRunModel;

    open spec fn view(&self) -> PythonRunModel {
        match self {
            PythonRun::Zygote { code_b64, key_b64, limits } => PythonRunModel::Zygote {
                code_b64: code_b64@,
                key_b64: key_b64@,
                limits: *limits,
            },
            PythonRun::Process { command, restart } => PythonRunModel::Process {
                command: command@,
                restart: *restart,
            },
        }
    }
}

/// Whether a request may go to the zygote: there is to be one, and there is no code to be
/// run first, which the zygote would not run.
pub open spec fn zygote_fits(c: ConfigModel, preload: Seq<char>) -> bool {
    c.python_zygote && runners::checked_preload(c, preload).len() == 0
}

/// What the zygote is told of a request.
pub open spec fn zygote_limits(c: ConfigModel, options: RunnerOptions) -> SandboxLimits {
    SandboxLimits {
        uid: c.sandbox_uid as u32,
        gid: c.sandbox_gid as u32,
        net: runners::network(c, options),
        max_as: c.python_max_as_bytes as u64,
        timeout_secs: c.worker_timeout as u64,
    }
}

/// The process that executes a script: Python reads it from its input and gets the key as
/// an argument. It writes no bytecode, which the sandbox would not let it.
pub open spec fn python_process(
    c: ConfigModel,
    script: Seq<char>,
    key_b64: Seq<char>,
    env: Seq<(Seq<char>, Seq<char>)>,
) -> CommandModel {
    CommandModel {
        program: c.python_path,
        args: seq!["-B"@, "-"@, LIB_PATH@, key_b64],
        clear_env: true,
        env: command::path_vars(env),
        cwd: Some(LIB_PATH@),
        input: InputModel::Text(script),
        captured: true,
        kill_on_drop: true,
        timeout_secs: Some(c.worker_timeout as u64),
    }
}

/// How code is executed with a given key.
pub open spec fn planned(
    c: ConfigModel,
    template: Seq<char>,
    code: Seq<u8>,
    key: Seq<u8>,
    preload: Seq<char>,
    options: RunnerOptions,
    env: Seq<(Seq<char>, Seq<char>)>,
    zygote: ZygoteStatus,
) -> PythonRunModel {
    if zygote_fits(c, preload) && zygote is Running {
        PythonRunModel::Zygote {
            code_b64: crypto::base64_encoded(crypto::xored(code, key)),
            key_b64: crypto::base64_encoded(key),
            limits: zygote_limits(c, options),
        }
    } else {
        PythonRunModel::Process {
            command: python_process(
                c,
                script_text(c, template, code, key, preload, options),
                crypto::base64_encoded(key),
                env,
            ),
            restart: zygote_fits(c, preload) && zygote is Dead,
        }
    }
}

/// Whether code is executed this way with a key of its own, from which the interpreter can
/// get it back.
pub open spec fn is_planned_run(
    run: PythonRunModel,
    c: ConfigModel,
    template: Seq<char>,
    code: Seq<u8>,
    preload: Seq<char>,
    options: RunnerOptions,
    env: Seq<(Seq<char>, Seq<char>)>,
    zygote: ZygoteStatus,
) -> bool {
    exists|key: Seq<u8>|
        key.len() == KEY_LENGTH && is_decryptable(code, key) && run == #[trigger] planned(
            c,
            template,
            code,
            key,
            preload,
            options,
            env,
            zygote,
        )
}

/// Decides how code is executed with a given key.
pub fn run_with_key(
    config: &Config,
    template: &str,
    code: &[u8],
    key: &[u8],
    preload: &str,
    options: &RunnerOptions,
    env: &Environment,
    zygote: ZygoteStatus,
) -> (res: PythonRun)
    requires
        code@.len() > 0 ==> key@.len() > 0,
        crypto::base64_length(code@.len()) <= isize::MAX,
        crypto::base64_length(key@.len()) <= isize::MAX,
    ensures
        res@ == planned(
            config@,
            template@,
            code@,
            key@,
            preload@,
            *options,
            env@,
            zygote,
        ),
        is_decryptable(code@, key@),
{
    let fits = config.python_zygote && (!config.enable_preload || preload.is_empty());
    let restart = match zygote {
        ZygoteStatus::Running => {
            if fits {
                return PythonRun::Zygote {
                    code_b64: encrypt_code(code, key),
                    key_b64: base64_encode(key),
                    limits: SandboxLimits {
                        uid: config.sandbox_uid,
                        gid: config.sandbox_gid,
                        net: network_allowed(config, options),
                        max_as: config.python_max_as_bytes,
                        timeout_secs: config.worker_timeout,
                    },
                };
            }
            false
        },
        ZygoteStatus::Dead => fits,
        ZygoteStatus::Absent => false,
    };

    let (script, encoded_key) = build_script_with_key(
        config,
        template,
        code,
        key,
        preload,
        options,
    );
    let mut args: Vec<String> = Vec::new();
    push_arg(&mut args, "-B");
    push_arg(&mut args, "-");
    push_arg(&mut args, LIB_PATH);
    push_arg(&mut args, encoded_key.as_str());
    assert(text::texts(args@) =~= seq!["-B"@, "-"@, LIB_PATH@, encoded_key@]);
    let command = CommandSpec {
        program: config.python_path.as_str().to_owned(),
        args,
        clear_env: true,
        env: path_env(env),
        cwd: Some(LIB_PATH.to_owned()),
        input: Input::Text(script),
        captured: true,
        kill_on_drop: true,
        timeout_secs: Some(config.worker_timeout),
    };
    PythonRun::Process { command, restart }
}

/// Starts executing code: decides how, with a key of its own. Code that is not base64 is
/// refused.
pub fn run(
    config: &Config,
    template: &str,
    code_b64: &str,
    preload: &str,
    options: &RunnerOptions,
    env: &Environment,
    zygote: ZygoteStatus,
) -> (res: Result<PythonRun, String>)
    ensures
        match res {
            Ok(run) => {
                &&& crypto::base64_decoded(code_b64@) matches Ok(code)
                &&& is_planned_run(
                    run@,
                    config@,
                    template@,
                    code,
                    preload@,
                    *options,
                    env@,
                    zygote,
                )
            },
            Err(message) => {
                &&& crypto::base64_decoded(code_b64@) matches Err(e)
                &&& message@ == "base64 decode: "@ + e
            },
        },
        !crypto::is_base64_text(code_b64@) ==> res is Err,
{
    let code = match base64_decode(code_b64) {
        Ok(code) => code,
        Err(e) => {
            return Err(concat("base64 decode: ", e.as_str()));
        },
    };
    let key = generate_key(KEY_LENGTH);
    let run = run_with_key(
        config,
        template,
        code.as_slice(),
        key.as_slice(),
        preload,
        options,
        env,
        zygote,
    );
    Ok(run)
}

/// Ends an execution in a process of its own: gives its result.
pub fn finish(event: ProcessEvent) -> (res: Result<ExecutionResult, String>)
    requires
        event matches ProcessEvent::Exited { signal, .. } ==> signal != Some(i32::MIN),
    ensures
        command::outcome_is(res, command::process_outcome("python"@, event)),
{
    finish_process("python", event)
}

/// Whoever has the two texts gets the code back: decode both, and XOR one with the other.
pub proof fn code_is_recovered(code: Seq<u8>, key: Seq<u8>)
    requires
        is_decryptable(code, key),
    ensures
        ({
            let sent_key = crypto::base64_decoded(crypto::base64_encoded(key));
            let sent_code = crypto::base64_decoded(
                crypto::base64_encoded(crypto::xored(code, key)),
            );
            sent_key matches Ok(k) && (sent_code matches Ok(c) && crypto::xored(c, k) == code)
        }),
{
    crypto::xored_twice(code, key);
}

/// The preloaded code of a request counts for nothing unless the configuration enables it.
pub proof fn preload_needs_configuration(
    c: ConfigModel,
    template: Seq<char>,
    code: Seq<u8>,
    key: Seq<u8>,
    first: Seq<char>,
    second: Seq<char>,
    options: RunnerOptions,
    env: Seq<(Seq<char>, Seq<char>)>,
    zygote: ZygoteStatus,
)
    requires
        !c.enable_preload,
    ensures
        planned(c, template, code, key, first, options, env, zygote) == planned(
            c,
            template,
            code,
            key,
            second,
            options,
            env,
            zygote,
        ),
{
}

/// Asking for network access counts for nothing unless the configuration grants it.
pub proof fn network_needs_configuration(
    c: ConfigModel,
    template: Seq<char>,
    code: Seq<u8>,
    key: Seq<u8>,
    preload: Seq<char>,
    first: RunnerOptions,
    second: RunnerOptions,
    env: Seq<(Seq<char>, Seq<char>)>,
    zygote: ZygoteStatus,
)
    requires
        !c.enable_network,
    ensures
        planned(c, template, code, key, preload, first, env, zygote) == planned(
            c,
            template,
            code,
            key,
            preload,
            second,
            env,
            zygote,
        ),
{
}

/// Code to be run first never goes to the zygote, which would not run it.
pub proof fn preloaded_code_is_not_lost(
    c: ConfigModel,
    template: Seq<char>,
    code: Seq<u8>,
    key: Seq<u8>,
    preload: Seq<char>,
    options: RunnerOptions,
    env: Seq<(Seq<char>, Seq<char>)>,
    zygote: ZygoteStatus,
)
    requires
        c.enable_preload,
        preload.len() > 0,
    ensures
        planned(c, template, code, key, preload, options, env, zygote) is Process,
{
}

/// A script whose template has a place for the code holds the encrypted code there.
pub proof fn script_holds_code(
    c: ConfigModel,
    template: Seq<char>,
    code: Seq<u8>,
    key: Seq<u8>,
    preload: Seq<char>,
    options: RunnerOptions,
)
    requires
        text::occurs_in(configured_template(c, template, preload, options), "{{code}}"@),
    ensures
        text::occurs_in(
            script_text(c, template, code, key, preload, options),
            crypto::base64_encoded(crypto::xored(code, key)),
        ),
{
    reveal_strlit("{{code}}");
    text::replaced_holds_replacement(
        configured_template(c, template, preload, options),
        "{{code}}"@,
        crypto::base64_encoded(crypto::xored(code, key)),
    );
}

/// Whatever is executed is bounded and confined: no longer than the configured time, in the
/// zygote under the configured user, group and address space cap, or else in a process that
/// is killed after that time and starts from no more than `PATH` in the sandbox's directory.
pub proof fn executions_are_confined(
    c: ConfigModel,
    template: Seq<char>,
    code: Seq<u8>,
    key: Seq<u8>,
    preload: Seq<char>,
    options: RunnerOptions,
    env: Seq<(Seq<char>, Seq<char>)>,
    zygote: ZygoteStatus,
)
    ensures
        match planned(c, template, code, key, preload, options, env, zygote) {
            PythonRunModel::Zygote { limits, .. } => {
                &&& limits.timeout_secs == c.worker_timeout as u64
                &&& limits.uid == c.sandbox_uid as u32
                &&& limits.gid == c.sandbox_gid as u32
                &&& limits.max_as == c.python_max_as_bytes as u64
            },
            PythonRunModel::Process { command, .. } => {
                &&& command.timeout_secs == Some(c.worker_timeout as u64)
                &&& command.kill_on_drop
                &&& command.clear_env
                &&& command.env == command::path_vars(env)
                &&& command.cwd == Some(LIB_PATH@)
            },
        },
{
}

/// The names of the slots of the bootstrap script.
pub open spec fn slot_names() -> Seq<Seq<char>> {
    seq!["uid"@, "gid"@, "enable_network"@, "max_as"@, "preload"@, "code"@]
}

/// The script is the bootstrap script with its slots filled: who to become, whether to allow
/// network access, how much address space to allow, the preloaded code and a line end, and a
/// text from which the key gives the code back, byte by byte. The key's text decodes to the
/// key.
pub proof fn scripts_are_filled_templates(
    pieces: Seq<text::Piece>,
    config: &Config,
    template: &str,
    code: &[u8],
    key: &[u8],
    preload: &str,
    options: &RunnerOptions,
    res: (String, String),
)
    requires
        text::is_template(pieces, slot_names()),
        template@ == text::assembled(pieces, slot_names(), seq![None, None, None, None, None, None]),
        text::is_plain(preload@),
        key@.len() > 0,
        call_ensures(
            build_script_with_key,
            (config, template, code, key, preload, options),
            res,
        ),
    ensures
        exists|carried: Seq<char>, sent: Seq<u8>|
            {
                &&& #[trigger] crypto::decodes_to(carried, sent)
                &&& sent.len() == code@.len()
                &&& forall|i: int|
                    0 <= i < sent.len() ==> (#[trigger] sent[i]) ^ key@[i % key@.len() as int]
                        == code@[i]
                &&& res.0@ == text::assembled(
                    pieces,
                    slot_names(),
                    seq![
                        Some(text::decimal(config.sandbox_uid as nat)),
                        Some(text::decimal(config.sandbox_gid as nat)),
                        Some(
                            if options.enable_network && config.enable_network {
                                "1"@
                            } else {
                                "0"@
                            },
                        ),
                        Some(text::decimal(config.python_max_as_bytes as nat)),
                        Some(
                            if config.enable_preload {
                                preload@ + "\n"@
                            } else {
                                "\n"@
                            },
                        ),
                        Some(carried),
                    ],
                )
            },
        crypto::decodes_to(res.1@, key@),
{
    let c = config@;
    let names = slot_names();
    reveal_strlit("uid");
    reveal_strlit("gid");
    reveal_strlit("enable_network");
    reveal_strlit("max_as");
    reveal_strlit("preload");
    reveal_strlit("code");
    reveal_strlit("{{uid}}");
    reveal_strlit("{{gid}}");
    reveal_strlit("{{enable_network}}");
    reveal_strlit("{{max_as}}");
    reveal_strlit("{{preload}}");
    reveal_strlit("{{code}}");
    reveal_strlit("1");
    reveal_strlit("0");
    reveal_strlit("\n");
    assert(text::slot_mark(names[0]) =~= "{{uid}}"@);
    assert(text::slot_mark(names[1]) =~= "{{gid}}"@);
    assert(text::slot_mark(names[2]) =~= "{{enable_network}}"@);
    assert(text::slot_mark(names[3]) =~= "{{max_as}}"@);
    assert(text::slot_mark(names[4]) =~= "{{preload}}"@);
    assert(text::slot_mark(names[5]) =~= "{{code}}"@);
    text::lemma_numerals_are_plain(c.sandbox_uid);
    text::lemma_numerals_are_plain(c.sandbox_gid);
    text::lemma_numerals_are_plain(c.python_max_as_bytes);
    let uid = text::decimal(c.sandbox_uid);
    let gid = text::decimal(c.sandbox_gid);
    let flag = if runners::network(c, *options) {
        "1"@
    } else {
        "0"@
    };
    let max_as = text::decimal(c.python_max_as_bytes);
    let first = runners::checked_preload(c, preload@) + "\n"@;
    if !config.enable_preload {
        assert(first =~= "\n"@);
    }
    let carried = crypto::base64_encoded(crypto::xored(code@, key@));
    let none: Option<Seq<char>> = None;
    let v0 = seq![none, none, none, none, none, none];
    let v1 = v0.update(0, Some(uid));
    let v2 = v1.update(1, Some(gid));
    let v3 = v2.update(2, Some(flag));
    let v4 = v3.update(3, Some(max_as));
    let v5 = v4.update(4, Some(first));
    text::filling_a_slot(pieces, names, v0, 0, uid);
    text::filling_a_slot(pieces, names, v1, 1, gid);
    text::filling_a_slot(pieces, names, v2, 2, flag);
    text::filling_a_slot(pieces, names, v3, 3, max_as);
    text::filling_a_slot(pieces, names, v4, 4, first);
    text::filling_a_slot(pieces, names, v5, 5, carried);
    let v6 = v5.update(5, Some(carried));
    assert(v6 =~= seq![
        Some(uid),
        Some(gid),
        Some(flag),
        Some(max_as),
        Some(first),
        Some(carried),
    ]);
    crypto::xor_is_undone_by_the_key(code@, key@);
    assert(crypto::decodes_to(carried, crypto::xored(code@, key@)));
}

/// The slots are filled one after the other, the code last: what the preloaded code marks
/// as a place for the code is one, and nothing that is filled in later is looked at again.
pub proof fn slots_are_filled_in_turn(
    config: &Config,
    template: &str,
    code: &[u8],
    key: &[u8],
    preload: &str,
    options: &RunnerOptions,
    res: (String, String),
)
    requires
        key@.len() > 0,
        call_ensures(
            build_script_with_key,
            (config, template, code, key, preload, options),
            res,
        ),
    ensures
        exists|carried: Seq<char>, sent: Seq<u8>|
            {
                &&& #[trigger] crypto::decodes_to(carried, sent)
                &&& sent.len() == code@.len()
                &&& forall|i: int|
                    0 <= i < sent.len() ==> (#[trigger] sent[i]) ^ key@[i % key@.len() as int]
                        == code@[i]
                &&& res.0@ == text::replaced(
                    text::replaced(
                        text::replaced(
                            text::replaced(
                                text::replaced(
                                    text::replaced(
                                        template@,
                                        "{{uid}}"@,
                                        text::decimal(config.sandbox_uid as nat),
                                    ),
                                    "{{gid}}"@,
                                    text::decimal(config.sandbox_gid as nat),
                                ),
                                "{{enable_network}}"@,
                                if options.enable_network && config.enable_network {
                                    "1"@
                                } else {
                                    "0"@
                                },
                            ),
                            "{{max_as}}"@,
                            text::decimal(config.python_max_as_bytes as nat),
                        ),
                        "{{preload}}"@,
                        (if config.enable_preload {
                            preload@
                        } else {
                            Seq::<char>::empty()
                        }) + "\n"@,
                    ),
                    "{{code}}"@,
                    carried,
                )
            },
{
    crypto::xor_is_undone_by_the_key(code@, key@);
    assert(crypto::decodes_to(
        crypto::base64_encoded(crypto::xored(code@, key@)),
        crypto::xored(code@, key@),
    ));
}

/// A request goes to the zygote if and only if one is configured and running and there is no
/// code to be run first; otherwise to a process, and a zygote that could have taken it but
/// is dead is restarted.
pub proof fn requests_go_to_a_live_zygote(
    config: &Config,
    template: &str,
    code: &[u8],
    key: &[u8],
    preload: &str,
    options: &RunnerOptions,
    env: &Environment,
    zygote: ZygoteStatus,
    res: PythonRun,
)
    requires
        call_ensures(
            run_with_key,
            (config, template, code, key, preload, options, env, zygote),
            res,
        ),
    ensures
        res is Zygote <==> config.python_zygote && (!config.enable_preload || preload@.len() == 0)
            && zygote is Running,
        res matches PythonRun::Process { restart, .. } ==> (restart <==> config.python_zygote
            && (!config.enable_preload || preload@.len() == 0) && zygote is Dead),
{
}

/// The zygote is given the code under the key, from which the key gives it back byte by
/// byte, the key, and the limits of the configuration.
pub proof fn the_zygote_gets_code_key_and_limits(
    config: &Config,
    template: &str,
    code: &[u8],
    key: &[u8],
    preload: &str,
    options: &RunnerOptions,
    env: &Environment,
    zygote: ZygoteStatus,
    res: PythonRun,
)
    requires
        key@.len() > 0,
        call_ensures(
            run_with_key,
            (config, template, code, key, preload, options, env, zygote),
            res,
        ),
    ensures
        res matches PythonRun::Zygote { code_b64, key_b64, limits } ==> {
            &&& crypto::base64_decoded(code_b64@) matches Ok(sent)
            &&& sent.len() == code@.len()
            &&& forall|i: int|
                0 <= i < sent.len() ==> (#[trigger] sent[i]) ^ key@[i % key@.len() as int]
                    == code@[i]
            &&& crypto::base64_decoded(key_b64@) matches Ok(k) && k == key@
            &&& limits.uid == config.sandbox_uid
            &&& limits.gid == config.sandbox_gid
            &&& limits.net == (options.enable_network && config.enable_network)
            &&& limits.max_as == config.python_max_as_bytes
            &&& limits.timeout_secs == config.worker_timeout
        },
{
    crypto::xor_is_undone_by_the_key(code@, key@);
}

/// The process is the configured interpreter, which writes no bytecode and reads the script
/// from its input, with the sandbox's directory and the key's text as arguments. It has no
/// more than `PATH` in its environment, and is killed when its time is up. The script is
/// that of [`build_script_with_key`].
pub proof fn processes_run_the_script(
    config: &Config,
    template: &str,
    code: &[u8],
    key: &[u8],
    preload: &str,
    options: &RunnerOptions,
    env: &Environment,
    zygote: ZygoteStatus,
    res: PythonRun,
    built: (String, String),
)
    requires
        call_ensures(
            run_with_key,
            (config, template, code, key, preload, options, env, zygote),
            res,
        ),
        call_ensures(
            build_script_with_key,
            (config, template, code, key, preload, options),
            built,
        ),
    ensures
        res matches PythonRun::Process { command, .. } ==> {
            &&& command.program@ == config.python_path@
            &&& command.args@.len() == 4
            &&& command.args@[0]@ == "-B"@
            &&& command.args@[1]@ == "-"@
            &&& command.args@[2]@ == "/usr/local/share/sandbox"@
            &&& command.args@[3]@ == built.1@
            &&& crypto::decodes_to(command.args@[3]@, key@)
            &&& command.input matches Input::Text(script) && script@ == built.0@
            &&& command.clear_env
            &&& environ::lookup(env@, "PATH"@) matches Some(path) ==> command.env@.len() == 1
                && command.env@[0].0@ == "PATH"@ && command.env@[0].1@ == path
            &&& environ::lookup(env@, "PATH"@) is None ==> command.env@.len() == 0
            &&& command.cwd matches Some(dir) && dir@ == "/usr/local/share/sandbox"@
            &&& command.captured
            &&& command.kill_on_drop
            &&& command.timeout_secs == Some(config.worker_timeout)
        },
{
    if let PythonRun::Process { command, .. } = res {
        text::lemma_texts(command.args@, command.env@);
    }
}

/// Code is decoded before anything else: what is not base64 is refused, with the decoder's
/// message, and what is base64 is run as [`run_with_key`] does with some key of 64 bytes.
pub proof fn code_is_decoded_and_run(
    config: &Config,
    template: &str,
    code_b64: &str,
    preload: &str,
    options: &RunnerOptions,
    env: &Environment,
    zygote: ZygoteStatus,
    res: Result<PythonRun, String>,
)
    requires
        call_ensures(run, (config, template, code_b64, preload, options, env, zygote), res),
    ensures
        res is Ok <==> crypto::base64_decoded(code_b64@) is Ok,
        res is Ok ==> crypto::is_base64_text(code_b64@),
        crypto::base64_decoded(code_b64@) matches Err(e) ==> (res matches Err(m) && m@
            == "base64 decode: "@ + e),
        res matches Ok(run) ==> exists|key: Seq<u8>|
            key.len() == 64 && #[trigger] planned(
                config@,
                template@,
                crypto::base64_decoded(code_b64@)->Ok_0,
                key,
                preload@,
                *options,
                env@,
                zygote,
            ) == run@,
{
}

/// An execution in a process comes to what the process did; one that could not be started
/// says `spawn python`.
pub proof fn python_processes_come_to_results(
    event: ProcessEvent,
    res: Result<ExecutionResult, String>,
)
    requires
        call_ensures(finish, (event,), res),
    ensures
        event matches ProcessEvent::Exited { stdout, stderr, signal, code } ==> (
        res matches Ok(result) && result.stdout@ == text::lossy_text(stdout@) && result.stderr@
            == text::lossy_text(stderr@) && result.exit_code == (match (signal, code) {
            (Some(n), _) => -(n as int),
            (None, Some(n)) => n as int,
            (None, None) => -1int,
        })),
        event matches ProcessEvent::SpawnFailed(e) ==> (res matches Err(m) && m@ == "spawn "@
            + "python"@ + ": "@ + e@),
        event matches ProcessEvent::InputFailed(e) ==> (res matches Err(m) && m@
            == "stdin write: "@ + e@),
        event is TimedOut ==> (res matches Err(m) && m@ == "Execution timeout"@),
        event matches ProcessEvent::WaitFailed(e) ==> (res matches Err(m) && m@ == "process: "@
            + e@),
{
}

/// A script of its own has a key of 64 bytes, whose text decodes to it and which gives the
/// code back byte by byte.
pub proof fn scripts_have_keys_of_their_own(
    config: &Config,
    template: &str,
    code: &[u8],
    preload: &str,
    options: &RunnerOptions,
    res: (String, String),
)
    requires
        call_ensures(build_script, (config, template, code, preload, options), res),
    ensures
        exists|key: Seq<u8>, carried: Seq<char>, sent: Seq<u8>|
            {
                &&& key.len() == 64
                &&& #[trigger] crypto::decodes_to(res.1@, key)
                &&& #[trigger] crypto::decodes_to(carried, sent)
                &&& sent.len() == code@.len()
                &&& forall|i: int|
                    0 <= i < sent.len() ==> (#[trigger] sent[i]) ^ key[i % 64] == code@[i]
                &&& res.0@ == text::replaced(
                    configured_template(config@, template@, preload@, *options),
                    "{{code}}"@,
                    carried,
                )
            },
{
    let key = choose|key: Seq<u8>|
        key.len() == KEY_LENGTH && #[trigger] is_decryptable(code@, key) && res.1@
            == crypto::base64_encoded(key) && res.0@ == script_text(
            config@,
            template@,
            code@,
            key,
            preload@,
            *options,
        );
    crypto::xor_is_undone_by_the_key(code@, key);
    let carried = crypto::base64_encoded(crypto::xored(code@, key));
    assert(crypto::decodes_to(res.1@, key));
    assert(crypto::decodes_to(carried, crypto::xored(code@, key)));
}

} // verus!
