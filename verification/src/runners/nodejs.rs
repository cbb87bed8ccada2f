//! Node.js executions of code that is spliced in as it comes, without a heap or address
//! space cap.

use vstd::prelude::*;

use crate::command::{concat, push_arg, CommandModel, CommandSpec, Input};
use crate::config::{Config, ConfigModel};
use crate::environ;
use crate::environ::Environment;
use crate::models::RunnerOptions;
use crate::runners;
use crate::runners::{network_allowed, LIB_PATH};
use crate::services;
use crate::services::nodejs::{build_script, node_command};
use crate::text;
use crate::text::decimal_text;

verus! {

/// The arguments of an execution: that the script comes on the input, and what the
/// bootstrap script reads.
pub open spec fn node_args(c: ConfigModel, options: RunnerOptions) -> Seq<Seq<char>> {
    seq![
        "-"@,
        LIB_PATH@,
        text::decimal(c.sandbox_uid),
        text::decimal(c.sandbox_gid),
        "{\"enable_network\":"@ + services::nodejs::flag_text(runners::network(c, options))
            + "}"@,
    ]
}

/// The process that executes code.
pub open spec fn planned(
    c: ConfigModel,
    template: Seq<char>,
    code_b64: Seq<char>,
    preload: Seq<char>,
    options: RunnerOptions,
    env: Seq<(Seq<char>, Seq<char>)>,
) -> CommandModel {
    services::nodejs::node_process(
        c,
        services::nodejs::script_text(template, code_b64, runners::checked_preload(c, preload)),
        node_args(c, options),
        env,
    )
}

/// Starts executing code: gives the process that does it. The code is not looked at;
/// [`crate::services::nodejs::validate_base64`] tells whether it is safe to splice in.
pub fn run(
    config: &Config,
    template: &str,
    code_b64: &str,
    preload: &str,
    options: &RunnerOptions,
    env: &Environment,
) -> (res: CommandSpec)
    ensures
        res@ == planned(config@, template@, code_b64@, preload@, *options, env@),
{
    let script = if config.enable_preload {
        build_script(template, code_b64, preload)
    } else {
        build_script(template, code_b64, String::new().as_str())
    };
    let mut opts_json = concat(
        "{\"enable_network\":",
        if network_allowed(config, options) {
            "true"
        } else {
            "false"
        },
    );
    opts_json.append("}");
    let mut args: Vec<String> = Vec::new();
    push_arg(&mut args, "-");
    push_arg(&mut args, LIB_PATH);
    push_arg(&mut args, decimal_text(config.sandbox_uid as u64).as_str());
    push_arg(&mut args, decimal_text(config.sandbox_gid as u64).as_str());
    push_arg(&mut args, opts_json.as_str());
    assert(text::texts(args@) =~= node_args(config@, *options));
    node_command(config, script, args, env)
}

/// The process is that of [`services::nodejs::run`] but for its arguments, which cap
/// nothing, and for the code, which is spliced in whatever it is.
pub proof fn unchecked_code_is_run(
    config: &Config,
    template: &str,
    code_b64: &str,
    preload: &str,
    options: &RunnerOptions,
    env: &Environment,
    command: CommandSpec,
)
    requires
        call_ensures(run, (config, template, code_b64, preload, options, env), command),
    ensures
        ({
            let at: int = if environ::lookup(env@, "PATH"@) is Some {
                1
            } else {
                0
            };
            &&& command.program@ == config.nodejs_path@
            &&& command.clear_env
            &&& environ::lookup(env@, "PATH"@) matches Some(path) ==> command.env@[0].0@
                == "PATH"@ && command.env@[0].1@ == path
            &&& command.env@[at].0@ == "UV_USE_IO_URING"@ && command.env@[at].1@ == "0"@
            &&& command.env@[at + 1].0@ == "NODE_PATH"@ && command.env@[at + 1].1@
                == "/usr/local/share/sandbox"@ + "/node_modules"@
            &&& config.proxy.socks5@.len() > 0 ==> {
                &&& command.env@.len() == at + 4
                &&& command.env@[at + 2].0@ == "HTTPS_PROXY"@ && command.env@[at + 2].1@
                    == config.proxy.socks5@
                &&& command.env@[at + 3].0@ == "HTTP_PROXY"@ && command.env@[at + 3].1@
                    == config.proxy.socks5@
            }
            &&& config.proxy.socks5@.len() == 0 ==> {
                let https = config.proxy.https@.len() > 0;
                let http = config.proxy.http@.len() > 0;
                &&& command.env@.len() == at + 2 + (if https {
                    1int
                } else {
                    0
                }) + (if http {
                    1int
                } else {
                    0
                })
                &&& https ==> command.env@[at + 2].0@ == "HTTPS_PROXY"@ && command.env@[at
                    + 2].1@ == config.proxy.https@
                &&& http ==> command.env@.last().0@ == "HTTP_PROXY"@ && command.env@.last().1@
                    == config.proxy.http@
            }
            &&& command.cwd matches Some(dir) && dir@ == "/usr/local/share/sandbox"@
            &&& command.captured
            &&& command.kill_on_drop
            &&& command.timeout_secs == Some(config.worker_timeout)
            &&& command.args@.len() == 5
            &&& command.args@[0]@ == "-"@
            &&& command.args@[1]@ == "/usr/local/share/sandbox"@
            &&& command.args@[2]@ == text::decimal(config.sandbox_uid as nat)
            &&& command.args@[3]@ == text::decimal(config.sandbox_gid as nat)
            &&& command.args@[4]@ == "{\"enable_network\":"@ + (if options.enable_network
                && config.enable_network {
                "true"@
            } else {
                "false"@
            }) + "}"@
            &&& command.input matches Input::Text(script) && script@
                == services::nodejs::script_text(
                template@,
                code_b64@,
                if config.enable_preload {
                    preload@
                } else {
                    Seq::empty()
                },
            )
        }),
{
    text::lemma_texts(command.args@, command.env@);
}

} // verus!
