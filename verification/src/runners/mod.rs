//! Running code: what the runners share.

pub mod nodejs;
pub mod python;

use vstd::prelude::*;

use crate::config::{Config, ConfigModel};
use crate::models::RunnerOptions;

verus! {

/// Path where the seccomp library, the prescripts and the worker live.
pub const LIB_PATH: &'static str = "/usr/local/share/sandbox";

/// Result of a code execution.
pub struct ExecutionResult {
    pub stdout: String,
    pub stderr: String,
    pub exit_code: i32,
}

/// The contents of an [`ExecutionResult`].
#[verifier::ext_equal]
pub ghost struct ExecutionModel {
    pub stdout: Seq<char>,
    pub stderr: Seq<char>,
    pub exit_code: int,
}

impl View for ExecutionResult {
    type V = ExecutionModel;

    open spec fn view(&self) -> ExecutionModel {
        ExecutionModel {
            stdout: self.stdout@,
            stderr: self.stderr@,
            exit_code: self.exit_code as int,
        }
    }
}

/// Whether an execution gets network access: the request asks for it and the configuration
/// grants it.
pub open spec fn network(c: ConfigModel, options: RunnerOptions) -> bool {
    options.enable_network && c.enable_network
}

/// The code that is run before that of a request: that of the request if the configuration
/// lets requests have any, else none.
pub open spec fn checked_preload(c: ConfigModel, preload: Seq<char>) -> Seq<char> {
    if c.enable_preload {
        preload
    } else {
        Seq::empty()
    }
}

/// Whether an execution gets network access.
pub fn network_allowed(config: &Config, options: &RunnerOptions) -> (res: bool)
    ensures
        res == network(config@, *options),
{
    options.enable_network && config.enable_network
}

/// The exit code that stands for how a process ended: minus the signal's number if a
/// signal killed it, else its own exit code, else -1.
pub open spec fn exit_code_of(signal: Option<i32>, code: Option<i32>) -> int {
    match signal {
        Some(signal) => -(signal as int),
        None => match code {
            Some(code) => code as int,
            None => -1,
        },
    }
}

/// Converts how a process ended into an exit code: a normal exit gives its code, death by
/// a signal gives minus the signal's number (SIGSYS, 31, gives -31).
pub fn exit_code_from_status(signal: Option<i32>, code: Option<i32>) -> (res: i32)
    requires
        signal != Some(i32::MIN),
    ensures
        res == exit_code_of(signal, code),
{
    match signal {
        Some(signal) => -signal,
        None => match code {
            Some(code) => code,
            None => -1,
        },
    }
}

/// A result without output: an error message and the exit code -1.
pub open spec fn failure(message: Seq<char>) -> ExecutionModel {
    ExecutionModel { stdout: Seq::<char>::empty(), stderr: message, exit_code: -1 }
}

/// Builds the result of an execution that failed with `message`.
pub fn failed(message: String) -> (res: ExecutionResult)
    ensures
        res@ == failure(message@),
{
    ExecutionResult { stdout: String::new(), stderr: message, exit_code: -1 }
}

/// Network access takes both the request and the configuration.
pub proof fn network_access_takes_both(config: &Config, options: &RunnerOptions, res: bool)
    requires
        call_ensures(network_allowed, (config, options), res),
    ensures
        res <==> options.enable_network && config.enable_network,
{
}

/// A process that a signal killed has minus the signal's number, any other its own exit
/// code, and one of which neither is known -1.
pub proof fn exit_codes_tell_how_it_ended(signal: Option<i32>, code: Option<i32>, res: i32)
    requires
        call_ensures(exit_code_from_status, (signal, code), res),
    ensures
        signal matches Some(n) ==> res + n == 0,
        signal is None ==> (code matches Some(n) ==> res == n),
        signal is None && code is None ==> res == -1,
{
}

/// A failed execution has its message for errors, no output, and the exit code -1.
pub proof fn failures_say_why(message: String, res: ExecutionResult)
    requires
        call_ensures(failed, (message,), res),
    ensures
        res.stdout@.len() == 0,
        res.stderr@ == message@,
        res.exit_code == -1,
{
}

/// Preloaded code is that of the request where the configuration enables it, and none where
/// it does not.
pub proof fn preloaded_code_is_opt_in(c: ConfigModel, preload: Seq<char>)
    ensures
        c.enable_preload ==> checked_preload(c, preload) == preload,
        !c.enable_preload ==> checked_preload(c, preload).len() == 0,
{
}

/// The model of a result holds all of it.
pub proof fn results_are_modelled(result: ExecutionResult)
    ensures
        result@.stdout == result.stdout@,
        result@.stderr == result.stderr@,
        result@.exit_code == result.exit_code,
{
}

} // verus!
