//! What the HTTP handlers decide: how a request is carried out, and how it is answered.

use vstd::prelude::*;

use crate::command::CommandSpec;
use crate::config::{Config, ConfigModel};
use crate::crypto;
use crate::environ::Environment;
use crate::models;
use crate::models::{
    ApiResponse,
    DataModel,
    ResponseData,
    RunCodeRequest,
    UpdateDependencyRequest,
};
use crate::queue::QueueStats;
use crate::runners;
use crate::runners::python::{PythonRun, ZygoteStatus};
use crate::runners::ExecutionResult;
use crate::services;
use crate::services::python::{
    list_python_dependencies,
    run_code_response,
    update_python_dependencies,
};
use crate::setup;
use crate::setup::dependencies::{
    install_command,
    install_python_dependencies,
    list_command,
    list_python_packages,
    PipEvent,
};
use crate::text::same_text;

verus! {

/// The state of the server, as `/health` reports it.
pub struct HealthReport {
    pub ok: bool,
    pub role: &'static str,
    pub queue_depth: usize,
    pub workers: usize,
}

/// Reports the state of the server.
pub fn health(stats: &QueueStats) -> (res: HealthReport)
    ensures
        res.ok,
        res.role@ == "sandbox"@,
        res.queue_depth == stats.queue_depth,
        res.workers == stats.workers,
{
    HealthReport {
        ok: true,
        role: "sandbox",
        queue_depth: stats.queue_depth,
        workers: stats.workers,
    }
}

/// The languages that code can be in.
#[derive(Clone, Copy, PartialEq, Eq, Structural, Debug)]
pub enum Language {
    Python,
    JavaScript,
}

/// The language that a request names.
pub open spec fn language_named(name: Seq<char>) -> Option<Language> {
    if name == "python3"@ {
        Some(Language::Python)
    } else if name == "javascript"@ {
        Some(Language::JavaScript)
    } else {
        None
    }
}

/// The language that a request names, if it is supported.
pub fn language_of(name: &str) -> (res: Option<Language>)
    ensures
        res == language_named(name@),
{
    if same_text(name, "python3") {
        Some(Language::Python)
    } else if same_text(name, "javascript") {
        Some(Language::JavaScript)
    } else {
        None
    }
}

/// The answer to a request for a language that there is no interpreter for.
pub open spec fn unsupported() -> models::ResponseModel {
    models::error_response(400, "unsupported language"@)
}

fn unsupported_language() -> (res: ApiResponse)
    ensures
        res@ == unsupported(),
{
    ApiResponse::error(400, "unsupported language".to_owned())
}

/// How a request to run code is carried out.
pub enum RunStep {
    /// It is answered at once.
    Answer(ApiResponse),
    /// It is executed, and answered by [`run_python`].
    Python(PythonRun),
    /// It is executed, and answered by [`run_nodejs`].
    Node(CommandSpec),
}

/// Whether a step is the one that a request calls for. An unsupported language, and code
/// that is not base64, are answered with an error; anything else is executed.
pub open spec fn is_run_step(
    step: RunStep,
    c: ConfigModel,
    req: RunCodeRequest,
    python_template: Seq<char>,
    nodejs_template: Seq<char>,
    env: Seq<(Seq<char>, Seq<char>)>,
    zygote: ZygoteStatus,
) -> bool {
    match language_named(req.language@) {
        None => step matches RunStep::Answer(response) && response@ == unsupported(),
        Some(Language::Python) => match crypto::base64_decoded(req.code@) {
            Err(e) => step matches RunStep::Answer(response) && response@
                == models::error_response(500, "base64 decode: "@ + e),
            Ok(code) => {
                &&& step matches RunStep::Python(run)
                &&& runners::python::is_planned_run(
                    run@,
                    c,
                    python_template,
                    code,
                    req.preload@,
                    req.options,
                    env,
                    zygote,
                )
            },
        },
        Some(Language::JavaScript) => match services::nodejs::planned(
            c,
            nodejs_template,
            req.code@,
            req.preload@,
            req.options,
            env,
        ) {
            Err(message) => step matches RunStep::Answer(response) && response@
                == models::error_response(500, message),
            Ok(command) => step matches RunStep::Node(found) && found@ == command
                && crypto::is_base64_text(req.code@),
        },
    }
}

/// Decides how a request to run code is carried out.
pub fn run_code(
    config: &Config,
    req: &RunCodeRequest,
    python_template: &str,
    nodejs_template: &str,
    env: &Environment,
    zygote: ZygoteStatus,
) -> (res: RunStep)
    ensures
        is_run_step(
            res,
            config@,
            *req,
            python_template@,
            nodejs_template@,
            env@,
            zygote,
        ),
{
    match language_of(req.language.as_str()) {
        Some(Language::Python) => {
            match runners::python::run(
                config,
                python_template,
                req.code.as_str(),
                req.preload.as_str(),
                &req.options,
                env,
                zygote,
            ) {
                Ok(run) => RunStep::Python(run),
                Err(e) => RunStep::Answer(run_python(Err(e))),
            }
        },
        Some(Language::JavaScript) => {
            match services::nodejs::run(
                config,
                nodejs_template,
                req.code.as_str(),
                req.preload.as_str(),
                &req.options,
                env,
            ) {
                Ok(command) => RunStep::Node(command),
                Err(e) => RunStep::Answer(run_nodejs(Err(e))),
            }
        },
        None => RunStep::Answer(unsupported_language()),
    }
}

/// Answers a request to run Python code, given how the execution went.
pub fn run_python(outcome: Result<ExecutionResult, String>) -> (res: ApiResponse)
    ensures
        res@ == services::python::run_response(services::python::outcome_model(outcome)),
{
    run_code_response(outcome)
}

/// Answers a request to run JavaScript code, given how the execution went.
pub fn run_nodejs(outcome: Result<ExecutionResult, String>) -> (res: ApiResponse)
    ensures
        res@ == services::python::run_response(services::python::outcome_model(outcome)),
{
    run_code_response(outcome)
}

/// How a request that concerns the packages is carried out.
pub enum DependencyStep {
    /// It is answered at once.
    Answer(ApiResponse),
    /// A process is run, and how it went decides the answer.
    Run(CommandSpec),
}

/// Decides how a request for the installed packages is carried out. They are asked for by
/// language; Python alone has any.
pub fn get_dependencies(config: &Config, language: Option<&str>) -> (res: DependencyStep)
    ensures
        if language matches Some(name) && name@ == "python3"@ {
            res matches DependencyStep::Run(command) && command@
                == setup::dependencies::pip_process(
                config@.python_path,
                seq!["list"@, "--format=freeze"@],
            )
        } else {
            res matches DependencyStep::Answer(response) && response@ == unsupported()
        },
{
    match language {
        Some(name) => if same_text(name, "python3") {
            DependencyStep::Run(list_command(config))
        } else {
            DependencyStep::Answer(unsupported_language())
        },
        None => DependencyStep::Answer(unsupported_language()),
    }
}

/// Answers a request for the installed packages, given how listing them went.
pub fn dependencies_response(event: PipEvent) -> (res: ApiResponse)
    ensures
        res@ == models::success_response(
            DataModel::Dependencies(setup::dependencies::listed_packages(event)),
        ),
{
    list_python_dependencies(list_python_packages(event))
}

/// Decides how a request to update the packages is carried out, given the requirements file
/// if there is one. Where it asks for nothing, the request has succeeded.
pub fn update_dependencies(
    config: &Config,
    req: &UpdateDependencyRequest,
    file: Option<&str>,
) -> (res: DependencyStep)
    ensures
        if req.language@ != "python3"@ {
            res matches DependencyStep::Answer(response) && response@ == unsupported()
        } else if file matches Some(content) && setup::dependencies::requirements(content@).len()
            > 0 {
            res matches DependencyStep::Run(command) && command@
                == setup::dependencies::pip_process(
                config@.python_path,
                seq!["install"@, "--upgrade"@] + setup::dependencies::requirements(
                    file->0@,
                ),
            )
        } else {
            res matches DependencyStep::Answer(response) && response@
                == models::success_response(DataModel::Updated(true))
        },
{
    if !same_text(req.language.as_str(), "python3") {
        return DependencyStep::Answer(unsupported_language());
    }
    match install_command(config, file) {
        Some(command) => DependencyStep::Run(command),
        None => DependencyStep::Answer(
            update_python_dependencies(install_python_dependencies(None)),
        ),
    }
}

/// Answers a request to update the packages, given how installing them went.
pub fn update_response(event: PipEvent) -> (res: ApiResponse)
    ensures
        res@ == (match setup::dependencies::install_outcome(Some(event)) {
            Ok(_) => models::success_response(DataModel::Updated(true)),
            Err(message) => models::error_response(500, message),
        }),
{
    update_python_dependencies(install_python_dependencies(Some(event)))
}

/// Whatever an execution comes to, the answer is a success, a violation or an error, and
/// none is mistaken for that of an unsupported language.
pub proof fn run_answers(outcome: Result<runners::ExecutionModel, Seq<char>>)
    ensures
        ({
            let code = services::python::run_response(outcome).code;
            code == 0 || code == 31 || code == 500
        }),
        services::python::run_response(outcome).code != unsupported().code,
{
}

/// The health report is that all is well, with the numbers of the queue.
pub proof fn health_reports_the_queue(stats: &QueueStats, res: HealthReport)
    requires
        call_ensures(health, (stats,), res),
    ensures
        res.ok,
        res.role@ == "sandbox"@,
        res.queue_depth == stats.queue_depth,
        res.workers == stats.workers,
{
}

/// There are two languages, each with one name.
pub proof fn languages_have_one_name(name: &str, res: Option<Language>)
    requires
        call_ensures(language_of, (name,), res),
    ensures
        res == Some(Language::Python) <==> name@ == "python3"@,
        res == Some(Language::JavaScript) <==> name@ == "javascript"@,
        res is None <==> name@ != "python3"@ && name@ != "javascript"@,
{
    reveal_strlit("python3");
    reveal_strlit("javascript");
    assert("python3"@.len() == 7 && "javascript"@.len() == 10);
}

/// A request in Python is run as Python, one in JavaScript as JavaScript, each with its own
/// bootstrap script and under the request's own code, preloaded code and options; what
/// cannot be run is answered with why; and any other language is answered with 400.
pub proof fn requests_run_in_their_language(
    config: &Config,
    req: &RunCodeRequest,
    python_template: &str,
    nodejs_template: &str,
    env: &Environment,
    zygote: ZygoteStatus,
    res: RunStep,
)
    requires
        call_ensures(
            run_code,
            (config, req, python_template, nodejs_template, env, zygote),
            res,
        ),
    ensures
        req.language@ == "python3"@ ==> {
            &&& crypto::base64_decoded(req.code@) is Ok <==> res is Python
            &&& crypto::base64_decoded(req.code@) matches Err(e) ==> (
            res matches RunStep::Answer(response) && response.code == 500 && response.message@
                == "base64 decode: "@ + e && response.data is None)
            &&& res matches RunStep::Python(run) ==> exists|key: Seq<u8>|
                key.len() == 64 && #[trigger] runners::python::planned(
                    config@,
                    python_template@,
                    crypto::base64_decoded(req.code@)->Ok_0,
                    key,
                    req.preload@,
                    req.options,
                    env@,
                    zygote,
                ) == run@
        },
        req.language@ == "javascript"@ ==> {
            &&& crypto::base64_decoded(req.code@) is Ok <==> res is Node
            &&& crypto::base64_decoded(req.code@) matches Err(e) ==> (
            res matches RunStep::Answer(response) && response.code == 500 && response.message@
                == "invalid base64 code: "@ + e && response.data is None)
            &&& res matches RunStep::Node(command) ==> services::nodejs::planned(
                config@,
                nodejs_template@,
                req.code@,
                req.preload@,
                req.options,
                env@,
            ) matches Ok(wanted) && command@ == wanted
        },
        req.language@ != "python3"@ && req.language@ != "javascript"@ ==> (
        res matches RunStep::Answer(response) && response.code == 400 && response.message@
            == "unsupported language"@ && response.data is None),
{
    reveal_strlit("python3");
    reveal_strlit("javascript");
    assert("python3"@.len() == 7 && "javascript"@.len() == 10);
}

/// Executions in either language are answered alike, and as the code's response says.
pub proof fn executions_are_answered_alike(
    outcome: Result<ExecutionResult, String>,
    python: ApiResponse,
    nodejs: ApiResponse,
    any: ApiResponse,
)
    requires
        call_ensures(run_python, (outcome,), python),
        call_ensures(run_nodejs, (outcome,), nodejs),
        call_ensures(run_code_response, (outcome,), any),
    ensures
        python@ == any@,
        nodejs@ == any@,
{
}

/// The packages of Python are listed by pip; any other language, or none, is answered with
/// 400.
pub proof fn packages_are_asked_for(
    config: &Config,
    language: Option<&str>,
    res: DependencyStep,
    command: CommandSpec,
)
    requires
        call_ensures(get_dependencies, (config, language), res),
        call_ensures(list_command, (config,), command),
    ensures
        language is Some && language->0@ == "python3"@ ==> (res matches DependencyStep::Run(c)
            && c@ == command@),
        !(language is Some && language->0@ == "python3"@) ==> (
        res matches DependencyStep::Answer(response) && response.code == 400
            && response.message@ == "unsupported language"@ && response.data is None),
{
}

/// The answer to a request for packages lists those that pip listed.
pub proof fn listed_packages_are_answered(
    event: PipEvent,
    packages: Vec<setup::dependencies::Package>,
    res: ApiResponse,
)
    requires
        call_ensures(list_python_packages, (event,), packages),
        call_ensures(dependencies_response, (event,), res),
    ensures
        res.code == 0,
        res@.data == Some(
            DataModel::Dependencies(setup::dependencies::package_models(packages@)),
        ),
{
}

/// An update of Python's packages runs what [`install_command`] says, and has succeeded
/// where that is nothing; any other language is answered with 400.
pub proof fn updates_install_what_is_required(
    config: &Config,
    req: &UpdateDependencyRequest,
    file: Option<&str>,
    install: Option<CommandSpec>,
    res: DependencyStep,
)
    requires
        call_ensures(install_command, (config, file), install),
        call_ensures(update_dependencies, (config, req, file), res),
    ensures
        req.language@ != "python3"@ ==> (res matches DependencyStep::Answer(response)
            && response.code == 400 && response.message@ == "unsupported language"@
            && response.data is None),
        req.language@ == "python3"@ && install is Some ==> (res matches DependencyStep::Run(c)
            && c@ == install->0@),
        req.language@ == "python3"@ && install is None ==> (
        res matches DependencyStep::Answer(response) && response.code == 0 && response.message@
            == "success"@ && (response.data matches Some(ResponseData::Updated(done)) && done)),
{
}

/// An update is answered with success if pip succeeded, and with 500 and the reason if not.
pub proof fn updates_are_answered(event: PipEvent, res: ApiResponse)
    requires
        call_ensures(update_response, (event,), res),
    ensures
        event matches PipEvent::Exited { success, stderr, .. } ==> {
            &&& success ==> res.code == 0 && res.message@ == "success"@ && (
            res.data matches Some(ResponseData::Updated(done)) && done)
            &&& !success ==> res.code == 500 && res.message@ == crate::text::lossy_text(stderr@)
                && res.data is None
        },
        event matches PipEvent::SpawnFailed(e) ==> res.code == 500 && res.message@
            == "pip install spawn: "@ + e@,
        event matches PipEvent::WaitFailed(e) ==> res.code == 500 && res.message@
            == "pip install: "@ + e@,
{
}

} // verus!
