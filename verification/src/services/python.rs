//! Responses to executions and to package management.

use vstd::prelude::*;

use crate::models;
use crate::models::{ApiResponse, DataModel, Dependency, ResponseData, ResponseModel, RunCodeData};
use crate::runners::{ExecutionModel, ExecutionResult};
use crate::services::is_seccomp_violation;
use crate::setup;
use crate::setup::dependencies::Package;

verus! {

/// The response to an execution: a seccomp violation is reported as such, an execution
/// that failed with something on its standard error as that, and any other gives its
/// output. An execution that did not take place is reported with its message.
pub open spec fn run_response(
    outcome: Result<ExecutionModel, Seq<char>>,
) -> ResponseModel {
    match outcome {
        Ok(result) => if result.exit_code == 159 || result.exit_code == -31 {
            models::error_response(31, "sandbox security policy violation"@)
        } else if result.stderr.len() > 0 && result.exit_code != 0 {
            models::error_response(500, result.stderr)
        } else {
            models::success_response(
                DataModel::Run { stdout: result.stdout, stderr: result.stderr },
            )
        },
        Err(message) => models::error_response(500, message),
    }
}

/// The contents of an outcome.
pub open spec fn outcome_model(outcome: Result<ExecutionResult, String>) -> Result<
    ExecutionModel,
    Seq<char>,
> {
    match outcome {
        Ok(result) => Ok(result@),
        Err(message) => Err(message@),
    }
}

/// Answers a request to run code, given how the execution went.
pub fn run_code_response(outcome: Result<ExecutionResult, String>) -> (res: ApiResponse)
    ensures
        res@ == run_response(outcome_model(outcome)),
{
    match outcome {
        Ok(result) => {
            if is_seccomp_violation(result.exit_code) {
                return ApiResponse::error(31, "sandbox security policy violation".to_owned());
            }
            if !result.stderr.as_str().is_empty() && result.exit_code != 0 {
                return ApiResponse::error(500, result.stderr);
            }
            ApiResponse::success(
                ResponseData::Run(RunCodeData { stdout: result.stdout, stderr: result.stderr }),
            )
        },
        Err(e) => ApiResponse::error(500, e),
    }
}

/// Answers a request to run Python code.
pub fn run_python_code(outcome: Result<ExecutionResult, String>) -> (res: ApiResponse)
    ensures
        res@ == run_response(outcome_model(outcome)),
{
    run_code_response(outcome)
}

/// Answers a request for the installed packages.
pub fn list_python_dependencies(packages: Vec<Package>) -> (res: ApiResponse)
    ensures
        res@ == models::success_response(
            DataModel::Dependencies(setup::dependencies::package_models(packages@)),
        ),
{
    let mut list: Vec<Dependency> = Vec::new();
    let ghost wanted = setup::dependencies::package_models(packages@);
    let mut i: usize = 0;
    while i < packages.len()
        invariant
            i <= packages@.len(),
            wanted == setup::dependencies::package_models(packages@),
            models::dependency_models(list@) == wanted.take(i as int),
        decreases packages@.len() - i,
    {
        let package = &packages[i];
        let item = Dependency {
            name: package.name.as_str().to_owned(),
            version: package.version.as_str().to_owned(),
        };
        let ghost before = list@;
        list.push(item);
        assert(models::dependency_models(list@) =~= models::dependency_models(before).push(
            (item.name@, item.version@),
        ));
        assert(models::dependency_models(list@) =~= wanted.take(i + 1));
        i = i + 1;
    }
    assert(models::dependency_models(list@) =~= wanted);
    ApiResponse::success(ResponseData::Dependencies(list))
}

/// Answers a request to update the packages, given how that went.
pub fn update_python_dependencies(outcome: Result<(), String>) -> (res: ApiResponse)
    ensures
        res@ == (match outcome {
            Ok(_) => models::success_response(DataModel::Updated(true)),
            Err(e) => models::error_response(500, e@),
        }),
{
    match outcome {
        Ok(_) => ApiResponse::success(ResponseData::Updated(true)),
        Err(e) => ApiResponse::error(500, e),
    }
}

/// Of a request to run code, a seccomp violation and nothing else is answered with 31, and
/// a successful answer carries no violation and no failed execution with error output.
pub proof fn violations_are_reported(outcome: Result<ExecutionModel, Seq<char>>)
    ensures
        run_response(outcome).code == 31 <==> (outcome matches Ok(result) && (result.exit_code
            == 159 || result.exit_code == -31)),
        run_response(outcome).code == 0 ==> (outcome matches Ok(result) && (result.exit_code == 0
            || result.stderr.len() == 0)),
        run_response(outcome).data is Some <==> run_response(outcome).code == 0,
{
}

/// An execution with exit code 0 is a success, whatever it wrote where: the answer carries
/// its output and its errors as they are.
pub proof fn successful_executions_are_answered_with_their_output(
    result: ExecutionResult,
    res: ApiResponse,
)
    requires
        result.exit_code == 0,
        call_ensures(run_code_response, (Ok::<ExecutionResult, String>(result),), res),
    ensures
        res.code == 0,
        res.message@ == "success"@,
        res.data matches Some(ResponseData::Run(data)) && data.stdout@ == result.stdout@
            && data.stderr@ == result.stderr@,
{
}

/// An execution is answered with 500, and its errors as the message, if and only if its exit
/// code is neither 0 nor that of a violation and it wrote errors; with 31 if and only if it
/// was a violation; and with its output otherwise. One that did not take place is answered
/// with 500 and the reason.
pub proof fn executions_are_answered(
    outcome: Result<ExecutionResult, String>,
    res: ApiResponse,
)
    requires
        call_ensures(run_code_response, (outcome,), res),
    ensures
        outcome matches Ok(r) ==> {
            let violated = r.exit_code == 159 || r.exit_code == -31;
            let failed = !violated && r.exit_code != 0 && r.stderr@.len() > 0;
            &&& res.code == 31 <==> violated
            &&& res.code == 500 <==> failed
            &&& res.code == 0 <==> !violated && !failed
            &&& violated ==> res.message@ == "sandbox security policy violation"@ && res.data is None
            &&& failed ==> res.message@ == r.stderr@ && res.data is None
            &&& !violated && !failed ==> res.message@ == "success"@ && (
            res.data matches Some(ResponseData::Run(data)) && data.stdout@ == r.stdout@
                && data.stderr@ == r.stderr@)
        },
        outcome matches Err(e) ==> res.code == 500 && res.message@ == e@ && res.data is None,
{
}

/// A request to run Python code is answered as any.
pub proof fn python_executions_are_answered_alike(
    outcome: Result<ExecutionResult, String>,
    first: ApiResponse,
    second: ApiResponse,
)
    requires
        call_ensures(run_code_response, (outcome,), first),
        call_ensures(run_python_code, (outcome,), second),
    ensures
        first@ == second@,
{
}

/// The answer lists every package with its name and version, in order.
pub proof fn packages_are_all_listed(packages: Vec<Package>, res: ApiResponse)
    requires
        call_ensures(list_python_dependencies, (packages,), res),
    ensures
        res.code == 0,
        res.message@ == "success"@,
        res.data matches Some(ResponseData::Dependencies(list)) && list@.len()
            == packages@.len() && forall|i: int|
            0 <= i < list@.len() ==> (#[trigger] list@[i]).name@ == packages@[i].name@
                && list@[i].version@ == packages@[i].version@,
{
    if let Some(ResponseData::Dependencies(list)) = res.data {
        let wanted = setup::dependencies::package_models(packages@);
        let found = models::dependency_models(list@);
        assert(found == wanted);
        assert(found.len() == list@.len());
        assert forall|i: int| 0 <= i < list@.len() implies (#[trigger] list@[i]).name@
            == packages@[i].name@ && list@[i].version@ == packages@[i].version@ by {
            assert(found[i] == (list@[i].name@, list@[i].version@));
            assert(wanted[i] == (packages@[i].name@, packages@[i].version@));
        }
    }
}

/// An update is answered with success if it succeeded, and with 500 and the reason if not.
pub proof fn updates_are_answered(outcome: Result<(), String>, res: ApiResponse)
    requires
        call_ensures(update_python_dependencies, (outcome,), res),
    ensures
        outcome is Ok ==> res.code == 0 && res.message@ == "success"@ && (
        res.data matches Some(ResponseData::Updated(done)) && done),
        outcome matches Err(e) ==> res.code == 500 && res.message@ == e@ && res.data is None,
{
}

} // verus!
