//! Requests and responses.

use vstd::prelude::*;

verus! {

pub struct RunCodeRequest {
    pub language: String,
    pub code: String,
    pub preload: String,
    pub options: RunnerOptions,
}

pub struct RunnerOptions {
    /// Enable network access for this execution. Callers must opt in per request (matched
    /// with the configuration's `enable_network`).
    pub enable_network: bool,
}

impl Default for RunnerOptions {
    fn default() -> (res: Self)
        ensures
            !res.enable_network,
    {
        RunnerOptions { enable_network: false }
    }
}

pub struct UpdateDependencyRequest {
    pub language: String,
}

pub struct RunCodeData {
    pub stdout: String,
    pub stderr: String,
}

pub struct Dependency {
    pub name: String,
    pub version: String,
}

/// What a successful response carries.
pub enum ResponseData {
    /// The output of an execution.
    Run(RunCodeData),
    /// The installed packages, under `dependencies`.
    Dependencies(Vec<Dependency>),
    /// That the packages were updated, under `success`.
    Updated(bool),
}

pub ghost enum DataModel {
    Run { stdout: Seq<char>, stderr: Seq<char> },
    Dependencies(Seq<(Seq<char>, Seq<char>)>),
    Updated(bool),
}

pub open spec fn dependency_models(list: Seq<Dependency>) -> Seq<(Seq<char>, Seq<char>)> {
    list.map_values(|d: Dependency| (d.name@, d.version@))
}

impl View for ResponseData {
    type V = DataModel;

    open spec fn view(&self) -> DataModel {
        match self {
            ResponseData::Run(data) => DataModel::Run {
                stdout: data.stdout@,
                stderr: data.stderr@,
            },
            ResponseData::Dependencies(list) => DataModel::Dependencies(
                dependency_models(list@),
            ),
            ResponseData::Updated(done) => DataModel::Updated(*done),
        }
    }
}

pub struct ApiResponse {
    pub code: i32,
    pub message: String,
    pub data: Option<ResponseData>,
}

#[verifier::ext_equal]
pub ghost struct ResponseModel {
    pub code: int,
    pub message: Seq<char>,
    pub data: Option<DataModel>,
}

impl View for ApiResponse {
    type V = ResponseModel;

    open spec fn view(&self) -> ResponseModel {
        ResponseModel {
            code: self.code as int,
            message: self.message@,
            data: match self.data {
                Some(data) => Some(data@),
                None => None,
            },
        }
    }
}

/// The response that carries `data`.
pub open spec fn success_response(data: DataModel) -> ResponseModel {
    ResponseModel { code: 0, message: "success"@, data: Some(data) }
}

/// The response that reports an error.
pub open spec fn error_response(code: int, message: Seq<char>) -> ResponseModel {
    ResponseModel { code, message, data: None }
}

impl ApiResponse {
    pub fn success(data: ResponseData) -> (res: Self)
        ensures
            res@ == success_response(data@),
    {
        ApiResponse { code: 0, message: "success".to_owned(), data: Some(data) }
    }

    pub fn error(code: i32, message: String) -> (res: Self)
        ensures
            res@ == error_response(code as int, message@),
    {
        ApiResponse { code, message, data: None }
    }
}

/// A success has the code 0 and carries the data; an error has its code and message, and
/// carries nothing.
pub proof fn responses_are_successes_or_errors(
    data: ResponseData,
    success: ApiResponse,
    code: i32,
    message: String,
    error: ApiResponse,
)
    requires
        call_ensures(ApiResponse::success, (data,), success),
        call_ensures(ApiResponse::error, (code, message), error),
    ensures
        success.code == 0,
        success.message@ == "success"@,
        success.data is Some,
        data matches ResponseData::Run(run) ==> (success.data matches Some(
            ResponseData::Run(found),
        ) && found.stdout@ == run.stdout@ && found.stderr@ == run.stderr@),
        data matches ResponseData::Updated(done) ==> (success.data matches Some(
            ResponseData::Updated(found),
        ) && found == done),
        data matches ResponseData::Dependencies(list) ==> (success.data matches Some(
            ResponseData::Dependencies(found),
        ) && found@.len() == list@.len() && forall|i: int|
            0 <= i < list@.len() ==> (#[trigger] found@[i]).name@ == list@[i].name@
                && found@[i].version@ == list@[i].version@),
        error.code == code,
        error.message@ == message@,
        error.data is None,
{
    if let ResponseData::Dependencies(list) = data {
        if let Some(ResponseData::Dependencies(found)) = success.data {
            let a = dependency_models(list@);
            let b = dependency_models(found@);
            assert(a == b);
            assert(a.len() == list@.len() && b.len() == found@.len());
            assert forall|i: int| 0 <= i < list@.len() implies (#[trigger] found@[i]).name@
                == list@[i].name@ && found@[i].version@ == list@[i].version@ by {
                assert(a[i] == (list@[i].name@, list@[i].version@));
                assert(b[i] == (found@[i].name@, found@[i].version@));
            }
        }
    }
}

} // verus!
