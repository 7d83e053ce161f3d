//! The manager's HTTP surface: which request reaches which operation, and
//! what the answer to each looks like.

use vstd::prelude::*;
use vstd::string::*;
use crate::helpers::task_id_to_string;
use crate::manager::implementation::{
    answer_of,
    create_session_step,
    get_vdaf_parameter_answer,
    manager_error_text,
    parameter_answer_of,
    ManagerError,
    ManagerErrorKind,
    TaskProvisioner,
    TaskProvisionerConfigView,
};
use crate::manager::types::{
    CreateTrainingSessionRequest,
    CreateTrainingSessionResponse,
    GetVdafParameterRequest,
    GetVdafParameterResponse,
    StartRoundResponse,
    TrainingSessionId,
};
use crate::outside::base64url_encoding;
use crate::text::same_text;
use crate::types::{EndpointPair, MainLocations, TaskId, VdafParameter, VdafParameterView};

verus! {

/// For how many seconds a browser may remember the answer to a preflight
/// request: a day.
pub const CORS_PREFLIGHT_CACHE_AGE: u32 = 24 * 60 * 60;

/// The status of an answer to a request that was carried out.
pub const STATUS_OK: u16 = 200;

/// The status of an answer to a request that was refused.
pub const STATUS_BAD_REQUEST: u16 = 400;

/// The status of an answer to a request that the manager could not carry
/// out for a fault of its own or of the aggregator's store.
pub const STATUS_INTERNAL_SERVER_ERROR: u16 = 500;

/// The media type of a problem document.
pub const PROBLEM_DETAILS_JSON_MEDIA_TYPE: &'static str = "application/problem+json";

/// The media type of every other answer.
pub const JSON_MEDIA_TYPE: &'static str = "application/json";

/// The request methods that the manager answers.
#[derive(Clone, Copy, Debug, PartialEq, Eq, Structural)]
pub enum Method {
    Get,
    Post,
}

/// The operations that the manager offers.
#[derive(Clone, Copy, Debug, PartialEq, Eq, Structural)]
pub enum Endpoint {
    StartRound,
    CreateSession,
    EndSession,
    GetVdafParameter,
    GetMainLocations,
}

impl Endpoint {
    /// The path under which the operation is reached.
    pub open spec fn path_text(self) -> Seq<char> {
        match self {
            Endpoint::StartRound => "/start_round"@,
            Endpoint::CreateSession => "/create_session"@,
            Endpoint::EndSession => "/end_session"@,
            Endpoint::GetVdafParameter => "/get_vdaf_parameter"@,
            Endpoint::GetMainLocations => "/get_main_locations"@,
        }
    }

    /// The method with which the operation is asked for: reading the
    /// aggregators' addresses is a `GET`, everything else a `POST`.
    pub open spec fn method_of(self) -> Method {
        match self {
            Endpoint::GetMainLocations => Method::Get,
            _ => Method::Post,
        }
    }

    /// The path under which the operation is reached.
    pub fn path(&self) -> (path: &'static str)
        ensures
            path@ == self.path_text(),
    {
        match self {
            Endpoint::StartRound => "/start_round",
            Endpoint::CreateSession => "/create_session",
            Endpoint::EndSession => "/end_session",
            Endpoint::GetVdafParameter => "/get_vdaf_parameter",
            Endpoint::GetMainLocations => "/get_main_locations",
        }
    }

    /// The method with which the operation is asked for.
    pub fn method(&self) -> (method: Method)
        ensures
            method == self.method_of(),
    {
        match self {
            Endpoint::GetMainLocations => Method::Get,
            _ => Method::Post,
        }
    }
}

/// The operation that a request with the given method and path reaches, if
/// it reaches one.
pub open spec fn route_of(method: Method, path: Seq<char>) -> Option<Endpoint> {
    if method == Method::Post && path == Endpoint::StartRound.path_text() {
        Some(Endpoint::StartRound)
    } else if method == Method::Post && path == Endpoint::CreateSession.path_text() {
        Some(Endpoint::CreateSession)
    } else if method == Method::Post && path == Endpoint::EndSession.path_text() {
        Some(Endpoint::EndSession)
    } else if method == Method::Post && path == Endpoint::GetVdafParameter.path_text() {
        Some(Endpoint::GetVdafParameter)
    } else if method == Method::Get && path == Endpoint::GetMainLocations.path_text() {
        Some(Endpoint::GetMainLocations)
    } else {
        None
    }
}

/// Finds the operation that a request is for.
pub fn route(method: Method, path: &str) -> (endpoint: Option<Endpoint>)
    ensures
        endpoint == route_of(method, path@),
{
    match method {
        Method::Post => {
            if same_text(path, Endpoint::StartRound.path()) {
                Some(Endpoint::StartRound)
            } else if same_text(path, Endpoint::CreateSession.path()) {
                Some(Endpoint::CreateSession)
            } else if same_text(path, Endpoint::EndSession.path()) {
                Some(Endpoint::EndSession)
            } else if same_text(path, Endpoint::GetVdafParameter.path()) {
                Some(Endpoint::GetVdafParameter)
            } else {
                None
            }
        },
        Method::Get => {
            if same_text(path, Endpoint::GetMainLocations.path()) {
                Some(Endpoint::GetMainLocations)
            } else {
                None
            }
        },
    }
}

/// Every operation is reached by its own method and path.
pub proof fn lemma_route_finds_each(endpoint: Endpoint)
    ensures
        route_of(endpoint.method_of(), endpoint.path_text()) == Some(endpoint),
{
    reveal_strlit("/start_round");
    reveal_strlit("/create_session");
    reveal_strlit("/end_session");
    reveal_strlit("/get_vdaf_parameter");
    reveal_strlit("/get_main_locations");
    assert("/end_session"@[1] == 'e');
    assert("/start_round"@[1] == 's');
    assert("/get_vdaf_parameter"@[5] == 'v');
}

/// Which browsers may call an operation from a page of another origin.
#[derive(Clone, Copy, Debug, PartialEq, Eq, Structural)]
pub struct CorsPolicy {
    pub allow_any_origin: bool,
    pub allowed_method: Method,
    pub max_age: u32,
}

/// The policy of an operation: any origin may call it, with the
/// operation's own method, and may remember that for a day.
pub fn cors_policy(endpoint: Endpoint) -> (policy: CorsPolicy)
    ensures
        policy == (CorsPolicy {
            allow_any_origin: true,
            allowed_method: endpoint.method_of(),
            max_age: CORS_PREFLIGHT_CACHE_AGE,
        }),
{
    CorsPolicy {
        allow_any_origin: true,
        allowed_method: endpoint.method(),
        max_age: CORS_PREFLIGHT_CACHE_AGE,
    }
}

/// A problem document: what went wrong, where, and with which task.
#[derive(Debug)]
pub struct ProblemDetails {
    pub detail: String,
    pub instance: String,
    pub taskid: Option<String>,
}

/// What the manager answers.
#[derive(Debug)]
pub enum ReplyBody {
    CreateSession(CreateTrainingSessionResponse),
    /// Nothing to tell: the document `null`.
    EndSession,
    StartRound(StartRoundResponse),
    GetVdafParameter(GetVdafParameterResponse),
    GetMainLocations(MainLocations),
    Problem(ProblemDetails),
}

/// What a [`ReplyBody`] holds.
pub enum ReplyBodyView {
    CreateSession(u16),
    EndSession,
    StartRound,
    GetVdafParameter(VdafParameterView),
    GetMainLocations(EndpointPair),
    Problem { detail: Seq<char>, instance: Seq<char>, taskid: Option<Seq<char>> },
}

/// The text behind an optional text.
pub open spec fn optional_text(text: Option<String>) -> Option<Seq<char>> {
    match text {
        Some(text) => Some(text@),
        None => None,
    }
}

impl View for ReplyBody {
    type V = ReplyBodyView;

    open spec fn view(&self) -> ReplyBodyView {
        match self {
            ReplyBody::CreateSession(response) => ReplyBodyView::CreateSession(
                response.training_session_id@,
            ),
            ReplyBody::EndSession => ReplyBodyView::EndSession,
            ReplyBody::StartRound(_) => ReplyBodyView::StartRound,
            ReplyBody::GetVdafParameter(response) => ReplyBodyView::GetVdafParameter(response@),
            ReplyBody::GetMainLocations(locations) => ReplyBodyView::GetMainLocations(locations@),
            ReplyBody::Problem(problem) => ReplyBodyView::Problem {
                detail: problem.detail@,
                instance: problem.instance@,
                taskid: optional_text(problem.taskid),
            },
        }
    }
}

/// An answer: its status, its media type and its body, which is written as
/// JSON.
#[derive(Debug)]
pub struct Reply {
    pub status: u16,
    pub media_type: &'static str,
    pub body: ReplyBody,
}

/// What a [`Reply`] holds.
pub struct ReplyView {
    pub status: u16,
    pub media_type: Seq<char>,
    pub body: ReplyBodyView,
}

impl View for Reply {
    type V = ReplyView;

    open spec fn view(&self) -> ReplyView {
        ReplyView { status: self.status, media_type: self.media_type@, body: self.body@ }
    }
}

/// The answer to a request that was carried out.
pub open spec fn success_reply(body: ReplyBodyView) -> ReplyView {
    ReplyView { status: STATUS_OK, media_type: JSON_MEDIA_TYPE@, body }
}

/// The answer to a request that was refused: a problem document with what
/// is said of the refusal and, where one is known, the text of the task.
pub open spec fn problem_reply(detail: Seq<char>, task: Option<Seq<u8>>) -> ReplyView {
    ReplyView {
        status: STATUS_BAD_REQUEST,
        media_type: PROBLEM_DETAILS_JSON_MEDIA_TYPE@,
        body: ReplyBodyView::Problem {
            detail,
            instance: ".."@,
            taskid: match task {
                Some(task) => Some(base64url_encoding(task)),
                None => None,
            },
        },
    }
}

/// The bytes behind an optional task identifier.
pub open spec fn optional_task_id(task: Option<TaskId>) -> Option<Seq<u8>> {
    match task {
        Some(task) => Some(task@),
        None => None,
    }
}

/// The task that a refusal is about, if it is about one.
pub open spec fn task_of_error(kind: ManagerErrorKind) -> Option<TaskId> {
    match kind {
        ManagerErrorKind::TaskNotFound(task) => Some(task),
        ManagerErrorKind::TaskAmbiguous(task) => Some(task),
        _ => None,
    }
}

/// The answer to a refused request, as a problem document.
pub fn build_problem_details_response(error_type: String, task_id: Option<TaskId>) -> (reply:
    Reply)
    ensures
        reply@ == problem_reply(error_type@, optional_task_id(task_id)),
{
    let taskid = match task_id {
        Some(task) => Some(task_id_to_string(task)),
        None => None,
    };
    Reply {
        status: STATUS_BAD_REQUEST,
        media_type: PROBLEM_DETAILS_JSON_MEDIA_TYPE,
        body: ReplyBody::Problem(
            ProblemDetails { detail: error_type, instance: String::from_str(".."), taskid },
        ),
    }
}

/// The answer to a request that could not be carried out for a fault of the
/// manager or of the aggregator's store: a problem document as for a
/// refusal, with the status of a server's failure.
pub fn failure_reply(detail: String) -> (reply: Reply)
    ensures
        reply@ == (ReplyView {
            status: STATUS_INTERNAL_SERVER_ERROR,
            ..problem_reply(detail@, None)
        }),
{
    let refused = build_problem_details_response(detail, None);
    Reply { status: STATUS_INTERNAL_SERVER_ERROR, media_type: refused.media_type, body: refused.body }
}

/// The answer that an error comes to.
pub open spec fn error_reply_of(kind: ManagerErrorKind, detail: Seq<char>) -> ReplyView {
    problem_reply(manager_error_text(kind, detail), optional_task_id(task_of_error(kind)))
}

/// The answer to a request that the manager refused.
pub fn error_reply(error: &ManagerError) -> (reply: Reply)
    ensures
        reply@ == error_reply_of(error.kind, error.detail@),
{
    let task_id = match error.kind {
        ManagerErrorKind::TaskNotFound(task) => Some(task),
        ManagerErrorKind::TaskAmbiguous(task) => Some(task),
        _ => None,
    };
    build_problem_details_response(error.message(), task_id)
}

/// The answer to a request to open a session.
pub fn reply_to_create_session(answer: Result<TrainingSessionId, ManagerError>) -> (reply: Reply)
    ensures
        reply@ == match answer {
            Ok(id) => success_reply(ReplyBodyView::CreateSession(id@)),
            Err(e) => error_reply_of(e.kind, e.detail@),
        },
{
    match answer {
        Ok(training_session_id) => Reply {
            status: STATUS_OK,
            media_type: JSON_MEDIA_TYPE,
            body: ReplyBody::CreateSession(CreateTrainingSessionResponse { training_session_id }),
        },
        Err(e) => error_reply(&e),
    }
}

/// The answer to a request to close a session.
pub fn reply_to_end_session(answer: Result<(), ManagerError>) -> (reply: Reply)
    ensures
        reply@ == match answer {
            Ok(_) => success_reply(ReplyBodyView::EndSession),
            Err(e) => error_reply_of(e.kind, e.detail@),
        },
{
    match answer {
        Ok(_) => Reply { status: STATUS_OK, media_type: JSON_MEDIA_TYPE, body: ReplyBody::EndSession },
        Err(e) => error_reply(&e),
    }
}

/// The answer to a request to start a round.
pub fn reply_to_start_round(answer: Result<(), ManagerError>) -> (reply: Reply)
    ensures
        reply@ == match answer {
            Ok(_) => success_reply(ReplyBodyView::StartRound),
            Err(e) => error_reply_of(e.kind, e.detail@),
        },
{
    match answer {
        Ok(_) => Reply {
            status: STATUS_OK,
            media_type: JSON_MEDIA_TYPE,
            body: ReplyBody::StartRound(StartRoundResponse {  }),
        },
        Err(e) => error_reply(&e),
    }
}

/// The answer to a request for the parameters of a task.
pub fn reply_to_get_vdaf_parameter(answer: Result<VdafParameter, ManagerError>) -> (reply: Reply)
    ensures
        reply@ == match answer {
            Ok(parameter) => success_reply(ReplyBodyView::GetVdafParameter(parameter@)),
            Err(e) => error_reply_of(e.kind, e.detail@),
        },
{
    match answer {
        Ok(vdaf_parameter) => Reply {
            status: STATUS_OK,
            media_type: JSON_MEDIA_TYPE,
            body: ReplyBody::GetVdafParameter(GetVdafParameterResponse { vdaf_parameter }),
        },
        Err(e) => error_reply(&e),
    }
}

/// The answer to a request for the aggregators' addresses, for a manager
/// with the configuration `config`.
pub open spec fn main_locations_reply(config: TaskProvisionerConfigView) -> ReplyView {
    success_reply(ReplyBodyView::GetMainLocations(config.main_locations))
}

/// The answer to a request for the aggregators' addresses.
pub fn reply_to_get_main_locations(manager: &TaskProvisioner) -> (reply: Reply)
    ensures
        reply@ == main_locations_reply(manager.configuration()),
{
    Reply {
        status: STATUS_OK,
        media_type: JSON_MEDIA_TYPE,
        body: ReplyBody::GetMainLocations(manager.get_main_locations()),
    }
}

/// What was said of the refusal in an answer, if it is one.
pub open spec fn detail_of<T>(answer: Result<T, ManagerError>) -> Seq<char> {
    match answer {
        Ok(_) => Seq::<char>::empty(),
        Err(e) => e.detail@,
    }
}

/// As long as the configuration stays, the aggregators' addresses are
/// answered alike: whatever a manager does between two requests for them,
/// and whatever sessions and keys it holds, the two answers are the same.
pub proof fn lemma_main_locations_stay(
    before: TaskProvisioner,
    after: TaskProvisioner,
    first: ReplyView,
    second: ReplyView,
)
    requires
        before.configuration() == after.configuration(),
        first == main_locations_reply(before.configuration()),
        second == main_locations_reply(after.configuration()),
    ensures
        first == second,
{
}

/// A request that the manager answers from its own state alone.
#[derive(Debug)]
pub enum ManagerRequest {
    CreateSession(CreateTrainingSessionRequest),
    EndSession(TrainingSessionId),
    GetVdafParameter(GetVdafParameterRequest),
    GetMainLocations,
}

impl ManagerRequest {
    /// The operation that the request is for.
    pub open spec fn endpoint_of(self) -> Endpoint {
        match self {
            ManagerRequest::CreateSession(_) => Endpoint::CreateSession,
            ManagerRequest::EndSession(_) => Endpoint::EndSession,
            ManagerRequest::GetVdafParameter(_) => Endpoint::GetVdafParameter,
            ManagerRequest::GetMainLocations => Endpoint::GetMainLocations,
        }
    }

    /// The operation that the request is for.
    pub fn endpoint(&self) -> (endpoint: Endpoint)
        ensures
            endpoint == self.endpoint_of(),
    {
        match self {
            ManagerRequest::CreateSession(_) => Endpoint::CreateSession,
            ManagerRequest::EndSession(_) => Endpoint::EndSession,
            ManagerRequest::GetVdafParameter(_) => Endpoint::GetVdafParameter,
            ManagerRequest::GetMainLocations => Endpoint::GetMainLocations,
        }
    }
}

/// Whether `reply` is the answer that `answer` comes to: a success with
/// its body, or a problem document for the kind of failure, with whatever
/// detail was given of it.
pub open spec fn is_reply_to(answer: Result<ReplyBodyView, ManagerErrorKind>, reply: ReplyView) -> bool {
    match answer {
        Ok(body) => reply == success_reply(body),
        Err(kind) => exists|detail: Seq<char>| reply == error_reply_of(kind, detail),
    }
}

/// The body that tells the identifier of a new session.
pub open spec fn created_body(answer: Result<u16, ManagerErrorKind>) -> Result<
    ReplyBodyView,
    ManagerErrorKind,
> {
    match answer {
        Ok(id) => Ok(ReplyBodyView::CreateSession(id)),
        Err(kind) => Err(kind),
    }
}

/// The body that tells the parameters of a task.
pub open spec fn parameter_body(answer: Result<VdafParameterView, ManagerErrorKind>) -> Result<
    ReplyBodyView,
    ManagerErrorKind,
> {
    match answer {
        Ok(parameter) => Ok(ReplyBodyView::GetVdafParameter(parameter)),
        Err(kind) => Err(kind),
    }
}

/// Carries out a request and gives the answer to send. A request that is
/// refused changes nothing and is answered with a problem document.
pub fn respond(manager: &mut TaskProvisioner, request: ManagerRequest) -> (reply: Reply)
    requires
        old(manager).well_formed(),
    ensures
        final(manager).well_formed(),
        final(manager).configuration() == old(manager).configuration(),
        match request {
            ManagerRequest::CreateSession(create) => exists|
                fresh: u16,
                key: u8,
                answer: Result<u16, ManagerErrorKind>,
            |
                {
                    &&& create_session_step(
                        old(manager).sessions(),
                        old(manager).keys(),
                        create@,
                        fresh,
                        key,
                        answer,
                        final(manager).sessions(),
                        final(manager).keys(),
                    )
                    &&& is_reply_to(created_body(answer), reply@)
                },
            ManagerRequest::EndSession(id) => {
                &&& final(manager).keys() == old(manager).keys()
                &&& if old(manager).sessions().contains_key(id@) {
                    &&& final(manager).sessions() == old(manager).sessions().remove(id@)
                    &&& reply@ == success_reply(ReplyBodyView::EndSession)
                } else {
                    &&& final(manager).sessions() == old(manager).sessions()
                    &&& is_reply_to(
                        Err::<ReplyBodyView, ManagerErrorKind>(ManagerErrorKind::NoSessionToEnd(id)),
                        reply@,
                    )
                }
            },
            ManagerRequest::GetVdafParameter(get) => {
                &&& final(manager).keys() == old(manager).keys()
                &&& final(manager).sessions() == old(manager).sessions()
                &&& is_reply_to(
                    parameter_body(get_vdaf_parameter_answer(old(manager).sessions(), get@)),
                    reply@,
                )
            },
            ManagerRequest::GetMainLocations => {
                &&& final(manager).keys() == old(manager).keys()
                &&& final(manager).sessions() == old(manager).sessions()
                &&& reply@ == main_locations_reply(old(manager).configuration())
            },
        },
{
    match request {
        ManagerRequest::CreateSession(create) => {
            let answer = manager.handle_create_session(create);
            let ghost told = answer_of(answer);
            let ghost detail = detail_of(answer);
            let reply = reply_to_create_session(answer);
            assert(told is Err ==> reply@ == error_reply_of(told->Err_0, detail));
            reply
        },
        ManagerRequest::EndSession(id) => {
            let answer = manager.handle_end_session(id);
            let ghost detail = detail_of(answer);
            let reply = reply_to_end_session(answer);
            assert(!old(manager).sessions().contains_key(id@) ==> reply@ == error_reply_of(
                ManagerErrorKind::NoSessionToEnd(id),
                detail,
            ));
            reply
        },
        ManagerRequest::GetVdafParameter(get) => {
            let answer = manager.handle_get_vdaf_parameter(get);
            let ghost told = parameter_answer_of(answer);
            let ghost detail = detail_of(answer);
            let reply = reply_to_get_vdaf_parameter(answer);
            assert(told is Err ==> reply@ == error_reply_of(told->Err_0, detail));
            reply
        },
        ManagerRequest::GetMainLocations => reply_to_get_main_locations(manager),
    }
}

} // verus!
