//! The controller: it opens a session at both managers, starts rounds in
//! it, collects their results and closes it. This module holds what the
//! controller remembers between those steps and what it decides at each;
//! the requests themselves travel outside.

use vstd::prelude::*;
use vstd::string::*;
use crate::helpers::{task_id_of_text, task_id_to_string};
use crate::manager::consumer::{
    collect_job_of,
    consumer_error_text,
    CollectJob,
    CollectJobView,
    ConsumerError,
    JanusManagerClient,
};
use crate::manager::types::{StartRoundRequest, TrainingSessionId};
use crate::outside::base64url_encoding;
use crate::types::{CommonStateParametrization, TaskId};

verus! {

/// Why the controller does not go on.
#[derive(Clone, Copy, Debug, PartialEq, Eq, Structural)]
pub enum ControllerError {
    /// A session was to be closed, and none is open.
    NoSessionToEnd,
    /// A round was to be started, and no session is open.
    NoSessionForRound,
    /// A result was to be collected, and no round has been started.
    NoTaskToCollect,
    /// The managers or the leader did not do what they were asked.
    Manager(ConsumerError),
}

/// What is said of an error.
pub open spec fn controller_error_text(error: ControllerError) -> Seq<char> {
    match error {
        ControllerError::NoSessionToEnd => "Tried to end a session, but none was started."@,
        ControllerError::NoSessionForRound =>
            "Cannot start round because no session was created."@,
        ControllerError::NoTaskToCollect => "Cannot collect because no task_id available."@,
        ControllerError::Manager(e) => consumer_error_text(e),
    }
}

impl ControllerError {
    /// What is said of the error.
    pub fn message(&self) -> (text: String)
        ensures
            text@ == controller_error_text(*self),
    {
        match self {
            ControllerError::NoSessionToEnd => String::from_str(
                "Tried to end a session, but none was started.",
            ),
            ControllerError::NoSessionForRound => String::from_str(
                "Cannot start round because no session was created.",
            ),
            ControllerError::NoTaskToCollect => String::from_str(
                "Cannot collect because no task_id available.",
            ),
            ControllerError::Manager(e) => e.message(),
        }
    }
}

/// What the controller keeps from round to round.
pub struct ControllerStatePermanent {
    pub janus_tasks_client: JanusManagerClient,
}

/// What the controller knows of the session and the round that are under
/// way.
#[derive(Clone, Copy, Debug)]
pub struct ControllerStateRound {
    /// The task of the round that was started last.
    pub task_id: Option<TaskId>,
    /// The session that is open.
    pub training_session_id: Option<TrainingSessionId>,
}

/// What does not change once the controller is set up.
pub struct ControllerStateImmut {
    pub parametrization: CommonStateParametrization,
    pub permanent: ControllerStatePermanent,
}

/// What changes while the controller runs.
#[derive(Clone, Copy, Debug)]
pub struct ControllerStateMut {
    pub round: ControllerStateRound,
}

impl ControllerStateMut {
    /// The state of a controller that has opened no session and started no
    /// round.
    pub fn new() -> (state: ControllerStateMut)
        ensures
            state.round.task_id is None,
            state.round.training_session_id is None,
    {
        ControllerStateMut { round: ControllerStateRound { task_id: None, training_session_id: None } }
    }
}

impl ControllerStateImmut {
    /// A controller for the parameters `p`, with a client for the managers
    /// that has fresh tokens and a fresh key.
    pub fn new(p: CommonStateParametrization) -> (state: ControllerStateImmut)
        ensures
            state.parametrization@ == p@,
            state.permanent.janus_tasks_client.well_formed(),
            state.permanent.janus_tasks_client@.location == p@.location,
            state.permanent.janus_tasks_client@.vdaf_parameter == p@.vdaf_parameter,
    {
        let janus_tasks_client = JanusManagerClient::new(
            p.location.clone(),
            p.vdaf_parameter.clone(),
        );
        let permanent = ControllerStatePermanent { janus_tasks_client };
        ControllerStateImmut { parametrization: p, permanent }
    }
}

/// A controller for the parameters `p`.
pub fn api_new_controller_state(p: CommonStateParametrization) -> (state: ControllerStateImmut)
    ensures
        state.parametrization@ == p@,
        state.permanent.janus_tasks_client.well_formed(),
        state.permanent.janus_tasks_client@.location == p@.location,
        state.permanent.janus_tasks_client@.vdaf_parameter == p@.vdaf_parameter,
{
    ControllerStateImmut::new(p)
}

/// Takes note of what opening a session at both managers came to: where it
/// succeeded, the session is the open one from now on, whatever session
/// was open before. Gives the number of the session.
pub fn api_create_session(
    mstate: &mut ControllerStateMut,
    opened: Result<TrainingSessionId, ConsumerError>,
) -> (session: Result<u16, ControllerError>)
    ensures
        match opened {
            Ok(id) => {
                &&& session == Ok::<u16, ControllerError>(id@)
                &&& final(mstate).round.training_session_id == Some(id)
                &&& final(mstate).round.task_id == old(mstate).round.task_id
            },
            Err(e) => {
                &&& session == Err::<u16, ControllerError>(ControllerError::Manager(e))
                &&& *final(mstate) == *old(mstate)
            },
        },
{
    match opened {
        Ok(training_session_id) => {
            mstate.round.training_session_id = Some(training_session_id);
            Ok(training_session_id.0)
        },
        Err(e) => Err(ControllerError::Manager(e)),
    }
}

/// The session to close at both managers, if one is open.
pub fn api_end_session_request(mstate: &ControllerStateMut) -> (session: Result<
    TrainingSessionId,
    ControllerError,
>)
    ensures
        session == match mstate.round.training_session_id {
            Some(id) => Ok::<TrainingSessionId, ControllerError>(id),
            None => Err(ControllerError::NoSessionToEnd),
        },
{
    match mstate.round.training_session_id {
        Some(training_session_id) => Ok(training_session_id),
        None => Err(ControllerError::NoSessionToEnd),
    }
}

/// Takes note of what closing the open session at both managers came to:
/// where it succeeded, no session is open any more. Without an open
/// session there was nothing to close.
pub fn api_end_session(mstate: &mut ControllerStateMut, ended: Result<(), ConsumerError>) -> (done:
    Result<(), ControllerError>)
    ensures
        match (old(mstate).round.training_session_id, ended) {
            (None, _) => {
                &&& done == Err::<(), ControllerError>(ControllerError::NoSessionToEnd)
                &&& *final(mstate) == *old(mstate)
            },
            (Some(_), Err(e)) => {
                &&& done == Err::<(), ControllerError>(ControllerError::Manager(e))
                &&& *final(mstate) == *old(mstate)
            },
            (Some(_), Ok(_)) => {
                &&& done == Ok::<(), ControllerError>(())
                &&& final(mstate).round.training_session_id is None
                &&& final(mstate).round.task_id == old(mstate).round.task_id
            },
        },
{
    match mstate.round.training_session_id {
        None => Err(ControllerError::NoSessionToEnd),
        Some(_) => match ended {
            Err(e) => Err(ControllerError::Manager(e)),
            Ok(_) => {
                mstate.round.training_session_id = None;
                Ok(())
            },
        },
    }
}

/// The task of a new round in the open session and the request that starts
/// it at both managers, if a session is open. The task is drawn at random.
pub fn api_start_round_request(istate: &ControllerStateImmut, mstate: &ControllerStateMut) -> (round:
    Result<(TaskId, StartRoundRequest), ControllerError>)
    ensures
        match mstate.round.training_session_id {
            None => round is Err && round->Err_0 == ControllerError::NoSessionForRound,
            Some(id) => {
                &&& round matches Ok((task, request))
                &&& request@.training_session_id == id@
                &&& request@.task_id_encoded == base64url_encoding(task@)
                &&& task_id_of_text(request@.task_id_encoded) == Some(task@)
            },
        },
{
    match mstate.round.training_session_id {
        None => Err(ControllerError::NoSessionForRound),
        Some(training_session_id) => Ok(
            istate.permanent.janus_tasks_client.start_round_request(training_session_id),
        ),
    }
}

/// Takes note of what starting a round at both managers came to: where it
/// succeeded, the round's task is the one to collect from now on. Gives
/// the task as text. Without an open session no round was to be started.
pub fn api_start_round(mstate: &mut ControllerStateMut, started: Result<TaskId, ConsumerError>) -> (task:
    Result<String, ControllerError>)
    ensures
        match (old(mstate).round.training_session_id, started) {
            (None, _) => {
                &&& task is Err
                &&& task->Err_0 == ControllerError::NoSessionForRound
                &&& *final(mstate) == *old(mstate)
            },
            (Some(_), Err(e)) => {
                &&& task is Err
                &&& task->Err_0 == ControllerError::Manager(e)
                &&& *final(mstate) == *old(mstate)
            },
            (Some(_), Ok(id)) => {
                &&& task matches Ok(text)
                &&& text@ == base64url_encoding(id@)
                &&& final(mstate).round.task_id == Some(id)
                &&& final(mstate).round.training_session_id
                    == old(mstate).round.training_session_id
            },
        },
{
    match mstate.round.training_session_id {
        None => Err(ControllerError::NoSessionForRound),
        Some(_) => match started {
            Err(e) => Err(ControllerError::Manager(e)),
            Ok(task_id) => {
                mstate.round.task_id = Some(task_id);
                Ok(task_id_to_string(task_id))
            },
        },
    }
}

/// What to collect at the time `now`, in seconds since the epoch: the
/// result of the round that was started last, if one was.
pub fn api_collect(istate: &ControllerStateImmut, mstate: &ControllerStateMut, now: u64) -> (job:
    Result<CollectJob, ControllerError>)
    ensures
        match mstate.round.task_id {
            None => job is Err && job->Err_0 == ControllerError::NoTaskToCollect,
            Some(task) => {
                let client = istate.permanent.janus_tasks_client@;
                match job {
                    Ok(job) => collect_job_of(
                        client,
                        client.vdaf_parameter.submission_type,
                        task@,
                        now,
                    ) == Ok::<CollectJobView, ConsumerError>(job@),
                    Err(e) => {
                        &&& e is Manager
                        &&& collect_job_of(
                            client,
                            client.vdaf_parameter.submission_type,
                            task@,
                            now,
                        ) == Err::<CollectJobView, ConsumerError>(e->Manager_0)
                    },
                }
            },
        },
{
    match mstate.round.task_id {
        None => Err(ControllerError::NoTaskToCollect),
        Some(task_id) => match istate.permanent.janus_tasks_client.collect(task_id, now) {
            Ok(job) => Ok(job),
            Err(e) => Err(ControllerError::Manager(e)),
        },
    }
}

} // verus!
