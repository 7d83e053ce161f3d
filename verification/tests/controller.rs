use dpsa4fl::controller::{
    api_collect, api_create_session, api_end_session, api_end_session_request,
    api_new_controller_state, api_start_round, api_start_round_request, ControllerError,
    ControllerStateImmut, ControllerStateMut,
};
use dpsa4fl::fixed::FixedTypeTag;
use dpsa4fl::helpers::task_id_to_string;
use dpsa4fl::manager::consumer::{ConsumerError, Interval};
use dpsa4fl::manager::types::TrainingSessionId;
use dpsa4fl::types::{
    CommonStateParametrization, Locations, MainLocations, ManagerLocations,
    Prio3FixedPointBoundedL2VecSumBitSize, TaskId, VdafParameter, ZCdpBudget,
};

fn parametrization() -> CommonStateParametrization {
    CommonStateParametrization {
        location: Locations {
            main: MainLocations {
                external_leader: "https://leader.example/".to_string(),
                external_helper: "https://helper.example/".to_string(),
            },
            manager: ManagerLocations {
                external_leader: "https://leader.example:9981/".to_string(),
                external_helper: "https://helper.example:9982/".to_string(),
            },
        },
        vdaf_parameter: VdafParameter {
            gradient_len: 10,
            privacy_parameter: ZCdpBudget {
                epsilon_numerator: vec![1],
                epsilon_denominator: vec![4],
            },
            submission_type: FixedTypeTag::FixedType32Bit,
        },
    }
}

fn task(n: u8) -> TaskId {
    TaskId { bytes: [n; 32] }
}

#[test]
fn a_new_controller_has_neither_session_nor_round() {
    let istate = api_new_controller_state(parametrization());
    let mstate = ControllerStateMut::new();
    assert_eq!(istate.parametrization.vdaf_parameter, parametrization().vdaf_parameter);
    assert_eq!(istate.parametrization.location.main, parametrization().location.main);
    assert!(mstate.round.training_session_id.is_none());
    assert!(mstate.round.task_id.is_none());
    let other = ControllerStateImmut::new(parametrization());
    assert_ne!(
        istate.permanent.janus_tasks_client.create_session().collector_auth_token_encoded,
        other.permanent.janus_tasks_client.create_session().collector_auth_token_encoded
    );
}

#[test]
fn create_session_stores_the_identifier() {
    let mut mstate = ControllerStateMut::new();
    assert_eq!(api_create_session(&mut mstate, Ok(TrainingSessionId(0x4A2F))), Ok(0x4A2F));
    assert_eq!(mstate.round.training_session_id, Some(TrainingSessionId(0x4A2F)));
    assert_eq!(api_create_session(&mut mstate, Ok(TrainingSessionId(3))), Ok(3));
    assert_eq!(mstate.round.training_session_id, Some(TrainingSessionId(3)));
}

#[test]
fn create_session_that_failed_stores_nothing() {
    let mut mstate = ControllerStateMut::new();
    assert_eq!(
        api_create_session(&mut mstate, Err(ConsumerError::LeaderRefused(400))),
        Err(ControllerError::Manager(ConsumerError::LeaderRefused(400)))
    );
    assert!(mstate.round.training_session_id.is_none());
    api_create_session(&mut mstate, Ok(TrainingSessionId(3))).unwrap();
    let mismatch = ConsumerError::SessionIdMismatch {
        leader_id: TrainingSessionId(4),
        helper_id: TrainingSessionId(5),
    };
    assert_eq!(
        api_create_session(&mut mstate, Err(mismatch)),
        Err(ControllerError::Manager(mismatch))
    );
    assert_eq!(mstate.round.training_session_id, Some(TrainingSessionId(3)));
}

#[test]
fn end_session_needs_an_open_session() {
    let mut mstate = ControllerStateMut::new();
    assert_eq!(api_end_session_request(&mstate), Err(ControllerError::NoSessionToEnd));
    let error = api_end_session(&mut mstate, Ok(())).unwrap_err();
    assert_eq!(error, ControllerError::NoSessionToEnd);
    assert_eq!(error.message(), "Tried to end a session, but none was started.");
}

#[test]
fn end_session_clears_the_identifier() {
    let mut mstate = ControllerStateMut::new();
    api_create_session(&mut mstate, Ok(TrainingSessionId(7))).unwrap();
    api_start_round(&mut mstate, Ok(task(1))).unwrap();
    assert_eq!(api_end_session_request(&mstate), Ok(TrainingSessionId(7)));
    let refused = ConsumerError::EndSessionRefused { leader: 200, helper: 400 };
    assert_eq!(
        api_end_session(&mut mstate, Err(refused)),
        Err(ControllerError::Manager(refused))
    );
    assert_eq!(mstate.round.training_session_id, Some(TrainingSessionId(7)));
    assert_eq!(api_end_session(&mut mstate, Ok(())), Ok(()));
    assert!(mstate.round.training_session_id.is_none());
    assert_eq!(mstate.round.task_id, Some(task(1)));
    assert_eq!(api_end_session(&mut mstate, Ok(())), Err(ControllerError::NoSessionToEnd));
}

#[test]
fn start_round_needs_an_open_session() {
    let istate = api_new_controller_state(parametrization());
    let mut mstate = ControllerStateMut::new();
    assert!(matches!(
        api_start_round_request(&istate, &mstate),
        Err(ControllerError::NoSessionForRound)
    ));
    let error = api_start_round(&mut mstate, Ok(task(1))).unwrap_err();
    assert_eq!(error, ControllerError::NoSessionForRound);
    assert_eq!(error.message(), "Cannot start round because no session was created.");
    assert!(mstate.round.task_id.is_none());
}

#[test]
fn start_round_stores_the_task() {
    let istate = api_new_controller_state(parametrization());
    let mut mstate = ControllerStateMut::new();
    api_create_session(&mut mstate, Ok(TrainingSessionId(7))).unwrap();
    let (drawn, request) = api_start_round_request(&istate, &mstate).unwrap();
    assert_eq!(request.training_session_id, TrainingSessionId(7));
    assert_eq!(request.task_id_encoded, task_id_to_string(drawn));
    assert!(mstate.round.task_id.is_none());
    assert_eq!(api_start_round(&mut mstate, Ok(drawn)), Ok(task_id_to_string(drawn)));
    assert_eq!(mstate.round.task_id, Some(drawn));
    assert_eq!(mstate.round.training_session_id, Some(TrainingSessionId(7)));
    let refused = ConsumerError::StartRoundRefused { leader: 400, helper: 400 };
    assert_eq!(
        api_start_round(&mut mstate, Err(refused)),
        Err(ControllerError::Manager(refused))
    );
    assert_eq!(mstate.round.task_id, Some(drawn));
    assert_eq!(api_start_round(&mut mstate, Ok(task(0))), Ok("A".repeat(43)));
    assert_eq!(mstate.round.task_id, Some(task(0)));
}

#[test]
fn collect_needs_a_round() {
    let istate = api_new_controller_state(parametrization());
    let mut mstate = ControllerStateMut::new();
    let error = api_collect(&istate, &mstate, 1_700_000_000).unwrap_err();
    assert_eq!(error, ControllerError::NoTaskToCollect);
    assert_eq!(error.message(), "Cannot collect because no task_id available.");
    api_create_session(&mut mstate, Ok(TrainingSessionId(7))).unwrap();
    assert_eq!(
        api_collect(&istate, &mstate, 1_700_000_000).unwrap_err(),
        ControllerError::NoTaskToCollect
    );
}

#[test]
fn collect_asks_for_the_last_round() {
    let istate = api_new_controller_state(parametrization());
    let mut mstate = ControllerStateMut::new();
    api_create_session(&mut mstate, Ok(TrainingSessionId(7))).unwrap();
    api_start_round(&mut mstate, Ok(task(1))).unwrap();
    api_start_round(&mut mstate, Ok(task(2))).unwrap();
    let job = api_collect(&istate, &mstate, 1_700_000_000).unwrap();
    assert_eq!(job.task_id, task(2));
    assert_eq!(job.leader_endpoint, "https://leader.example/");
    assert_eq!(job.query, Interval { start: 1_699_981_200, duration: 54_000 });
    assert_eq!(job.vdaf.length, 10);
    assert_eq!(job.vdaf.bitsize, Prio3FixedPointBoundedL2VecSumBitSize::BitSize32);
    assert_eq!(
        api_collect(&istate, &mstate, 10).unwrap_err(),
        ControllerError::Manager(ConsumerError::TimeOutOfRange(10))
    );
}

#[test]
fn errors_of_the_managers_are_passed_on() {
    let error = ControllerError::Manager(ConsumerError::LeaderRefused(400));
    assert_eq!(error.message(), "Got error from leader: 400");
    let error =
        ControllerError::Manager(ConsumerError::StartRoundRefused { leader: 200, helper: 400 });
    assert_eq!(error.message(), "Starting round not successful, results are: 200, 400");
}
