use dpsa4fl::client::{
    api_new_client_state, api_submit_with, api_update_client_round_settings, round_fetch,
    ClientError, CryptoConfig, RoundFetch, RoundSettings, RoundUpdate,
};
use dpsa4fl::controller::{
    api_collect, api_create_session, api_end_session, api_end_session_request,
    api_new_controller_state, api_start_round, api_start_round_request, ControllerStateMut,
};
use dpsa4fl::fixed::{Fixed16, Fixed32, FixedTypeTag, VecFixedAny};
use dpsa4fl::manager::consumer::{get_vdaf_parameter_from_task, Interval, JanusManagerClient};
use dpsa4fl::manager::implementation::{
    provision_task, AggregatorTask, ManagerError, ManagerErrorKind, TaskProvisioner,
    TaskProvisionerConfig,
};
use dpsa4fl::manager::provider::{
    reply_to_start_round, respond, ManagerRequest, Reply, ReplyBody,
};
use dpsa4fl::manager::types::{
    CreateTrainingSessionRequest, CreateTrainingSessionResponse, StartRoundRequest,
    TrainingSessionId,
};
use dpsa4fl::types::{
    CommonStateParametrization, Locations, MainLocations, ManagerLocations, Role, TaskId,
    VdafParameter, ZCdpBudget,
};

struct Aggregator {
    manager: TaskProvisioner,
    store: Vec<AggregatorTask>,
}

fn main_locations() -> MainLocations {
    MainLocations {
        external_leader: "https://leader.example/".to_string(),
        external_helper: "https://helper.example/".to_string(),
    }
}

fn manager_locations() -> ManagerLocations {
    ManagerLocations {
        external_leader: "https://leader.example:9981/".to_string(),
        external_helper: "https://helper.example:9982/".to_string(),
    }
}

fn aggregator() -> Aggregator {
    Aggregator {
        manager: TaskProvisioner::new(TaskProvisionerConfig {
            leader_endpoint: "http://leader.internal:9991/".to_string(),
            helper_endpoint: "http://helper.internal:9992/".to_string(),
            main_locations: main_locations(),
        }),
        store: Vec::new(),
    }
}

fn parametrization(gradient_len: usize) -> CommonStateParametrization {
    CommonStateParametrization {
        location: Locations { main: main_locations(), manager: manager_locations() },
        vdaf_parameter: VdafParameter {
            gradient_len,
            privacy_parameter: ZCdpBudget {
                epsilon_numerator: vec![1],
                epsilon_denominator: vec![4],
            },
            submission_type: FixedTypeTag::FixedType32Bit,
        },
    }
}

fn copy_of(request: &CreateTrainingSessionRequest) -> CreateTrainingSessionRequest {
    CreateTrainingSessionRequest {
        training_session_id: request.training_session_id,
        role: request.role,
        verify_key_encoded: request.verify_key_encoded.clone(),
        collector_hpke_config: request.collector_hpke_config.clone(),
        collector_auth_token_encoded: request.collector_auth_token_encoded.clone(),
        leader_auth_token_encoded: request.leader_auth_token_encoded.clone(),
        vdaf_parameter: request.vdaf_parameter.clone(),
    }
}

fn created(reply: Reply) -> (u16, Option<CreateTrainingSessionResponse>) {
    match reply.body {
        ReplyBody::CreateSession(response) => (reply.status, Some(response)),
        _ => (reply.status, None),
    }
}

fn start_round_at(aggregator: &mut Aggregator, request: &StartRoundRequest) -> Reply {
    let answer = start_round_steps(aggregator, request);
    reply_to_start_round(answer)
}

fn start_round_steps(
    aggregator: &mut Aggregator,
    request: &StartRoundRequest,
) -> Result<(), ManagerError> {
    let task = aggregator.manager.handle_start_round(request)?;
    let position = aggregator.store.iter().position(|t| t.task_id == task.task_id);
    let provisioned = provision_task(position.map(|i| &aggregator.store[i]), &task);
    let started = aggregator.manager.finish_start_round(request, &task, provisioned);
    if started.is_ok() && position.is_none() {
        aggregator.store.push(task);
    }
    started
}

fn open_session(
    client: &JanusManagerClient,
    leader: &mut Aggregator,
    helper: &mut Aggregator,
    mstate: &mut ControllerStateMut,
    leader_fresh: u16,
) -> u16 {
    let leader_request = client.create_session();
    let leader_id = leader
        .manager
        .create_session_with(copy_of(&leader_request), leader_fresh, 1)
        .unwrap();
    let leader_response = CreateTrainingSessionResponse { training_session_id: leader_id };
    let helper_request =
        JanusManagerClient::create_session_at_helper(leader_request, 200, Some(leader_response))
            .unwrap();
    let (helper_status, helper_response) =
        created(respond(&mut helper.manager, ManagerRequest::CreateSession(helper_request)));
    let opened =
        JanusManagerClient::create_session_result(leader_id, helper_status, helper_response);
    api_create_session(mstate, opened).unwrap()
}

fn fetched(leader: &mut Aggregator, helper: &mut Aggregator, task: TaskId) -> RoundUpdate {
    let locations_of = |a: &mut Aggregator| match respond(
        &mut a.manager,
        ManagerRequest::GetMainLocations,
    )
    .body
    {
        ReplyBody::GetMainLocations(l) => l,
        other => panic!("no locations: {:?}", other),
    };
    let parameter_of = |a: &mut Aggregator| match respond(
        &mut a.manager,
        ManagerRequest::GetVdafParameter(get_vdaf_parameter_from_task(task)),
    )
    .body
    {
        ReplyBody::GetVdafParameter(r) => r.vdaf_parameter,
        other => panic!("no parameters: {:?}", other),
    };
    let crypto = CryptoConfig {
        leader_hpke_config: leader
            .manager
            .find_vdaf_parameter(&task)
            .map(|_| leader.store[0].hpke_keypair.config.clone())
            .unwrap(),
        helper_hpke_config: helper.store[0].hpke_keypair.config.clone(),
    };
    RoundUpdate::Everything {
        leader_locations: locations_of(leader),
        helper_locations: locations_of(helper),
        leader_parameter: parameter_of(leader),
        helper_parameter: parameter_of(helper),
        crypto,
    }
}

#[test]
fn a_session_with_one_round_from_opening_to_closing() {
    let istate = api_new_controller_state(parametrization(10));
    let mut mstate = ControllerStateMut::new();
    let mut leader = aggregator();
    let mut helper = aggregator();
    let client = &istate.permanent.janus_tasks_client;

    let sid = open_session(client, &mut leader, &mut helper, &mut mstate, 0x4A2F);
    assert_eq!(sid, 0x4A2F);
    assert_eq!(leader.manager.get_session(TrainingSessionId(sid)).unwrap().role, Role::Leader);
    assert_eq!(helper.manager.get_session(TrainingSessionId(sid)).unwrap().role, Role::Helper);

    let (task, request) = api_start_round_request(&istate, &mstate).unwrap();
    let leader_status = start_round_at(&mut leader, &request).status;
    let helper_status = start_round_at(&mut helper, &request).status;
    let started = JanusManagerClient::start_round(task, leader_status, helper_status);
    let task_text = api_start_round(&mut mstate, started).unwrap();
    assert_eq!(leader.store.len(), 1);
    assert_eq!(helper.store.len(), 1);
    assert_eq!(leader.store[0].vdaf_verify_key, helper.store[0].vdaf_verify_key);

    let mut state = api_new_client_state(manager_locations());
    let settings = RoundSettings::new(task_text).unwrap();
    assert_eq!(settings.task_id, task);
    assert!(matches!(round_fetch(&state, &settings), RoundFetch::Everything(_)));
    let update = fetched(&mut leader, &mut helper, task);
    api_update_client_round_settings(&mut state, settings, update).unwrap();
    let (data, submission) = api_submit_with(&state, |p| {
        VecFixedAny::VecFixed32(vec![Fixed32(0); p.vdaf_parameter.gradient_len])
    })
    .unwrap();
    assert_eq!(data.len(), 10);
    assert_eq!(submission.task_id, task);
    assert_eq!(submission.vdaf.length, 10);
    assert_eq!(submission.crypto.leader_hpke_config, leader.store[0].hpke_keypair.config);

    let job = api_collect(&istate, &mstate, 1_700_000_000).unwrap();
    assert_eq!(job.task_id, task);
    assert_eq!(job.vdaf.length, 10);
    assert_eq!(job.query, Interval { start: 1_699_981_200, duration: 54_000 });

    let session = api_end_session_request(&mstate).unwrap();
    let leader_status = respond(&mut leader.manager, ManagerRequest::EndSession(session)).status;
    let helper_status = respond(&mut helper.manager, ManagerRequest::EndSession(session)).status;
    let ended = JanusManagerClient::end_session(leader_status, helper_status);
    api_end_session(&mut mstate, ended).unwrap();
    assert_eq!(leader.manager.session_count(), 0);
    assert_eq!(helper.manager.session_count(), 0);
    assert!(mstate.round.training_session_id.is_none());
}

#[test]
fn a_short_gradient_is_stopped_before_the_upload() {
    let istate = api_new_controller_state(parametrization(10));
    let mut mstate = ControllerStateMut::new();
    let mut leader = aggregator();
    let mut helper = aggregator();
    open_session(
        &istate.permanent.janus_tasks_client,
        &mut leader,
        &mut helper,
        &mut mstate,
        1,
    );
    let (task, request) = api_start_round_request(&istate, &mstate).unwrap();
    assert_eq!(start_round_at(&mut leader, &request).status, 200);
    assert_eq!(start_round_at(&mut helper, &request).status, 200);
    let mut state = api_new_client_state(manager_locations());
    let settings = RoundSettings {
        task_id: task,
        time_precision: 3600,
        should_request_hpke_config: false,
    };
    let update = fetched(&mut leader, &mut helper, task);
    api_update_client_round_settings(&mut state, settings, update).unwrap();
    let error =
        api_submit_with(&state, |_| VecFixedAny::VecFixed32(vec![Fixed32(0); 9])).unwrap_err();
    assert_eq!(error.message(), "Expected data to have length 10 but it was 9");
    let error =
        api_submit_with(&state, |_| VecFixedAny::VecFixed16(vec![Fixed16(0); 10])).unwrap_err();
    assert!(matches!(error, ClientError::TypeMismatch { .. }));
}

#[test]
fn starting_a_round_twice_is_idempotent() {
    let istate = api_new_controller_state(parametrization(10));
    let mut mstate = ControllerStateMut::new();
    let mut leader = aggregator();
    let mut helper = aggregator();
    let sid = open_session(
        &istate.permanent.janus_tasks_client,
        &mut leader,
        &mut helper,
        &mut mstate,
        2,
    );
    let (task, request) = api_start_round_request(&istate, &mstate).unwrap();
    assert_eq!(start_round_at(&mut leader, &request).status, 200);
    assert_eq!(start_round_at(&mut leader, &request).status, 200);
    assert_eq!(leader.store.len(), 1);
    assert_eq!(leader.manager.get_session(TrainingSessionId(sid)).unwrap().tasks, vec![task]);
    assert_eq!(start_round_at(&mut leader, &request).status, 200);
    assert_eq!(leader.store.len(), 1);
    assert_eq!(leader.manager.get_session(TrainingSessionId(sid)).unwrap().tasks, vec![task]);
    assert_eq!(
        leader.manager.find_vdaf_parameter(&task).unwrap(),
        parametrization(10).vdaf_parameter
    );
}

#[test]
fn starting_a_round_with_other_parameters_does_not_overwrite() {
    let mut leader = aggregator();
    let first_client =
        JanusManagerClient::new(parametrization(10).location, parametrization(10).vdaf_parameter);
    let second_client =
        JanusManagerClient::new(parametrization(11).location, parametrization(11).vdaf_parameter);
    let key = "AAAAAAAAAAAAAAAAAAAAAA".to_string();
    leader
        .manager
        .create_session_with(
            first_client.session_request(Role::Leader, Some(TrainingSessionId(1)), &key),
            0,
            0,
        )
        .unwrap();
    leader
        .manager
        .create_session_with(
            second_client.session_request(Role::Leader, Some(TrainingSessionId(2)), &key),
            0,
            0,
        )
        .unwrap();
    let (task, first) = first_client.start_round_request(TrainingSessionId(1));
    let second = StartRoundRequest {
        training_session_id: TrainingSessionId(2),
        task_id_encoded: first.task_id_encoded.clone(),
    };
    assert_eq!(start_round_at(&mut leader, &first).status, 200);
    let error = start_round_steps(&mut leader, &second).unwrap_err();
    assert_eq!(error.kind, ManagerErrorKind::ParameterMismatch);
    assert_eq!(error.message(), "same verify key and task ID with different parameters");
    assert_eq!(start_round_at(&mut leader, &second).status, 400);
    assert_eq!(leader.store.len(), 1);
    assert_eq!(leader.store[0].vdaf.length, 10);
    assert!(leader.manager.get_session(TrainingSessionId(2)).unwrap().tasks.is_empty());
    assert_eq!(
        leader.manager.find_vdaf_parameter(&task).unwrap(),
        parametrization(10).vdaf_parameter
    );
}

#[test]
fn managers_with_different_parameters_stop_the_client() {
    let mut leader = aggregator();
    let mut helper = aggregator();
    let ten =
        JanusManagerClient::new(parametrization(10).location, parametrization(10).vdaf_parameter);
    let eleven =
        JanusManagerClient::new(parametrization(11).location, parametrization(11).vdaf_parameter);
    let key = "AAAAAAAAAAAAAAAAAAAAAA".to_string();
    leader
        .manager
        .create_session_with(
            ten.session_request(Role::Leader, Some(TrainingSessionId(7)), &key),
            0,
            0,
        )
        .unwrap();
    helper
        .manager
        .create_session_with(
            eleven.session_request(Role::Helper, Some(TrainingSessionId(7)), &key),
            0,
            0,
        )
        .unwrap();
    let (task, request) = ten.start_round_request(TrainingSessionId(7));
    assert_eq!(start_round_at(&mut leader, &request).status, 200);
    assert_eq!(start_round_at(&mut helper, &request).status, 200);
    let mut state = api_new_client_state(manager_locations());
    let settings = RoundSettings {
        task_id: task,
        time_precision: 3600,
        should_request_hpke_config: false,
    };
    let update = fetched(&mut leader, &mut helper, task);
    let error = api_update_client_round_settings(&mut state, settings, update).unwrap_err();
    assert_eq!(error, ClientError::VdafParametersDisagree);
    assert_eq!(error.message(), "leader and helper have different vdaf params");
    assert!(state.get_valid_state().is_none());
}
