use dpsa4fl::client::{
    api_new_client_state, api_submit, api_submit_with, api_submit_with_update, api_update_client_round_settings, get_parametrization,
    round_fetch, ClientError, ClientState, ClientStatePU, CryptoConfig, RoundFetch, RoundSettings,
    RoundUpdate,
};
use dpsa4fl::fixed::{
    Fixed16, Fixed32, Fixed64, FixedAny, FixedTypeTag, IsTagInstance, VecFixedAny,
};
use dpsa4fl::helpers::{task_id_to_string, TaskIdParseError};
use fixed::types::extra::{U15, U31, U63};
use fixed::{FixedI16, FixedI32, FixedI64};
use prio::vdaf::prio3::Prio3FixedPointBoundedL2VecSum;
use dpsa4fl::types::{
    CodecError, HpkeConfig, Locations, MainLocations, ManagerLocations,
    Prio3FixedPointBoundedL2VecSumBitSize, TaskId, VdafParameter, ZCdpBudget, AEAD_AES_128_GCM,
    KDF_HKDF_SHA256, KEM_X25519_HKDF_SHA256,
};

fn manager_locations() -> ManagerLocations {
    ManagerLocations {
        external_leader: "https://leader.example:9981/".to_string(),
        external_helper: "https://helper.example:9982/".to_string(),
    }
}

fn main_locations() -> MainLocations {
    MainLocations {
        external_leader: "https://leader.example/".to_string(),
        external_helper: "https://helper.example/".to_string(),
    }
}

fn vdaf_parameter(gradient_len: usize, tag: FixedTypeTag) -> VdafParameter {
    VdafParameter {
        gradient_len,
        privacy_parameter: ZCdpBudget {
            epsilon_numerator: vec![1],
            epsilon_denominator: vec![4],
        },
        submission_type: tag,
    }
}

fn crypto(first: u8) -> CryptoConfig {
    let config = |id: u8, byte: u8| HpkeConfig {
        id,
        kem_id: KEM_X25519_HKDF_SHA256,
        kdf_id: KDF_HKDF_SHA256,
        aead_id: AEAD_AES_128_GCM,
        public_key: vec![byte; 32],
    };
    CryptoConfig {
        leader_hpke_config: config(1, first),
        helper_hpke_config: config(2, first.wrapping_add(1)),
    }
}

fn settings(task: u8, refresh: bool) -> RoundSettings {
    RoundSettings {
        task_id: TaskId { bytes: [task; 32] },
        time_precision: 3600,
        should_request_hpke_config: refresh,
    }
}

fn everything(leader_len: usize, helper_len: usize) -> RoundUpdate {
    RoundUpdate::Everything {
        leader_locations: main_locations(),
        helper_locations: main_locations(),
        leader_parameter: vdaf_parameter(leader_len, FixedTypeTag::FixedType32Bit),
        helper_parameter: vdaf_parameter(helper_len, FixedTypeTag::FixedType32Bit),
        crypto: crypto(10),
    }
}

fn valid_wide_client(gradient_len: usize) -> ClientStatePU {
    let mut state = api_new_client_state(manager_locations());
    let update = RoundUpdate::Everything {
        leader_locations: main_locations(),
        helper_locations: main_locations(),
        leader_parameter: vdaf_parameter(gradient_len, FixedTypeTag::FixedType64Bit),
        helper_parameter: vdaf_parameter(gradient_len, FixedTypeTag::FixedType64Bit),
        crypto: crypto(10),
    };
    api_update_client_round_settings(&mut state, settings(1, false), update).unwrap();
    state
}

fn valid_client(gradient_len: usize) -> ClientStatePU {
    let mut state = api_new_client_state(manager_locations());
    api_update_client_round_settings(
        &mut state,
        settings(1, false),
        everything(gradient_len, gradient_len),
    )
    .unwrap();
    state
}

fn zeros32(n: usize) -> VecFixedAny {
    VecFixedAny::VecFixed32(vec![Fixed32(0); n])
}

#[test]
fn tags_name_the_three_widths() {
    assert_eq!(FixedTypeTag::FixedType16Bit.bit_size(), 16);
    assert_eq!(FixedTypeTag::FixedType32Bit.bit_size(), 32);
    assert_eq!(FixedTypeTag::FixedType64Bit.bit_size(), 64);
    assert_eq!(Fixed16::get_tag(), FixedTypeTag::FixedType16Bit);
    assert_eq!(Fixed32::get_tag(), FixedTypeTag::FixedType32Bit);
    assert_eq!(Fixed64::get_tag(), FixedTypeTag::FixedType64Bit);
    assert_eq!(FixedAny::Fixed16(Fixed16(-1)).get_tag(), FixedTypeTag::FixedType16Bit);
    assert_eq!(FixedAny::Fixed32(Fixed32(i32::MIN)).get_tag(), FixedTypeTag::FixedType32Bit);
    assert_eq!(FixedAny::Fixed64(Fixed64(i64::MAX)).get_tag(), FixedTypeTag::FixedType64Bit);
}

#[test]
fn vectors_know_their_width_and_length() {
    let narrow = VecFixedAny::VecFixed16(vec![Fixed16(1), Fixed16(2)]);
    let middle = VecFixedAny::VecFixed32(vec![Fixed32(1); 10]);
    let wide = VecFixedAny::VecFixed64(vec![]);
    assert_eq!(narrow.get_tag(), FixedTypeTag::FixedType16Bit);
    assert_eq!(middle.get_tag(), FixedTypeTag::FixedType32Bit);
    assert_eq!(wide.get_tag(), FixedTypeTag::FixedType64Bit);
    assert_eq!(narrow.len(), 2);
    assert_eq!(middle.len(), 10);
    assert_eq!(wide.len(), 0);
    let copy = middle.clone();
    assert_eq!(copy.get_tag(), FixedTypeTag::FixedType32Bit);
    assert_eq!(copy.len(), 10);
}

#[test]
fn round_settings_are_read_from_the_task_text() {
    let task = TaskId { bytes: [7u8; 32] };
    let settings = RoundSettings::new(task_id_to_string(task)).unwrap();
    assert_eq!(settings.task_id, task);
    assert_eq!(settings.time_precision, 3600);
    assert!(!settings.should_request_hpke_config);
    assert!(matches!(
        RoundSettings::new("?".to_string()),
        Err(TaskIdParseError::Base64(_))
    ));
    assert!(matches!(
        RoundSettings::new("AAAA".to_string()),
        Err(TaskIdParseError::Codec(CodecError::UnexpectedEof))
    ));
}

#[test]
fn a_new_client_knows_only_the_managers() {
    let state = api_new_client_state(manager_locations());
    assert!(state.get_valid_state().is_none());
    match &state {
        ClientStatePU::InitState(l) => assert_eq!(l, &manager_locations()),
        other => panic!("not the initial state: {:?}", other),
    }
    match round_fetch(&state, &settings(1, false)) {
        RoundFetch::Everything(l) => assert_eq!(l, manager_locations()),
        other => panic!("wrong fetch: {:?}", other),
    }
    match round_fetch(&state, &settings(1, true)) {
        RoundFetch::Everything(l) => assert_eq!(l, manager_locations()),
        other => panic!("wrong fetch: {:?}", other),
    }
}

#[test]
fn the_first_update_makes_the_client_valid() {
    let state = valid_client(10);
    let valid = state.get_valid_state().unwrap();
    assert_eq!(valid.parametrization.location.main, main_locations());
    assert_eq!(valid.parametrization.location.manager, manager_locations());
    assert_eq!(
        valid.parametrization.vdaf_parameter,
        vdaf_parameter(10, FixedTypeTag::FixedType32Bit)
    );
    assert_eq!(valid.round.config.settings.task_id, TaskId { bytes: [1u8; 32] });
    assert_eq!(valid.round.config.crypto.leader_hpke_config, crypto(10).leader_hpke_config);
    assert_eq!(valid.round.config.crypto.helper_hpke_config, crypto(10).helper_hpke_config);
    assert_eq!(
        valid.parametrization.location.get_external_aggregator_endpoints(),
        vec!["https://leader.example/".to_string(), "https://helper.example/".to_string()]
    );
}

#[test]
fn managers_that_disagree_on_parameters_stop_the_client() {
    let mut state = api_new_client_state(manager_locations());
    let error =
        api_update_client_round_settings(&mut state, settings(1, false), everything(10, 11))
            .unwrap_err();
    assert_eq!(error, ClientError::VdafParametersDisagree);
    assert_eq!(error.message(), "leader and helper have different vdaf params");
    assert!(state.get_valid_state().is_none());

    let differing_width = RoundUpdate::Everything {
        leader_locations: main_locations(),
        helper_locations: main_locations(),
        leader_parameter: vdaf_parameter(10, FixedTypeTag::FixedType32Bit),
        helper_parameter: vdaf_parameter(10, FixedTypeTag::FixedType16Bit),
        crypto: crypto(10),
    };
    assert_eq!(
        api_update_client_round_settings(&mut state, settings(1, false), differing_width),
        Err(ClientError::VdafParametersDisagree)
    );
    let mut other_budget = vdaf_parameter(10, FixedTypeTag::FixedType32Bit);
    other_budget.privacy_parameter.epsilon_numerator =
        vec![other_budget.privacy_parameter.epsilon_numerator[0] + 1];
    assert_eq!(
        get_parametrization(
            vdaf_parameter(10, FixedTypeTag::FixedType32Bit),
            other_budget,
            Locations { main: main_locations(), manager: manager_locations() }
        )
        .unwrap_err(),
        ClientError::VdafParametersDisagree
    );
}

#[test]
fn managers_that_disagree_on_locations_stop_the_client_first() {
    let mut state = api_new_client_state(manager_locations());
    let mut other = main_locations();
    other.external_helper = "https://other.example/".to_string();
    let update = RoundUpdate::Everything {
        leader_locations: main_locations(),
        helper_locations: other,
        leader_parameter: vdaf_parameter(10, FixedTypeTag::FixedType32Bit),
        helper_parameter: vdaf_parameter(11, FixedTypeTag::FixedType32Bit),
        crypto: crypto(10),
    };
    let error =
        api_update_client_round_settings(&mut state, settings(1, false), update).unwrap_err();
    assert_eq!(error, ClientError::MainLocationsDisagree);
    assert_eq!(error.message(), "leader and helper have different main locations");
    assert!(state.get_valid_state().is_none());
}

#[test]
fn an_uninitialized_client_needs_everything() {
    let mut state = api_new_client_state(manager_locations());
    assert_eq!(
        api_update_client_round_settings(&mut state, settings(1, false), RoundUpdate::Nothing),
        Err(ClientError::UnexpectedUpdate)
    );
    assert_eq!(
        api_update_client_round_settings(
            &mut state,
            settings(1, true),
            RoundUpdate::HpkeConfigs(crypto(1))
        ),
        Err(ClientError::UnexpectedUpdate)
    );
    assert!(state.get_valid_state().is_none());
    assert_eq!(
        ClientError::UnexpectedUpdate.message(),
        "the round update does not fit the client state"
    );
}

#[test]
fn later_updates_keep_the_keys_unless_asked() {
    let mut state = valid_client(10);
    assert!(matches!(round_fetch(&state, &settings(2, false)), RoundFetch::Nothing));
    api_update_client_round_settings(&mut state, settings(2, false), RoundUpdate::Nothing)
        .unwrap();
    {
        let valid = state.get_valid_state().unwrap();
        assert_eq!(valid.round.config.settings.task_id, TaskId { bytes: [2u8; 32] });
        assert_eq!(valid.round.config.crypto.leader_hpke_config, crypto(10).leader_hpke_config);
    }
    api_update_client_round_settings(
        &mut state,
        settings(3, false),
        RoundUpdate::HpkeConfigs(crypto(50)),
    )
    .unwrap();
    {
        let valid = state.get_valid_state().unwrap();
        assert_eq!(valid.round.config.settings.task_id, TaskId { bytes: [3u8; 32] });
        assert_eq!(valid.round.config.crypto.leader_hpke_config, crypto(10).leader_hpke_config);
    }
}

#[test]
fn later_updates_take_new_keys_when_asked() {
    let mut state = valid_client(10);
    match round_fetch(&state, &settings(2, true)) {
        RoundFetch::HpkeConfigs(l) => {
            assert_eq!(l.main, main_locations());
            assert_eq!(l.manager, manager_locations());
        }
        other => panic!("wrong fetch: {:?}", other),
    }
    api_update_client_round_settings(
        &mut state,
        settings(2, true),
        RoundUpdate::HpkeConfigs(crypto(50)),
    )
    .unwrap();
    let valid = state.get_valid_state().unwrap();
    assert_eq!(valid.round.config.settings.task_id, TaskId { bytes: [2u8; 32] });
    assert!(valid.round.config.settings.should_request_hpke_config);
    assert_eq!(valid.round.config.crypto.leader_hpke_config, crypto(50).leader_hpke_config);
    assert_eq!(valid.round.config.crypto.helper_hpke_config, crypto(50).helper_hpke_config);
    assert_eq!(
        valid.parametrization.vdaf_parameter,
        vdaf_parameter(10, FixedTypeTag::FixedType32Bit)
    );
}

#[test]
fn a_failed_later_update_changes_nothing() {
    let mut state = valid_client(10);
    assert_eq!(
        api_update_client_round_settings(&mut state, settings(2, true), RoundUpdate::Nothing),
        Err(ClientError::UnexpectedUpdate)
    );
    assert_eq!(
        api_update_client_round_settings(&mut state, settings(2, false), everything(10, 10)),
        Err(ClientError::UnexpectedUpdate)
    );
    let valid = state.get_valid_state().unwrap();
    assert_eq!(valid.round.config.settings.task_id, TaskId { bytes: [1u8; 32] });
    assert_eq!(valid.round.config.crypto.leader_hpke_config, crypto(10).leader_hpke_config);
}

#[test]
fn client_state_new_wants_everything() {
    assert!(ClientState::new(manager_locations(), settings(1, false), everything(3, 3)).is_ok());
    assert_eq!(
        ClientState::new(manager_locations(), settings(1, false), RoundUpdate::Nothing)
            .unwrap_err(),
        ClientError::UnexpectedUpdate
    );
}

#[test]
fn a_gradient_of_the_right_length_and_width_goes_out() {
    let state = valid_client(10);
    let valid = state.get_valid_state().unwrap();
    let submission = valid.get_submission_result(&zeros32(10)).unwrap();
    assert_eq!(submission.task_id, TaskId { bytes: [1u8; 32] });
    assert_eq!(submission.leader_endpoint, "https://leader.example/");
    assert_eq!(submission.helper_endpoint, "https://helper.example/");
    assert_eq!(submission.time_precision, 3600);
    assert_eq!(submission.vdaf.num_aggregators, 2);
    assert_eq!(submission.vdaf.length, 10);
    assert_eq!(submission.vdaf.bitsize, Prio3FixedPointBoundedL2VecSumBitSize::BitSize32);
    assert_eq!(submission.crypto.leader_hpke_config, crypto(10).leader_hpke_config);
    assert_eq!(submission.crypto.helper_hpke_config, crypto(10).helper_hpke_config);
    assert!(valid.get_submission_result_impl(&vec![Fixed32(5); 10]).is_ok());
}

#[test]
fn a_gradient_of_the_wrong_length_is_stopped() {
    let state = valid_client(10);
    let valid = state.get_valid_state().unwrap();
    let error = valid.get_submission_result(&zeros32(9)).unwrap_err();
    assert_eq!(error, ClientError::LengthMismatch { expected: 10, actual: 9 });
    assert_eq!(error.message(), "Expected data to have length 10 but it was 9");
    assert_eq!(
        valid.get_submission_result(&zeros32(11)).unwrap_err(),
        ClientError::LengthMismatch { expected: 10, actual: 11 }
    );
    assert_eq!(
        valid.get_submission_result(&zeros32(0)).unwrap_err(),
        ClientError::LengthMismatch { expected: 10, actual: 0 }
    );
}

#[test]
fn a_gradient_of_the_wrong_width_is_stopped() {
    let state = valid_client(10);
    let valid = state.get_valid_state().unwrap();
    let error = valid
        .get_submission_result(&VecFixedAny::VecFixed16(vec![Fixed16(0); 10]))
        .unwrap_err();
    assert_eq!(
        error,
        ClientError::TypeMismatch {
            submitted: FixedTypeTag::FixedType16Bit,
            registered: FixedTypeTag::FixedType32Bit
        }
    );
    assert_eq!(
        error.message(),
        "Tried to submit gradient with fixed type FixedType16Bit, but the task has been \
         registered for fixed type FixedType32Bit"
    );
}

#[test]
fn the_length_is_checked_before_the_width() {
    let state = valid_client(10);
    let valid = state.get_valid_state().unwrap();
    assert_eq!(
        valid
            .get_submission_result(&VecFixedAny::VecFixed64(vec![Fixed64(0); 9]))
            .unwrap_err(),
        ClientError::LengthMismatch { expected: 10, actual: 9 }
    );
    assert_eq!(
        valid
            .get_submission_result(&VecFixedAny::VecFixed64(vec![Fixed64(0); 10]))
            .unwrap_err(),
        ClientError::TypeMismatch {
            submitted: FixedTypeTag::FixedType64Bit,
            registered: FixedTypeTag::FixedType32Bit
        }
    );
    assert_eq!(
        valid.get_submission_result_impl(&vec![Fixed16(0); 10]).unwrap_err(),
        ClientError::TypeMismatch {
            submitted: FixedTypeTag::FixedType16Bit,
            registered: FixedTypeTag::FixedType32Bit
        }
    );
}

#[test]
fn submit_with_asks_for_the_gradient_of_the_round() {
    let state = valid_client(10);
    let (data, submission) = api_submit_with(&state, |p| {
        VecFixedAny::VecFixed32(vec![Fixed32(7); p.vdaf_parameter.gradient_len])
    })
    .unwrap();
    assert_eq!(data.len(), 10);
    assert_eq!(data.get_tag(), FixedTypeTag::FixedType32Bit);
    match data {
        VecFixedAny::VecFixed32(v) => assert_eq!(v, vec![Fixed32(7); 10]),
        other => panic!("wrong data: {:?}", other),
    }
    assert_eq!(submission.vdaf.length, 10);
    let short = api_submit_with(&state, |_| zeros32(3));
    assert_eq!(
        short.unwrap_err(),
        ClientError::LengthMismatch { expected: 10, actual: 3 }
    );
}

#[test]
fn submit_with_does_not_ask_an_uninitialized_client() {
    let state = api_new_client_state(manager_locations());
    let refused = api_submit_with(&state, |_| panic!("the gradient must not be asked for"));
    let error = refused.unwrap_err();
    assert_eq!(error, ClientError::Uninitialized);
    assert_eq!(error.message(), "the client has no round settings yet");
}

#[test]
fn submit_checks_a_gradient_that_is_at_hand() {
    let state = valid_client(10);
    assert_eq!(api_submit(&state, &zeros32(10)).unwrap().vdaf.length, 10);
    assert_eq!(
        api_submit(&state, &zeros32(9)).unwrap_err(),
        ClientError::LengthMismatch { expected: 10, actual: 9 }
    );
    let fresh = api_new_client_state(manager_locations());
    assert_eq!(api_submit(&fresh, &zeros32(10)).unwrap_err(), ClientError::Uninitialized);
}

#[test]
fn the_aggregation_function_is_that_of_the_vdaf_crate() {
    for aggregators in [0u8, 1, 2, 3, 254, 255] {
        for entries in [0usize, 1, 2, 3, 4, 5, 10, 1000] {
            assert_eq!(
                FixedTypeTag::FixedType16Bit.vdaf_accepts(aggregators, entries),
                Prio3FixedPointBoundedL2VecSum::<FixedI16<U15>>::new_fixedpoint_boundedl2_vec_sum(
                    aggregators,
                    entries
                )
                .is_ok()
            );
            assert_eq!(
                Fixed32::vdaf_accepts(aggregators, entries),
                Prio3FixedPointBoundedL2VecSum::<FixedI32<U31>>::new_fixedpoint_boundedl2_vec_sum(
                    aggregators,
                    entries
                )
                .is_ok()
            );
            assert_eq!(
                FixedTypeTag::FixedType64Bit.vdaf_accepts(aggregators, entries),
                Prio3FixedPointBoundedL2VecSum::<FixedI64<U63>>::new_fixedpoint_boundedl2_vec_sum(
                    aggregators,
                    entries
                )
                .is_ok()
            );
        }
    }
}

#[test]
fn the_aggregation_function_has_its_limits() {
    assert!(FixedTypeTag::FixedType16Bit.vdaf_accepts(2, 10));
    assert!(FixedTypeTag::FixedType32Bit.vdaf_accepts(2, 10));
    assert!(FixedTypeTag::FixedType64Bit.vdaf_accepts(2, 3));
    assert!(!FixedTypeTag::FixedType64Bit.vdaf_accepts(2, 4));
    assert!(!FixedTypeTag::FixedType64Bit.vdaf_accepts(2, 10));
    assert!(!FixedTypeTag::FixedType32Bit.vdaf_accepts(0, 10));
    assert!(!FixedTypeTag::FixedType32Bit.vdaf_accepts(255, 10));
    assert!(FixedTypeTag::FixedType16Bit.vdaf_accepts(2, usize::MAX / 128));
    assert!(!FixedTypeTag::FixedType16Bit.vdaf_accepts(2, usize::MAX / 128 + 1));
    assert!(!Fixed16::vdaf_accepts(2, usize::MAX));
    assert!(Fixed64::vdaf_accepts(2, 1));
}

#[test]
fn a_gradient_without_aggregation_function_is_stopped() {
    let state = valid_wide_client(3);
    let valid = state.get_valid_state().unwrap();
    let wide = |n: usize| VecFixedAny::VecFixed64(vec![Fixed64(0); n]);
    assert_eq!(valid.get_submission_result(&wide(3)).unwrap().vdaf.length, 3);
    let state = valid_wide_client(4);
    let valid = state.get_valid_state().unwrap();
    let error = valid.get_submission_result(&wide(4)).unwrap_err();
    assert_eq!(error, ClientError::VdafUnavailable);
    assert_eq!(error.message(), "The aggregation function cannot be had for these parameters");
    assert_eq!(
        valid.get_submission_result(&wide(3)).unwrap_err(),
        ClientError::LengthMismatch { expected: 4, actual: 3 }
    );
    assert_eq!(
        valid.get_submission_result(&zeros32(4)).unwrap_err(),
        ClientError::TypeMismatch {
            submitted: FixedTypeTag::FixedType32Bit,
            registered: FixedTypeTag::FixedType64Bit
        }
    );
}

#[test]
fn a_copied_vector_holds_the_same_elements() {
    let narrow = VecFixedAny::VecFixed16(vec![Fixed16(1), Fixed16(-2), Fixed16(i16::MIN)]);
    match narrow.clone() {
        VecFixedAny::VecFixed16(v) => {
            assert_eq!(v, vec![Fixed16(1), Fixed16(-2), Fixed16(i16::MIN)])
        }
        other => panic!("wrong copy: {:?}", other),
    }
    let middle = VecFixedAny::VecFixed32(vec![Fixed32(7), Fixed32(i32::MAX)]);
    match middle.clone() {
        VecFixedAny::VecFixed32(v) => assert_eq!(v, vec![Fixed32(7), Fixed32(i32::MAX)]),
        other => panic!("wrong copy: {:?}", other),
    }
    let wide = VecFixedAny::VecFixed64(vec![Fixed64(-1)]);
    match wide.clone() {
        VecFixedAny::VecFixed64(v) => assert_eq!(v, vec![Fixed64(-1)]),
        other => panic!("wrong copy: {:?}", other),
    }
}

#[test]
fn submit_with_update_takes_up_the_round_first() {
    let mut state = api_new_client_state(manager_locations());
    let (data, submission) = api_submit_with_update(
        &mut state,
        settings(5, false),
        everything(10, 10),
        |p| VecFixedAny::VecFixed32(vec![Fixed32(1); p.vdaf_parameter.gradient_len]),
    )
    .unwrap();
    assert_eq!(data.len(), 10);
    assert_eq!(submission.task_id, TaskId { bytes: [5u8; 32] });
    assert!(state.get_valid_state().is_some());
    let (_, submission) =
        api_submit_with_update(&mut state, settings(6, false), RoundUpdate::Nothing, |_| {
            zeros32(10)
        })
        .unwrap();
    assert_eq!(submission.task_id, TaskId { bytes: [6u8; 32] });
    let short =
        api_submit_with_update(&mut state, settings(7, false), RoundUpdate::Nothing, |_| {
            zeros32(9)
        });
    assert_eq!(short.unwrap_err(), ClientError::LengthMismatch { expected: 10, actual: 9 });
    assert_eq!(
        state.get_valid_state().unwrap().round.config.settings.task_id,
        TaskId { bytes: [7u8; 32] }
    );
}

#[test]
fn submit_with_update_does_not_ask_when_the_update_fails() {
    let mut state = api_new_client_state(manager_locations());
    let refused = api_submit_with_update(
        &mut state,
        settings(1, false),
        everything(10, 11),
        |_| panic!("the gradient must not be asked for"),
    );
    assert_eq!(refused.unwrap_err(), ClientError::VdafParametersDisagree);
    assert!(state.get_valid_state().is_none());
    let mut state = valid_client(10);
    let refused =
        api_submit_with_update(&mut state, settings(2, true), RoundUpdate::Nothing, |_| {
            panic!("the gradient must not be asked for")
        });
    assert_eq!(refused.unwrap_err(), ClientError::UnexpectedUpdate);
    assert_eq!(
        state.get_valid_state().unwrap().round.config.settings.task_id,
        TaskId { bytes: [1u8; 32] }
    );
}

#[test]
fn managers_may_write_one_budget_in_two_ways() {
    let mut leader = vdaf_parameter(10, FixedTypeTag::FixedType32Bit);
    leader.privacy_parameter.epsilon_numerator = vec![2];
    leader.privacy_parameter.epsilon_denominator = vec![32];
    let mut helper = vdaf_parameter(10, FixedTypeTag::FixedType32Bit);
    helper.privacy_parameter.epsilon_numerator = vec![1];
    helper.privacy_parameter.epsilon_denominator = vec![16];
    let agreed = get_parametrization(
        leader,
        helper,
        Locations { main: main_locations(), manager: manager_locations() },
    )
    .unwrap();
    assert_eq!(agreed.vdaf_parameter.privacy_parameter.epsilon_numerator, vec![2]);
    assert_eq!(agreed.vdaf_parameter.privacy_parameter.epsilon_denominator, vec![32]);
    assert_eq!(agreed.vdaf_parameter.gradient_len, 10);
}
