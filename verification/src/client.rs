//! The client: what it knows of a round, how it comes to know it, and what
//! it checks before it submits a gradient.

use vstd::prelude::*;
use vstd::string::*;
use crate::fixed::{
    lemma_vdaf_available,
    vdaf_available,
    Fixed16,
    Fixed32,
    Fixed64,
    FixedTypeTag,
    IsTagInstance,
    VecFixedAny,
};
use crate::helpers::{task_id_from_string, task_id_of_text, TaskIdParseError};
use crate::manager::consumer::get_main_locations;
use crate::manager::implementation::TIME_PRECISION;
use crate::outside::base64url_decoding;
use crate::text::{decimal_string, decimal_text, join3};
use crate::types::{
    same_vdaf_parameter,
    task_id_decoding,
    vdaf_instance_of,
    CodecError,
    CommonStateParametrization,
    CommonStateParametrizationView,
    EndpointPair,
    HpkeConfig,
    HpkeConfigView,
    Locations,
    LocationsView,
    MainLocations,
    ManagerLocations,
    TaskId,
    VdafInstance,
    VdafInstanceView,
    VdafParameter,
    VdafParameterView,
};

verus! {

/// Why the client does not go on.
#[derive(Clone, Copy, Debug, PartialEq, Eq, Structural)]
pub enum ClientError {
    /// The client has not been told of any round yet.
    Uninitialized,
    /// The managers name different aggregators.
    MainLocationsDisagree,
    /// The managers give different parameters for the task.
    VdafParametersDisagree,
    /// What was fetched is not what the client's state asks for.
    UnexpectedUpdate,
    /// The gradient does not have the length that the task asks for.
    LengthMismatch { expected: usize, actual: usize },
    /// The gradient's elements do not have the width that the task asks for.
    TypeMismatch { submitted: FixedTypeTag, registered: FixedTypeTag },
    /// The aggregation function cannot be had for the task's parameters.
    VdafUnavailable,
}

/// The name of a width tag.
pub open spec fn tag_text(tag: FixedTypeTag) -> Seq<char> {
    match tag {
        FixedTypeTag::FixedType16Bit => "FixedType16Bit"@,
        FixedTypeTag::FixedType32Bit => "FixedType32Bit"@,
        FixedTypeTag::FixedType64Bit => "FixedType64Bit"@,
    }
}

/// The name of a width tag.
fn tag_name(tag: FixedTypeTag) -> (name: &'static str)
    ensures
        name@ == tag_text(tag),
{
    match tag {
        FixedTypeTag::FixedType16Bit => "FixedType16Bit",
        FixedTypeTag::FixedType32Bit => "FixedType32Bit",
        FixedTypeTag::FixedType64Bit => "FixedType64Bit",
    }
}

/// What is said of an error.
pub open spec fn client_error_text(error: ClientError) -> Seq<char> {
    match error {
        ClientError::Uninitialized => "the client has no round settings yet"@,
        ClientError::MainLocationsDisagree =>
            "leader and helper have different main locations"@,
        ClientError::VdafParametersDisagree => "leader and helper have different vdaf params"@,
        ClientError::UnexpectedUpdate => "the round update does not fit the client state"@,
        ClientError::LengthMismatch { expected, actual } => "Expected data to have length "@
            + decimal_text(expected as nat) + " but it was "@ + decimal_text(actual as nat),
        ClientError::TypeMismatch { submitted, registered } =>
            "Tried to submit gradient with fixed type "@ + tag_text(submitted)
                + ", but the task has been registered for fixed type "@ + tag_text(registered),
        ClientError::VdafUnavailable =>
            "The aggregation function cannot be had for these parameters"@,
    }
}

impl ClientError {
    /// What is said of the error.
    pub fn message(&self) -> (text: String)
        ensures
            text@ == client_error_text(*self),
    {
        match self {
            ClientError::Uninitialized => String::from_str("the client has no round settings yet"),
            ClientError::MainLocationsDisagree => String::from_str(
                "leader and helper have different main locations",
            ),
            ClientError::VdafParametersDisagree => String::from_str(
                "leader and helper have different vdaf params",
            ),
            ClientError::UnexpectedUpdate => String::from_str(
                "the round update does not fit the client state",
            ),
            ClientError::LengthMismatch { expected, actual } => {
                let expected_text = decimal_string(*expected as u64);
                let actual_text = decimal_string(*actual as u64);
                let mut text = join3(
                    "Expected data to have length ",
                    expected_text.as_str(),
                    " but it was ",
                );
                text.append(actual_text.as_str());
                text
            },
            ClientError::TypeMismatch { submitted, registered } => {
                let mut text = join3(
                    "Tried to submit gradient with fixed type ",
                    tag_name(*submitted),
                    ", but the task has been registered for fixed type ",
                );
                text.append(tag_name(*registered));
                text
            },
            ClientError::VdafUnavailable => String::from_str(
                "The aggregation function cannot be had for these parameters",
            ),
        }
    }
}

/// What the controller tells the clients of a round.
#[derive(Clone, Copy, Debug)]
pub struct RoundSettings {
    /// The task that gradients of the round are submitted to.
    pub task_id: TaskId,
    /// The granularity of report timestamps, in seconds.
    pub time_precision: u64,
    /// Whether the client is to fetch the aggregators' keys anew.
    pub should_request_hpke_config: bool,
}

impl RoundSettings {
    /// The settings of the round whose task `task_id_base64` names: with
    /// the usual time precision, and without fetching keys anew.
    pub fn new(task_id_base64: String) -> (settings: Result<RoundSettings, TaskIdParseError>)
        ensures
            match settings {
                Ok(s) => {
                    &&& task_id_of_text(task_id_base64@) == Some(s.task_id@)
                    &&& s.time_precision == TIME_PRECISION
                    &&& !s.should_request_hpke_config
                },
                Err(TaskIdParseError::Base64(_)) => base64url_decoding(task_id_base64@) is None,
                Err(TaskIdParseError::Codec(e)) => {
                    &&& base64url_decoding(task_id_base64@) matches Some(bytes)
                    &&& task_id_decoding(bytes) == Err::<Seq<u8>, CodecError>(e)
                },
            },
    {
        match task_id_from_string(task_id_base64) {
            Ok(task_id) => Ok(
                RoundSettings {
                    task_id,
                    time_precision: TIME_PRECISION,
                    should_request_hpke_config: false,
                },
            ),
            Err(e) => Err(e),
        }
    }
}

/// The keys of the two aggregators, which gradients are encrypted to.
#[derive(Debug)]
pub struct CryptoConfig {
    pub leader_hpke_config: HpkeConfig,
    pub helper_hpke_config: HpkeConfig,
}

/// What a [`CryptoConfig`] holds.
pub struct CryptoConfigView {
    pub leader_hpke_config: HpkeConfigView,
    pub helper_hpke_config: HpkeConfigView,
}

impl View for CryptoConfig {
    type V = CryptoConfigView;

    open spec fn view(&self) -> CryptoConfigView {
        CryptoConfigView {
            leader_hpke_config: self.leader_hpke_config@,
            helper_hpke_config: self.helper_hpke_config@,
        }
    }
}

impl Clone for CryptoConfig {
    fn clone(&self) -> (copy: CryptoConfig)
        ensures
            copy@ == self@,
    {
        CryptoConfig {
            leader_hpke_config: self.leader_hpke_config.clone(),
            helper_hpke_config: self.helper_hpke_config.clone(),
        }
    }
}

/// All that a client needs to know of a round to submit to it.
#[derive(Debug)]
pub struct RoundConfig {
    pub settings: RoundSettings,
    pub crypto: CryptoConfig,
}

/// What a client keeps for one round.
#[derive(Debug)]
pub struct ClientStateRound {
    pub config: RoundConfig,
}

/// What a client that has been told of a round knows.
#[derive(Debug)]
pub struct ClientState {
    pub parametrization: CommonStateParametrization,
    pub round: ClientStateRound,
}

/// What a [`ClientState`] holds.
pub struct ClientStateView {
    pub parametrization: CommonStateParametrizationView,
    pub settings: RoundSettings,
    pub crypto: CryptoConfigView,
}

impl View for ClientState {
    type V = ClientStateView;

    open spec fn view(&self) -> ClientStateView {
        ClientStateView {
            parametrization: self.parametrization@,
            settings: self.round.config.settings,
            crypto: self.round.config.crypto@,
        }
    }
}

/// A client, which may not have been told of any round yet.
#[derive(Debug)]
pub enum ClientStatePU {
    /// The client knows its round.
    ValidState(ClientState),
    /// The client knows only where the managers are.
    InitState(ManagerLocations),
}

/// What a [`ClientStatePU`] holds.
pub enum ClientStatePUView {
    ValidState(ClientStateView),
    InitState(EndpointPair),
}

impl View for ClientStatePU {
    type V = ClientStatePUView;

    open spec fn view(&self) -> ClientStatePUView {
        match self {
            ClientStatePU::ValidState(state) => ClientStatePUView::ValidState(state@),
            ClientStatePU::InitState(locations) => ClientStatePUView::InitState(locations@),
        }
    }
}

impl ClientStatePU {
    /// What the client knows of its round, if it has been told of one.
    pub fn get_valid_state(&self) -> (state: Option<&ClientState>)
        ensures
            match state {
                Some(state) => self@ == ClientStatePUView::ValidState(state@),
                None => self@ is InitState,
            },
    {
        match self {
            ClientStatePU::ValidState(s) => Some(s),
            ClientStatePU::InitState(_) => None,
        }
    }
}

/// What a client is to fetch before it can take up the settings of a
/// round.
#[derive(Debug)]
pub enum RoundFetch {
    /// The aggregators' addresses and the task's parameters from both
    /// managers, then the aggregators' keys.
    Everything(ManagerLocations),
    /// The aggregators' keys.
    HpkeConfigs(Locations),
    /// Nothing.
    Nothing,
}

/// What a [`RoundFetch`] holds.
pub enum RoundFetchView {
    Everything(EndpointPair),
    HpkeConfigs(LocationsView),
    Nothing,
}

impl View for RoundFetch {
    type V = RoundFetchView;

    open spec fn view(&self) -> RoundFetchView {
        match self {
            RoundFetch::Everything(locations) => RoundFetchView::Everything(locations@),
            RoundFetch::HpkeConfigs(locations) => RoundFetchView::HpkeConfigs(locations@),
            RoundFetch::Nothing => RoundFetchView::Nothing,
        }
    }
}

/// What a client has fetched for the settings of a round.
#[derive(Debug)]
pub enum RoundUpdate {
    /// What a client without a round fetched.
    Everything {
        leader_locations: MainLocations,
        helper_locations: MainLocations,
        leader_parameter: VdafParameter,
        helper_parameter: VdafParameter,
        crypto: CryptoConfig,
    },
    /// The aggregators' keys, fetched anew.
    HpkeConfigs(CryptoConfig),
    /// Nothing.
    Nothing,
}

/// What a [`RoundUpdate`] holds.
pub enum RoundUpdateView {
    Everything {
        leader_locations: EndpointPair,
        helper_locations: EndpointPair,
        leader_parameter: VdafParameterView,
        helper_parameter: VdafParameterView,
        crypto: CryptoConfigView,
    },
    HpkeConfigs(CryptoConfigView),
    Nothing,
}

impl View for RoundUpdate {
    type V = RoundUpdateView;

    open spec fn view(&self) -> RoundUpdateView {
        match self {
            RoundUpdate::Everything {
                leader_locations,
                helper_locations,
                leader_parameter,
                helper_parameter,
                crypto,
            } => RoundUpdateView::Everything {
                leader_locations: leader_locations@,
                helper_locations: helper_locations@,
                leader_parameter: leader_parameter@,
                helper_parameter: helper_parameter@,
                crypto: crypto@,
            },
            RoundUpdate::HpkeConfigs(crypto) => RoundUpdateView::HpkeConfigs(crypto@),
            RoundUpdate::Nothing => RoundUpdateView::Nothing,
        }
    }
}

/// What the client in the state `state` is to fetch for `settings`: all,
/// where it has no round yet; the keys, where it has one and the settings
/// ask for them; else nothing.
pub open spec fn round_fetch_of(state: ClientStatePUView, settings: RoundSettings) -> RoundFetchView {
    match state {
        ClientStatePUView::InitState(locations) => RoundFetchView::Everything(locations),
        ClientStatePUView::ValidState(valid) => if settings.should_request_hpke_config {
            RoundFetchView::HpkeConfigs(valid.parametrization.location)
        } else {
            RoundFetchView::Nothing
        },
    }
}

/// The state of the client after it took up `settings` with what it
/// fetched, or why it did not. A client without a round takes what both
/// managers agree on, the addresses first and the parameters next; a
/// client with a round keeps its parameters, takes the new keys where the
/// settings ask for them, and keeps the keys it has where they do not.
pub open spec fn round_update_of(
    state: ClientStatePUView,
    settings: RoundSettings,
    update: RoundUpdateView,
) -> Result<ClientStateView, ClientError> {
    match (state, update) {
        (
            ClientStatePUView::InitState(manager),
            RoundUpdateView::Everything {
                leader_locations,
                helper_locations,
                leader_parameter,
                helper_parameter,
                crypto,
            },
        ) => if leader_locations != helper_locations {
            Err(ClientError::MainLocationsDisagree)
        } else if !same_vdaf_parameter(leader_parameter, helper_parameter) {
            Err(ClientError::VdafParametersDisagree)
        } else {
            Ok(
                ClientStateView {
                    parametrization: CommonStateParametrizationView {
                        location: LocationsView { main: leader_locations, manager },
                        vdaf_parameter: leader_parameter,
                    },
                    settings,
                    crypto,
                },
            )
        },
        (ClientStatePUView::ValidState(valid), RoundUpdateView::HpkeConfigs(crypto)) => {
            if settings.should_request_hpke_config {
                Ok(ClientStateView { settings, crypto, ..valid })
            } else {
                Ok(ClientStateView { settings, ..valid })
            }
        },
        (ClientStatePUView::ValidState(valid), RoundUpdateView::Nothing) => {
            if settings.should_request_hpke_config {
                Err(ClientError::UnexpectedUpdate)
            } else {
                Ok(ClientStateView { settings, ..valid })
            }
        },
        _ => Err(ClientError::UnexpectedUpdate),
    }
}

/// What both managers say the parameters of a task are, with the
/// addresses: their answer, if it is one and the same. The budgets are
/// compared as fractions; the leader's answer is the one that is kept.
pub fn get_parametrization(
    leader_param: VdafParameter,
    helper_param: VdafParameter,
    l: Locations,
) -> (parametrization: Result<CommonStateParametrization, ClientError>)
    ensures
        match parametrization {
            Ok(p) => {
                &&& same_vdaf_parameter(leader_param@, helper_param@)
                &&& p@.location == l@
                &&& p@.vdaf_parameter == leader_param@
            },
            Err(e) => !same_vdaf_parameter(leader_param@, helper_param@) && e
                == ClientError::VdafParametersDisagree,
        },
{
    if leader_param == helper_param {
        Ok(CommonStateParametrization { location: l, vdaf_parameter: leader_param })
    } else {
        Err(ClientError::VdafParametersDisagree)
    }
}

impl ClientState {
    /// The state of a client that has fetched all for its first round.
    pub fn new(
        manager_locations: ManagerLocations,
        round_settings: RoundSettings,
        update: RoundUpdate,
    ) -> (state: Result<ClientState, ClientError>)
        ensures
            match state {
                Ok(s) => round_update_of(
                    ClientStatePUView::InitState(manager_locations@),
                    round_settings,
                    update@,
                ) == Ok::<ClientStateView, ClientError>(s@),
                Err(e) => round_update_of(
                    ClientStatePUView::InitState(manager_locations@),
                    round_settings,
                    update@,
                ) == Err::<ClientStateView, ClientError>(e),
            },
    {
        match update {
            RoundUpdate::Everything {
                leader_locations,
                helper_locations,
                leader_parameter,
                helper_parameter,
                crypto,
            } => {
                let main_locations = match get_main_locations(leader_locations, helper_locations) {
                    Ok(main) => main,
                    Err(_) => {
                        return Err(ClientError::MainLocationsDisagree);
                    },
                };
                let locations = Locations { main: main_locations, manager: manager_locations };
                let parametrization = match get_parametrization(
                    leader_parameter,
                    helper_parameter,
                    locations,
                ) {
                    Ok(p) => p,
                    Err(e) => {
                        return Err(e);
                    },
                };
                Ok(
                    ClientState {
                        parametrization,
                        round: ClientStateRound {
                            config: RoundConfig { settings: round_settings, crypto },
                        },
                    },
                )
            },
            _ => Err(ClientError::UnexpectedUpdate),
        }
    }

    /// Takes up the settings of the next round: with the keys fetched anew,
    /// where the settings ask for them, and with the keys of the round
    /// before, where they do not. The parameters stay. Where the keys are
    /// asked for and were not fetched, nothing changes.
    pub fn update_to_next_round_config(
        &mut self,
        round_settings: RoundSettings,
        update: RoundUpdate,
    ) -> (updated: Result<(), ClientError>)
        ensures
            match updated {
                Ok(_) => round_update_of(
                    ClientStatePUView::ValidState(old(self)@),
                    round_settings,
                    update@,
                ) == Ok::<ClientStateView, ClientError>(final(self)@),
                Err(e) => {
                    &&& round_update_of(
                        ClientStatePUView::ValidState(old(self)@),
                        round_settings,
                        update@,
                    ) == Err::<ClientStateView, ClientError>(e)
                    &&& final(self)@ == old(self)@
                },
            },
    {
        match update {
            RoundUpdate::HpkeConfigs(crypto) => {
                if round_settings.should_request_hpke_config {
                    self.round.config.crypto = crypto;
                }
                self.round.config.settings = round_settings;
                Ok(())
            },
            RoundUpdate::Nothing => {
                if round_settings.should_request_hpke_config {
                    Err(ClientError::UnexpectedUpdate)
                } else {
                    self.round.config.settings = round_settings;
                    Ok(())
                }
            },
            RoundUpdate::Everything { .. } => Err(ClientError::UnexpectedUpdate),
        }
    }
}

/// All that an upload needs beside the gradient: the task, where the
/// aggregators are and their keys, the time precision, and the aggregation
/// function to shard the gradient with.
#[derive(Debug)]
pub struct Submission {
    pub task_id: TaskId,
    pub leader_endpoint: String,
    pub helper_endpoint: String,
    pub time_precision: u64,
    pub vdaf: VdafInstance,
    pub crypto: CryptoConfig,
}

/// What a [`Submission`] holds.
pub struct SubmissionView {
    pub task_id: Seq<u8>,
    pub leader_endpoint: Seq<char>,
    pub helper_endpoint: Seq<char>,
    pub time_precision: u64,
    pub vdaf: VdafInstanceView,
    pub crypto: CryptoConfigView,
}

impl View for Submission {
    type V = SubmissionView;

    open spec fn view(&self) -> SubmissionView {
        SubmissionView {
            task_id: self.task_id@,
            leader_endpoint: self.leader_endpoint@,
            helper_endpoint: self.helper_endpoint@,
            time_precision: self.time_precision,
            vdaf: self.vdaf@,
            crypto: self.crypto@,
        }
    }
}

/// What submitting a gradient of `len` elements of the width `tag` comes
/// to for a client in the state `state`: the gradient goes out only if it
/// has the length and the width that the task asks for, and if the
/// aggregation function can be had for them. The length is checked first,
/// the width next.
pub open spec fn submission_of(state: ClientStateView, tag: FixedTypeTag, len: nat) -> Result<
    SubmissionView,
    ClientError,
> {
    let parameter = state.parametrization.vdaf_parameter;
    if len != parameter.gradient_len {
        Err(
            ClientError::LengthMismatch {
                expected: parameter.gradient_len as usize,
                actual: len as usize,
            },
        )
    } else if tag != parameter.submission_type {
        Err(ClientError::TypeMismatch { submitted: tag, registered: parameter.submission_type })
    } else if !vdaf_available(tag, 2, len) {
        Err(ClientError::VdafUnavailable)
    } else {
        Ok(
            SubmissionView {
                task_id: state.settings.task_id@,
                leader_endpoint: state.parametrization.location.main.external_leader,
                helper_endpoint: state.parametrization.location.main.external_helper,
                time_precision: state.settings.time_precision,
                vdaf: vdaf_instance_of(parameter),
                crypto: state.crypto,
            },
        )
    }
}

impl ClientState {
    /// Checks a gradient whose elements are of the type `Fx`; see
    /// [`Self::get_submission_result`].
    pub fn get_submission_result_impl<Fx: IsTagInstance>(&self, measurement: &Vec<Fx>) -> (checked:
        Result<Submission, ClientError>)
        ensures
            match checked {
                Ok(s) => submission_of(self@, Fx::tag(), measurement@.len()) == Ok::<
                    SubmissionView,
                    ClientError,
                >(s@),
                Err(e) => submission_of(self@, Fx::tag(), measurement@.len()) == Err::<
                    SubmissionView,
                    ClientError,
                >(e),
            },
    {
        let actual_len: usize = measurement.len();
        let expected_len: usize = self.parametrization.vdaf_parameter.gradient_len;
        if actual_len != expected_len {
            return Err(ClientError::LengthMismatch { expected: expected_len, actual: actual_len });
        }
        let aggregator_tag = self.parametrization.vdaf_parameter.submission_type;
        let submitted_tag = Fx::get_tag();
        if submitted_tag != aggregator_tag {
            return Err(
                ClientError::TypeMismatch { submitted: submitted_tag, registered: aggregator_tag },
            );
        }
        if !Fx::vdaf_accepts(2, expected_len) {
            return Err(ClientError::VdafUnavailable);
        }
        Ok(
            Submission {
                task_id: self.round.config.settings.task_id,
                leader_endpoint: self.parametrization.location.main.external_leader.clone(),
                helper_endpoint: self.parametrization.location.main.external_helper.clone(),
                time_precision: self.round.config.settings.time_precision,
                vdaf: self.parametrization.vdaf_parameter.to_vdaf_instance(),
                crypto: self.round.config.crypto.clone(),
            },
        )
    }

    /// Checks a gradient before anything is sent: it must have the length
    /// and the element width that the task asks for. Gives what the upload
    /// needs, or says which of the two is wrong.
    pub fn get_submission_result(&self, measurement: &VecFixedAny) -> (checked: Result<
        Submission,
        ClientError,
    >)
        ensures
            match checked {
                Ok(s) => submission_of(self@, measurement.tag(), measurement.spec_len()) == Ok::<
                    SubmissionView,
                    ClientError,
                >(s@),
                Err(e) => submission_of(self@, measurement.tag(), measurement.spec_len()) == Err::<
                    SubmissionView,
                    ClientError,
                >(e),
            },
    {
        match measurement {
            VecFixedAny::VecFixed16(v) => self.get_submission_result_impl::<Fixed16>(v),
            VecFixedAny::VecFixed32(v) => self.get_submission_result_impl::<Fixed32>(v),
            VecFixedAny::VecFixed64(v) => self.get_submission_result_impl::<Fixed64>(v),
        }
    }
}

/// A gradient goes out only if it has the length and the element width of
/// the task; one of another length or width stops the client with the error
/// that says so, before anything is sent. A gradient of the task's length
/// and width goes out if its elements have 16 or 32 bits and its length
/// keeps the arithmetic within `usize`, or if its elements have 64 bits and
/// there are no more than three of them.
pub proof fn lemma_submission_checked(state: ClientStateView, tag: FixedTypeTag, len: nat)
    ensures
        submission_of(state, tag, len) is Ok ==> len
            == state.parametrization.vdaf_parameter.gradient_len && tag
            == state.parametrization.vdaf_parameter.submission_type,
        len == state.parametrization.vdaf_parameter.gradient_len && tag
            == state.parametrization.vdaf_parameter.submission_type ==> (submission_of(
            state,
            tag,
            len,
        ) is Ok <==> if tag == FixedTypeTag::FixedType64Bit {
            len <= 3
        } else {
            len <= usize::MAX / 128
        }),
        len != state.parametrization.vdaf_parameter.gradient_len ==> submission_of(state, tag, len)
            matches Err(ClientError::LengthMismatch { .. }),
        len == state.parametrization.vdaf_parameter.gradient_len && tag
            != state.parametrization.vdaf_parameter.submission_type ==> submission_of(
            state,
            tag,
            len,
        ) matches Err(ClientError::TypeMismatch { .. }),
{
    lemma_vdaf_available(tag, len);
}

/// A client that knows where the managers are and nothing else.
pub fn api_new_client_state(p: ManagerLocations) -> (state: ClientStatePU)
    ensures
        state@ == ClientStatePUView::InitState(p@),
{
    ClientStatePU::InitState(p)
}

/// What the client is to fetch before it takes up `round_settings`.
pub fn round_fetch(s: &ClientStatePU, round_settings: &RoundSettings) -> (fetch: RoundFetch)
    ensures
        fetch@ == round_fetch_of(s@, *round_settings),
{
    match s {
        ClientStatePU::InitState(locations) => RoundFetch::Everything(locations.clone()),
        ClientStatePU::ValidState(state) => if round_settings.should_request_hpke_config {
            RoundFetch::HpkeConfigs(state.parametrization.location.clone())
        } else {
            RoundFetch::Nothing
        },
    }
}

/// Takes up the settings of a round with what was fetched for them. After
/// the first success the client knows its round, and stays so. Where the
/// update fails, the client is as it was.
pub fn api_update_client_round_settings(
    s: &mut ClientStatePU,
    round_settings: RoundSettings,
    update: RoundUpdate,
) -> (updated: Result<(), ClientError>)
    ensures
        match updated {
            Ok(_) => {
                &&& final(s)@ is ValidState
                &&& round_update_of(old(s)@, round_settings, update@) == Ok::<
                    ClientStateView,
                    ClientError,
                >(final(s)@->ValidState_0)
            },
            Err(e) => {
                &&& round_update_of(old(s)@, round_settings, update@) == Err::<
                    ClientStateView,
                    ClientError,
                >(e)
                &&& final(s)@ == old(s)@
            },
        },
        old(s)@ is ValidState ==> final(s)@ is ValidState,
{
    match s {
        ClientStatePU::InitState(manager_locations) => {
            match ClientState::new(manager_locations.clone(), round_settings, update) {
                Ok(client_state) => {
                    *s = ClientStatePU::ValidState(client_state);
                    Ok(())
                },
                Err(e) => Err(e),
            }
        },
        ClientStatePU::ValidState(client_state) => client_state.update_to_next_round_config(
            round_settings,
            update,
        ),
    }
}

/// Checks the gradient `data` for submission in the client's round. A
/// client that knows no round has nothing to submit to.
pub fn api_submit(s: &ClientStatePU, data: &VecFixedAny) -> (submitted: Result<
    Submission,
    ClientError,
>)
    ensures
        match *s {
            ClientStatePU::InitState(_) => submitted is Err && submitted->Err_0
                == ClientError::Uninitialized,
            ClientStatePU::ValidState(state) => match submitted {
                Ok(submission) => submission_of(state@, data.tag(), data.spec_len()) == Ok::<
                    SubmissionView,
                    ClientError,
                >(submission@),
                Err(e) => submission_of(state@, data.tag(), data.spec_len()) == Err::<
                    SubmissionView,
                    ClientError,
                >(e),
            },
        },
{
    match s {
        ClientStatePU::InitState(_) => Err(ClientError::Uninitialized),
        ClientStatePU::ValidState(client_state) => client_state.get_submission_result(data),
    }
}

/// Asks `get_data` for the gradient of the client's round and checks it for
/// submission. A client that knows no round does not ask.
pub fn api_submit_with<F: FnOnce(&CommonStateParametrization) -> VecFixedAny>(
    s: &ClientStatePU,
    get_data: F,
) -> (submitted: Result<(VecFixedAny, Submission), ClientError>)
    requires
        forall|p: &CommonStateParametrization| get_data.requires((p,)),
    ensures
        match *s {
            ClientStatePU::InitState(_) => submitted is Err && submitted->Err_0
                == ClientError::Uninitialized,
            ClientStatePU::ValidState(state) => match submitted {
                Ok((data, submission)) => {
                    &&& get_data.ensures((&state.parametrization,), data)
                    &&& submission_of(state@, data.tag(), data.spec_len()) == Ok::<
                        SubmissionView,
                        ClientError,
                    >(submission@)
                },
                Err(e) => exists|data: VecFixedAny|
                    {
                        &&& get_data.ensures((&state.parametrization,), data)
                        &&& submission_of(state@, data.tag(), data.spec_len()) == Err::<
                            SubmissionView,
                            ClientError,
                        >(e)
                    },
            },
        },
{
    match s {
        ClientStatePU::InitState(_) => Err(ClientError::Uninitialized),
        ClientStatePU::ValidState(client_state) => {
            let data = get_data(&client_state.parametrization);
            match client_state.get_submission_result(&data) {
                Ok(submission) => Ok((data, submission)),
                Err(e) => Err(e),
            }
        },
    }
}

/// Takes up the settings of a round with what was fetched for them, then
/// asks `get_data` for the gradient and checks it for submission. Where the
/// settings cannot be taken up, the client stays as it was, the gradient is
/// not asked for, and nothing is to be submitted.
pub fn api_submit_with_update<F: FnOnce(&CommonStateParametrization) -> VecFixedAny>(
    s: &mut ClientStatePU,
    round_settings: RoundSettings,
    update: RoundUpdate,
    get_data: F,
) -> (submitted: Result<(VecFixedAny, Submission), ClientError>)
    requires
        forall|p: &CommonStateParametrization| get_data.requires((p,)),
    ensures
        match round_update_of(old(s)@, round_settings, update@) {
            Err(e) => {
                &&& submitted is Err
                &&& submitted->Err_0 == e
                &&& final(s)@ == old(s)@
            },
            Ok(state) => {
                &&& *final(s) matches ClientStatePU::ValidState(valid)
                &&& valid@ == state
                &&& match submitted {
                    Ok((data, submission)) => {
                        &&& get_data.ensures((&valid.parametrization,), data)
                        &&& submission_of(state, data.tag(), data.spec_len()) == Ok::<
                            SubmissionView,
                            ClientError,
                        >(submission@)
                    },
                    Err(e) => exists|data: VecFixedAny|
                        {
                            &&& get_data.ensures((&valid.parametrization,), data)
                            &&& submission_of(state, data.tag(), data.spec_len()) == Err::<
                                SubmissionView,
                                ClientError,
                            >(e)
                        },
                }
            },
        },
{
    match api_update_client_round_settings(s, round_settings, update) {
        Err(e) => Err(e),
        Ok(_) => api_submit_with(&*s, get_data),
    }
}

} // verus!
