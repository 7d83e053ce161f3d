//! What the controller and the clients ask of the two managers, and what
//! they make of the answers.

use vstd::prelude::*;
use vstd::string::*;
use crate::fixed::{
    lemma_vdaf_available,
    vdaf_available,
    Fixed16,
    Fixed32,
    Fixed64,
    FixedTypeTag,
    IsTagInstance,
};
use crate::helpers::{task_id_of_text, task_id_to_string};
use crate::manager::implementation::{
    create_session_failure,
    create_session_step,
    leader_token_of,
    sessions_full,
    ManagerErrorKind,
    TrainingSessionView,
    TIME_PRECISION,
};
use crate::manager::provider::{Endpoint, STATUS_OK};
use crate::manager::types::{
    optional_id,
    CreateTrainingSessionRequest,
    CreateTrainingSessionRequestView,
    CreateTrainingSessionResponse,
    GetVdafParameterRequest,
    StartRoundRequest,
    TrainingSessionId,
};
use crate::outside::{
    base64url_decoding,
    base64url_encode,
    base64url_encoding,
    bearer_token_syntax,
    lemma_base64url_text_is_token,
    generate_hpke_keypair,
    random_32_bytes,
    random_bearer_token,
    random_bytes,
    random_u8,
    url_join,
    url_joining,
};
use crate::text::{decimal_string, decimal_text, join2, join3};
use crate::types::{
    bitsize_of,
    bytes_to_vec,
    vdaf_instance_of,
    HpkeKeypair,
    HpkeKeypairView,
    Locations,
    LocationsView,
    MainLocations,
    Role,
    TaskId,
    VdafInstance,
    VdafInstanceView,
    VdafParameter,
    VdafParameterView,
    AEAD_AES_256_GCM,
    KDF_HKDF_SHA256,
    KEM_X25519_HKDF_SHA256,
    VERIFY_KEY_LENGTH,
};

verus! {

/// Why an exchange with the managers or an aggregator came to nothing.
#[derive(Clone, Copy, Debug, PartialEq, Eq, Structural)]
pub enum ConsumerError {
    /// The leader's manager answered with this status instead of success.
    LeaderRefused(u16),
    /// The helper's manager answered with this status instead of success.
    HelperRefused(u16),
    /// The leader's manager answered with success, and what it said of the
    /// session could not be read.
    LeaderAnswerUnreadable,
    /// The helper's manager answered with success, and what it said of the
    /// session could not be read.
    HelperAnswerUnreadable,
    /// The two managers opened sessions under different identifiers.
    SessionIdMismatch { leader_id: TrainingSessionId, helper_id: TrainingSessionId },
    /// A session was not closed at both managers; holds both statuses.
    EndSessionRefused { leader: u16, helper: u16 },
    /// A round was not started at both managers; holds both statuses.
    StartRoundRefused { leader: u16, helper: u16 },
    /// The address of a manager is none at which an operation can be
    /// reached.
    ManagerAddress,
    /// The managers name different aggregators.
    MainLocationsDisagree,
    /// The aggregation function cannot be had for the task's parameters.
    VdafUnavailable,
    /// The time is too near the epoch, or too far from it, for the interval
    /// of a collection.
    TimeOutOfRange(u64),
}

/// What is said of an error.
pub open spec fn consumer_error_text(error: ConsumerError) -> Seq<char> {
    match error {
        ConsumerError::LeaderRefused(status) => "Got error from leader: "@ + decimal_text(
            status as nat,
        ),
        ConsumerError::HelperRefused(status) => "Got error from helper: "@ + decimal_text(
            status as nat,
        ),
        ConsumerError::LeaderAnswerUnreadable => "Got no session id from leader"@,
        ConsumerError::HelperAnswerUnreadable => "Got no session id from helper"@,
        ConsumerError::SessionIdMismatch { .. } =>
            "leader and helper have different training session id!"@,
        ConsumerError::EndSessionRefused { leader, helper } =>
            "Ending session not successful, results are: "@ + decimal_text(leader as nat) + ", "@
                + decimal_text(helper as nat),
        ConsumerError::StartRoundRefused { leader, helper } =>
            "Starting round not successful, results are: "@ + decimal_text(leader as nat) + ", "@
                + decimal_text(helper as nat),
        ConsumerError::ManagerAddress => "The address of a manager cannot be used"@,
        ConsumerError::MainLocationsDisagree =>
            "The aggregators returned different main locations"@,
        ConsumerError::VdafUnavailable =>
            "The aggregation function cannot be had for these parameters"@,
        ConsumerError::TimeOutOfRange(now) => "Cannot collect at the time "@ + decimal_text(
            now as nat,
        ),
    }
}

impl ConsumerError {
    /// What is said of the error.
    pub fn message(&self) -> (text: String)
        ensures
            text@ == consumer_error_text(*self),
    {
        match self {
            ConsumerError::LeaderRefused(status) => {
                let number = decimal_string(*status as u64);
                join2("Got error from leader: ", number.as_str())
            },
            ConsumerError::HelperRefused(status) => {
                let number = decimal_string(*status as u64);
                join2("Got error from helper: ", number.as_str())
            },
            ConsumerError::LeaderAnswerUnreadable => String::from_str(
                "Got no session id from leader",
            ),
            ConsumerError::HelperAnswerUnreadable => String::from_str(
                "Got no session id from helper",
            ),
            ConsumerError::SessionIdMismatch { .. } => String::from_str(
                "leader and helper have different training session id!",
            ),
            ConsumerError::EndSessionRefused { leader, helper } => {
                let first = decimal_string(*leader as u64);
                let second = decimal_string(*helper as u64);
                let mut text = join3(
                    "Ending session not successful, results are: ",
                    first.as_str(),
                    ", ",
                );
                text.append(second.as_str());
                text
            },
            ConsumerError::StartRoundRefused { leader, helper } => {
                let first = decimal_string(*leader as u64);
                let second = decimal_string(*helper as u64);
                let mut text = join3(
                    "Starting round not successful, results are: ",
                    first.as_str(),
                    ", ",
                );
                text.append(second.as_str());
                text
            },
            ConsumerError::ManagerAddress => String::from_str(
                "The address of a manager cannot be used",
            ),
            ConsumerError::MainLocationsDisagree => String::from_str(
                "The aggregators returned different main locations",
            ),
            ConsumerError::VdafUnavailable => String::from_str(
                "The aggregation function cannot be had for these parameters",
            ),
            ConsumerError::TimeOutOfRange(now) => {
                let number = decimal_string(*now);
                join2("Cannot collect at the time ", number.as_str())
            },
        }
    }
}

/// Where the operation `endpoint` of the manager at `manager` is reached:
/// at the operation's path, read at the manager's address.
pub fn endpoint_url(manager: &str, endpoint: Endpoint) -> (address: Result<String, ConsumerError>)
    ensures
        match address {
            Ok(a) => url_joining(manager@, endpoint.path_text()) == Some(a@),
            Err(e) => {
                &&& url_joining(manager@, endpoint.path_text()) is None
                &&& e == ConsumerError::ManagerAddress
            },
        },
{
    match url_join(manager, endpoint.path()) {
        Ok(address) => Ok(address),
        Err(_) => Err(ConsumerError::ManagerAddress),
    }
}

/// Whether `pair` is a key of the collector's suite: X25519 with
/// HKDF-SHA256, HKDF-SHA256, AES-256-GCM.
pub open spec fn is_collector_keypair(pair: HpkeKeypairView) -> bool {
    &&& pair.config.kem_id == KEM_X25519_HKDF_SHA256
    &&& pair.config.kdf_id == KDF_HKDF_SHA256
    &&& pair.config.aead_id == AEAD_AES_256_GCM
}

/// What the controller needs to talk to the managers and the leader: where
/// they are, its own key, the two tokens of the session, and the
/// parameters of the tasks.
pub struct JanusManagerClient {
    location: Locations,
    hpke_keypair: HpkeKeypair,
    leader_auth_token: Vec<u8>,
    collector_auth_token: Vec<u8>,
    vdaf_parameter: VdafParameter,
}

/// What a [`JanusManagerClient`] holds.
pub struct JanusManagerClientView {
    pub location: LocationsView,
    pub hpke_keypair: HpkeKeypairView,
    pub leader_auth_token: Seq<u8>,
    pub collector_auth_token: Seq<u8>,
    pub vdaf_parameter: VdafParameterView,
}

impl View for JanusManagerClient {
    type V = JanusManagerClientView;

    closed spec fn view(&self) -> JanusManagerClientView {
        JanusManagerClientView {
            location: self.location@,
            hpke_keypair: self.hpke_keypair@,
            leader_auth_token: self.leader_auth_token@,
            collector_auth_token: self.collector_auth_token@,
            vdaf_parameter: self.vdaf_parameter@,
        }
    }
}

/// Both tokens are bearer tokens of 22 bytes, and the key is of the
/// collector's suite.
pub open spec fn client_well_formed(client: JanusManagerClientView) -> bool {
    &&& bearer_token_syntax(client.leader_auth_token)
    &&& bearer_token_syntax(client.collector_auth_token)
    &&& client.leader_auth_token.len() == 22
    &&& client.collector_auth_token.len() == 22
    &&& is_collector_keypair(client.hpke_keypair)
}

/// The request that opens a session at the manager of `role`: the same at
/// both managers but for the role and the identifier. Both tokens are sent
/// as unpadded base64url.
pub open spec fn session_request_of(
    client: JanusManagerClientView,
    role: Role,
    id: Option<u16>,
    verify_key_encoded: Seq<char>,
) -> CreateTrainingSessionRequestView {
    CreateTrainingSessionRequestView {
        training_session_id: id,
        role,
        verify_key_encoded,
        collector_hpke_config: client.hpke_keypair.config,
        collector_auth_token_encoded: base64url_encoding(client.collector_auth_token),
        leader_auth_token_encoded: base64url_encoding(client.leader_auth_token),
        vdaf_parameter: client.vdaf_parameter,
    }
}

/// The address of the manager of `role`.
pub open spec fn manager_address(location: LocationsView, role: Role) -> Seq<char> {
    match role {
        Role::Leader => location.manager.external_leader,
        Role::Helper => location.manager.external_helper,
    }
}

/// Whether a manager finds in `request` the tokens of `client`: the
/// collector's token as the client has it, and for the leader's token a
/// bearer token.
pub open spec fn tokens_in_order(
    client: JanusManagerClientView,
    request: CreateTrainingSessionRequestView,
) -> bool {
    &&& base64url_decoding(request.collector_auth_token_encoded) == Some(
        client.collector_auth_token,
    )
    &&& bearer_token_syntax(leader_token_of(request))
}

/// An interval of time: from `start` on, for `duration`, both in seconds.
#[derive(Clone, Copy, Debug, PartialEq, Eq, Structural)]
pub struct Interval {
    pub start: u64,
    pub duration: u64,
}

/// The interval to collect at the time `now`: from five time precisions
/// before the last multiple of the time precision to ten after it. There
/// is none where that would begin before the epoch or end after the last
/// second that can be counted.
pub open spec fn collect_interval_of(now: u64) -> Option<Interval> {
    let rounded = (now / TIME_PRECISION) * TIME_PRECISION;
    if rounded >= 5 * TIME_PRECISION && rounded + 10 * TIME_PRECISION <= u64::MAX {
        Some(
            Interval {
                start: (rounded - 5 * TIME_PRECISION) as u64,
                duration: (15 * TIME_PRECISION) as u64,
            },
        )
    } else {
        None
    }
}

/// The interval to collect at the time `now`, in seconds since the epoch.
pub fn collect_interval(now: u64) -> (interval: Result<Interval, ConsumerError>)
    ensures
        match interval {
            Ok(i) => collect_interval_of(now) == Some(i),
            Err(e) => collect_interval_of(now) is None && e == ConsumerError::TimeOutOfRange(now),
        },
{
    let rounded: u64 = (now / TIME_PRECISION) * TIME_PRECISION;
    if rounded < 5 * TIME_PRECISION || rounded > u64::MAX - 10 * TIME_PRECISION {
        return Err(ConsumerError::TimeOutOfRange(now));
    }
    Ok(Interval { start: rounded - 5 * TIME_PRECISION, duration: 15 * TIME_PRECISION })
}

/// All that a collection needs: the task, where the leader is, how the
/// collector shows who it is and opens what it gets, the aggregation
/// function, and the interval to ask for.
#[derive(Debug)]
pub struct CollectJob {
    pub task_id: TaskId,
    pub leader_endpoint: String,
    pub collector_auth_token: Vec<u8>,
    pub hpke_keypair: HpkeKeypair,
    pub vdaf: VdafInstance,
    pub query: Interval,
}

/// What a [`CollectJob`] holds.
pub struct CollectJobView {
    pub task_id: Seq<u8>,
    pub leader_endpoint: Seq<char>,
    pub collector_auth_token: Seq<u8>,
    pub hpke_keypair: HpkeKeypairView,
    pub vdaf: VdafInstanceView,
    pub query: Interval,
}

impl View for CollectJob {
    type V = CollectJobView;

    open spec fn view(&self) -> CollectJobView {
        CollectJobView {
            task_id: self.task_id@,
            leader_endpoint: self.leader_endpoint@,
            collector_auth_token: self.collector_auth_token@,
            hpke_keypair: self.hpke_keypair@,
            vdaf: self.vdaf@,
            query: self.query,
        }
    }
}

/// The collection of `task` at the time `now`, for elements of the width
/// `tag`, or why there is none: the aggregation function must be there
/// for the client's gradient length, and the time must allow the interval.
pub open spec fn collect_job_of(
    client: JanusManagerClientView,
    tag: FixedTypeTag,
    task: Seq<u8>,
    now: u64,
) -> Result<CollectJobView, ConsumerError> {
    if !vdaf_available(tag, 2, client.vdaf_parameter.gradient_len) {
        Err(ConsumerError::VdafUnavailable)
    } else {
        match collect_interval_of(now) {
            None => Err(ConsumerError::TimeOutOfRange(now)),
            Some(query) => Ok(
                CollectJobView {
                    task_id: task,
                    leader_endpoint: client.location.main.external_leader,
                    collector_auth_token: client.collector_auth_token,
                    hpke_keypair: client.hpke_keypair,
                    vdaf: VdafInstanceView {
                        bitsize: bitsize_of(tag),
                        ..vdaf_instance_of(client.vdaf_parameter)
                    },
                    query,
                },
            ),
        }
    }
}

/// There is a collection exactly if the aggregation function can be had
/// and the time allows the interval: for elements of 16 or 32 bits the
/// gradient length must keep the arithmetic within `usize`, for elements of
/// 64 bits it must be three at most; and the last multiple of the time
/// precision must lie five time precisions after the epoch or later, and
/// ten before the last second that can be counted or earlier.
pub proof fn lemma_collect_succeeds(
    client: JanusManagerClientView,
    tag: FixedTypeTag,
    task: Seq<u8>,
    now: u64,
)
    ensures
        collect_job_of(client, tag, task, now) is Ok <==> {
            &&& if tag == FixedTypeTag::FixedType64Bit {
                client.vdaf_parameter.gradient_len <= 3
            } else {
                client.vdaf_parameter.gradient_len <= usize::MAX / 128
            }
            &&& 5 * TIME_PRECISION <= (now / TIME_PRECISION) * TIME_PRECISION
            &&& (now / TIME_PRECISION) * TIME_PRECISION + 10 * TIME_PRECISION <= u64::MAX
        },
{
    lemma_vdaf_available(tag, client.vdaf_parameter.gradient_len);
}

impl JanusManagerClient {
    /// Whether the client is as [`Self::new`] makes it.
    pub open spec fn well_formed(&self) -> bool {
        client_well_formed(self@)
    }

    /// A client for the managers at `location`, with fresh tokens and a
    /// fresh key of the collector's suite; `vdaf_parameter` is what its
    /// tasks will aggregate with.
    pub fn new(location: Locations, vdaf_parameter: VdafParameter) -> (client: JanusManagerClient)
        ensures
            client.well_formed(),
            client@.location == location@,
            client@.vdaf_parameter == vdaf_parameter@,
    {
        let leader_auth_token = random_bearer_token();
        let collector_auth_token = random_bearer_token();
        let hpke_id: u8 = random_u8();
        let hpke_keypair = match generate_hpke_keypair(
            hpke_id,
            KEM_X25519_HKDF_SHA256,
            KDF_HKDF_SHA256,
            AEAD_AES_256_GCM,
        ) {
            Ok(pair) => pair,
            Err(_) => vstd::pervasive::unreached(),
        };
        JanusManagerClient {
            location,
            hpke_keypair,
            leader_auth_token,
            collector_auth_token,
            vdaf_parameter,
        }
    }

    /// Where the operation `endpoint` of the manager of `role` is reached.
    pub fn manager_url(&self, role: Role, endpoint: Endpoint) -> (address: Result<
        String,
        ConsumerError,
    >)
        ensures
            match address {
                Ok(a) => url_joining(manager_address(self@.location, role), endpoint.path_text())
                    == Some(a@),
                Err(e) => {
                    &&& url_joining(manager_address(self@.location, role), endpoint.path_text())
                        is None
                    &&& e == ConsumerError::ManagerAddress
                },
            },
    {
        match role {
            Role::Leader => endpoint_url(self.location.manager.external_leader.as_str(), endpoint),
            Role::Helper => endpoint_url(self.location.manager.external_helper.as_str(), endpoint),
        }
    }

    /// The request that opens a session at the manager of `role`. A manager
    /// finds both tokens in it in order: it refuses the request only for an
    /// identifier that is in use, for want of a free identifier where none
    /// is asked for, or for a verification key that is not base64url.
    pub fn session_request(
        &self,
        role: Role,
        id: Option<TrainingSessionId>,
        verify_key_encoded: &String,
    ) -> (request: CreateTrainingSessionRequest)
        requires
            self.well_formed(),
        ensures
            request@ == session_request_of(self@, role, optional_id(id), verify_key_encoded@),
            tokens_in_order(self@, request@),
            forall|sessions: Map<u16, TrainingSessionView>|
                match #[trigger] create_session_failure(sessions, request@) {
                    None => true,
                    Some(ManagerErrorKind::SessionExists(_)) => id is Some,
                    Some(ManagerErrorKind::NoFreeSessionId) => id is None && sessions_full(
                        sessions,
                    ),
                    Some(kind) => kind == ManagerErrorKind::VerifyKeyEncoding
                        && base64url_decoding(verify_key_encoded@) is None,
                },
    {
        let collector_auth_token_encoded = base64url_encode(self.collector_auth_token.as_slice());
        let leader_auth_token_encoded = base64url_encode(self.leader_auth_token.as_slice());
        proof {
            lemma_base64url_text_is_token(leader_auth_token_encoded@);
        }
        CreateTrainingSessionRequest {
            training_session_id: id,
            role,
            verify_key_encoded: verify_key_encoded.clone(),
            collector_hpke_config: self.hpke_keypair.config.clone(),
            collector_auth_token_encoded,
            leader_auth_token_encoded,
            vdaf_parameter: self.vdaf_parameter.clone(),
        }
    }

    /// Begins to open a session: draws the verification key that the two
    /// aggregators will share, and gives the request for the leader's
    /// manager, which is to choose the identifier. A manager does not
    /// refuse this request as long as it has a free identifier.
    pub fn create_session(&self) -> (request: CreateTrainingSessionRequest)
        requires
            self.well_formed(),
        ensures
            exists|verify_key: Seq<u8>|
                {
                    &&& verify_key.len() == VERIFY_KEY_LENGTH
                    &&& #[trigger] session_request_of(
                        self@,
                        Role::Leader,
                        None,
                        base64url_encoding(verify_key),
                    ) == request@
                    &&& base64url_decoding(request@.verify_key_encoded) == Some(verify_key)
                },
            tokens_in_order(self@, request@),
            forall|sessions: Map<u16, TrainingSessionView>|
                !sessions_full(sessions) ==> #[trigger] create_session_failure(sessions, request@)
                    is None,
    {
        let vdaf_inst = self.vdaf_parameter.to_vdaf_instance();
        let verify_key = random_bytes(vdaf_inst.verify_key_length());
        let verify_key_encoded = base64url_encode(verify_key.as_slice());
        let request = self.session_request(Role::Leader, None, &verify_key_encoded);
        assert(session_request_of(self@, Role::Leader, None, base64url_encoding(verify_key@))
            == request@);
        request
    }

    /// Goes on to open the session at the helper's manager, once the
    /// leader's has answered with the status `leader_status` and with
    /// `leader_response`, if what it said could be read: with the same
    /// request, but for the role and for the identifier, which is the one
    /// that the leader's manager chose. Where the leader's manager did not
    /// answer with success, or its answer could not be read, the helper's
    /// is not asked.
    pub fn create_session_at_helper(
        leader_request: CreateTrainingSessionRequest,
        leader_status: u16,
        leader_response: Option<CreateTrainingSessionResponse>,
    ) -> (request: Result<CreateTrainingSessionRequest, ConsumerError>)
        ensures
            if leader_status != STATUS_OK {
                request == Err::<CreateTrainingSessionRequest, ConsumerError>(
                    ConsumerError::LeaderRefused(leader_status),
                )
            } else {
                match leader_response {
                    None => request == Err::<CreateTrainingSessionRequest, ConsumerError>(
                        ConsumerError::LeaderAnswerUnreadable,
                    ),
                    Some(response) => {
                        &&& request matches Ok(helper_request)
                        &&& helper_request@ == (CreateTrainingSessionRequestView {
                            role: Role::Helper,
                            training_session_id: Some(response.training_session_id@),
                            ..leader_request@
                        })
                    },
                }
            },
    {
        if leader_status != STATUS_OK {
            return Err(ConsumerError::LeaderRefused(leader_status));
        }
        match leader_response {
            None => Err(ConsumerError::LeaderAnswerUnreadable),
            Some(response) => Ok(
                CreateTrainingSessionRequest {
                    training_session_id: Some(response.training_session_id),
                    role: Role::Helper,
                    verify_key_encoded: leader_request.verify_key_encoded,
                    collector_hpke_config: leader_request.collector_hpke_config,
                    collector_auth_token_encoded: leader_request.collector_auth_token_encoded,
                    leader_auth_token_encoded: leader_request.leader_auth_token_encoded,
                    vdaf_parameter: leader_request.vdaf_parameter,
                },
            ),
        }
    }

    /// Ends opening a session, once the helper's manager has answered too,
    /// with the status `helper_status` and with `helper_response`, if what
    /// it said could be read: the session is open under the leader's
    /// identifier if the helper's manager answered with success and opened
    /// it under the same.
    pub fn create_session_result(
        leader_id: TrainingSessionId,
        helper_status: u16,
        helper_response: Option<CreateTrainingSessionResponse>,
    ) -> (session: Result<TrainingSessionId, ConsumerError>)
        ensures
            session == if helper_status != STATUS_OK {
                Err::<TrainingSessionId, ConsumerError>(ConsumerError::HelperRefused(helper_status))
            } else {
                match helper_response {
                    None => Err(ConsumerError::HelperAnswerUnreadable),
                    Some(response) => if response.training_session_id == leader_id {
                        Ok(leader_id)
                    } else {
                        Err(
                            ConsumerError::SessionIdMismatch {
                                leader_id,
                                helper_id: response.training_session_id,
                            },
                        )
                    },
                }
            },
    {
        if helper_status != STATUS_OK {
            return Err(ConsumerError::HelperRefused(helper_status));
        }
        match helper_response {
            None => Err(ConsumerError::HelperAnswerUnreadable),
            Some(response) => if response.training_session_id == leader_id {
                Ok(leader_id)
            } else {
                Err(
                    ConsumerError::SessionIdMismatch {
                        leader_id,
                        helper_id: response.training_session_id,
                    },
                )
            },
        }
    }

    /// What closing a session came to: it is closed if both managers
    /// answered with success.
    pub fn end_session(leader_status: u16, helper_status: u16) -> (ended: Result<(), ConsumerError>)
        ensures
            ended == if leader_status == STATUS_OK && helper_status == STATUS_OK {
                Ok::<(), ConsumerError>(())
            } else {
                Err(ConsumerError::EndSessionRefused { leader: leader_status, helper: helper_status })
            },
    {
        if leader_status == STATUS_OK && helper_status == STATUS_OK {
            Ok(())
        } else {
            Err(ConsumerError::EndSessionRefused { leader: leader_status, helper: helper_status })
        }
    }

    /// Begins a round: draws the identifier of its task and gives the
    /// request for both managers.
    pub fn start_round_request(&self, training_session_id: TrainingSessionId) -> (round: (
        TaskId,
        StartRoundRequest,
    ))
        ensures
            round.1@.training_session_id == training_session_id@,
            round.1@.task_id_encoded == base64url_encoding(round.0@),
            task_id_of_text(round.1@.task_id_encoded) == Some(round.0@),
    {
        let task_id = TaskId { bytes: random_32_bytes() };
        let task_id_encoded = task_id_to_string(task_id);
        (task_id, StartRoundRequest { training_session_id, task_id_encoded })
    }

    /// What starting a round came to: the round of `task_id` is started if
    /// both managers answered with success.
    pub fn start_round(task_id: TaskId, leader_status: u16, helper_status: u16) -> (started:
        Result<TaskId, ConsumerError>)
        ensures
            started == if leader_status == STATUS_OK && helper_status == STATUS_OK {
                Ok::<TaskId, ConsumerError>(task_id)
            } else {
                Err(ConsumerError::StartRoundRefused { leader: leader_status, helper: helper_status })
            },
    {
        if leader_status == STATUS_OK && helper_status == STATUS_OK {
            Ok(task_id)
        } else {
            Err(ConsumerError::StartRoundRefused { leader: leader_status, helper: helper_status })
        }
    }

    /// The collection of `task_id` at the time `now`, for elements of the
    /// type `Fx`.
    pub fn collect_generic<Fx: IsTagInstance>(&self, task_id: TaskId, now: u64) -> (job: Result<
        CollectJob,
        ConsumerError,
    >)
        ensures
            match job {
                Ok(job) => collect_job_of(self@, Fx::tag(), task_id@, now) == Ok::<
                    CollectJobView,
                    ConsumerError,
                >(job@),
                Err(e) => collect_job_of(self@, Fx::tag(), task_id@, now) == Err::<
                    CollectJobView,
                    ConsumerError,
                >(e),
            },
    {
        if !Fx::vdaf_accepts(2, self.vdaf_parameter.gradient_len) {
            return Err(ConsumerError::VdafUnavailable);
        }
        let tagged = VdafParameter {
            gradient_len: self.vdaf_parameter.gradient_len,
            privacy_parameter: self.vdaf_parameter.privacy_parameter.clone(),
            submission_type: Fx::get_tag(),
        };
        let vdaf = tagged.to_vdaf_instance();
        let query = match collect_interval(now) {
            Ok(query) => query,
            Err(e) => {
                return Err(e);
            },
        };
        Ok(
            CollectJob {
                task_id,
                leader_endpoint: self.location.main.external_leader.clone(),
                collector_auth_token: bytes_to_vec(self.collector_auth_token.as_slice()),
                hpke_keypair: self.hpke_keypair.clone(),
                vdaf,
                query,
            },
        )
    }

    /// The collection of `task_id` at the time `now`, in seconds since the
    /// epoch: from the leader, with the collector's token and key, for the
    /// aggregation function of the client's parameters.
    pub fn collect(&self, task_id: TaskId, now: u64) -> (job: Result<CollectJob, ConsumerError>)
        ensures
            match job {
                Ok(job) => collect_job_of(self@, self@.vdaf_parameter.submission_type, task_id@, now)
                    == Ok::<CollectJobView, ConsumerError>(job@),
                Err(e) => collect_job_of(self@, self@.vdaf_parameter.submission_type, task_id@, now)
                    == Err::<CollectJobView, ConsumerError>(e),
            },
    {
        match self.vdaf_parameter.submission_type {
            FixedTypeTag::FixedType16Bit => self.collect_generic::<Fixed16>(task_id, now),
            FixedTypeTag::FixedType32Bit => self.collect_generic::<Fixed32>(task_id, now),
            FixedTypeTag::FixedType64Bit => self.collect_generic::<Fixed64>(task_id, now),
        }
    }
}

/// The request that asks a manager for the parameters of a task.
pub fn get_vdaf_parameter_from_task(task_id: TaskId) -> (request: GetVdafParameterRequest)
    ensures
        request@ == base64url_encoding(task_id@),
        task_id_of_text(request@) == Some(task_id@),
{
    GetVdafParameterRequest { task_id_encoded: task_id_to_string(task_id) }
}

/// What the two managers say of where the aggregators are: their answer,
/// if it is one and the same.
pub fn get_main_locations(leader: MainLocations, helper: MainLocations) -> (locations: Result<
    MainLocations,
    ConsumerError,
>)
    ensures
        match locations {
            Ok(l) => leader@ == helper@ && l@ == leader@,
            Err(e) => leader@ != helper@ && e == ConsumerError::MainLocationsDisagree,
        },
{
    if leader == helper {
        Ok(leader)
    } else {
        Err(ConsumerError::MainLocationsDisagree)
    }
}

/// A request that a manager would accept without an identifier is accepted
/// at the helper's manager under the leader's identifier exactly if that
/// identifier is free there; the only refusal is for an identifier in use.
pub proof fn lemma_helper_accepts(
    leader_request: CreateTrainingSessionRequestView,
    leader_id: u16,
    leader_sessions: Map<u16, TrainingSessionView>,
    helper_sessions: Map<u16, TrainingSessionView>,
)
    requires
        leader_request.training_session_id is None,
        create_session_failure(leader_sessions, leader_request) is None,
    ensures
        ({
            let helper_request = CreateTrainingSessionRequestView {
                role: Role::Helper,
                training_session_id: Some(leader_id),
                ..leader_request
            };
            create_session_failure(helper_sessions, helper_request) == if helper_sessions.contains_key(
                leader_id,
            ) {
                Some(ManagerErrorKind::SessionExists(TrainingSessionId(leader_id)))
            } else {
                None
            }
        }),
{
}

/// Where both managers open the session that a client asks for, the
/// leader's first and the helper's under the identifier that the leader's
/// chose, the session has one identifier, and both managers hold the same
/// verification key, collector key, tokens and parameters for it, the one
/// as leader and the other as helper. This holds whatever sessions and
/// keys the managers had before and whatever chance gave them.
pub proof fn lemma_managers_agree(
    client: JanusManagerClientView,
    verify_key_encoded: Seq<char>,
    leader_sessions: Map<u16, TrainingSessionView>,
    leader_keys: Map<u8, HpkeKeypairView>,
    leader_fresh: u16,
    leader_key: u8,
    leader_id: u16,
    leader_sessions_after: Map<u16, TrainingSessionView>,
    leader_keys_after: Map<u8, HpkeKeypairView>,
    helper_sessions: Map<u16, TrainingSessionView>,
    helper_keys: Map<u8, HpkeKeypairView>,
    helper_fresh: u16,
    helper_key: u8,
    helper_id: u16,
    helper_sessions_after: Map<u16, TrainingSessionView>,
    helper_keys_after: Map<u8, HpkeKeypairView>,
)
    requires
        create_session_step(
            leader_sessions,
            leader_keys,
            session_request_of(client, Role::Leader, None, verify_key_encoded),
            leader_fresh,
            leader_key,
            Ok(leader_id),
            leader_sessions_after,
            leader_keys_after,
        ),
        create_session_step(
            helper_sessions,
            helper_keys,
            session_request_of(client, Role::Helper, Some(leader_id), verify_key_encoded),
            helper_fresh,
            helper_key,
            Ok(helper_id),
            helper_sessions_after,
            helper_keys_after,
        ),
    ensures
        helper_id == leader_id,
        leader_sessions_after.contains_key(leader_id),
        helper_sessions_after.contains_key(helper_id),
        leader_sessions_after[leader_id].role == Role::Leader,
        helper_sessions_after[helper_id].role == Role::Helper,
        leader_sessions_after[leader_id].verify_key == helper_sessions_after[helper_id].verify_key,
        leader_sessions_after[leader_id].collector_hpke_config
            == helper_sessions_after[helper_id].collector_hpke_config,
        leader_sessions_after[leader_id].collector_auth_token
            == helper_sessions_after[helper_id].collector_auth_token,
        leader_sessions_after[leader_id].leader_auth_token
            == helper_sessions_after[helper_id].leader_auth_token,
        leader_sessions_after[leader_id].vdaf_parameter
            == helper_sessions_after[helper_id].vdaf_parameter,
        leader_sessions_after[leader_id].collector_hpke_config == client.hpke_keypair.config,
        leader_sessions_after[leader_id].vdaf_parameter == client.vdaf_parameter,
{
}

} // verus!
