//! The manager's sessions and what each request does to them.

use std::collections::HashMap;
use vstd::prelude::*;
use vstd::std_specs::iter::IteratorSpec;
use vstd::string::*;
use crate::helpers::{task_id_from_string, task_id_of_text, task_id_to_string, TaskIdParseError};
use crate::manager::types::{
    is_server_keypair,
    CreateTrainingSessionRequest,
    CreateTrainingSessionRequestView,
    GetVdafParameterRequest,
    HpkeConfigRegistry,
    StartRoundRequest,
    StartRoundRequestView,
    TrainingSessionId,
};
use crate::outside::{
    base64_error_text,
    base64url_decode,
    base64url_decoding,
    base64url_encoding,
    bearer_token_from_bytes,
    bearer_token_hash,
    bearer_token_syntax,
    random_u16,
    random_u8,
    sha256_digest,
    token_error_text,
};
use crate::text::{decimal_text, join2, join3};
use crate::types::{
    bytes_equal,
    bytes_to_vec,
    lemma_same_budget_symmetric,
    lemma_same_budget_transitive,
    lemma_task_id_with,
    same_vdaf_instance,
    task_id_decoding,
    task_id_with,
    vdaf_instance_of,
    CodecError,
    EndpointPair,
    HpkeConfig,
    HpkeConfigView,
    HpkeKeypair,
    HpkeKeypairView,
    MainLocations,
    Role,
    TaskId,
    VdafInstance,
    VdafInstanceView,
    VdafParameter,
    VdafParameterView,
};

verus! {

/// What went wrong with a request to the manager.
#[derive(Clone, Copy, Debug, PartialEq, Eq)]
pub enum ManagerErrorKind {
    /// The identifier asked for is in use.
    SessionExists(TrainingSessionId),
    /// The collector's token is not base64url.
    CollectorTokenEncoding,
    /// The collector's token is not a bearer token.
    CollectorTokenSyntax,
    /// The leader's token is not a bearer token.
    LeaderTokenSyntax,
    /// The verification key is not base64url.
    VerifyKeyEncoding,
    /// No session has the identifier.
    UnknownSession(TrainingSessionId),
    /// A session was to be closed, and none has the identifier.
    NoSessionToEnd(TrainingSessionId),
    /// A session was to be opened, and every identifier is in use.
    NoFreeSessionId,
    /// The task identifier is not base64url.
    TaskIdEncoding,
    /// The task identifier does not have 32 bytes.
    TaskIdLength(CodecError),
    /// No session holds the task.
    TaskNotFound(TaskId),
    /// More than one session holds the task.
    TaskAmbiguous(TaskId),
    /// The task is already provisioned, with other parameters.
    ParameterMismatch,
}

/// A refused request: what went wrong, and what the crate that refused it
/// said, where one did.
#[derive(Debug)]
pub struct ManagerError {
    pub kind: ManagerErrorKind,
    pub detail: String,
}

/// What is said of a refused request of the given kind; `detail` is what
/// the crate that refused it said, where one did.
pub open spec fn manager_error_text(kind: ManagerErrorKind, detail: Seq<char>) -> Seq<char> {
    match kind {
        ManagerErrorKind::SessionExists(id) => "session with id "@ + decimal_text(id@ as nat)
            + " already exists"@,
        ManagerErrorKind::CollectorTokenEncoding =>
            "invalid base64url content in \"collectorAuthToken\""@,
        ManagerErrorKind::CollectorTokenSyntax => "invalid collector token: "@ + detail,
        ManagerErrorKind::LeaderTokenSyntax => "invalid leader token: "@ + detail,
        ManagerErrorKind::VerifyKeyEncoding => "invalid base64url content in \"verifyKey\""@,
        ManagerErrorKind::UnknownSession(id) => "There is no training session with id "@
            + decimal_text(id@ as nat),
        ManagerErrorKind::NoSessionToEnd(id) => "Attempted to remove session with id "@
            + decimal_text(id@ as nat) + ", but there was no such session."@,
        ManagerErrorKind::NoFreeSessionId => "every session id is in use"@,
        ManagerErrorKind::TaskIdEncoding => "invalid base64url content in task id: "@ + detail,
        ManagerErrorKind::TaskIdLength(CodecError::UnexpectedEof) =>
            "task id has fewer than 32 bytes"@,
        ManagerErrorKind::TaskIdLength(CodecError::BytesLeftOver(_)) =>
            "task id has more than 32 bytes"@,
        ManagerErrorKind::TaskNotFound(task) => "Could not find session containing task with id "@
            + base64url_encoding(task@) + "."@,
        ManagerErrorKind::TaskAmbiguous(task) => "Multiple sessions containing task id "@
            + base64url_encoding(task@) + " exist."@,
        ManagerErrorKind::ParameterMismatch =>
            "same verify key and task ID with different parameters"@,
    }
}

impl ManagerError {
    /// What is said of the error.
    pub fn message(&self) -> (text: String)
        ensures
            text@ == manager_error_text(self.kind, self.detail@),
    {
        match self.kind {
            ManagerErrorKind::SessionExists(id) => {
                let number = id.to_string();
                join3("session with id ", number.as_str(), " already exists")
            },
            ManagerErrorKind::CollectorTokenEncoding => String::from_str(
                "invalid base64url content in \"collectorAuthToken\"",
            ),
            ManagerErrorKind::CollectorTokenSyntax => join2(
                "invalid collector token: ",
                self.detail.as_str(),
            ),
            ManagerErrorKind::LeaderTokenSyntax => join2(
                "invalid leader token: ",
                self.detail.as_str(),
            ),
            ManagerErrorKind::VerifyKeyEncoding => String::from_str(
                "invalid base64url content in \"verifyKey\"",
            ),
            ManagerErrorKind::UnknownSession(id) => {
                let number = id.to_string();
                join2("There is no training session with id ", number.as_str())
            },
            ManagerErrorKind::NoSessionToEnd(id) => {
                let number = id.to_string();
                join3(
                    "Attempted to remove session with id ",
                    number.as_str(),
                    ", but there was no such session.",
                )
            },
            ManagerErrorKind::NoFreeSessionId => String::from_str("every session id is in use"),
            ManagerErrorKind::TaskIdEncoding => join2(
                "invalid base64url content in task id: ",
                self.detail.as_str(),
            ),
            ManagerErrorKind::TaskIdLength(CodecError::UnexpectedEof) => String::from_str(
                "task id has fewer than 32 bytes",
            ),
            ManagerErrorKind::TaskIdLength(CodecError::BytesLeftOver(_)) => String::from_str(
                "task id has more than 32 bytes",
            ),
            ManagerErrorKind::TaskNotFound(task) => {
                let id = task_id_to_string(task);
                join3("Could not find session containing task with id ", id.as_str(), ".")
            },
            ManagerErrorKind::TaskAmbiguous(task) => {
                let id = task_id_to_string(task);
                join3("Multiple sessions containing task id ", id.as_str(), " exist.")
            },
            ManagerErrorKind::ParameterMismatch => String::from_str(
                "same verify key and task ID with different parameters",
            ),
        }
    }

    /// An error of the given kind without further detail.
    pub fn new(kind: ManagerErrorKind) -> (error: ManagerError)
        ensures
            error.kind == kind,
            error.detail@ == Seq::<char>::empty(),
    {
        ManagerError { kind, detail: String::new() }
    }

    /// An error of the given kind with what was said of it.
    pub fn with_detail(kind: ManagerErrorKind, detail: String) -> (error: ManagerError)
        ensures
            error.kind == kind,
            error.detail@ == detail@,
    {
        ManagerError { kind, detail }
    }
}

/// What a manager keeps of one training session.
#[derive(Debug)]
pub struct TrainingSession {
    pub role: Role,
    pub collector_hpke_config: HpkeConfig,
    /// The same for both aggregators.
    pub verify_key: Vec<u8>,
    pub collector_auth_token: Vec<u8>,
    pub leader_auth_token: Vec<u8>,
    /// This manager's own key for the session.
    pub hpke_config_and_key: HpkeKeypair,
    pub vdaf_parameter: VdafParameter,
    /// The tasks of the session, the most recent last.
    pub tasks: Vec<TaskId>,
}

/// What a [`TrainingSession`] holds.
pub struct TrainingSessionView {
    pub role: Role,
    pub collector_hpke_config: HpkeConfigView,
    pub verify_key: Seq<u8>,
    pub collector_auth_token: Seq<u8>,
    pub leader_auth_token: Seq<u8>,
    pub hpke_config_and_key: HpkeKeypairView,
    pub vdaf_parameter: VdafParameterView,
    pub tasks: Seq<Seq<u8>>,
}

/// The byte strings of a list of task identifiers.
pub open spec fn task_bytes(tasks: Seq<TaskId>) -> Seq<Seq<u8>> {
    tasks.map_values(|id: TaskId| id@)
}

impl View for TrainingSession {
    type V = TrainingSessionView;

    open spec fn view(&self) -> TrainingSessionView {
        TrainingSessionView {
            role: self.role,
            collector_hpke_config: self.collector_hpke_config@,
            verify_key: self.verify_key@,
            collector_auth_token: self.collector_auth_token@,
            leader_auth_token: self.leader_auth_token@,
            hpke_config_and_key: self.hpke_config_and_key@,
            vdaf_parameter: self.vdaf_parameter@,
            tasks: task_bytes(self.tasks@),
        }
    }
}

/// Both tokens of a session are bearer tokens.
pub open spec fn session_well_formed(session: TrainingSessionView) -> bool {
    &&& bearer_token_syntax(session.collector_auth_token)
    &&& bearer_token_syntax(session.leader_auth_token)
}

impl TrainingSession {
    /// Whether the session holds the task.
    pub fn holds_task(&self, task_id: &TaskId) -> (held: bool)
        ensures
            held == self@.tasks.contains(task_id@),
    {
        let mut i: usize = 0;
        while i < self.tasks.len()
            invariant
                i <= self.tasks@.len(),
                forall|j: int| 0 <= j < i ==> self@.tasks[j] != task_id@,
            decreases self.tasks@.len() - i,
        {
            if self.tasks[i] == *task_id {
                assert(self@.tasks[i as int] == task_id@);
                return true;
            }
            i += 1;
        }
        false
    }
}

/// What a manager is configured with.
#[derive(Debug)]
pub struct TaskProvisionerConfig {
    /// The leader aggregator's address, as tasks name it.
    pub leader_endpoint: String,
    /// The helper aggregator's address, as tasks name it.
    pub helper_endpoint: String,
    /// The aggregators' addresses, as clients are told them.
    pub main_locations: MainLocations,
}

/// What a [`TaskProvisionerConfig`] holds.
pub struct TaskProvisionerConfigView {
    pub leader_endpoint: Seq<char>,
    pub helper_endpoint: Seq<char>,
    pub main_locations: EndpointPair,
}

impl View for TaskProvisionerConfig {
    type V = TaskProvisionerConfigView;

    open spec fn view(&self) -> TaskProvisionerConfigView {
        TaskProvisionerConfigView {
            leader_endpoint: self.leader_endpoint@,
            helper_endpoint: self.helper_endpoint@,
            main_locations: self.main_locations@,
        }
    }
}

/// The sessions of `sessions` that hold the task `task`.
pub open spec fn sessions_holding(sessions: Map<u16, TrainingSessionView>, task: Seq<u8>) -> Set<
    u16,
> {
    sessions.dom().filter(|id: u16| sessions[id].tasks.contains(task))
}

/// The parameters of the one session that holds `task`; a failure where no
/// session or more than one holds it.
pub open spec fn vdaf_parameter_of_task(
    sessions: Map<u16, TrainingSessionView>,
    task: TaskId,
) -> Result<VdafParameterView, ManagerErrorKind> {
    let holders = sessions_holding(sessions, task@);
    if holders.len() == 0 {
        Err(ManagerErrorKind::TaskNotFound(task))
    } else if holders.len() == 1 {
        Ok(sessions[holders.choose()].vdaf_parameter)
    } else {
        Err(ManagerErrorKind::TaskAmbiguous(task))
    }
}

/// A manager: the training sessions that are open, its configuration, and
/// its own keys.
pub struct TaskProvisioner {
    training_sessions: HashMap<u16, TrainingSession>,
    pub config: TaskProvisionerConfig,
    keyring: HpkeConfigRegistry,
}

impl TaskProvisioner {
    /// The open sessions, by identifier.
    pub closed spec fn sessions(&self) -> Map<u16, TrainingSessionView> {
        self.training_sessions@.map_values(|session: TrainingSession| session@)
    }

    /// What the manager is configured with.
    pub closed spec fn configuration(&self) -> TaskProvisionerConfigView {
        self.config@
    }

    /// The manager's own keys, by key identifier.
    pub closed spec fn keys(&self) -> Map<u8, HpkeKeypairView> {
        self.keyring@
    }

    /// Every session's tokens are bearer tokens, and every key of the
    /// manager is of its suite and stands under its own identifier.
    pub open spec fn well_formed(&self) -> bool {
        &&& forall|id: u16| #[trigger]
            self.sessions().contains_key(id) ==> session_well_formed(self.sessions()[id])
        &&& forall|id: u8| #[trigger]
            self.keys().contains_key(id) ==> is_server_keypair(self.keys()[id], id)
    }

    /// A manager without sessions and without keys.
    pub fn new(config: TaskProvisionerConfig) -> (manager: TaskProvisioner)
        ensures
            manager.well_formed(),
            manager.sessions() == Map::<u16, TrainingSessionView>::empty(),
            manager.keys() == Map::<u8, HpkeKeypairView>::empty(),
            manager.configuration() == config@,
    {
        let manager = TaskProvisioner {
            training_sessions: HashMap::new(),
            config,
            keyring: HpkeConfigRegistry::new(),
        };
        manager
    }

    /// The session with the identifier `id`, if there is one.
    pub fn get_session(&self, id: TrainingSessionId) -> (session: Option<&TrainingSession>)
        ensures
            match session {
                Some(s) => self.sessions().contains_key(id@) && self.sessions()[id@] == s@,
                None => !self.sessions().contains_key(id@),
            },
    {
        broadcast use vstd::std_specs::hash::group_hash_axioms;

        let session = self.training_sessions.get(&id.0);
        match session {
            Some(s) => {
            },
            None => {},
        }
        session
    }

    /// The number of open sessions.
    pub fn session_count(&self) -> (count: usize)
        ensures
            count == self.sessions().len(),
    {
        broadcast use vstd::std_specs::hash::group_hash_axioms;

        assert(self.sessions().dom() =~= self.training_sessions@.dom());
        self.training_sessions.len()
    }

    /// The aggregators' addresses as the configuration gives them.
    pub fn get_main_locations(&self) -> (locations: MainLocations)
        ensures
            locations@ == self.configuration().main_locations,
    {
        self.config.main_locations.clone()
    }

    /// Closes a session. Fails, and changes nothing, where there is no
    /// session with the identifier.
    pub fn handle_end_session(&mut self, session: TrainingSessionId) -> (ended: Result<
        (),
        ManagerError,
    >)
        requires
            old(self).well_formed(),
        ensures
            final(self).well_formed(),
            final(self).configuration() == old(self).configuration(),
            final(self).keys() == old(self).keys(),
            ended is Ok <==> old(self).sessions().contains_key(session@),
            ended is Ok ==> final(self).sessions() == old(self).sessions().remove(session@),
            ended matches Err(e) ==> {
                &&& e.kind == ManagerErrorKind::NoSessionToEnd(session)
                &&& final(self).sessions() == old(self).sessions()
            },
    {
        broadcast use vstd::std_specs::hash::group_hash_axioms;

        let removed = self.training_sessions.remove(&session.0);
        assert(self.keys() == old(self).keys());
        match removed {
            Some(_) => {
                assert forall|id: u16| #[trigger] self.sessions().contains_key(id) implies session_well_formed(
                    self.sessions()[id],
                ) by {
                    assert(old(self).sessions().contains_key(id));
                }
                Ok(())
            },
            None => {
                assert(self.sessions() =~= old(self).sessions());
                Err(ManagerError::new(ManagerErrorKind::NoSessionToEnd(session)))
            },
        }
    }
}

/// A set with exactly one member holds nothing but that member.
proof fn lemma_only_member(set: Set<u16>, member: u16)
    requires
        set.finite(),
        set.len() == 1,
        set.contains(member),
    ensures
        set.choose() == member,
{
    let other = set.choose();
    if other != member {
        assert(set.remove(member).len() == 0);
        assert(set.remove(member).contains(other));
    }
}

impl TaskProvisioner {
    /// The parameters of the task `task_id`: those of the one session that
    /// holds the task. Fails where no session holds it, and where more than
    /// one does.
    pub fn find_vdaf_parameter(&self, task_id: &TaskId) -> (found: Result<
        VdafParameter,
        ManagerError,
    >)
        ensures
            match found {
                Ok(parameter) => vdaf_parameter_of_task(self.sessions(), *task_id) == Ok::<
                    VdafParameterView,
                    ManagerErrorKind,
                >(parameter@),
                Err(e) => vdaf_parameter_of_task(self.sessions(), *task_id) == Err::<
                    VdafParameterView,
                    ManagerErrorKind,
                >(e.kind),
            },
    {
        broadcast use vstd::std_specs::hash::group_hash_axioms;

        let mut count: usize = 0;
        let mut parameter: Option<VdafParameter> = None;
        let ghost mut seen: Set<u16> = Set::empty();
        let ghost mut first: u16 = 0;
        let ghost mut visited: int = 0;
        let ghost sessions = self.sessions();
        let ghost task = task_id@;
        let ghost keys: Seq<u16> = self.training_sessions.keys().remaining().unref();
        for key in it: self.training_sessions.keys()
            invariant
                sessions == self.sessions(),
                task == task_id@,
                keys == it.seq().unref(),
                keys.to_set() == self.training_sessions@.dom(),
                keys.no_duplicates(),
                visited == it.index(),
                seen.finite(),
                forall|k: u16|
                    seen.contains(k) <==> sessions.contains_key(k) && sessions[k].tasks.contains(
                        task,
                    ) && exists|j: int| 0 <= j < visited && keys[j] == k,
                count <= 2,
                count == if seen.len() <= 2 {
                    seen.len()
                } else {
                    2
                },
                count >= 1 ==> seen.contains(first) && parameter is Some
                    && parameter->Some_0@ == sessions[first].vdaf_parameter,
        {
            match self.training_sessions.get(key) {
                Some(session) => {
                    if session.holds_task(task_id) {
                        if count == 0 {
                            parameter = Some(session.vdaf_parameter.clone());
                            proof {
                                first = *key;
                            }
                        }
                        proof {
                            assert(!seen.contains(*key)) by {
                                if seen.contains(*key) {
                                    let j = choose|j: int| 0 <= j < visited && keys[j] == *key;
                                    assert(keys[j] == keys[visited]);
                                }
                            }
                            seen = seen.insert(*key);
                        }
                        if count < 2 {
                            count += 1;
                        }
                    }
                },
                None => {},
            }
            proof {
                visited = visited + 1;
            }
        }
        proof {
            let holders = sessions_holding(sessions, task);
            assert forall|k: u16| holders.contains(k) implies seen.contains(k) by {
                assert(keys.to_set().contains(k));
                let j = choose|j: int| 0 <= j < keys.len() && keys[j] == k;
                assert(0 <= j < visited);
            }
            assert(holders =~= seen);
            if count == 1 {
                lemma_only_member(holders, first);
            }
        }
        if count == 0 {
            Err(ManagerError::new(ManagerErrorKind::TaskNotFound(*task_id)))
        } else if count == 1 {
            match parameter {
                Some(parameter) => Ok(parameter),
                None => vstd::pervasive::unreached(),
            }
        } else {
            Err(ManagerError::new(ManagerErrorKind::TaskAmbiguous(*task_id)))
        }
    }
}

/// The identifier that comes `steps` after `start`; after the largest
/// comes 0.
pub open spec fn id_after(start: u16, steps: int) -> u16 {
    ((start + steps) % 65536) as u16
}

/// Whether every identifier is in use.
pub open spec fn sessions_full(sessions: Map<u16, TrainingSessionView>) -> bool {
    forall|id: u16| sessions.contains_key(id)
}

/// Whether `id` is the first identifier from `fresh` on that no session
/// has: it is free, and every identifier from `fresh` up to it is in use.
pub open spec fn is_next_free_id(sessions: Map<u16, TrainingSessionView>, fresh: u16, id: u16) -> bool {
    exists|steps: int|
        {
            &&& 0 <= steps < 65536
            &&& id == #[trigger] id_after(fresh, steps)
            &&& !sessions.contains_key(id)
            &&& forall|before: int|
                0 <= before < steps ==> sessions.contains_key(#[trigger] id_after(fresh, before))
        }
}

/// Whether `id` is the identifier of a new session: the one asked for, or
/// else the first free one from the drawn identifier `fresh` on. Either way
/// no session has it.
pub open spec fn is_chosen_session_id(
    sessions: Map<u16, TrainingSessionView>,
    target: Option<u16>,
    fresh: u16,
    id: u16,
) -> bool {
    &&& !sessions.contains_key(id)
    &&& match target {
        Some(asked) => id == asked,
        None => is_next_free_id(sessions, fresh, id),
    }
}

/// There is one first free identifier from `fresh` on, and no other.
pub proof fn lemma_next_free_id_is_one(
    sessions: Map<u16, TrainingSessionView>,
    fresh: u16,
    id: u16,
    other: u16,
)
    requires
        is_next_free_id(sessions, fresh, id),
        is_next_free_id(sessions, fresh, other),
    ensures
        id == other,
{
    let a = choose|steps: int|
        {
            &&& 0 <= steps < 65536
            &&& id == #[trigger] id_after(fresh, steps)
            &&& !sessions.contains_key(id)
            &&& forall|before: int|
                0 <= before < steps ==> sessions.contains_key(#[trigger] id_after(fresh, before))
        };
    let b = choose|steps: int|
        {
            &&& 0 <= steps < 65536
            &&& other == #[trigger] id_after(fresh, steps)
            &&& !sessions.contains_key(other)
            &&& forall|before: int|
                0 <= before < steps ==> sessions.contains_key(#[trigger] id_after(fresh, before))
        };
    if a < b {
        assert(sessions.contains_key(id_after(fresh, a)));
    }
    if b < a {
        assert(sessions.contains_key(id_after(fresh, b)));
    }
}

/// Where the drawn identifier is free, it is the one chosen.
pub proof fn lemma_free_fresh_id_is_chosen(sessions: Map<u16, TrainingSessionView>, fresh: u16)
    requires
        !sessions.contains_key(fresh),
    ensures
        is_next_free_id(sessions, fresh, fresh),
{
    assert(id_after(fresh, 0) == fresh);
}

/// The bytes of the leader's token in a request: the text itself, in UTF-8.
pub open spec fn leader_token_of(request: CreateTrainingSessionRequestView) -> Seq<u8> {
    vstd::utf8::encode_utf8(request.leader_auth_token_encoded)
}

/// Why a request to open a session is refused, if it is. The checks come
/// in this order: the identifier, the collector's token, the leader's
/// token, the verification key. An identifier that is asked for must be
/// free; where none is asked for, one must be free.
pub open spec fn create_session_failure(
    sessions: Map<u16, TrainingSessionView>,
    request: CreateTrainingSessionRequestView,
) -> Option<ManagerErrorKind> {
    if request.training_session_id is Some && sessions.contains_key(
        request.training_session_id->0,
    ) {
        Some(ManagerErrorKind::SessionExists(TrainingSessionId(request.training_session_id->0)))
    } else if request.training_session_id is None && sessions_full(sessions) {
        Some(ManagerErrorKind::NoFreeSessionId)
    } else if base64url_decoding(request.collector_auth_token_encoded) is None {
        Some(ManagerErrorKind::CollectorTokenEncoding)
    } else if !bearer_token_syntax(base64url_decoding(request.collector_auth_token_encoded)->0) {
        Some(ManagerErrorKind::CollectorTokenSyntax)
    } else if !bearer_token_syntax(leader_token_of(request)) {
        Some(ManagerErrorKind::LeaderTokenSyntax)
    } else if base64url_decoding(request.verify_key_encoded) is None {
        Some(ManagerErrorKind::VerifyKeyEncoding)
    } else {
        None
    }
}

/// The session that an accepted request opens, given the manager's key for
/// it: it has no tasks yet.
pub open spec fn created_session(
    request: CreateTrainingSessionRequestView,
    keypair: HpkeKeypairView,
) -> TrainingSessionView {
    TrainingSessionView {
        role: request.role,
        collector_hpke_config: request.collector_hpke_config,
        verify_key: base64url_decoding(request.verify_key_encoded)->0,
        collector_auth_token: base64url_decoding(request.collector_auth_token_encoded)->0,
        leader_auth_token: leader_token_of(request),
        hpke_config_and_key: keypair,
        vdaf_parameter: request.vdaf_parameter,
        tasks: Seq::empty(),
    }
}

/// How a manager with the sessions and keys `before` answers `request` and
/// what it holds afterwards, where `fresh` is the identifier and `key` the
/// key identifier that chance gave it. A new session never takes the
/// place of one that is open.
pub open spec fn create_session_step(
    sessions_before: Map<u16, TrainingSessionView>,
    keys_before: Map<u8, HpkeKeypairView>,
    request: CreateTrainingSessionRequestView,
    fresh: u16,
    key: u8,
    answer: Result<u16, ManagerErrorKind>,
    sessions_after: Map<u16, TrainingSessionView>,
    keys_after: Map<u8, HpkeKeypairView>,
) -> bool {
    match create_session_failure(sessions_before, request) {
        Some(kind) => {
            &&& answer == Err::<u16, ManagerErrorKind>(kind)
            &&& sessions_after == sessions_before
            &&& keys_after == keys_before
        },
        None => {
            &&& answer matches Ok(id)
            &&& is_chosen_session_id(sessions_before, request.training_session_id, fresh, id)
            &&& !sessions_before.contains_key(id)
            &&& sessions_after == sessions_before.insert(
                id,
                created_session(request, keys_after[key]),
            )
            &&& keys_after.contains_key(key)
            &&& is_server_keypair(keys_after[key], key)
            &&& keys_after == keys_before.insert(key, keys_after[key])
            &&& keys_before.contains_key(key) ==> keys_after == keys_before
        },
    }
}

/// Opening a session leaves every open session as it is, whether the
/// request is accepted or refused.
pub proof fn lemma_create_session_keeps_sessions(
    sessions_before: Map<u16, TrainingSessionView>,
    keys_before: Map<u8, HpkeKeypairView>,
    request: CreateTrainingSessionRequestView,
    fresh: u16,
    key: u8,
    answer: Result<u16, ManagerErrorKind>,
    sessions_after: Map<u16, TrainingSessionView>,
    keys_after: Map<u8, HpkeKeypairView>,
)
    requires
        create_session_step(
            sessions_before,
            keys_before,
            request,
            fresh,
            key,
            answer,
            sessions_after,
            keys_after,
        ),
    ensures
        forall|id: u16| #[trigger]
            sessions_before.contains_key(id) ==> sessions_after.contains_key(id)
                && sessions_after[id] == sessions_before[id],
        answer matches Ok(id) ==> !sessions_before.contains_key(id) && sessions_after.dom()
            == sessions_before.dom().insert(id),
        answer is Err ==> sessions_after == sessions_before,
{
}

/// The identifier or the kind of failure in an answer.
pub open spec fn answer_of(answer: Result<TrainingSessionId, ManagerError>) -> Result<
    u16,
    ManagerErrorKind,
> {
    match answer {
        Ok(id) => Ok(id@),
        Err(e) => Err(e.kind),
    }
}

impl TaskProvisioner {
    /// Opens a training session under the identifier asked for, which must
    /// be free, or else under the first free identifier from `fresh_id` on.
    /// No open session is replaced. The session gets the manager's key with
    /// the identifier `hpke_key_id`, which is made if it is not there. A
    /// refused request changes nothing.
    pub fn create_session_with(
        &mut self,
        request: CreateTrainingSessionRequest,
        fresh_id: u16,
        hpke_key_id: u8,
    ) -> (answer: Result<TrainingSessionId, ManagerError>)
        requires
            old(self).well_formed(),
        ensures
            final(self).well_formed(),
            final(self).configuration() == old(self).configuration(),
            create_session_step(
                old(self).sessions(),
                old(self).keys(),
                request@,
                fresh_id,
                hpke_key_id,
                answer_of(answer),
                final(self).sessions(),
                final(self).keys(),
            ),
            answer matches Ok(id) ==> !old(self).sessions().contains_key(id@),
            forall|held: u16| #[trigger]
                old(self).sessions().contains_key(held) ==> final(self).sessions().contains_key(
                    held,
                ) && final(self).sessions()[held] == old(self).sessions()[held],
    {
        broadcast use vstd::std_specs::hash::group_hash_axioms;

        let training_session_id = match request.training_session_id {
            Some(id) => {
                if self.training_sessions.contains_key(&id.0) {
                    return Err(ManagerError::new(ManagerErrorKind::SessionExists(id)));
                }
                id
            },
            None => match self.next_free_id(fresh_id) {
                Some(id) => id,
                None => {
                    return Err(ManagerError::new(ManagerErrorKind::NoFreeSessionId));
                },
            },
        };
        let collector_auth_token_decoded = match base64url_decode(
            request.collector_auth_token_encoded.as_str(),
        ) {
            Ok(bytes) => bytes,
            Err(_) => {
                return Err(ManagerError::new(ManagerErrorKind::CollectorTokenEncoding));
            },
        };
        let collector_auth_token = match bearer_token_from_bytes(
            collector_auth_token_decoded.as_slice(),
        ) {
            Ok(token) => token,
            Err(e) => {
                return Err(
                    ManagerError::with_detail(
                        ManagerErrorKind::CollectorTokenSyntax,
                        token_error_text(&e),
                    ),
                );
            },
        };
        let leader_auth_token_bytes = request.leader_auth_token_encoded.as_str().as_bytes_vec();
        let leader_auth_token = match bearer_token_from_bytes(leader_auth_token_bytes.as_slice()) {
            Ok(token) => token,
            Err(e) => {
                return Err(
                    ManagerError::with_detail(
                        ManagerErrorKind::LeaderTokenSyntax,
                        token_error_text(&e),
                    ),
                );
            },
        };
        let verify_key = match base64url_decode(request.verify_key_encoded.as_str()) {
            Ok(bytes) => bytes,
            Err(_) => {
                return Err(ManagerError::new(ManagerErrorKind::VerifyKeyEncoding));
            },
        };
        let hpke_config_and_key = self.fetch_keypair(hpke_key_id);
        let ghost keypair = hpke_config_and_key@;
        let training_session = TrainingSession {
            role: request.role,
            verify_key,
            collector_hpke_config: request.collector_hpke_config,
            collector_auth_token,
            leader_auth_token,
            hpke_config_and_key,
            vdaf_parameter: request.vdaf_parameter,
            tasks: Vec::new(),
        };
        assert(training_session@.tasks =~= Seq::<Seq<u8>>::empty());
        assert(training_session@ == created_session(request@, keypair));
        match self.install_session(training_session_id, training_session) {
            Ok(_) => Ok(training_session_id),
            Err(e) => Err(e),
        }
    }

    /// The first identifier from `fresh` on that no session has, or `None`
    /// where every identifier is in use.
    pub fn next_free_id(&self, fresh: u16) -> (free: Option<TrainingSessionId>)
        ensures
            match free {
                Some(id) => is_next_free_id(self.sessions(), fresh, id@),
                None => sessions_full(self.sessions()),
            },
    {
        broadcast use vstd::std_specs::hash::group_hash_axioms;

        let mut steps: u32 = 0;
        while steps < 65536
            invariant
                steps <= 65536,
                forall|before: int|
                    0 <= before < steps ==> self.sessions().contains_key(
                        #[trigger] id_after(fresh, before),
                    ),
            decreases 65536 - steps,
        {
            let candidate: u16 = ((fresh as u32 + steps) % 65536) as u16;
            assert(candidate == id_after(fresh, steps as int));
            if !self.training_sessions.contains_key(&candidate) {
                return Some(TrainingSessionId(candidate));
            }
            steps += 1;
        }
        assert forall|id: u16| self.sessions().contains_key(id) by {
            let steps = (id - fresh + 65536) % 65536;
            assert(id_after(fresh, steps) == id);
        }
        None
    }

    /// The manager's key with the identifier `id`: the one that is there,
    /// or else a new one, which is then kept. Sessions and other keys stay.
    pub fn fetch_keypair(&mut self, id: u8) -> (pair: HpkeKeypair)
        requires
            old(self).well_formed(),
        ensures
            final(self).well_formed(),
            final(self).configuration() == old(self).configuration(),
            final(self).sessions() == old(self).sessions(),
            is_server_keypair(pair@, id),
            old(self).keys().contains_key(id) ==> final(self).keys() == old(self).keys(),
            final(self).keys() == old(self).keys().insert(id, pair@),
    {
        assert forall|id: u8| #[trigger] self.keyring@.contains_key(id) implies is_server_keypair(
            self.keyring@[id],
            id,
        ) by {
            assert(self.keys().contains_key(id));
        }
        let pair = self.keyring.fetch_keypair(id);
        assert(self.sessions() == old(self).sessions());
        pair
    }

    /// Keeps `session` under the identifier `id`, if no session has it.
    /// Where one has, it stays, and nothing changes.
    pub fn install_session(&mut self, id: TrainingSessionId, session: TrainingSession) -> (installed:
        Result<(), ManagerError>)
        requires
            old(self).well_formed(),
            session_well_formed(session@),
        ensures
            final(self).well_formed(),
            final(self).configuration() == old(self).configuration(),
            final(self).keys() == old(self).keys(),
            installed is Ok <==> !old(self).sessions().contains_key(id@),
            installed is Ok ==> final(self).sessions() == old(self).sessions().insert(
                id@,
                session@,
            ),
            installed matches Err(e) ==> {
                &&& e.kind == ManagerErrorKind::SessionExists(id)
                &&& final(self).sessions() == old(self).sessions()
            },
    {
        broadcast use vstd::std_specs::hash::group_hash_axioms;

        if self.training_sessions.contains_key(&id.0) {
            return Err(ManagerError::new(ManagerErrorKind::SessionExists(id)));
        }
        self.training_sessions.insert(id.0, session);
        proof {
            assert(self.keys() == old(self).keys());
            assert forall|other: u16| #[trigger]
                self.sessions().contains_key(other) implies session_well_formed(
                self.sessions()[other],
            ) by {
                if other != id@ {
                    assert(old(self).sessions().contains_key(other));
                }
            }
        }
        Ok(())
    }

    /// Opens a training session, as [`Self::create_session_with`] does,
    /// with a key identifier that is drawn at random. Where the request
    /// asks for no session identifier, one is drawn at random, and the
    /// session gets the first free identifier from that one on. No open
    /// session is replaced or changed.
    pub fn handle_create_session(&mut self, request: CreateTrainingSessionRequest) -> (answer:
        Result<TrainingSessionId, ManagerError>)
        requires
            old(self).well_formed(),
        ensures
            final(self).well_formed(),
            final(self).configuration() == old(self).configuration(),
            exists|fresh: u16, key: u8|
                create_session_step(
                    old(self).sessions(),
                    old(self).keys(),
                    request@,
                    fresh,
                    key,
                    answer_of(answer),
                    final(self).sessions(),
                    final(self).keys(),
                ),
            answer matches Ok(id) ==> !old(self).sessions().contains_key(id@),
            forall|held: u16| #[trigger]
                old(self).sessions().contains_key(held) ==> final(self).sessions().contains_key(
                    held,
                ) && final(self).sessions()[held] == old(self).sessions()[held],
    {
        let fresh: u16 = random_u16();
        let key: u8 = random_u8();
        self.create_session_with(request, fresh, key)
    }

    /// The parameters of the task that a request names.
    pub fn handle_get_vdaf_parameter(&self, request: GetVdafParameterRequest) -> (found: Result<
        VdafParameter,
        ManagerError,
    >)
        ensures
            parameter_answer_of(found) == get_vdaf_parameter_answer(self.sessions(), request@),
    {
        match task_id_from_string(request.task_id_encoded) {
            Err(TaskIdParseError::Base64(e)) => Err(
                ManagerError::with_detail(ManagerErrorKind::TaskIdEncoding, base64_error_text(&e)),
            ),
            Err(TaskIdParseError::Codec(c)) => Err(
                ManagerError::new(ManagerErrorKind::TaskIdLength(c)),
            ),
            Ok(task_id) => {
                proof {
                    lemma_task_id_with(task_id);
                }
                self.find_vdaf_parameter(&task_id)
            },
        }
    }
}

/// The parameters or the kind of failure in an answer.
pub open spec fn parameter_answer_of(answer: Result<VdafParameter, ManagerError>) -> Result<
    VdafParameterView,
    ManagerErrorKind,
> {
    match answer {
        Ok(parameter) => Ok(parameter@),
        Err(e) => Err(e.kind),
    }
}

/// What a manager with the sessions `sessions` answers when it is asked
/// for the parameters of the task that `text` names: the text is read
/// first, then the task is looked for.
pub open spec fn get_vdaf_parameter_answer(
    sessions: Map<u16, TrainingSessionView>,
    text: Seq<char>,
) -> Result<VdafParameterView, ManagerErrorKind> {
    match base64url_decoding(text) {
        None => Err(ManagerErrorKind::TaskIdEncoding),
        Some(bytes) => match task_id_decoding(bytes) {
            Err(c) => Err(ManagerErrorKind::TaskIdLength(c)),
            Ok(id) => vdaf_parameter_of_task(sessions, task_id_with(id)),
        },
    }
}

/// How often a batch of a task may be queried.
pub const MAX_BATCH_QUERY_COUNT: u64 = 10;

/// The least number of reports in a batch.
pub const MIN_BATCH_SIZE: u64 = 2;

/// The granularity of report timestamps, in seconds.
pub const TIME_PRECISION: u64 = 3600;

/// How far a client's clock may be off, in seconds.
pub const TOLERABLE_CLOCK_SKEW: u64 = 1000;

/// How the batches of a task are formed.
#[derive(Clone, Copy, Debug, PartialEq, Eq, Structural)]
pub enum QueryType {
    /// The collector asks for the reports of an interval of time.
    TimeInterval,
}

/// What an aggregator needs to authenticate its peers, by its role. The
/// leader holds the token it shows to the helper and the digest of the
/// collector's token; the helper holds the digest of the leader's token.
#[derive(Debug)]
pub enum AggregatorTaskParameters {
    Leader {
        aggregator_auth_token: Vec<u8>,
        collector_auth_token_hash: Vec<u8>,
        collector_hpke_config: HpkeConfig,
    },
    Helper { aggregator_auth_token_hash: Vec<u8>, collector_hpke_config: HpkeConfig },
}

/// What an [`AggregatorTaskParameters`] holds.
pub enum AggregatorTaskParametersView {
    Leader {
        aggregator_auth_token: Seq<u8>,
        collector_auth_token_hash: Seq<u8>,
        collector_hpke_config: HpkeConfigView,
    },
    Helper { aggregator_auth_token_hash: Seq<u8>, collector_hpke_config: HpkeConfigView },
}

impl AggregatorTaskParametersView {
    /// The role that the parameters are for.
    pub open spec fn role(self) -> Role {
        match self {
            AggregatorTaskParametersView::Leader { .. } => Role::Leader,
            AggregatorTaskParametersView::Helper { .. } => Role::Helper,
        }
    }

    /// The collector's key.
    pub open spec fn collector_hpke_config(self) -> HpkeConfigView {
        match self {
            AggregatorTaskParametersView::Leader { collector_hpke_config, .. } => collector_hpke_config,
            AggregatorTaskParametersView::Helper { collector_hpke_config, .. } => collector_hpke_config,
        }
    }
}

impl View for AggregatorTaskParameters {
    type V = AggregatorTaskParametersView;

    open spec fn view(&self) -> AggregatorTaskParametersView {
        match self {
            AggregatorTaskParameters::Leader {
                aggregator_auth_token,
                collector_auth_token_hash,
                collector_hpke_config,
            } => AggregatorTaskParametersView::Leader {
                aggregator_auth_token: aggregator_auth_token@,
                collector_auth_token_hash: collector_auth_token_hash@,
                collector_hpke_config: collector_hpke_config@,
            },
            AggregatorTaskParameters::Helper {
                aggregator_auth_token_hash,
                collector_hpke_config,
            } => AggregatorTaskParametersView::Helper {
                aggregator_auth_token_hash: aggregator_auth_token_hash@,
                collector_hpke_config: collector_hpke_config@,
            },
        }
    }
}

impl AggregatorTaskParameters {
    /// The role that the parameters are for.
    pub fn role(&self) -> (role: Role)
        ensures
            role == self@.role(),
    {
        match self {
            AggregatorTaskParameters::Leader { .. } => Role::Leader,
            AggregatorTaskParameters::Helper { .. } => Role::Helper,
        }
    }

    /// The collector's key.
    pub fn collector_hpke_config(&self) -> (config: &HpkeConfig)
        ensures
            config@ == self@.collector_hpke_config(),
    {
        match self {
            AggregatorTaskParameters::Leader { collector_hpke_config, .. } => collector_hpke_config,
            AggregatorTaskParameters::Helper { collector_hpke_config, .. } => collector_hpke_config,
        }
    }
}

/// A task as an aggregator stores it.
#[derive(Debug)]
pub struct AggregatorTask {
    pub task_id: TaskId,
    /// Where the other aggregator is reached.
    pub peer_aggregator_endpoint: String,
    pub query_type: QueryType,
    pub vdaf: VdafInstance,
    pub vdaf_verify_key: Vec<u8>,
    pub max_batch_query_count: u64,
    /// When the task ends, in seconds since the epoch; never, where `None`.
    pub task_expiration: Option<u64>,
    /// After how many seconds a report is dropped; never, where `None`.
    pub report_expiry_age: Option<u64>,
    pub min_batch_size: u64,
    /// In seconds.
    pub time_precision: u64,
    /// In seconds.
    pub tolerable_clock_skew: u64,
    /// This aggregator's own key for the task.
    pub hpke_keypair: HpkeKeypair,
    pub aggregator_parameters: AggregatorTaskParameters,
}

/// What an [`AggregatorTask`] holds.
pub struct AggregatorTaskView {
    pub task_id: Seq<u8>,
    pub peer_aggregator_endpoint: Seq<char>,
    pub query_type: QueryType,
    pub vdaf: VdafInstanceView,
    pub vdaf_verify_key: Seq<u8>,
    pub max_batch_query_count: u64,
    pub task_expiration: Option<u64>,
    pub report_expiry_age: Option<u64>,
    pub min_batch_size: u64,
    pub time_precision: u64,
    pub tolerable_clock_skew: u64,
    pub hpke_keypair: HpkeKeypairView,
    pub aggregator_parameters: AggregatorTaskParametersView,
}

impl View for AggregatorTask {
    type V = AggregatorTaskView;

    open spec fn view(&self) -> AggregatorTaskView {
        AggregatorTaskView {
            task_id: self.task_id@,
            peer_aggregator_endpoint: self.peer_aggregator_endpoint@,
            query_type: self.query_type,
            vdaf: self.vdaf@,
            vdaf_verify_key: self.vdaf_verify_key@,
            max_batch_query_count: self.max_batch_query_count,
            task_expiration: self.task_expiration,
            report_expiry_age: self.report_expiry_age,
            min_batch_size: self.min_batch_size,
            time_precision: self.time_precision,
            tolerable_clock_skew: self.tolerable_clock_skew,
            hpke_keypair: self.hpke_keypair@,
            aggregator_parameters: self.aggregator_parameters@,
        }
    }
}

/// Whether two tasks agree in all that must not change once a task is
/// provisioned: the peer's address, the query type, the aggregation
/// function, the verification key, the role, the query count, the
/// expiration, the batch size, the time precision and the collector's key.
/// The budgets of the two aggregation functions are compared as fractions.
pub open spec fn same_task_parameters(a: AggregatorTaskView, b: AggregatorTaskView) -> bool {
    &&& a.peer_aggregator_endpoint == b.peer_aggregator_endpoint
    &&& a.query_type == b.query_type
    &&& same_vdaf_instance(a.vdaf, b.vdaf)
    &&& a.vdaf_verify_key == b.vdaf_verify_key
    &&& a.aggregator_parameters.role() == b.aggregator_parameters.role()
    &&& a.max_batch_query_count == b.max_batch_query_count
    &&& a.task_expiration == b.task_expiration
    &&& a.min_batch_size == b.min_batch_size
    &&& a.time_precision == b.time_precision
    &&& a.aggregator_parameters.collector_hpke_config()
        == b.aggregator_parameters.collector_hpke_config()
}

/// What to do with a task that is to be provisioned.
#[derive(Clone, Copy, Debug, PartialEq, Eq, Structural)]
pub enum Provision {
    /// The task is new: store it.
    Insert,
    /// The task is there with the same parameters: leave it.
    Keep,
}

/// What provisioning `task` comes to, where `existing` is what the store
/// holds under the task's identifier: a new task is stored, a task that is
/// there with the same parameters is left alone, and one that is there
/// with other parameters is a failure.
pub open spec fn provision_outcome(
    existing: Option<AggregatorTaskView>,
    task: AggregatorTaskView,
) -> Option<Provision> {
    match existing {
        None => Some(Provision::Insert),
        Some(stored) => if same_task_parameters(stored, task) {
            Some(Provision::Keep)
        } else {
            None
        },
    }
}

/// The task behind an optional reference.
pub open spec fn optional_task(task: Option<&AggregatorTask>) -> Option<AggregatorTaskView> {
    match task {
        Some(task) => Some(task@),
        None => None,
    }
}

/// Whether two optional times are the same.
fn same_optional_time(a: Option<u64>, b: Option<u64>) -> (same: bool)
    ensures
        same == (a == b),
{
    match (a, b) {
        (None, None) => true,
        (Some(x), Some(y)) => x == y,
        _ => false,
    }
}

/// Decides what to do with `task`, where `existing` is what the store
/// holds under the task's identifier. Provisioning a task again with the
/// same parameters succeeds and leaves the store alone; with other
/// parameters it fails, and the stored task must stay.
pub fn provision_task(existing: Option<&AggregatorTask>, task: &AggregatorTask) -> (decision:
    Result<Provision, ManagerError>)
    ensures
        match decision {
            Ok(provision) => provision_outcome(optional_task(existing), task@) == Some(provision),
            Err(e) => {
                &&& provision_outcome(optional_task(existing), task@) is None
                &&& e.kind == ManagerErrorKind::ParameterMismatch
            },
        },
{
    match existing {
        None => Ok(Provision::Insert),
        Some(stored) => {
            let same = stored.peer_aggregator_endpoint == task.peer_aggregator_endpoint
                && stored.query_type == task.query_type && stored.vdaf == task.vdaf && bytes_equal(
                stored.vdaf_verify_key.as_slice(),
                task.vdaf_verify_key.as_slice(),
            ) && stored.aggregator_parameters.role() == task.aggregator_parameters.role()
                && stored.max_batch_query_count == task.max_batch_query_count
                && same_optional_time(stored.task_expiration, task.task_expiration)
                && stored.min_batch_size == task.min_batch_size && stored.time_precision
                == task.time_precision && *stored.aggregator_parameters.collector_hpke_config()
                == *task.aggregator_parameters.collector_hpke_config();
            if same {
                Ok(Provision::Keep)
            } else {
                Err(ManagerError::new(ManagerErrorKind::ParameterMismatch))
            }
        },
    }
}

/// What the aggregator's store holds under the identifier of a task that
/// is to be provisioned.
#[derive(Debug)]
pub enum StoredTask {
    /// Nothing.
    Absent,
    /// A task of the kind that the manager provisions.
    Known(AggregatorTask),
    /// A task of another kind: with another query type or another
    /// aggregation function, or without a collector's key.
    Foreign,
}

/// What a [`StoredTask`] holds.
pub enum StoredTaskView {
    Absent,
    Known(AggregatorTaskView),
    Foreign,
}

impl View for StoredTask {
    type V = StoredTaskView;

    open spec fn view(&self) -> StoredTaskView {
        match self {
            StoredTask::Absent => StoredTaskView::Absent,
            StoredTask::Known(task) => StoredTaskView::Known(task@),
            StoredTask::Foreign => StoredTaskView::Foreign,
        }
    }
}

/// What provisioning `task` comes to, where `stored` is what the store
/// holds under the task's identifier: as [`provision_outcome`] says for no
/// task and for a task of the manager's kind; a task of another kind has
/// other parameters, so that provisioning fails.
pub open spec fn stored_outcome(stored: StoredTaskView, task: AggregatorTaskView) -> Option<
    Provision,
> {
    match stored {
        StoredTaskView::Absent => provision_outcome(None, task),
        StoredTaskView::Known(known) => provision_outcome(Some(known), task),
        StoredTaskView::Foreign => None,
    }
}

/// Decides what to do with `task`, where `stored` is what the store holds
/// under the task's identifier; see [`provision_task`]. Over a task of
/// another kind provisioning fails, and the stored task must stay.
pub fn provision_stored_task(stored: &StoredTask, task: &AggregatorTask) -> (decision: Result<
    Provision,
    ManagerError,
>)
    ensures
        match decision {
            Ok(provision) => stored_outcome(stored@, task@) == Some(provision),
            Err(e) => {
                &&& stored_outcome(stored@, task@) is None
                &&& e.kind == ManagerErrorKind::ParameterMismatch
            },
        },
{
    match stored {
        StoredTask::Absent => provision_task(None, task),
        StoredTask::Known(known) => provision_task(Some(known), task),
        StoredTask::Foreign => Err(ManagerError::new(ManagerErrorKind::ParameterMismatch)),
    }
}

/// What the store of tasks holds after `task` was provisioned, or `None`
/// where provisioning fails.
pub open spec fn store_after(
    store: Map<Seq<u8>, AggregatorTaskView>,
    task: AggregatorTaskView,
) -> Option<Map<Seq<u8>, AggregatorTaskView>> {
    let existing = if store.contains_key(task.task_id) {
        Some(store[task.task_id])
    } else {
        None
    };
    match provision_outcome(existing, task) {
        Some(Provision::Insert) => Some(store.insert(task.task_id, task)),
        Some(Provision::Keep) => Some(store),
        None => None,
    }
}

/// Provisioning is idempotent under equal parameters: once a task has been
/// provisioned, provisioning a task with the same identifier succeeds, and
/// changes nothing, if it agrees with the first in the parameters that are
/// compared, and fails otherwise.
pub proof fn lemma_provision_again(
    store: Map<Seq<u8>, AggregatorTaskView>,
    first: AggregatorTaskView,
    second: AggregatorTaskView,
)
    requires
        store_after(store, first) is Some,
        first.task_id == second.task_id,
    ensures
        same_task_parameters(first, second) ==> store_after(store_after(store, first)->0, second)
            == store_after(store, first),
        !same_task_parameters(first, second) ==> store_after(store_after(store, first)->0, second)
            is None,
{
    if store.contains_key(first.task_id) {
        let stored = store[first.task_id];
        lemma_same_task_parameters_symmetric(stored, first);
        if same_task_parameters(first, second) {
            lemma_same_task_parameters_transitive(stored, first, second);
        }
        if same_task_parameters(stored, second) {
            lemma_same_task_parameters_transitive(first, stored, second);
        }
    }
}

/// A task agrees with itself, and agreement can be turned round.
pub proof fn lemma_same_task_parameters_symmetric(a: AggregatorTaskView, b: AggregatorTaskView)
    ensures
        same_task_parameters(a, a),
        same_task_parameters(a, b) == same_task_parameters(b, a),
{
    lemma_same_budget_symmetric(a.vdaf.dp_budget, b.vdaf.dp_budget);
}

/// Two tasks that agree with a third agree with each other.
pub proof fn lemma_same_task_parameters_transitive(
    a: AggregatorTaskView,
    b: AggregatorTaskView,
    c: AggregatorTaskView,
)
    requires
        same_task_parameters(a, b),
        same_task_parameters(b, c),
    ensures
        same_task_parameters(a, c),
{
    lemma_same_budget_transitive(a.vdaf.dp_budget, b.vdaf.dp_budget, c.vdaf.dp_budget);
}

/// Where the aggregator of the other role is reached.
pub open spec fn peer_endpoint_of(config: TaskProvisionerConfigView, role: Role) -> Seq<char> {
    match role {
        Role::Leader => config.helper_endpoint,
        Role::Helper => config.leader_endpoint,
    }
}

/// What the aggregator of a session needs to authenticate its peers.
pub open spec fn task_parameters_of(session: TrainingSessionView) -> AggregatorTaskParametersView {
    match session.role {
        Role::Leader => AggregatorTaskParametersView::Leader {
            aggregator_auth_token: session.leader_auth_token,
            collector_auth_token_hash: sha256_digest(session.collector_auth_token),
            collector_hpke_config: session.collector_hpke_config,
        },
        Role::Helper => AggregatorTaskParametersView::Helper {
            aggregator_auth_token_hash: sha256_digest(session.leader_auth_token),
            collector_hpke_config: session.collector_hpke_config,
        },
    }
}

/// The task of a round of `session` under the identifier `task_id`, as a
/// manager with the configuration `config` provisions it. It does not
/// depend on the tasks that the session has already.
pub open spec fn derived_task(
    config: TaskProvisionerConfigView,
    session: TrainingSessionView,
    task_id: Seq<u8>,
) -> AggregatorTaskView {
    AggregatorTaskView {
        task_id,
        peer_aggregator_endpoint: peer_endpoint_of(config, session.role),
        query_type: QueryType::TimeInterval,
        vdaf: vdaf_instance_of(session.vdaf_parameter),
        vdaf_verify_key: session.verify_key,
        max_batch_query_count: MAX_BATCH_QUERY_COUNT,
        task_expiration: None,
        report_expiry_age: None,
        min_batch_size: MIN_BATCH_SIZE,
        time_precision: TIME_PRECISION,
        tolerable_clock_skew: TOLERABLE_CLOCK_SKEW,
        hpke_keypair: session.hpke_config_and_key,
        aggregator_parameters: task_parameters_of(session),
    }
}

/// Why a request to start a round is refused before anything is
/// provisioned, if it is: the session is looked up first, then the task
/// identifier is read.
pub open spec fn start_round_failure(
    sessions: Map<u16, TrainingSessionView>,
    request: StartRoundRequestView,
) -> Option<ManagerErrorKind> {
    if !sessions.contains_key(request.training_session_id) {
        Some(ManagerErrorKind::UnknownSession(TrainingSessionId(request.training_session_id)))
    } else {
        match base64url_decoding(request.task_id_encoded) {
            None => Some(ManagerErrorKind::TaskIdEncoding),
            Some(bytes) => match task_id_decoding(bytes) {
                Err(c) => Some(ManagerErrorKind::TaskIdLength(c)),
                Ok(_) => None,
            },
        }
    }
}

/// The session with one more task at the end.
pub open spec fn with_task(session: TrainingSessionView, task: Seq<u8>) -> TrainingSessionView {
    TrainingSessionView { tasks: session.tasks.push(task), ..session }
}

/// The session with the task at the end, unless it holds the task already.
pub open spec fn with_task_once(session: TrainingSessionView, task: Seq<u8>) -> TrainingSessionView {
    if session.tasks.contains(task) {
        session
    } else {
        with_task(session, task)
    }
}

impl TaskProvisioner {
    /// The first step of starting a round: finds the session, reads the task
    /// identifier and derives the task to provision. Nothing changes yet.
    /// The caller looks the task up in the aggregator's store, decides with
    /// [`provision_stored_task`], stores the task if it is new, and then
    /// ends the round with [`Self::finish_start_round`], which adds the
    /// task to the session unless the session holds it already, and leaves
    /// the session where provisioning was refused.
    pub fn handle_start_round(&self, request: &StartRoundRequest) -> (derived: Result<
        AggregatorTask,
        ManagerError,
    >)
        requires
            self.well_formed(),
        ensures
            match derived {
                Ok(task) => {
                    &&& start_round_failure(self.sessions(), request@) is None
                    &&& task@ == derived_task(
                        self.configuration(),
                        self.sessions()[request@.training_session_id],
                        task_id_of_text(request@.task_id_encoded)->0,
                    )
                },
                Err(e) => start_round_failure(self.sessions(), request@) == Some(e.kind),
            },
    {
        if self.get_session(request.training_session_id).is_none() {
            return Err(
                ManagerError::new(ManagerErrorKind::UnknownSession(request.training_session_id)),
            );
        }
        let task_id = match task_id_from_string(request.task_id_encoded.clone()) {
            Ok(task_id) => task_id,
            Err(TaskIdParseError::Base64(e)) => {
                return Err(
                    ManagerError::with_detail(
                        ManagerErrorKind::TaskIdEncoding,
                        base64_error_text(&e),
                    ),
                );
            },
            Err(TaskIdParseError::Codec(c)) => {
                return Err(ManagerError::new(ManagerErrorKind::TaskIdLength(c)));
            },
        };
        self.derive_task(request.training_session_id, task_id)
    }

    /// The task of a round of the session `session` under the identifier
    /// `task_id`, for the aggregator of the session's role: its peer is the
    /// other aggregator; the leader gets the leader's token and the digest
    /// of the collector's, the helper the digest of the leader's.
    pub fn derive_task(&self, session: TrainingSessionId, task_id: TaskId) -> (derived: Result<
        AggregatorTask,
        ManagerError,
    >)
        requires
            self.well_formed(),
        ensures
            match derived {
                Ok(task) => {
                    &&& self.sessions().contains_key(session@)
                    &&& task@ == derived_task(
                        self.configuration(),
                        self.sessions()[session@],
                        task_id@,
                    )
                },
                Err(e) => {
                    &&& !self.sessions().contains_key(session@)
                    &&& e.kind == ManagerErrorKind::UnknownSession(session)
                },
            },
    {
        let training_session = match self.get_session(session) {
            Some(found) => found,
            None => {
                return Err(ManagerError::new(ManagerErrorKind::UnknownSession(session)));
            },
        };
        let collector_hpke_config = training_session.collector_hpke_config.clone();
        let aggregator_parameters = match training_session.role {
            Role::Leader => {
                let collector_auth_token_hash = match bearer_token_hash(
                    training_session.collector_auth_token.as_slice(),
                ) {
                    Some(digest) => digest,
                    None => vstd::pervasive::unreached(),
                };
                AggregatorTaskParameters::Leader {
                    aggregator_auth_token: bytes_to_vec(
                        training_session.leader_auth_token.as_slice(),
                    ),
                    collector_auth_token_hash,
                    collector_hpke_config,
                }
            },
            Role::Helper => {
                let aggregator_auth_token_hash = match bearer_token_hash(
                    training_session.leader_auth_token.as_slice(),
                ) {
                    Some(digest) => digest,
                    None => vstd::pervasive::unreached(),
                };
                AggregatorTaskParameters::Helper { aggregator_auth_token_hash, collector_hpke_config }
            },
        };
        let peer_aggregator_endpoint = match training_session.role {
            Role::Leader => self.config.helper_endpoint.clone(),
            Role::Helper => self.config.leader_endpoint.clone(),
        };
        Ok(
            AggregatorTask {
                task_id,
                peer_aggregator_endpoint,
                query_type: QueryType::TimeInterval,
                vdaf: training_session.vdaf_parameter.to_vdaf_instance(),
                vdaf_verify_key: bytes_to_vec(training_session.verify_key.as_slice()),
                max_batch_query_count: MAX_BATCH_QUERY_COUNT,
                task_expiration: None,
                report_expiry_age: None,
                min_batch_size: MIN_BATCH_SIZE,
                time_precision: TIME_PRECISION,
                tolerable_clock_skew: TOLERABLE_CLOCK_SKEW,
                hpke_keypair: training_session.hpke_config_and_key.clone(),
                aggregator_parameters,
            },
        )
    }

    /// The last step of starting a round: once the task is provisioned, adds
    /// it to the tasks of its session, at the end, unless the session holds
    /// it already, so that a round that is started again leaves the session
    /// as it is. Fails, and changes nothing, where the session is not there.
    pub fn record_task(&mut self, session: TrainingSessionId, task_id: TaskId) -> (recorded:
        Result<(), ManagerError>)
        requires
            old(self).well_formed(),
        ensures
            final(self).well_formed(),
            final(self).configuration() == old(self).configuration(),
            final(self).keys() == old(self).keys(),
            recorded is Ok <==> old(self).sessions().contains_key(session@),
            recorded is Ok ==> final(self).sessions() == old(self).sessions().insert(
                session@,
                with_task_once(old(self).sessions()[session@], task_id@),
            ),
            recorded matches Err(e) ==> {
                &&& e.kind == ManagerErrorKind::UnknownSession(session)
                &&& final(self).sessions() == old(self).sessions()
            },
    {
        broadcast use vstd::std_specs::hash::group_hash_axioms;

        let removed = self.training_sessions.remove(&session.0);
        assert(self.keys() == old(self).keys());
        match removed {
            None => {
                assert(self.sessions() =~= old(self).sessions());
                Err(ManagerError::new(ManagerErrorKind::UnknownSession(session)))
            },
            Some(mut training_session) => {
                let ghost before = training_session@;
                if !training_session.holds_task(&task_id) {
                    training_session.tasks.push(task_id);
                    assert(training_session@.tasks =~= before.tasks.push(task_id@));
                }
                assert(training_session@ == with_task_once(before, task_id@));
                self.training_sessions.insert(session.0, training_session);
                assert(self.sessions() =~= old(self).sessions().insert(
                    session@,
                    with_task_once(before, task_id@),
                ));
                assert forall|id: u16| #[trigger] self.sessions().contains_key(id) implies session_well_formed(
                    self.sessions()[id],
                ) by {
                    if id != session@ {
                        assert(old(self).sessions().contains_key(id));
                    }
                }
                Ok(())
            },
        }
    }
}

impl TaskProvisioner {
    /// The last step of starting a round, after the aggregator's store was
    /// asked to provision `task`, which [`Self::handle_start_round`] derived
    /// for `request`: where provisioning was refused, the refusal is
    /// handed on and the session stays as it is; where the task was stored
    /// or kept, it is recorded in the session, as [`Self::record_task`]
    /// does. Together the steps do what [`start_round_model`] says.
    pub fn finish_start_round(
        &mut self,
        request: &StartRoundRequest,
        task: &AggregatorTask,
        provisioned: Result<Provision, ManagerError>,
    ) -> (started: Result<(), ManagerError>)
        requires
            old(self).well_formed(),
        ensures
            final(self).well_formed(),
            final(self).configuration() == old(self).configuration(),
            final(self).keys() == old(self).keys(),
            match provisioned {
                Err(refused) => {
                    &&& started matches Err(e)
                    &&& e.kind == refused.kind
                    &&& e.detail@ == refused.detail@
                    &&& final(self).sessions() == old(self).sessions()
                },
                Ok(_) => {
                    let id = request@.training_session_id;
                    &&& started is Ok <==> old(self).sessions().contains_key(id)
                    &&& started is Ok ==> final(self).sessions() == old(self).sessions().insert(
                        id,
                        with_task_once(old(self).sessions()[id], task@.task_id),
                    )
                    &&& started matches Err(e) ==> {
                        &&& e.kind == ManagerErrorKind::UnknownSession(request.training_session_id)
                        &&& final(self).sessions() == old(self).sessions()
                    }
                },
            },
            forall|store: Map<Seq<u8>, AggregatorTaskView>|
                {
                    &&& start_round_failure(old(self).sessions(), request@) is None
                    &&& task@ == derived_task(
                        old(self).configuration(),
                        old(self).sessions()[request@.training_session_id],
                        task_id_of_text(request@.task_id_encoded)->0,
                    )
                    &&& (provisioned is Ok) == (#[trigger] store_after(store, task@) is Some)
                    &&& provisioned matches Err(refused) ==> refused.kind
                        == ManagerErrorKind::ParameterMismatch
                } ==> match start_round_model(
                    old(self).configuration(),
                    old(self).sessions(),
                    store,
                    request@,
                ) {
                    Ok((sessions, _)) => started is Ok && final(self).sessions() == sessions,
                    Err(kind) => {
                        &&& started matches Err(e)
                        &&& e.kind == kind
                        &&& final(self).sessions() == old(self).sessions()
                    },
                },
    {
        match provisioned {
            Err(refused) => Err(refused),
            Ok(_) => self.record_task(request.training_session_id, task.task_id),
        }
    }
}

/// What starting a round comes to, for a manager with the configuration
/// `config` and the sessions `sessions` beside an aggregator whose store
/// holds `store`: the sessions and the store afterwards, or why the request
/// is refused. A refused request changes neither. The session gets the
/// task unless it holds it already.
pub open spec fn start_round_model(
    config: TaskProvisionerConfigView,
    sessions: Map<u16, TrainingSessionView>,
    store: Map<Seq<u8>, AggregatorTaskView>,
    request: StartRoundRequestView,
) -> Result<(Map<u16, TrainingSessionView>, Map<Seq<u8>, AggregatorTaskView>), ManagerErrorKind> {
    match start_round_failure(sessions, request) {
        Some(kind) => Err(kind),
        None => {
            let id = request.training_session_id;
            let task = derived_task(config, sessions[id], task_id_of_text(request.task_id_encoded)->0);
            match store_after(store, task) {
                None => Err(ManagerErrorKind::ParameterMismatch),
                Some(stored) => Ok(
                    (sessions.insert(id, with_task_once(sessions[id], task.task_id)), stored),
                ),
            }
        },
    }
}

/// Starting a round is idempotent: a request that has succeeded succeeds
/// again when it is repeated at once, and leaves the sessions and the
/// store as the first time left them. After it the session holds the task.
pub proof fn lemma_start_round_again(
    config: TaskProvisionerConfigView,
    sessions: Map<u16, TrainingSessionView>,
    store: Map<Seq<u8>, AggregatorTaskView>,
    request: StartRoundRequestView,
)
    requires
        start_round_model(config, sessions, store, request) is Ok,
    ensures
        ({
            let first = start_round_model(config, sessions, store, request);
            let (sessions_1, store_1) = first->Ok_0;
            &&& sessions_1[request.training_session_id].tasks.contains(
                task_id_of_text(request.task_id_encoded)->0,
            )
            &&& start_round_model(config, sessions_1, store_1, request) == first
        }),
{
    let id = request.training_session_id;
    let task = derived_task(config, sessions[id], task_id_of_text(request.task_id_encoded)->0);
    let (sessions_1, store_1) = start_round_model(config, sessions, store, request)->Ok_0;
    let recorded = with_task_once(sessions[id], task.task_id);
    assert(recorded.tasks.contains(task.task_id)) by {
        if !sessions[id].tasks.contains(task.task_id) {
            assert(recorded.tasks[recorded.tasks.len() - 1] == task.task_id);
        }
    }
    assert(derived_task(config, recorded, task.task_id) == task);
    assert(with_task_once(recorded, task.task_id) == recorded);
    assert(sessions_1.insert(id, recorded) =~= sessions_1);
    lemma_provision_again(store, task, task);
}

/// A task that one session holds, and no other, has the parameters of that
/// session.
pub proof fn lemma_parameter_of_held_task(
    sessions: Map<u16, TrainingSessionView>,
    holder: u16,
    task: TaskId,
)
    requires
        sessions.contains_key(holder),
        sessions[holder].tasks.contains(task@),
        forall|other: u16|
            sessions.contains_key(other) && other != holder ==> !(#[trigger] sessions[other]).tasks.contains(
                task@,
            ),
    ensures
        vdaf_parameter_of_task(sessions, task) == Ok::<VdafParameterView, ManagerErrorKind>(
            sessions[holder].vdaf_parameter,
        ),
{
    let holders = sessions_holding(sessions, task@);
    assert(holders =~= set![holder]);
    lemma_only_member(holders, holder);
}

} // verus!
