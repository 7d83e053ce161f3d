//! Session identifiers, the registry of the manager's own keys, and the
//! messages of the manager's interface.

use std::collections::HashMap;
use vstd::prelude::*;
use vstd::set_lib::{lemma_int_range, lemma_len_subset, lemma_map_size_bound, set_int_range};
use vstd::std_specs::convert::FromSpecImpl;
use crate::outside::{generate_hpke_keypair, random_u8};
use crate::text::{decimal_string, decimal_text};
use crate::types::{
    CodecError,
    HpkeConfig,
    HpkeConfigView,
    HpkeKeypair,
    HpkeKeypairView,
    Role,
    VdafParameter,
    VdafParameterView,
    AEAD_AES_128_GCM,
    KDF_HKDF_SHA256,
    KEM_X25519_HKDF_SHA256,
};

verus! {

/// The identifier of a training session: an opaque 16-bit number.
#[derive(Clone, Copy, Debug, Hash, PartialEq, Eq, Structural, PartialOrd, Ord)]
pub struct TrainingSessionId(pub u16);

impl View for TrainingSessionId {
    type V = u16;

    open spec fn view(&self) -> u16 {
        self.0
    }
}

/// The two bytes that encode a 16-bit number, the high byte first.
pub open spec fn session_id_encoding(value: u16) -> Seq<u8> {
    seq![(value / 256) as u8, (value % 256) as u8]
}

/// What decoding `bytes` from `position` on gives: the number in the next
/// two bytes and the position after them.
pub open spec fn session_id_decoding(bytes: Seq<u8>, position: nat) -> Result<(u16, nat), CodecError> {
    if position + 2 <= bytes.len() {
        Ok(((bytes[position as int] * 256 + bytes[position as int + 1]) as u16, position + 2))
    } else {
        Err(CodecError::UnexpectedEof)
    }
}

/// What decoding the whole of `bytes` gives: the number in its two bytes.
pub open spec fn session_id_of_bytes(bytes: Seq<u8>) -> Result<u16, CodecError> {
    match session_id_decoding(bytes, 0) {
        Err(e) => Err(e),
        Ok((value, end)) => if end == bytes.len() {
            Ok(value)
        } else {
            Err(CodecError::BytesLeftOver((bytes.len() - end) as usize))
        },
    }
}

impl TrainingSessionId {
    /// The identifier written in decimal.
    pub fn to_string(&self) -> (text: String)
        ensures
            text@ == decimal_text(self@ as nat),
    {
        decimal_string(self.0 as u64)
    }

    /// Appends the two-byte encoding of the identifier to `bytes`.
    pub fn encode(&self, bytes: &mut Vec<u8>)
        ensures
            final(bytes)@ == old(bytes)@ + session_id_encoding(self@),
    {
        let high: u8 = (self.0 / 256) as u8;
        let low: u8 = (self.0 % 256) as u8;
        bytes.push(high);
        bytes.push(low);
    }

    /// The two-byte encoding of the identifier.
    pub fn get_encoded(&self) -> (bytes: Vec<u8>)
        ensures
            bytes@ == session_id_encoding(self@),
    {
        let mut bytes: Vec<u8> = Vec::new();
        self.encode(&mut bytes);
        bytes
    }

    /// Decodes an identifier from the two bytes at `position` and moves
    /// `position` past them. Where fewer than two bytes are left, `position`
    /// stays.
    pub fn decode(bytes: &[u8], position: &mut usize) -> (decoded: Result<
        TrainingSessionId,
        CodecError,
    >)
        ensures
            match decoded {
                Ok(id) => session_id_decoding(bytes@, *old(position) as nat) == Ok::<
                    (u16, nat),
                    CodecError,
                >((id@, *final(position) as nat)),
                Err(e) => {
                    &&& session_id_decoding(bytes@, *old(position) as nat) == Err::<
                        (u16, nat),
                        CodecError,
                    >(e)
                    &&& *final(position) == *old(position)
                },
            },
    {
        let start: usize = *position;
        if start > bytes.len() || bytes.len() - start < 2 {
            return Err(CodecError::UnexpectedEof);
        }
        let high: u16 = bytes[start] as u16;
        let low: u16 = bytes[start + 1] as u16;
        *position = start + 2;
        Ok(TrainingSessionId(high * 256 + low))
    }

    /// Decodes an identifier from exactly two bytes.
    pub fn get_decoded(bytes: &[u8]) -> (decoded: Result<TrainingSessionId, CodecError>)
        ensures
            match decoded {
                Ok(id) => session_id_of_bytes(bytes@) == Ok::<u16, CodecError>(id@),
                Err(e) => session_id_of_bytes(bytes@) == Err::<u16, CodecError>(e),
            },
    {
        let mut position: usize = 0;
        match TrainingSessionId::decode(bytes, &mut position) {
            Err(e) => Err(e),
            Ok(id) => if position == bytes.len() {
                Ok(id)
            } else {
                Err(CodecError::BytesLeftOver(bytes.len() - position))
            },
        }
    }
}

/// Decoding the encoding of an identifier gives the identifier back, and
/// nothing is left over.
pub proof fn lemma_session_id_round_trip(id: TrainingSessionId)
    ensures
        session_id_of_bytes(session_id_encoding(id@)) == Ok::<u16, CodecError>(id@),
        session_id_decoding(session_id_encoding(id@), 0) == Ok::<(u16, nat), CodecError>(
            (id@, 2nat),
        ),
{
    let bytes = session_id_encoding(id@);
}

/// An encoding that is followed by other bytes decodes to the identifier
/// and stops where the other bytes begin.
pub proof fn lemma_session_id_decodes_prefix(id: TrainingSessionId, before: Seq<u8>, after: Seq<u8>)
    ensures
        session_id_decoding(before + session_id_encoding(id@) + after, before.len()) == Ok::<
            (u16, nat),
            CodecError,
        >((id@, before.len() + 2)),
{
    let bytes = before + session_id_encoding(id@) + after;
    let start = before.len() as int;
}

impl From<u16> for TrainingSessionId {
    fn from(value: u16) -> (id: TrainingSessionId) {
        TrainingSessionId(value)
    }
}

impl FromSpecImpl<u16> for TrainingSessionId {
    open spec fn obeys_from_spec() -> bool {
        true
    }

    open spec fn from_spec(value: u16) -> TrainingSessionId {
        TrainingSessionId(value)
    }
}

impl From<TrainingSessionId> for u16 {
    fn from(id: TrainingSessionId) -> (value: u16) {
        id.0
    }
}

impl FromSpecImpl<TrainingSessionId> for u16 {
    open spec fn obeys_from_spec() -> bool {
        true
    }

    open spec fn from_spec(id: TrainingSessionId) -> u16 {
        id.0
    }
}

/// Whether `pair` is a key of the manager's own suite (X25519 with
/// HKDF-SHA256, HKDF-SHA256, AES-128-GCM) under the identifier `id`.
pub open spec fn is_server_keypair(pair: HpkeKeypairView, id: u8) -> bool {
    &&& pair.config.id == id
    &&& pair.config.kem_id == KEM_X25519_HKDF_SHA256
    &&& pair.config.kdf_id == KDF_HKDF_SHA256
    &&& pair.config.aead_id == AEAD_AES_128_GCM
}

/// The manager's key pairs, one for each key identifier that has been asked
/// for: at most 256. A pair is made when its identifier is first asked for
/// and stays as it is from then on.
pub struct HpkeConfigRegistry {
    keypairs: HashMap<u8, HpkeKeypair>,
}

impl View for HpkeConfigRegistry {
    type V = Map<u8, HpkeKeypairView>;

    closed spec fn view(&self) -> Map<u8, HpkeKeypairView> {
        self.keypairs@.map_values(|pair: HpkeKeypair| pair@)
    }
}

impl HpkeConfigRegistry {
    /// Every pair is of the manager's suite and stands under its own
    /// identifier.
    pub open spec fn well_formed(&self) -> bool {
        forall|id: u8| #[trigger] self@.contains_key(id) ==> is_server_keypair(self@[id], id)
    }

    /// A registry without keys.
    pub fn new() -> (registry: HpkeConfigRegistry)
        ensures
            registry@ == Map::<u8, HpkeKeypairView>::empty(),
            registry.well_formed(),
    {
        HpkeConfigRegistry { keypairs: HashMap::new() }
    }

    /// The pair under `id`: the one that is there, or else a new one, which
    /// is then kept. No other entry changes.
    pub fn fetch_keypair(&mut self, id: u8) -> (pair: HpkeKeypair)
        requires
            old(self).well_formed(),
        ensures
            final(self).well_formed(),
            is_server_keypair(pair@, id),
            old(self)@.contains_key(id) ==> final(self)@ == old(self)@,
            final(self)@ == old(self)@.insert(id, pair@),
    {
        broadcast use vstd::std_specs::hash::group_hash_axioms;

        let found = match self.keypairs.get(&id) {
            Some(pair) => Some(pair.clone()),
            None => None,
        };
        match found {
            Some(pair) => {
                assert(self@.contains_key(id) && self@[id] == pair@);
                pair
            },
            None => {
                match generate_hpke_keypair(
                    id,
                    KEM_X25519_HKDF_SHA256,
                    KDF_HKDF_SHA256,
                    AEAD_AES_128_GCM,
                ) {
                    Ok(pair) => {
                        self.keypairs.insert(id, pair.clone());
                        assert(self@ =~= old(self)@.insert(id, pair@));
                        pair
                    },
                    Err(_) => vstd::pervasive::unreached(),
                }
            },
        }
    }

    /// The pair under a key identifier chosen at random.
    pub fn get_random_keypair(&mut self) -> (pair: HpkeKeypair)
        requires
            old(self).well_formed(),
        ensures
            final(self).well_formed(),
            final(self)@ == old(self)@.insert(pair@.config.id, pair@),
            old(self)@.contains_key(pair@.config.id) ==> final(self)@ == old(self)@,
            is_server_keypair(pair@, pair@.config.id),
    {
        let id = random_u8();
        self.fetch_keypair(id)
    }
}

/// However many keys were asked for, the manager holds at most 256 of
/// them: one for each key identifier.
pub proof fn lemma_registry_capacity(keys: Map<u8, HpkeKeypairView>)
    ensures
        keys.dom().finite(),
        keys.len() <= 256,
{
    let range = set_int_range(0, 256);
    let narrow = |i: int| i as u8;
    let all = range.map(narrow);
    lemma_int_range(0, 256);
    lemma_map_size_bound(range, all, narrow);
    assert forall|id: u8| all.contains(id) by {
        assert(range.contains(id as int));
    }
    lemma_len_subset(keys.dom(), all);
}

/// Asks a manager to open a training session.
#[derive(Debug)]
pub struct CreateTrainingSessionRequest {
    /// The identifier to use, where the other manager has already chosen it.
    pub training_session_id: Option<TrainingSessionId>,
    pub role: Role,
    /// The verification key that both aggregators share, in unpadded
    /// base64url.
    pub verify_key_encoded: String,
    pub collector_hpke_config: HpkeConfig,
    /// The collector's bearer token, in unpadded base64url.
    pub collector_auth_token_encoded: String,
    /// The leader's bearer token, as it is.
    pub leader_auth_token_encoded: String,
    pub vdaf_parameter: VdafParameter,
}

/// What a [`CreateTrainingSessionRequest`] holds.
pub struct CreateTrainingSessionRequestView {
    pub training_session_id: Option<u16>,
    pub role: Role,
    pub verify_key_encoded: Seq<char>,
    pub collector_hpke_config: HpkeConfigView,
    pub collector_auth_token_encoded: Seq<char>,
    pub leader_auth_token_encoded: Seq<char>,
    pub vdaf_parameter: VdafParameterView,
}

/// The number behind an optional identifier.
pub open spec fn optional_id(id: Option<TrainingSessionId>) -> Option<u16> {
    match id {
        Some(id) => Some(id@),
        None => None,
    }
}

impl View for CreateTrainingSessionRequest {
    type V = CreateTrainingSessionRequestView;

    open spec fn view(&self) -> CreateTrainingSessionRequestView {
        CreateTrainingSessionRequestView {
            training_session_id: optional_id(self.training_session_id),
            role: self.role,
            verify_key_encoded: self.verify_key_encoded@,
            collector_hpke_config: self.collector_hpke_config@,
            collector_auth_token_encoded: self.collector_auth_token_encoded@,
            leader_auth_token_encoded: self.leader_auth_token_encoded@,
            vdaf_parameter: self.vdaf_parameter@,
        }
    }
}

/// Tells which identifier the new session has.
#[derive(Clone, Copy, Debug, PartialEq, Eq, Structural)]
pub struct CreateTrainingSessionResponse {
    pub training_session_id: TrainingSessionId,
}

/// Asks a manager to provision the task of a new round.
#[derive(Debug)]
pub struct StartRoundRequest {
    pub training_session_id: TrainingSessionId,
    /// The task identifier, in unpadded base64url.
    pub task_id_encoded: String,
}

/// What a [`StartRoundRequest`] holds.
pub struct StartRoundRequestView {
    pub training_session_id: u16,
    pub task_id_encoded: Seq<char>,
}

impl View for StartRoundRequest {
    type V = StartRoundRequestView;

    open spec fn view(&self) -> StartRoundRequestView {
        StartRoundRequestView {
            training_session_id: self.training_session_id@,
            task_id_encoded: self.task_id_encoded@,
        }
    }
}

impl Clone for StartRoundRequest {
    fn clone(&self) -> (copy: StartRoundRequest)
        ensures
            copy@ == self@,
    {
        StartRoundRequest {
            training_session_id: self.training_session_id,
            task_id_encoded: self.task_id_encoded.clone(),
        }
    }
}

/// Acknowledges that a round has started.
#[derive(Clone, Copy, Debug, PartialEq, Eq, Structural)]
pub struct StartRoundResponse {}

/// Asks a manager for the parameters of a task.
#[derive(Debug)]
pub struct GetVdafParameterRequest {
    /// The task identifier, in unpadded base64url.
    pub task_id_encoded: String,
}

impl View for GetVdafParameterRequest {
    type V = Seq<char>;

    open spec fn view(&self) -> Seq<char> {
        self.task_id_encoded@
    }
}

/// Tells the parameters of a task.
#[derive(Debug)]
pub struct GetVdafParameterResponse {
    pub vdaf_parameter: VdafParameter,
}

impl View for GetVdafParameterResponse {
    type V = VdafParameterView;

    open spec fn view(&self) -> VdafParameterView {
        self.vdaf_parameter@
    }
}

} // verus!
