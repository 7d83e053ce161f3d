//! The values that manager, controller and client exchange.

use vstd::prelude::*;
use vstd::std_specs::cmp::PartialEqSpecImpl;
use crate::fixed::FixedTypeTag;
use crate::outside::{digits_value, fractions_equal};

verus! {

/// Whether two byte strings hold the same bytes.
pub fn bytes_equal(a: &[u8], b: &[u8]) -> (same: bool)
    ensures
        same == (a@ == b@),
{
    if a.len() != b.len() {
        return false;
    }
    let mut i: usize = 0;
    while i < a.len()
        invariant
            a@.len() == b@.len(),
            i <= a@.len(),
            forall|j: int| 0 <= j < i ==> a@[j] == b@[j],
        decreases a@.len() - i,
    {
        if a[i] != b[i] {
            return false;
        }
        i += 1;
    }
    assert(a@ =~= b@);
    true
}

/// Whether two digit strings hold the same digits.
pub fn digits_equal(a: &[u32], b: &[u32]) -> (same: bool)
    ensures
        same == (a@ == b@),
{
    if a.len() != b.len() {
        return false;
    }
    let mut i: usize = 0;
    while i < a.len()
        invariant
            a@.len() == b@.len(),
            i <= a@.len(),
            forall|j: int| 0 <= j < i ==> a@[j] == b@[j],
        decreases a@.len() - i,
    {
        if a[i] != b[i] {
            return false;
        }
        i += 1;
    }
    assert(a@ =~= b@);
    true
}

/// A copy of a byte string.
pub fn bytes_to_vec(a: &[u8]) -> (copy: Vec<u8>)
    ensures
        copy@ == a@,
{
    let mut copy: Vec<u8> = Vec::new();
    let mut i: usize = 0;
    while i < a.len()
        invariant
            i <= a@.len(),
            copy@ == a@.take(i as int),
        decreases a@.len() - i,
    {
        copy.push(a[i]);
        i += 1;
    }
    copy
}

/// Why a byte string is not the encoding of a value.
#[derive(Clone, Copy, Debug, PartialEq, Eq, Structural)]
pub enum CodecError {
    /// The input ended before the value did.
    UnexpectedEof,
    /// The value ended before the input did; holds the number of bytes left.
    BytesLeftOver(usize),
}

/// The identifier of an aggregation task: 32 bytes.
#[derive(Clone, Copy, Debug, Hash)]
pub struct TaskId {
    pub bytes: [u8; 32],
}

impl View for TaskId {
    type V = Seq<u8>;

    open spec fn view(&self) -> Seq<u8> {
        self.bytes@
    }
}

impl PartialEq for TaskId {
    fn eq(&self, other: &TaskId) -> (same: bool) {
        bytes_equal(self.bytes.as_slice(), other.bytes.as_slice())
    }
}

impl Eq for TaskId {

}

impl PartialEqSpecImpl for TaskId {
    open spec fn obeys_eq_spec() -> bool {
        true
    }

    open spec fn eq_spec(&self, other: &TaskId) -> bool {
        self@ == other@
    }
}

/// What decoding `bytes` as a task identifier gives: the bytes themselves
/// where there are exactly 32 of them.
pub open spec fn task_id_decoding(bytes: Seq<u8>) -> Result<Seq<u8>, CodecError> {
    if bytes.len() < 32 {
        Err(CodecError::UnexpectedEof)
    } else if bytes.len() > 32 {
        Err(CodecError::BytesLeftOver((bytes.len() - 32) as usize))
    } else {
        Ok(bytes)
    }
}

impl TaskId {
    /// The length of a task identifier in bytes.
    pub const LEN: usize = 32;

    /// The encoding of the identifier: its 32 bytes.
    pub fn get_encoded(&self) -> (bytes: Vec<u8>)
        ensures
            bytes@ == self@,
            bytes@.len() == 32,
    {
        bytes_to_vec(self.bytes.as_slice())
    }

    /// Decodes an identifier from exactly 32 bytes.
    pub fn get_decoded(bytes: &[u8]) -> (decoded: Result<TaskId, CodecError>)
        ensures
            match decoded {
                Ok(id) => task_id_decoding(bytes@) == Ok::<Seq<u8>, CodecError>(id@),
                Err(e) => task_id_decoding(bytes@) == Err::<Seq<u8>, CodecError>(e),
            },
    {
        if bytes.len() < 32 {
            return Err(CodecError::UnexpectedEof);
        }
        if bytes.len() > 32 {
            return Err(CodecError::BytesLeftOver(bytes.len() - 32));
        }
        let mut id = TaskId { bytes: [0u8; 32] };
        let mut i: usize = 0;
        while i < 32
            invariant
                bytes@.len() == 32,
                i <= 32,
                forall|j: int| 0 <= j < i ==> id.bytes@[j] == bytes@[j],
            decreases 32 - i,
        {
            id.bytes[i] = bytes[i];
            i += 1;
        }
        assert(id@ =~= bytes@);
        Ok(id)
    }
}

/// Decoding undoes encoding.
pub proof fn lemma_task_id_round_trip(id: TaskId)
    ensures
        task_id_decoding(id@) == Ok::<Seq<u8>, CodecError>(id@),
{
    vstd::array::array_len_matches_n(&id.bytes);
}

/// Task identifiers with the same bytes are the same.
pub proof fn lemma_task_id_by_bytes(a: TaskId, b: TaskId)
    requires
        a@ == b@,
    ensures
        a == b,
{
    assert(a.bytes =~= b.bytes);
}

/// The task identifier with the given bytes.
pub open spec fn task_id_with(bytes: Seq<u8>) -> TaskId {
    choose|id: TaskId| id@ == bytes
}

/// The task identifier with the bytes of `id` is `id`.
pub proof fn lemma_task_id_with(id: TaskId)
    ensures
        task_id_with(id@) == id,
{
    lemma_task_id_by_bytes(task_id_with(id@), id);
}

/// Which of the two aggregators a manager serves.
#[derive(Clone, Copy, Debug, PartialEq, Eq, Structural, Hash)]
pub enum Role {
    Leader,
    Helper,
}

/// Code of the key encapsulation mechanism X25519 with HKDF-SHA256.
pub const KEM_X25519_HKDF_SHA256: u16 = 0x0020;

/// Code of the key encapsulation mechanism P-256 with HKDF-SHA256.
pub const KEM_P256_HKDF_SHA256: u16 = 0x0010;

/// Code of the key derivation function HKDF-SHA256.
pub const KDF_HKDF_SHA256: u16 = 0x0001;

/// Code of the cipher AES-128-GCM.
pub const AEAD_AES_128_GCM: u16 = 0x0001;

/// Code of the cipher AES-256-GCM.
pub const AEAD_AES_256_GCM: u16 = 0x0002;

/// A public encryption key with the algorithms it is meant for.
#[derive(Debug)]
pub struct HpkeConfig {
    pub id: u8,
    pub kem_id: u16,
    pub kdf_id: u16,
    pub aead_id: u16,
    pub public_key: Vec<u8>,
}

/// What an [`HpkeConfig`] holds.
pub struct HpkeConfigView {
    pub id: u8,
    pub kem_id: u16,
    pub kdf_id: u16,
    pub aead_id: u16,
    pub public_key: Seq<u8>,
}

impl View for HpkeConfig {
    type V = HpkeConfigView;

    open spec fn view(&self) -> HpkeConfigView {
        HpkeConfigView {
            id: self.id,
            kem_id: self.kem_id,
            kdf_id: self.kdf_id,
            aead_id: self.aead_id,
            public_key: self.public_key@,
        }
    }
}

impl Clone for HpkeConfig {
    fn clone(&self) -> (copy: HpkeConfig)
        ensures
            copy@ == self@,
    {
        HpkeConfig {
            id: self.id,
            kem_id: self.kem_id,
            kdf_id: self.kdf_id,
            aead_id: self.aead_id,
            public_key: bytes_to_vec(self.public_key.as_slice()),
        }
    }
}

impl PartialEq for HpkeConfig {
    fn eq(&self, other: &HpkeConfig) -> (same: bool) {
        self.id == other.id && self.kem_id == other.kem_id && self.kdf_id == other.kdf_id
            && self.aead_id == other.aead_id && bytes_equal(
            self.public_key.as_slice(),
            other.public_key.as_slice(),
        )
    }
}

impl Eq for HpkeConfig {

}

impl PartialEqSpecImpl for HpkeConfig {
    open spec fn obeys_eq_spec() -> bool {
        true
    }

    open spec fn eq_spec(&self, other: &HpkeConfig) -> bool {
        self@ == other@
    }
}

/// An [`HpkeConfig`] with the private key that belongs to it.
#[derive(Debug)]
pub struct HpkeKeypair {
    pub config: HpkeConfig,
    pub private_key: Vec<u8>,
}

/// What an [`HpkeKeypair`] holds.
pub struct HpkeKeypairView {
    pub config: HpkeConfigView,
    pub private_key: Seq<u8>,
}

impl View for HpkeKeypair {
    type V = HpkeKeypairView;

    open spec fn view(&self) -> HpkeKeypairView {
        HpkeKeypairView { config: self.config@, private_key: self.private_key@ }
    }
}

impl Clone for HpkeKeypair {
    fn clone(&self) -> (copy: HpkeKeypair)
        ensures
            copy@ == self@,
    {
        HpkeKeypair {
            config: self.config.clone(),
            private_key: bytes_to_vec(self.private_key.as_slice()),
        }
    }
}

impl PartialEq for HpkeKeypair {
    fn eq(&self, other: &HpkeKeypair) -> (same: bool) {
        self.config == other.config && bytes_equal(
            self.private_key.as_slice(),
            other.private_key.as_slice(),
        )
    }
}

impl Eq for HpkeKeypair {

}

impl PartialEqSpecImpl for HpkeKeypair {
    open spec fn obeys_eq_spec() -> bool {
        true
    }

    open spec fn eq_spec(&self, other: &HpkeKeypair) -> bool {
        self@ == other@
    }
}

/// A privacy budget of zero-concentrated differential privacy: the fraction
/// `epsilon`, numerator and denominator each as base-2^32 digits, least
/// significant first. The fraction need not be reduced, and two budgets are
/// equal where their fractions are the same number ([`same_budget`]).
#[derive(Debug)]
pub struct ZCdpBudget {
    pub epsilon_numerator: Vec<u32>,
    pub epsilon_denominator: Vec<u32>,
}

/// The budget that a [`VdafParameter`] carries.
pub type PrivacyParameterType = ZCdpBudget;

/// What a [`ZCdpBudget`] holds.
pub struct ZCdpBudgetView {
    pub epsilon_numerator: Seq<u32>,
    pub epsilon_denominator: Seq<u32>,
}

impl View for ZCdpBudget {
    type V = ZCdpBudgetView;

    open spec fn view(&self) -> ZCdpBudgetView {
        ZCdpBudgetView {
            epsilon_numerator: self.epsilon_numerator@,
            epsilon_denominator: self.epsilon_denominator@,
        }
    }
}

impl ZCdpBudgetView {
    /// The numerator of `epsilon`.
    pub open spec fn numerator(self) -> nat {
        digits_value(self.epsilon_numerator)
    }

    /// The denominator of `epsilon`.
    pub open spec fn denominator(self) -> nat {
        digits_value(self.epsilon_denominator)
    }

    /// Whether the budget is a fraction: its denominator is not zero.
    pub open spec fn is_fraction(self) -> bool {
        self.denominator() != 0
    }
}

/// Whether two budgets are equal: as fractions, where both are fractions,
/// so that 2/32 equals 1/16; digit by digit where one is none.
pub open spec fn same_budget(a: ZCdpBudgetView, b: ZCdpBudgetView) -> bool {
    if a.is_fraction() && b.is_fraction() {
        a.numerator() * b.denominator() == b.numerator() * a.denominator()
    } else {
        a == b
    }
}

/// A budget equals itself, and equality of budgets can be turned round.
pub proof fn lemma_same_budget_symmetric(a: ZCdpBudgetView, b: ZCdpBudgetView)
    ensures
        same_budget(a, a),
        same_budget(a, b) == same_budget(b, a),
{
}

/// Two budgets that equal a third equal each other.
pub proof fn lemma_same_budget_transitive(a: ZCdpBudgetView, b: ZCdpBudgetView, c: ZCdpBudgetView)
    requires
        same_budget(a, b),
        same_budget(b, c),
    ensures
        same_budget(a, c),
{
    if a.is_fraction() && b.is_fraction() && c.is_fraction() {
        lemma_cross_products(
            a.numerator() as int,
            a.denominator() as int,
            b.numerator() as int,
            b.denominator() as int,
            c.numerator() as int,
            c.denominator() as int,
        );
    }
}

proof fn lemma_cross_products(a: int, b: int, c: int, d: int, e: int, f: int)
    requires
        d != 0,
        a * d == c * b,
        c * f == e * d,
    ensures
        a * f == e * b,
{
    assert(d * (a * f) == (a * d) * f) by (nonlinear_arith);
    assert((c * b) * f == (c * f) * b) by (nonlinear_arith);
    assert((e * d) * b == d * (e * b)) by (nonlinear_arith);
    assert(d * (a * f) == d * (e * b));
    assert(a * f == e * b) by (nonlinear_arith)
        requires
            d != 0,
            d * (a * f) == d * (e * b),
    ;
}

impl Clone for ZCdpBudget {
    fn clone(&self) -> (copy: ZCdpBudget)
        ensures
            copy@ == self@,
    {
        let numerator = self.epsilon_numerator.clone();
        let denominator = self.epsilon_denominator.clone();
        ZCdpBudget { epsilon_numerator: numerator, epsilon_denominator: denominator }
    }
}

impl PartialEq for ZCdpBudget {
    fn eq(&self, other: &ZCdpBudget) -> (same: bool) {
        let as_fractions = fractions_equal(
            self.epsilon_numerator.as_slice(),
            self.epsilon_denominator.as_slice(),
            other.epsilon_numerator.as_slice(),
            other.epsilon_denominator.as_slice(),
        );
        match as_fractions {
            Some(equal) => equal,
            None => digits_equal(
                self.epsilon_numerator.as_slice(),
                other.epsilon_numerator.as_slice(),
            ) && digits_equal(
                self.epsilon_denominator.as_slice(),
                other.epsilon_denominator.as_slice(),
            ),
        }
    }
}

impl Eq for ZCdpBudget {

}

impl PartialEqSpecImpl for ZCdpBudget {
    open spec fn obeys_eq_spec() -> bool {
        true
    }

    open spec fn eq_spec(&self, other: &ZCdpBudget) -> bool {
        same_budget(self@, other@)
    }
}

/// What both aggregators must agree on to aggregate gradients: their length,
/// the privacy budget and the width of their elements.
#[derive(Debug)]
pub struct VdafParameter {
    pub gradient_len: usize,
    pub privacy_parameter: PrivacyParameterType,
    pub submission_type: FixedTypeTag,
}

/// What a [`VdafParameter`] holds.
pub struct VdafParameterView {
    pub gradient_len: nat,
    pub privacy_parameter: ZCdpBudgetView,
    pub submission_type: FixedTypeTag,
}

impl View for VdafParameter {
    type V = VdafParameterView;

    open spec fn view(&self) -> VdafParameterView {
        VdafParameterView {
            gradient_len: self.gradient_len as nat,
            privacy_parameter: self.privacy_parameter@,
            submission_type: self.submission_type,
        }
    }
}

/// Whether two parameters are equal: in the length, in the width, and in
/// the budget as [`same_budget`] compares it.
pub open spec fn same_vdaf_parameter(a: VdafParameterView, b: VdafParameterView) -> bool {
    &&& a.gradient_len == b.gradient_len
    &&& same_budget(a.privacy_parameter, b.privacy_parameter)
    &&& a.submission_type == b.submission_type
}

impl Clone for VdafParameter {
    fn clone(&self) -> (copy: VdafParameter)
        ensures
            copy@ == self@,
    {
        VdafParameter {
            gradient_len: self.gradient_len,
            privacy_parameter: self.privacy_parameter.clone(),
            submission_type: self.submission_type,
        }
    }
}

impl PartialEq for VdafParameter {
    fn eq(&self, other: &VdafParameter) -> (same: bool) {
        self.gradient_len == other.gradient_len && self.privacy_parameter
            == other.privacy_parameter && self.submission_type == other.submission_type
    }
}

impl Eq for VdafParameter {

}

impl PartialEqSpecImpl for VdafParameter {
    open spec fn obeys_eq_spec() -> bool {
        true
    }

    open spec fn eq_spec(&self, other: &VdafParameter) -> bool {
        same_vdaf_parameter(self@, other@)
    }
}

/// The bit width that the aggregation function is instantiated with.
#[derive(Clone, Copy, Debug, PartialEq, Eq, Structural, Hash)]
pub enum Prio3FixedPointBoundedL2VecSumBitSize {
    BitSize16,
    BitSize32,
    BitSize64,
}

/// The aggregation function of a task: a sum of fixed-point vectors of
/// bounded L2 norm, shared between two aggregators, with discrete Gaussian
/// noise for the given budget.
#[derive(Debug)]
pub struct VdafInstance {
    pub num_aggregators: u8,
    pub length: usize,
    pub bitsize: Prio3FixedPointBoundedL2VecSumBitSize,
    pub dp_budget: ZCdpBudget,
}

/// What a [`VdafInstance`] holds.
pub struct VdafInstanceView {
    pub num_aggregators: u8,
    pub length: nat,
    pub bitsize: Prio3FixedPointBoundedL2VecSumBitSize,
    pub dp_budget: ZCdpBudgetView,
}

impl View for VdafInstance {
    type V = VdafInstanceView;

    open spec fn view(&self) -> VdafInstanceView {
        VdafInstanceView {
            num_aggregators: self.num_aggregators,
            length: self.length as nat,
            bitsize: self.bitsize,
            dp_budget: self.dp_budget@,
        }
    }
}

/// Whether two aggregation functions are equal: in the number of
/// aggregators, the length and the width, and in the budget as
/// [`same_budget`] compares it.
pub open spec fn same_vdaf_instance(a: VdafInstanceView, b: VdafInstanceView) -> bool {
    &&& a.num_aggregators == b.num_aggregators
    &&& a.length == b.length
    &&& a.bitsize == b.bitsize
    &&& same_budget(a.dp_budget, b.dp_budget)
}

impl Clone for VdafInstance {
    fn clone(&self) -> (copy: VdafInstance)
        ensures
            copy@ == self@,
    {
        VdafInstance {
            num_aggregators: self.num_aggregators,
            length: self.length,
            bitsize: self.bitsize,
            dp_budget: self.dp_budget.clone(),
        }
    }
}

impl PartialEq for VdafInstance {
    fn eq(&self, other: &VdafInstance) -> (same: bool) {
        self.num_aggregators == other.num_aggregators && self.length == other.length
            && self.bitsize == other.bitsize && self.dp_budget == other.dp_budget
    }
}

impl Eq for VdafInstance {

}

impl PartialEqSpecImpl for VdafInstance {
    open spec fn obeys_eq_spec() -> bool {
        true
    }

    open spec fn eq_spec(&self, other: &VdafInstance) -> bool {
        same_vdaf_instance(self@, other@)
    }
}

/// The length in bytes of the verification key that the aggregators of one
/// task share.
pub const VERIFY_KEY_LENGTH: usize = 16;

/// The bit width that belongs to a width tag.
pub open spec fn bitsize_of(tag: FixedTypeTag) -> Prio3FixedPointBoundedL2VecSumBitSize {
    match tag {
        FixedTypeTag::FixedType16Bit => Prio3FixedPointBoundedL2VecSumBitSize::BitSize16,
        FixedTypeTag::FixedType32Bit => Prio3FixedPointBoundedL2VecSumBitSize::BitSize32,
        FixedTypeTag::FixedType64Bit => Prio3FixedPointBoundedL2VecSumBitSize::BitSize64,
    }
}

/// The aggregation function that a parameter set stands for.
pub open spec fn vdaf_instance_of(parameter: VdafParameterView) -> VdafInstanceView {
    VdafInstanceView {
        num_aggregators: 2,
        length: parameter.gradient_len,
        bitsize: bitsize_of(parameter.submission_type),
        dp_budget: parameter.privacy_parameter,
    }
}

impl VdafParameter {
    /// The aggregation function to run with these parameters: two
    /// aggregators, vectors of `gradient_len` elements of the tagged width,
    /// and noise for the privacy budget.
    pub fn to_vdaf_instance(&self) -> (instance: VdafInstance)
        ensures
            instance@ == vdaf_instance_of(self@),
    {
        let bitsize = match self.submission_type {
            FixedTypeTag::FixedType16Bit => Prio3FixedPointBoundedL2VecSumBitSize::BitSize16,
            FixedTypeTag::FixedType32Bit => Prio3FixedPointBoundedL2VecSumBitSize::BitSize32,
            FixedTypeTag::FixedType64Bit => Prio3FixedPointBoundedL2VecSumBitSize::BitSize64,
        };
        VdafInstance {
            num_aggregators: 2,
            length: self.gradient_len,
            bitsize,
            dp_budget: self.privacy_parameter.clone(),
        }
    }
}

impl VdafInstance {
    /// The length of the verification key that a task with this function
    /// needs.
    pub fn verify_key_length(&self) -> (n: usize)
        ensures
            n == VERIFY_KEY_LENGTH,
    {
        VERIFY_KEY_LENGTH
    }
}

/// Where the two managers are reached.
#[derive(Debug)]
pub struct ManagerLocations {
    pub external_leader: String,
    pub external_helper: String,
}

/// Where the two aggregators are reached.
#[derive(Debug)]
pub struct MainLocations {
    pub external_leader: String,
    pub external_helper: String,
}

/// A leader address and a helper address.
pub struct EndpointPair {
    pub external_leader: Seq<char>,
    pub external_helper: Seq<char>,
}

impl View for ManagerLocations {
    type V = EndpointPair;

    open spec fn view(&self) -> EndpointPair {
        EndpointPair {
            external_leader: self.external_leader@,
            external_helper: self.external_helper@,
        }
    }
}

impl View for MainLocations {
    type V = EndpointPair;

    open spec fn view(&self) -> EndpointPair {
        EndpointPair {
            external_leader: self.external_leader@,
            external_helper: self.external_helper@,
        }
    }
}

impl Clone for ManagerLocations {
    fn clone(&self) -> (copy: ManagerLocations)
        ensures
            copy@ == self@,
    {
        ManagerLocations {
            external_leader: self.external_leader.clone(),
            external_helper: self.external_helper.clone(),
        }
    }
}

impl Clone for MainLocations {
    fn clone(&self) -> (copy: MainLocations)
        ensures
            copy@ == self@,
    {
        MainLocations {
            external_leader: self.external_leader.clone(),
            external_helper: self.external_helper.clone(),
        }
    }
}

impl PartialEq for ManagerLocations {
    fn eq(&self, other: &ManagerLocations) -> (same: bool) {
        self.external_leader == other.external_leader && self.external_helper
            == other.external_helper
    }
}

impl Eq for ManagerLocations {

}

impl PartialEqSpecImpl for ManagerLocations {
    open spec fn obeys_eq_spec() -> bool {
        true
    }

    open spec fn eq_spec(&self, other: &ManagerLocations) -> bool {
        self@ == other@
    }
}

impl PartialEq for MainLocations {
    fn eq(&self, other: &MainLocations) -> (same: bool) {
        self.external_leader == other.external_leader && self.external_helper
            == other.external_helper
    }
}

impl Eq for MainLocations {

}

impl PartialEqSpecImpl for MainLocations {
    open spec fn obeys_eq_spec() -> bool {
        true
    }

    open spec fn eq_spec(&self, other: &MainLocations) -> bool {
        self@ == other@
    }
}

/// The addresses of aggregators and managers together.
#[derive(Debug)]
pub struct Locations {
    pub main: MainLocations,
    pub manager: ManagerLocations,
}

/// What a [`Locations`] holds.
pub struct LocationsView {
    pub main: EndpointPair,
    pub manager: EndpointPair,
}

impl View for Locations {
    type V = LocationsView;

    open spec fn view(&self) -> LocationsView {
        LocationsView { main: self.main@, manager: self.manager@ }
    }
}

impl Clone for Locations {
    fn clone(&self) -> (copy: Locations)
        ensures
            copy@ == self@,
    {
        Locations { main: self.main.clone(), manager: self.manager.clone() }
    }
}

impl Locations {
    /// The addresses of the two aggregators, the leader's first.
    pub fn get_external_aggregator_endpoints(&self) -> (endpoints: Vec<String>)
        ensures
            endpoints@.len() == 2,
            endpoints@[0]@ == self@.main.external_leader,
            endpoints@[1]@ == self@.main.external_helper,
    {
        let mut endpoints: Vec<String> = Vec::new();
        endpoints.push(self.main.external_leader.clone());
        endpoints.push(self.main.external_helper.clone());
        endpoints
    }
}

/// What controller and clients of one training session both know.
#[derive(Debug)]
pub struct CommonStateParametrization {
    pub location: Locations,
    pub vdaf_parameter: VdafParameter,
}

/// What a [`CommonStateParametrization`] holds.
pub struct CommonStateParametrizationView {
    pub location: LocationsView,
    pub vdaf_parameter: VdafParameterView,
}

impl View for CommonStateParametrization {
    type V = CommonStateParametrizationView;

    open spec fn view(&self) -> CommonStateParametrizationView {
        CommonStateParametrizationView {
            location: self.location@,
            vdaf_parameter: self.vdaf_parameter@,
        }
    }
}

impl Clone for CommonStateParametrization {
    fn clone(&self) -> (copy: CommonStateParametrization)
        ensures
            copy@ == self@,
    {
        CommonStateParametrization {
            location: self.location.clone(),
            vdaf_parameter: self.vdaf_parameter.clone(),
        }
    }
}

} // verus!
