//! Bytecode representation and dispatch of resource logics: a tagged value
//! selecting which logic to run plus the opaque input bytes instantiating
//! it, evaluated either into a verifying artifact or transparently, and the
//! per-resource aggregator that holds every attached logic to one
//! owned-resource id.
//!
//! An instance is encoded as a 192-byte header — the owned-resource id, the
//! two nullifiers, the two commitments (32 canonical bytes each) and a
//! 32-byte padding seed — followed by the tag's own payload.

use vstd::prelude::*;
use crate::binding::{check_resource_logic_binding, spec_binding};
use crate::encoding::{element_at, seed_at, spec_element_at, spec_seed_at, spec_word_at, word_at};
use crate::error::TransactionError;
use crate::field::FieldElement;
use crate::partial_fulfillment::{
    spec_label_constraints, PartialFulfillmentIntentLabel, ResourceVariables,
};
use crate::public_inputs::{build_public_inputs, spec_public_inputs, ResourceLogicPublicInputs};
use crate::application::ApplicationByteCode;
use crate::resource::{Nullifier, RandomSeed, ResourceCommitment};

verus! {

/// Length of the common instance header.
pub const BASIC_INSTANCE_LEN: usize = 192;
/// Length of a partial-fulfillment intent instance: the header, the
/// seven-field label, the consumed/created flag and three resource-variable
/// blocks.
pub const INTENT_INSTANCE_LEN: usize = 777;

/// Which logic a bytecode selects: a generic circuit description compiled
/// from an external file, or one of the closed catalogue of native logics.
#[derive(Clone, Debug)]
pub enum ResourceLogicRepresentation {
    VampIR(Vec<u8>),
    Trivial,
    Token,
    SignatureVerification,
    Receiver,
    PartialFulfillmentIntent,
    OrRelationIntent,
    CascadeIntent,
}

/// A stable code identifying each tag of the catalogue.
pub open spec fn spec_tag_code(rep: ResourceLogicRepresentation) -> u64 {
    match rep {
        ResourceLogicRepresentation::VampIR(_) => 0,
        ResourceLogicRepresentation::Trivial => 1,
        ResourceLogicRepresentation::Token => 2,
        ResourceLogicRepresentation::SignatureVerification => 3,
        ResourceLogicRepresentation::Receiver => 4,
        ResourceLogicRepresentation::PartialFulfillmentIntent => 5,
        ResourceLogicRepresentation::OrRelationIntent => 6,
        ResourceLogicRepresentation::CascadeIntent => 7,
    }
}

/// The five reserved header elements are canonically encoded.
pub open spec fn spec_header_wf(bytes: Seq<u8>) -> bool {
    &&& spec_element_at(bytes, 0).wf()
    &&& spec_element_at(bytes, 32).wf()
    &&& spec_element_at(bytes, 64).wf()
    &&& spec_element_at(bytes, 96).wf()
    &&& spec_element_at(bytes, 128).wf()
}

/// The label encoded in an intent instance's payload.
pub open spec fn spec_intent_label(bytes: Seq<u8>) -> PartialFulfillmentIntentLabel {
    PartialFulfillmentIntentLabel {
        token_resource_logic_vk: spec_element_at(bytes, 192),
        sold_token: spec_element_at(bytes, 224),
        sold_token_quantity: spec_word_at(bytes, 256),
        bought_token: spec_element_at(bytes, 264),
        bought_token_quantity: spec_word_at(bytes, 296),
        receiver_npk: spec_element_at(bytes, 304),
        receiver_value: spec_element_at(bytes, 336),
    }
}

/// Whether an intent instance declares its resource as being consumed.
pub open spec fn spec_intent_is_input(bytes: Seq<u8>) -> bool {
    bytes[368] == 1
}

/// The resource-variable block encoded at `off`.
pub open spec fn spec_vars_at(bytes: Seq<u8>, off: int) -> ResourceVariables {
    ResourceVariables {
        logic: spec_element_at(bytes, off),
        label: spec_element_at(bytes, off + 32),
        npk: spec_element_at(bytes, off + 64),
        value: spec_element_at(bytes, off + 96),
        quantity: spec_word_at(bytes, off + 128),
    }
}

/// The sold-token (first input) resource variables of an intent instance.
pub open spec fn spec_intent_sold_vars(bytes: Seq<u8>) -> ResourceVariables {
    spec_vars_at(bytes, 369)
}

/// The bought-token (first output) resource variables.
pub open spec fn spec_intent_bought_vars(bytes: Seq<u8>) -> ResourceVariables {
    spec_vars_at(bytes, 505)
}

/// The returned-token (second output) resource variables.
pub open spec fn spec_intent_returned_vars(bytes: Seq<u8>) -> ResourceVariables {
    spec_vars_at(bytes, 641)
}

/// A well-formed intent instance.
pub open spec fn spec_intent_wf(bytes: Seq<u8>) -> bool {
    &&& bytes.len() == INTENT_INSTANCE_LEN
    &&& spec_header_wf(bytes)
    &&& spec_intent_label(bytes).wf()
    &&& (bytes[368] == 0 || bytes[368] == 1)
    &&& spec_intent_sold_vars(bytes).wf()
    &&& spec_intent_bought_vars(bytes).wf()
    &&& spec_intent_returned_vars(bytes).wf()
}

/// Whether the input bytes encode a well-formed instance of the tag.
pub open spec fn spec_instance_wf(rep: ResourceLogicRepresentation, bytes: Seq<u8>) -> bool {
    match rep {
        ResourceLogicRepresentation::VampIR(_) => false,
        ResourceLogicRepresentation::PartialFulfillmentIntent => spec_intent_wf(bytes),
        _ => bytes.len() == BASIC_INSTANCE_LEN && spec_header_wf(bytes),
    }
}

/// Whether the tag's own constraints hold of the instance.
pub open spec fn spec_instance_constraints_ok(
    rep: ResourceLogicRepresentation,
    bytes: Seq<u8>,
) -> bool {
    match rep {
        ResourceLogicRepresentation::PartialFulfillmentIntent => spec_label_constraints(
            spec_intent_label(bytes),
            spec_intent_is_input(bytes),
            spec_intent_sold_vars(bytes),
            spec_intent_bought_vars(bytes),
            spec_intent_returned_vars(bytes),
        ),
        _ => true,
    }
}

/// The public-input vector an instance evaluates to: the five reserved
/// header elements, then padding derived from the instance's seed.
pub open spec fn spec_instance_public_inputs(bytes: Seq<u8>) -> Seq<FieldElement> {
    spec_public_inputs(
        spec_element_at(bytes, 0),
        spec_element_at(bytes, 32),
        spec_element_at(bytes, 64),
        spec_element_at(bytes, 96),
        spec_element_at(bytes, 128),
        spec_seed_at(bytes, 160),
    )
}

/// A resource logic's bytecode: the tag and the instance bytes.
#[derive(Clone, Debug)]
pub struct ResourceLogicByteCode {
    circuit: ResourceLogicRepresentation,
    inputs: Vec<u8>,
}

/// The commitment to a logic's verifying key carried by its artifact.
#[derive(Clone, Copy, Debug, PartialEq, Eq, Structural)]
pub struct ResourceLogicVerifyingKey {
    pub inner: FieldElement,
}

/// The artifact produced by evaluating a resource logic: its verifying
/// key, the evaluation witness, and the public inputs used.
#[derive(Clone, Debug)]
pub struct ResourceLogicVerifyingInfo {
    pub vk: ResourceLogicVerifyingKey,
    pub proof: Vec<u8>,
    pub public_inputs: ResourceLogicPublicInputs,
}

/// The artifacts of one resource: the application logic's and one per
/// dynamic logic.
#[derive(Clone, Debug)]
pub struct ResourceLogicVerifyingInfoSet {
    pub app_resource_logic_verifying_info: ResourceLogicVerifyingInfo,
    pub app_dynamic_resource_logic_verifying_info: Vec<ResourceLogicVerifyingInfo>,
}

impl ResourceLogicVerifyingInfoSet {
    /// Bundles the application artifact with the dynamic ones.
    pub fn new(
        app_resource_logic_verifying_info: ResourceLogicVerifyingInfo,
        app_dynamic_resource_logic_verifying_info: Vec<ResourceLogicVerifyingInfo>,
    ) -> (r: ResourceLogicVerifyingInfoSet)
        ensures
            r.app_resource_logic_verifying_info == app_resource_logic_verifying_info,
            r.app_dynamic_resource_logic_verifying_info@
                == app_dynamic_resource_logic_verifying_info@,
    {
        ResourceLogicVerifyingInfoSet {
            app_resource_logic_verifying_info,
            app_dynamic_resource_logic_verifying_info,
        }
    }
}

/// The artifact that evaluating a bytecode produces: the tag's code as
/// its verifying-key commitment, the instance bytes as the evaluation
/// witness, and the instance's public inputs.
pub open spec fn spec_info_matches(info: ResourceLogicVerifyingInfo, b: ResourceLogicByteCode) -> bool {
    &&& info.vk.inner.wf()
    &&& info.vk.inner.as_int() == spec_tag_code(b.spec_circuit())
    &&& info.proof@ == b.spec_inputs()
    &&& info.public_inputs.wf()
    &&& info.public_inputs@ == spec_instance_public_inputs(b.spec_inputs())
}

/// Whether evaluating this bytecode succeeds.
pub open spec fn spec_evaluation_ok(b: ResourceLogicByteCode) -> bool {
    &&& !(b.spec_circuit() is VampIR)
    &&& spec_instance_wf(b.spec_circuit(), b.spec_inputs())
    &&& spec_instance_constraints_ok(b.spec_circuit(), b.spec_inputs())
}

/// The error evaluation fails with when it does not succeed: an
/// unsupported tag, then malformed inputs, then violated constraints.
pub open spec fn spec_evaluation_err(b: ResourceLogicByteCode) -> TransactionError {
    if b.spec_circuit() is VampIR {
        TransactionError::InvalidResourceLogicRepresentation
    } else if !spec_instance_wf(b.spec_circuit(), b.spec_inputs()) {
        TransactionError::InvalidResourceLogicInputs
    } else {
        TransactionError::UnsatisfiedResourceLogicConstraints
    }
}

/// What transparent verification of one bytecode returns: the binding
/// check's result on the instance's public inputs, or the evaluation error.
#[verifier::opaque]
pub open spec fn spec_verify_transparently(
    b: ResourceLogicByteCode,
    nfa: Nullifier,
    nfb: Nullifier,
    cma: ResourceCommitment,
    cmb: ResourceCommitment,
) -> Result<FieldElement, TransactionError> {
    if spec_evaluation_ok(b) {
        spec_binding(spec_instance_public_inputs(b.spec_inputs()), nfa, nfb, cma, cmb)
    } else {
        Err(spec_evaluation_err(b))
    }
}

/// The header fields of a parsed instance.
struct InstanceHeader {
    owned_resource_id: FieldElement,
    nf1: FieldElement,
    nf2: FieldElement,
    cm1: FieldElement,
    cm2: FieldElement,
    seed: RandomSeed,
}

/// Parses the common header, accepting only canonical elements.
fn parse_header(inputs: &Vec<u8>) -> (r: Option<InstanceHeader>)
    requires
        inputs@.len() >= BASIC_INSTANCE_LEN,
    ensures
        r is Some <==> spec_header_wf(inputs@),
        r is Some ==> {
            &&& r->0.owned_resource_id == spec_element_at(inputs@, 0)
            &&& r->0.nf1 == spec_element_at(inputs@, 32)
            &&& r->0.nf2 == spec_element_at(inputs@, 64)
            &&& r->0.cm1 == spec_element_at(inputs@, 96)
            &&& r->0.cm2 == spec_element_at(inputs@, 128)
            &&& r->0.seed == spec_seed_at(inputs@, 160)
        },
{
    let owned_resource_id = match element_at(inputs, 0) {
        Some(e) => e,
        None => { return None; },
    };
    let nf1 = match element_at(inputs, 32) {
        Some(e) => e,
        None => { return None; },
    };
    let nf2 = match element_at(inputs, 64) {
        Some(e) => e,
        None => { return None; },
    };
    let cm1 = match element_at(inputs, 96) {
        Some(e) => e,
        None => { return None; },
    };
    let cm2 = match element_at(inputs, 128) {
        Some(e) => e,
        None => { return None; },
    };
    let seed = seed_at(inputs, 160);
    Some(InstanceHeader { owned_resource_id, nf1, nf2, cm1, cm2, seed })
}

/// Parses the resource-variable block at `off`, accepting only canonical
/// elements.
fn parse_vars(inputs: &Vec<u8>, off: usize) -> (r: Option<ResourceVariables>)
    requires
        off + 136 <= inputs@.len(),
    ensures
        r is Some <==> spec_vars_at(inputs@, off as int).wf(),
        r is Some ==> r->0 == spec_vars_at(inputs@, off as int),
{
    let n = inputs.len();
    let logic = match element_at(inputs, off) {
        Some(e) => e,
        None => { return None; },
    };
    let label = match element_at(inputs, off + 32) {
        Some(e) => e,
        None => { return None; },
    };
    let npk = match element_at(inputs, off + 64) {
        Some(e) => e,
        None => { return None; },
    };
    let value = match element_at(inputs, off + 96) {
        Some(e) => e,
        None => { return None; },
    };
    let quantity = word_at(inputs, off + 128);
    Some(ResourceVariables { logic, label, npk, value, quantity })
}

/// Parses the intent label, accepting only canonical elements.
fn parse_intent_label(inputs: &Vec<u8>) -> (r: Option<PartialFulfillmentIntentLabel>)
    requires
        inputs@.len() >= 368,
    ensures
        r is Some <==> spec_intent_label(inputs@).wf(),
        r is Some ==> r->0 == spec_intent_label(inputs@),
{
    let token_resource_logic_vk = match element_at(inputs, 192) {
        Some(e) => e,
        None => { return None; },
    };
    let sold_token = match element_at(inputs, 224) {
        Some(e) => e,
        None => { return None; },
    };
    let sold_token_quantity = word_at(inputs, 256);
    let bought_token = match element_at(inputs, 264) {
        Some(e) => e,
        None => { return None; },
    };
    let bought_token_quantity = word_at(inputs, 296);
    let receiver_npk = match element_at(inputs, 304) {
        Some(e) => e,
        None => { return None; },
    };
    let receiver_value = match element_at(inputs, 336) {
        Some(e) => e,
        None => { return None; },
    };
    Some(PartialFulfillmentIntentLabel {
        token_resource_logic_vk,
        sold_token,
        sold_token_quantity,
        bought_token,
        bought_token_quantity,
        receiver_npk,
        receiver_value,
    })
}

impl ResourceLogicByteCode {
    /// The tag this bytecode selects.
    pub closed spec fn spec_circuit(self) -> ResourceLogicRepresentation {
        self.circuit
    }

    /// The instance bytes.
    pub closed spec fn spec_inputs(self) -> Seq<u8> {
        self.inputs@
    }

    /// Pairs a tag with its instance bytes.
    pub fn new(circuit: ResourceLogicRepresentation, inputs: Vec<u8>) -> (r: ResourceLogicByteCode)
        ensures
            r.spec_circuit() == circuit,
            r.spec_inputs() == inputs@,
    {
        ResourceLogicByteCode { circuit, inputs }
    }

    /// The tag this bytecode selects.
    pub fn circuit(&self) -> (r: &ResourceLogicRepresentation)
        ensures
            *r == self.spec_circuit(),
    {
        &self.circuit
    }

    /// The instance bytes.
    pub fn inputs(&self) -> (r: &Vec<u8>)
        ensures
            r@ == self.spec_inputs(),
    {
        &self.inputs
    }

    /// Evaluates the instance into its public-input vector, or reports why
    /// it cannot be evaluated.
    #[verifier::rlimit(100)]
    fn evaluate(&self) -> (r: Result<ResourceLogicPublicInputs, TransactionError>)
        ensures
            r is Ok <==> spec_evaluation_ok(*self),
            r is Ok ==> r->Ok_0.wf()
                && r->Ok_0@ == spec_instance_public_inputs(self.spec_inputs()),
            !spec_evaluation_ok(*self) ==> r == Err::<ResourceLogicPublicInputs, TransactionError>(
                spec_evaluation_err(*self),
            ),
    {
        match &self.circuit {
            ResourceLogicRepresentation::VampIR(_) => {
                Err(TransactionError::InvalidResourceLogicRepresentation)
            },
            ResourceLogicRepresentation::PartialFulfillmentIntent => {
                if self.inputs.len() != INTENT_INSTANCE_LEN {
                    return Err(TransactionError::InvalidResourceLogicInputs);
                }
                let header = match parse_header(&self.inputs) {
                    Some(h) => h,
                    None => { return Err(TransactionError::InvalidResourceLogicInputs); },
                };
                let label = match parse_intent_label(&self.inputs) {
                    Some(l) => l,
                    None => { return Err(TransactionError::InvalidResourceLogicInputs); },
                };
                let flag = self.inputs[368];
                if flag != 0 && flag != 1 {
                    return Err(TransactionError::InvalidResourceLogicInputs);
                }
                let sold = match parse_vars(&self.inputs, 369) {
                    Some(v) => v,
                    None => { return Err(TransactionError::InvalidResourceLogicInputs); },
                };
                let bought = match parse_vars(&self.inputs, 505) {
                    Some(v) => v,
                    None => { return Err(TransactionError::InvalidResourceLogicInputs); },
                };
                let returned = match parse_vars(&self.inputs, 641) {
                    Some(v) => v,
                    None => { return Err(TransactionError::InvalidResourceLogicInputs); },
                };
                if !label.check_transparently(flag == 1, &sold, &bought, &returned) {
                    return Err(TransactionError::UnsatisfiedResourceLogicConstraints);
                }
                Ok(build_public_inputs(
                    header.owned_resource_id,
                    header.nf1,
                    header.nf2,
                    header.cm1,
                    header.cm2,
                    &header.seed,
                ))
            },
            _ => {
                if self.inputs.len() != BASIC_INSTANCE_LEN {
                    return Err(TransactionError::InvalidResourceLogicInputs);
                }
                let header = match parse_header(&self.inputs) {
                    Some(h) => h,
                    None => { return Err(TransactionError::InvalidResourceLogicInputs); },
                };
                Ok(build_public_inputs(
                    header.owned_resource_id,
                    header.nf1,
                    header.nf2,
                    header.cm1,
                    header.cm2,
                    &header.seed,
                ))
            },
        }
    }

    /// Evaluates the selected logic and produces its verifying artifact:
    /// the tag's verifying-key commitment, the instance bytes as the
    /// evaluation witness, and the public inputs.
    pub fn generate_proof(self) -> (r: Result<ResourceLogicVerifyingInfo, TransactionError>)
        ensures
            r is Ok <==> spec_evaluation_ok(self),
            r is Ok ==> spec_info_matches(r->Ok_0, self),
            !spec_evaluation_ok(self) ==> r == Err::<ResourceLogicVerifyingInfo, TransactionError>(
                spec_evaluation_err(self),
            ),
    {
        let public_inputs = match self.evaluate() {
            Ok(pi) => pi,
            Err(e) => { return Err(e); },
        };
        let code = match &self.circuit {
            ResourceLogicRepresentation::VampIR(_) => 0u64,
            ResourceLogicRepresentation::Trivial => 1u64,
            ResourceLogicRepresentation::Token => 2u64,
            ResourceLogicRepresentation::SignatureVerification => 3u64,
            ResourceLogicRepresentation::Receiver => 4u64,
            ResourceLogicRepresentation::PartialFulfillmentIntent => 5u64,
            ResourceLogicRepresentation::OrRelationIntent => 6u64,
            ResourceLogicRepresentation::CascadeIntent => 7u64,
        };
        Ok(ResourceLogicVerifyingInfo {
            vk: ResourceLogicVerifyingKey { inner: FieldElement::from_u64(code) },
            proof: self.inputs,
            public_inputs,
        })
    }

    /// Verifies the logic transparently: re-evaluates its public inputs by
    /// direct computation, cross-checks them against the compliance
    /// nullifiers and commitments as unordered pairs, and returns the
    /// owned-resource id for further checking.
    pub fn verify_transparently(
        &self,
        compliance_nfs: &[Nullifier; 2],
        compliance_cms: &[ResourceCommitment; 2],
    ) -> (r: Result<FieldElement, TransactionError>)
        ensures
            r == spec_verify_transparently(
                *self,
                compliance_nfs[0],
                compliance_nfs[1],
                compliance_cms[0],
                compliance_cms[1],
            ),
    {
        proof {
            reveal(spec_verify_transparently);
        }
        let public_inputs = match self.evaluate() {
            Ok(pi) => pi,
            Err(e) => { return Err(e); },
        };
        check_resource_logic_binding(&public_inputs, compliance_nfs, compliance_cms)
    }
}

/// The aggregation of the dynamic logics' transparent verification against
/// the application logic's owned-resource id: the first failure or
/// divergence wins; when every logic agrees the id is returned.
pub open spec fn spec_dynamic_agg(
    ds: Seq<ResourceLogicByteCode>,
    owned_resource_id: FieldElement,
    nfa: Nullifier,
    nfb: Nullifier,
    cma: ResourceCommitment,
    cmb: ResourceCommitment,
) -> Result<FieldElement, TransactionError>
    decreases ds.len(),
{
    if ds.len() == 0 {
        Ok(owned_resource_id)
    } else {
        match spec_verify_transparently(ds[0], nfa, nfb, cma, cmb) {
            Err(e) => Err(e),
            Ok(id) => if id != owned_resource_id {
                Err(TransactionError::InconsistentOwnedResourceID)
            } else {
                spec_dynamic_agg(ds.skip(1), owned_resource_id, nfa, nfb, cma, cmb)
            },
        }
    }
}

/// What transparent verification of a whole application bytecode returns.
pub open spec fn spec_app_verify(
    app: ApplicationByteCode,
    nfa: Nullifier,
    nfb: Nullifier,
    cma: ResourceCommitment,
    cmb: ResourceCommitment,
) -> Result<FieldElement, TransactionError> {
    match spec_verify_transparently(app.spec_app_bytecode(), nfa, nfb, cma, cmb) {
        Err(e) => Err(e),
        Ok(id) => spec_dynamic_agg(app.spec_dynamic_bytecode(), id, nfa, nfb, cma, cmb),
    }
}

/// The first dynamic logic whose evaluation fails, if any, scanning in
/// order.
pub open spec fn spec_proofs_err(ds: Seq<ResourceLogicByteCode>) -> Option<TransactionError>
    decreases ds.len(),
{
    if ds.len() == 0 {
        None
    } else if !spec_evaluation_ok(ds[0]) {
        Some(spec_evaluation_err(ds[0]))
    } else {
        spec_proofs_err(ds.skip(1))
    }
}

} // verus!
