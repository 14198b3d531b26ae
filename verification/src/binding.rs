//! The binding checker: ties a resource logic's declared nullifiers and
//! commitments to the ones produced by the compliance units, comparing each
//! pair as an unordered pair, and yields the logic's owned-resource id.

use vstd::prelude::*;
use crate::error::TransactionError;
use crate::field::FieldElement;
use crate::public_inputs::{
    ResourceLogicPublicInputs, NULLIFIER_ONE_IDX, NULLIFIER_TWO_IDX, OUTPUT_CM_ONE_IDX,
    OUTPUT_CM_TWO_IDX, OWNED_RESOURCE_ID_IDX,
};
use crate::resource::{Nullifier, ResourceCommitment};

verus! {

/// The compliance nullifier pair matches the declared pair, in either order.
pub open spec fn spec_nf_pair_matches(pi: Seq<FieldElement>, nfa: Nullifier, nfb: Nullifier) -> bool {
    ||| (nfa.inner == pi[NULLIFIER_ONE_IDX as int] && nfb.inner == pi[NULLIFIER_TWO_IDX as int])
    ||| (nfa.inner == pi[NULLIFIER_TWO_IDX as int] && nfb.inner == pi[NULLIFIER_ONE_IDX as int])
}

/// The compliance commitment pair matches the declared pair, in either order.
pub open spec fn spec_cm_pair_matches(
    pi: Seq<FieldElement>,
    cma: ResourceCommitment,
    cmb: ResourceCommitment,
) -> bool {
    ||| (cma.inner == pi[OUTPUT_CM_ONE_IDX as int] && cmb.inner == pi[OUTPUT_CM_TWO_IDX as int])
    ||| (cma.inner == pi[OUTPUT_CM_TWO_IDX as int] && cmb.inner == pi[OUTPUT_CM_ONE_IDX as int])
}

/// What the binding check returns: the owned-resource id on success, the
/// first inconsistency otherwise, nullifiers checked before commitments.
pub open spec fn spec_binding(
    pi: Seq<FieldElement>,
    nfa: Nullifier,
    nfb: Nullifier,
    cma: ResourceCommitment,
    cmb: ResourceCommitment,
) -> Result<FieldElement, TransactionError> {
    if !spec_nf_pair_matches(pi, nfa, nfb) {
        Err(TransactionError::InconsistentNullifier)
    } else if !spec_cm_pair_matches(pi, cma, cmb) {
        Err(TransactionError::InconsistentOutputResourceCommitment)
    } else {
        Ok(pi[OWNED_RESOURCE_ID_IDX as int])
    }
}

/// Cross-checks a logic's public inputs against the nullifiers and
/// commitments asserted by its compliance units, as unordered pairs, and
/// returns the logic's declared owned-resource id on success.
pub fn check_resource_logic_binding(
    pi: &ResourceLogicPublicInputs,
    compliance_nfs: &[Nullifier; 2],
    compliance_cms: &[ResourceCommitment; 2],
) -> (r: Result<FieldElement, TransactionError>)
    requires
        pi.wf(),
    ensures
        r == spec_binding(pi@, compliance_nfs[0], compliance_nfs[1], compliance_cms[0], compliance_cms[1]),
{
    let logic_nf_one = pi.get_from_index(NULLIFIER_ONE_IDX);
    let logic_nf_two = pi.get_from_index(NULLIFIER_TWO_IDX);
    let nf_matches = (compliance_nfs[0].inner == logic_nf_one
        && compliance_nfs[1].inner == logic_nf_two)
        || (compliance_nfs[0].inner == logic_nf_two && compliance_nfs[1].inner == logic_nf_one);
    if !nf_matches {
        return Err(TransactionError::InconsistentNullifier);
    }
    let logic_cm_one = pi.get_from_index(OUTPUT_CM_ONE_IDX);
    let logic_cm_two = pi.get_from_index(OUTPUT_CM_TWO_IDX);
    let cm_matches = (compliance_cms[0].inner == logic_cm_one
        && compliance_cms[1].inner == logic_cm_two)
        || (compliance_cms[0].inner == logic_cm_two && compliance_cms[1].inner == logic_cm_one);
    if !cm_matches {
        return Err(TransactionError::InconsistentOutputResourceCommitment);
    }
    Ok(pi.get_from_index(OWNED_RESOURCE_ID_IDX))
}

/// Unordered-pair invariance: when the declared pair is `(nf1, nf2)`, the
/// binding check accepts the compliance pair in either order; a compliance
/// pair `(nf1, nf3)` whose second element matches neither declared
/// nullifier is rejected with `InconsistentNullifier`.
pub proof fn lemma_unordered_pair_invariance(
    pi: Seq<FieldElement>,
    nf1: Nullifier,
    nf2: Nullifier,
    nf3: Nullifier,
    cma: ResourceCommitment,
    cmb: ResourceCommitment,
)
    requires
        pi.len() > NULLIFIER_TWO_IDX,
        pi[NULLIFIER_ONE_IDX as int] == nf1.inner,
        pi[NULLIFIER_TWO_IDX as int] == nf2.inner,
    ensures
        spec_nf_pair_matches(pi, nf1, nf2),
        spec_nf_pair_matches(pi, nf2, nf1),
        nf3.inner != nf1.inner && nf3.inner != nf2.inner
            ==> spec_binding(pi, nf1, nf3, cma, cmb) == Err::<FieldElement, TransactionError>(
                TransactionError::InconsistentNullifier,
            ),
{
}

} // verus!
