//! The per-resource scan of the dynamic logics' transparent verification.

use vstd::prelude::*;
use crate::bytecode::{spec_dynamic_agg, spec_verify_transparently, ResourceLogicByteCode};
use crate::error::TransactionError;
use crate::field::FieldElement;
use crate::resource::{Nullifier, ResourceCommitment};

verus! {

/// One unfolding step of the dynamic-logic aggregation.
proof fn lemma_dynamic_agg_unfold(
    ds: Seq<ResourceLogicByteCode>,
    i: int,
    owned_resource_id: FieldElement,
    nfa: Nullifier,
    nfb: Nullifier,
    cma: ResourceCommitment,
    cmb: ResourceCommitment,
)
    requires
        0 <= i < ds.len(),
    ensures
        spec_dynamic_agg(ds.skip(i), owned_resource_id, nfa, nfb, cma, cmb) == (
        match spec_verify_transparently(ds[i], nfa, nfb, cma, cmb) {
            Err(e) => Err(e),
            Ok(other) => if other != owned_resource_id {
                Err(TransactionError::InconsistentOwnedResourceID)
            } else {
                spec_dynamic_agg(ds.skip(i + 1), owned_resource_id, nfa, nfb, cma, cmb)
            },
        }),
{
    assert(ds.skip(i)[0] == ds[i]);
    assert(ds.skip(i).skip(1) =~= ds.skip(i + 1));
}

/// Verifies each dynamic logic in order against the compliance data and
/// the application logic's owned-resource id.
pub(crate) fn verify_dynamic_logics(
    ds: &Vec<ResourceLogicByteCode>,
    owned_resource_id: FieldElement,
    compliance_nfs: &[Nullifier; 2],
    compliance_cms: &[ResourceCommitment; 2],
) -> (r: Result<FieldElement, TransactionError>)
    ensures
        r == spec_dynamic_agg(
            ds@,
            owned_resource_id,
            compliance_nfs[0],
            compliance_nfs[1],
            compliance_cms[0],
            compliance_cms[1],
        ),
{
    let n = ds.len();
    let mut i: usize = 0;
    proof {
        assert(ds@.skip(0) =~= ds@);
    }
    while i < n
        invariant
            n == ds@.len(),
            i <= n,
            spec_dynamic_agg(
                ds@.skip(i as int),
                owned_resource_id,
                compliance_nfs[0],
                compliance_nfs[1],
                compliance_cms[0],
                compliance_cms[1],
            ) == spec_dynamic_agg(
                ds@,
                owned_resource_id,
                compliance_nfs[0],
                compliance_nfs[1],
                compliance_cms[0],
                compliance_cms[1],
            ),
        decreases n - i,
    {
        proof {
            lemma_dynamic_agg_unfold(
                ds@,
                i as int,
                owned_resource_id,
                compliance_nfs[0],
                compliance_nfs[1],
                compliance_cms[0],
                compliance_cms[1],
            );
        }
        let id = match ds[i].verify_transparently(compliance_nfs, compliance_cms) {
            Ok(id) => id,
            Err(e) => { return Err(e); },
        };
        if id != owned_resource_id {
            return Err(TransactionError::InconsistentOwnedResourceID);
        }
        i = i + 1;
    }
    Ok(owned_resource_id)
}

} // verus!
