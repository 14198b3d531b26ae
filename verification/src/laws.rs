//! Laws of the dispatch and aggregation protocol, stated over the same
//! specifications the executable functions are verified against.

use vstd::prelude::*;
use crate::application::ApplicationByteCode;
use crate::bytecode::{
    spec_app_verify, spec_dynamic_agg, spec_evaluation_ok, spec_instance_constraints_ok,
    spec_instance_public_inputs, spec_instance_wf, spec_verify_transparently,
    ResourceLogicByteCode,
};
use crate::encoding::spec_element_at;
use crate::error::TransactionError;
use crate::field::FieldElement;
use crate::resource::{Nullifier, ResourceCommitment};

verus! {

/// When every dynamic logic verifies, the aggregation returns the
/// application logic's id exactly when they all report it, and fails with
/// `InconsistentOwnedResourceID` as soon as one reports another id.
proof fn lemma_dynamic_agg_agreement(
    ds: Seq<ResourceLogicByteCode>,
    owned_resource_id: FieldElement,
    nfa: Nullifier,
    nfb: Nullifier,
    cma: ResourceCommitment,
    cmb: ResourceCommitment,
)
    requires
        forall|i: int| 0 <= i < ds.len()
            ==> spec_verify_transparently(#[trigger] ds[i], nfa, nfb, cma, cmb) is Ok,
    ensures
        (forall|i: int| 0 <= i < ds.len()
            ==> (spec_verify_transparently(#[trigger] ds[i], nfa, nfb, cma, cmb))->Ok_0
                == owned_resource_id) ==> spec_dynamic_agg(ds, owned_resource_id, nfa, nfb, cma, cmb)
            == Ok::<FieldElement, TransactionError>(owned_resource_id),
        (exists|i: int| 0 <= i < ds.len()
            && (spec_verify_transparently(#[trigger] ds[i], nfa, nfb, cma, cmb))->Ok_0
                != owned_resource_id) ==> spec_dynamic_agg(ds, owned_resource_id, nfa, nfb, cma, cmb)
            == Err::<FieldElement, TransactionError>(TransactionError::InconsistentOwnedResourceID),
    decreases ds.len(),
{
    if ds.len() > 0 {
        let tail = ds.skip(1);
        assert forall|i: int| 0 <= i < tail.len() implies spec_verify_transparently(
            #[trigger] tail[i],
            nfa,
            nfb,
            cma,
            cmb,
        ) is Ok by {
            assert(tail[i] == ds[i + 1]);
        }
        lemma_dynamic_agg_agreement(tail, owned_resource_id, nfa, nfb, cma, cmb);
        let head_id = (spec_verify_transparently(ds[0], nfa, nfb, cma, cmb))->Ok_0;
        if head_id == owned_resource_id {
            if exists|i: int| 0 <= i < ds.len()
                && (spec_verify_transparently(#[trigger] ds[i], nfa, nfb, cma, cmb))->Ok_0
                    != owned_resource_id {
                let i = choose|i: int| 0 <= i < ds.len()
                    && (spec_verify_transparently(#[trigger] ds[i], nfa, nfb, cma, cmb))->Ok_0
                        != owned_resource_id;
                assert(i >= 1);
                assert(tail[i - 1] == ds[i]);
            }
            if forall|i: int| 0 <= i < ds.len()
                ==> (spec_verify_transparently(#[trigger] ds[i], nfa, nfb, cma, cmb))->Ok_0
                    == owned_resource_id {
                assert forall|i: int| 0 <= i < tail.len() implies (spec_verify_transparently(
                    #[trigger] tail[i],
                    nfa,
                    nfb,
                    cma,
                    cmb,
                ))->Ok_0 == owned_resource_id by {
                    assert(tail[i] == ds[i + 1]);
                }
            }
        }
    }
}

/// Owned-id agreement: when the application logic and every dynamic logic
/// verify against the same compliance data, the whole application bytecode
/// verifies exactly when every dynamic logic reports the application
/// logic's owned-resource id; a single diverging id fails the aggregation
/// with `InconsistentOwnedResourceID`.
pub proof fn lemma_owned_id_agreement(
    app: ApplicationByteCode,
    nfa: Nullifier,
    nfb: Nullifier,
    cma: ResourceCommitment,
    cmb: ResourceCommitment,
)
    requires
        spec_verify_transparently(app.spec_app_bytecode(), nfa, nfb, cma, cmb) is Ok,
        forall|i: int| 0 <= i < app.spec_dynamic_bytecode().len()
            ==> spec_verify_transparently(
                #[trigger] app.spec_dynamic_bytecode()[i],
                nfa,
                nfb,
                cma,
                cmb,
            ) is Ok,
    ensures
        (forall|i: int| 0 <= i < app.spec_dynamic_bytecode().len()
            ==> (spec_verify_transparently(
                #[trigger] app.spec_dynamic_bytecode()[i],
                nfa,
                nfb,
                cma,
                cmb,
            ))->Ok_0 == (spec_verify_transparently(
                app.spec_app_bytecode(),
                nfa,
                nfb,
                cma,
                cmb,
            ))->Ok_0) ==> spec_app_verify(app, nfa, nfb, cma, cmb)
            == spec_verify_transparently(app.spec_app_bytecode(), nfa, nfb, cma, cmb),
        (exists|i: int| 0 <= i < app.spec_dynamic_bytecode().len()
            && (spec_verify_transparently(
                #[trigger] app.spec_dynamic_bytecode()[i],
                nfa,
                nfb,
                cma,
                cmb,
            ))->Ok_0 != (spec_verify_transparently(
                app.spec_app_bytecode(),
                nfa,
                nfb,
                cma,
                cmb,
            ))->Ok_0) ==> spec_app_verify(app, nfa, nfb, cma, cmb)
            == Err::<FieldElement, TransactionError>(TransactionError::InconsistentOwnedResourceID),
{
    let owned_resource_id = (spec_verify_transparently(
        app.spec_app_bytecode(),
        nfa,
        nfb,
        cma,
        cmb,
    ))->Ok_0;
    lemma_dynamic_agg_agreement(
        app.spec_dynamic_bytecode(),
        owned_resource_id,
        nfa,
        nfb,
        cma,
        cmb,
    );
}

/// Dispatch coverage: every native tag of the catalogue, on a well-formed
/// instance whose own constraints hold, evaluates successfully, and its
/// public inputs pass the binding check against the instance's own
/// compliance data, returning the instance's owned-resource id.
pub proof fn lemma_dispatch_coverage(b: ResourceLogicByteCode)
    requires
        !(b.spec_circuit() is VampIR),
        spec_instance_wf(b.spec_circuit(), b.spec_inputs()),
        spec_instance_constraints_ok(b.spec_circuit(), b.spec_inputs()),
    ensures
        spec_evaluation_ok(b),
        spec_verify_transparently(
            b,
            Nullifier { inner: spec_element_at(b.spec_inputs(), 32) },
            Nullifier { inner: spec_element_at(b.spec_inputs(), 64) },
            ResourceCommitment { inner: spec_element_at(b.spec_inputs(), 96) },
            ResourceCommitment { inner: spec_element_at(b.spec_inputs(), 128) },
        ) == Ok::<FieldElement, TransactionError>(spec_element_at(b.spec_inputs(), 0)),
{
    reveal(spec_verify_transparently);
    let pi = spec_instance_public_inputs(b.spec_inputs());
    assert(pi[0] == spec_element_at(b.spec_inputs(), 0));
    assert(pi[1] == spec_element_at(b.spec_inputs(), 32));
    assert(pi[2] == spec_element_at(b.spec_inputs(), 64));
    assert(pi[3] == spec_element_at(b.spec_inputs(), 96));
    assert(pi[4] == spec_element_at(b.spec_inputs(), 128));
}

} // verus!
