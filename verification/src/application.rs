//! The application-bytecode aggregator: one mandatory application logic
//! plus any number of dynamic logics attached to the same resource, proved
//! or transparently verified together, with every logic held to the same
//! owned-resource id.

use vstd::prelude::*;
use crate::aggregation::verify_dynamic_logics;
use crate::bytecode::{
    spec_app_verify, spec_evaluation_err, spec_evaluation_ok, spec_info_matches,
    spec_proofs_err, ResourceLogicByteCode, ResourceLogicVerifyingInfo,
    ResourceLogicVerifyingInfoSet,
};
use crate::error::TransactionError;
use crate::field::FieldElement;
use crate::resource::{Nullifier, ResourceCommitment};

verus! {

/// Evaluates each of the dynamic logics in order; the first failure wins.
fn generate_dynamic_proofs(ds: Vec<ResourceLogicByteCode>) -> (r: Result<
    Vec<ResourceLogicVerifyingInfo>,
    TransactionError,
>)
    ensures
        r is Ok <==> spec_proofs_err(ds@) is None,
        spec_proofs_err(ds@) is Some ==> r == Err::<Vec<ResourceLogicVerifyingInfo>, TransactionError>(
            spec_proofs_err(ds@)->0,
        ),
        r is Ok ==> r->Ok_0@.len() == ds@.len()
            && forall|i: int| 0 <= i < ds@.len()
                ==> spec_info_matches(#[trigger] r->Ok_0@[i], ds@[i]),
{
    let ghost all = ds@;
    let mut remaining = ds;
    let mut out: Vec<ResourceLogicVerifyingInfo> = Vec::new();
    loop
        invariant
            all == ds@,
            out@.len() + remaining@.len() == all.len(),
            all.skip(out@.len() as int) == remaining@,
            forall|i: int| 0 <= i < out@.len()
                ==> spec_info_matches(#[trigger] out@[i], all[i]),
            spec_proofs_err(all) == spec_proofs_err(remaining@),
        ensures
            remaining@.len() == 0,
            spec_proofs_err(all) is None,
            out@.len() == all.len(),
            forall|i: int| 0 <= i < all.len()
                ==> spec_info_matches(#[trigger] out@[i], all[i]),
        decreases remaining@.len(),
    {
        if remaining.len() == 0 {
            break;
        }
        let ghost k = out@.len() as int;
        let bytecode = remaining.remove(0);
        proof {
            assert(bytecode == all[k]);
            assert(all.skip(k).skip(1) =~= all.skip(k + 1));
        }
        match bytecode.generate_proof() {
            Ok(info) => {
                out.push(info);
            },
            Err(e) => {
                return Err(e);
            },
        }
    }
    Ok(out)
}

/// One resource's application logic plus the dynamic logics its creator
/// attached; never mutated once built.
#[derive(Clone, Debug)]
pub struct ApplicationByteCode {
    app_resource_logic_bytecode: ResourceLogicByteCode,
    dynamic_resource_logic_bytecode: Vec<ResourceLogicByteCode>,
}

impl ApplicationByteCode {
    /// The mandatory application logic's bytecode.
    pub closed spec fn spec_app_bytecode(self) -> ResourceLogicByteCode {
        self.app_resource_logic_bytecode
    }

    /// The attached dynamic logics' bytecodes.
    pub closed spec fn spec_dynamic_bytecode(self) -> Seq<ResourceLogicByteCode> {
        self.dynamic_resource_logic_bytecode@
    }

    /// The mandatory application logic's bytecode.
    pub fn app_bytecode(&self) -> (r: &ResourceLogicByteCode)
        ensures
            *r == self.spec_app_bytecode(),
    {
        &self.app_resource_logic_bytecode
    }

    /// The attached dynamic logics' bytecodes.
    pub fn dynamic_bytecode(&self) -> (r: &Vec<ResourceLogicByteCode>)
        ensures
            r@ == self.spec_dynamic_bytecode(),
    {
        &self.dynamic_resource_logic_bytecode
    }

    /// Bundles the application logic with its dynamic logics.
    pub fn new(
        app_resource_logic_bytecode: ResourceLogicByteCode,
        dynamic_resource_logic_bytecode: Vec<ResourceLogicByteCode>,
    ) -> (r: ApplicationByteCode)
        ensures
            r.spec_app_bytecode() == app_resource_logic_bytecode,
            r.spec_dynamic_bytecode() == dynamic_resource_logic_bytecode@,
    {
        ApplicationByteCode {
            app_resource_logic_bytecode,
            dynamic_resource_logic_bytecode,
        }
    }

    /// Evaluates every logic of the resource — the application logic first,
    /// then each dynamic logic in order — and bundles their artifacts; the
    /// first failure short-circuits.
    pub fn generate_proofs(self) -> (r: Result<ResourceLogicVerifyingInfoSet, TransactionError>)
        ensures
            !spec_evaluation_ok(self.spec_app_bytecode())
                ==> r == Err::<ResourceLogicVerifyingInfoSet, TransactionError>(
                    spec_evaluation_err(self.spec_app_bytecode()),
                ),
            spec_evaluation_ok(self.spec_app_bytecode())
                && spec_proofs_err(self.spec_dynamic_bytecode()) is Some
                ==> r == Err::<ResourceLogicVerifyingInfoSet, TransactionError>(
                    spec_proofs_err(self.spec_dynamic_bytecode())->0,
                ),
            r is Ok <==> spec_evaluation_ok(self.spec_app_bytecode())
                && spec_proofs_err(self.spec_dynamic_bytecode()) is None,
            r is Ok ==> {
                &&& spec_info_matches(
                    r->Ok_0.app_resource_logic_verifying_info,
                    self.spec_app_bytecode(),
                )
                &&& r->Ok_0.app_dynamic_resource_logic_verifying_info@.len()
                    == self.spec_dynamic_bytecode().len()
                &&& forall|i: int| 0 <= i < self.spec_dynamic_bytecode().len()
                    ==> spec_info_matches(
                        #[trigger] r->Ok_0.app_dynamic_resource_logic_verifying_info@[i],
                        self.spec_dynamic_bytecode()[i],
                    )
            },
    {
        let app_verifying_info = match self.app_resource_logic_bytecode.generate_proof() {
            Ok(info) => info,
            Err(e) => { return Err(e); },
        };
        let dynamic_infos = match generate_dynamic_proofs(self.dynamic_resource_logic_bytecode) {
            Ok(infos) => infos,
            Err(e) => { return Err(e); },
        };
        Ok(ResourceLogicVerifyingInfoSet {
            app_resource_logic_verifying_info: app_verifying_info,
            app_dynamic_resource_logic_verifying_info: dynamic_infos,
        })
    }

    /// Verifies every logic of the resource transparently and checks that
    /// the application logic and all dynamic logics report the same
    /// owned-resource id, which is returned.
    pub fn verify_transparently(
        &self,
        compliance_nfs: &[Nullifier; 2],
        compliance_cms: &[ResourceCommitment; 2],
    ) -> (r: Result<FieldElement, TransactionError>)
        ensures
            r == spec_app_verify(
                *self,
                compliance_nfs[0],
                compliance_nfs[1],
                compliance_cms[0],
                compliance_cms[1],
            ),
    {
        let owned_resource_id = match self
            .app_resource_logic_bytecode
            .verify_transparently(compliance_nfs, compliance_cms) {
            Ok(id) => id,
            Err(e) => { return Err(e); },
        };
        verify_dynamic_logics(
            &self.dynamic_resource_logic_bytecode,
            owned_resource_id,
            compliance_nfs,
            compliance_cms,
        )
    }
}

} // verus!
