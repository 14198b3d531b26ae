//! The resource data model: a privately held unit of value or state, the
//! nullifier revealed when it is consumed and the commitment published when
//! it is created, together with the key material and randomness both are
//! derived from.

use vstd::prelude::*;
use rand::RngCore;
use crate::field::{FieldElement, spec_from_words_reduced};
use crate::hash::{poseidon2, poseidon2_of};

verus! {

/// Number of input (and output) resources of one partial transaction side.
pub const NUM_RESOURCE: usize = 2;

/// A seed from which per-resource randomness is derived.
#[derive(Clone, Copy, Debug, PartialEq, Eq, Structural)]
pub struct RandomSeed {
    pub w0: u64,
    pub w1: u64,
    pub w2: u64,
    pub w3: u64,
}

/// The field element a seed reduces to.
pub open spec fn spec_seed_element(s: RandomSeed) -> FieldElement {
    spec_from_words_reduced(s.w0, s.w1, s.w2, s.w3)
}

/// The value of psi derived from a seed and the consumed position `rho`.
pub open spec fn spec_psi(s: RandomSeed, rho: Nullifier) -> int {
    poseidon2_of(spec_seed_element(s).as_int(), rho.inner.as_int())
}

/// The commitment randomness derived from a seed and the position `rho`.
pub open spec fn spec_rcm(s: RandomSeed, rho: Nullifier) -> int {
    poseidon2_of(rho.inner.as_int(), spec_seed_element(s).as_int())
}

impl RandomSeed {
    /// Relies on `rand::rngs::OsRng` (`RngCore::next_u64`) for fresh
    /// operating-system randomness; nothing is promised of the words drawn.
    #[verifier::external_body]
    pub fn random() -> RandomSeed {
        RandomSeed {
            w0: rand::rngs::OsRng.next_u64(),
            w1: rand::rngs::OsRng.next_u64(),
            w2: rand::rngs::OsRng.next_u64(),
            w3: rand::rngs::OsRng.next_u64(),
        }
    }

    /// Builds a seed from four words.
    pub fn from_words(w0: u64, w1: u64, w2: u64, w3: u64) -> (r: RandomSeed)
        ensures
            r == (RandomSeed { w0, w1, w2, w3 }),
    {
        RandomSeed { w0, w1, w2, w3 }
    }

    /// Derives the nullifier randomness psi for position `rho`.
    pub fn get_psi(&self, rho: &Nullifier) -> (r: FieldElement)
        requires
            rho.inner.wf(),
        ensures
            r.wf(),
            r.as_int() == spec_psi(*self, *rho),
    {
        let seed_element = FieldElement::from_words_reduced(self.w0, self.w1, self.w2, self.w3);
        poseidon2(&seed_element, &rho.inner)
    }

    /// Derives the commitment randomness for position `rho`.
    pub fn get_rcm(&self, rho: &Nullifier) -> (r: FieldElement)
        requires
            rho.inner.wf(),
        ensures
            r.wf(),
            r.as_int() == spec_rcm(*self, *rho),
    {
        let seed_element = FieldElement::from_words_reduced(self.w0, self.w1, self.w2, self.w3);
        poseidon2(&rho.inner, &seed_element)
    }
}

/// The value revealed when a resource is consumed; it uniquely identifies
/// the spend.
#[derive(Clone, Copy, Debug, PartialEq, Eq, Structural)]
pub struct Nullifier {
    pub inner: FieldElement,
}

impl Nullifier {
    /// The underlying field element.
    pub fn inner(&self) -> (r: FieldElement)
        ensures
            r == self.inner,
    {
        self.inner
    }
}

impl From<FieldElement> for Nullifier {
    fn from(inner: FieldElement) -> (r: Nullifier) {
        Nullifier { inner }
    }
}

impl vstd::std_specs::convert::FromSpecImpl<FieldElement> for Nullifier {
    open spec fn obeys_from_spec() -> bool {
        true
    }

    open spec fn from_spec(inner: FieldElement) -> Nullifier {
        Nullifier { inner }
    }
}

/// The value published when a resource is created; it binds all of the
/// resource's fields while concealing them.
#[derive(Clone, Copy, Debug, PartialEq, Eq, Structural)]
pub struct ResourceCommitment {
    pub inner: FieldElement,
}

impl ResourceCommitment {
    /// The underlying field element.
    pub fn inner(&self) -> (r: FieldElement)
        ensures
            r == self.inner,
    {
        self.inner
    }
}

impl From<FieldElement> for ResourceCommitment {
    fn from(inner: FieldElement) -> (r: ResourceCommitment) {
        ResourceCommitment { inner }
    }
}

impl vstd::std_specs::convert::FromSpecImpl<FieldElement> for ResourceCommitment {
    open spec fn obeys_from_spec() -> bool {
        true
    }

    open spec fn from_spec(inner: FieldElement) -> ResourceCommitment {
        ResourceCommitment { inner }
    }
}

/// Owner-controlled nullifier-key material: either the key itself or a
/// commitment to it.
#[derive(Clone, Copy, Debug, PartialEq, Eq, Structural)]
pub enum NullifierKeyContainer {
    Key(FieldElement),
    Commitment(FieldElement),
}

/// The nullifier public key a container exposes.
pub open spec fn spec_npk(c: NullifierKeyContainer) -> int {
    match c {
        NullifierKeyContainer::Key(nk) => poseidon2_of(nk.as_int(), 0),
        NullifierKeyContainer::Commitment(com) => com.as_int(),
    }
}

impl NullifierKeyContainer {
    /// Well-formed: the held element is canonical.
    pub open spec fn wf(self) -> bool {
        match self {
            NullifierKeyContainer::Key(nk) => nk.wf(),
            NullifierKeyContainer::Commitment(com) => com.wf(),
        }
    }

    /// Draws a fresh random nullifier key.
    pub fn random_key() -> (r: NullifierKeyContainer)
        ensures
            r is Key,
            r.wf(),
    {
        let s = RandomSeed::random();
        NullifierKeyContainer::Key(FieldElement::from_words_reduced(s.w0, s.w1, s.w2, s.w3))
    }

    /// Wraps a known nullifier key.
    pub fn from_key(nk: FieldElement) -> (r: NullifierKeyContainer)
        ensures
            r == NullifierKeyContainer::Key(nk),
    {
        NullifierKeyContainer::Key(nk)
    }

    /// Wraps a commitment to a nullifier key.
    pub fn from_commitment(com: FieldElement) -> (r: NullifierKeyContainer)
        ensures
            r == NullifierKeyContainer::Commitment(com),
    {
        NullifierKeyContainer::Commitment(com)
    }

    /// The nullifier public key: the key is compressed by hashing, a
    /// commitment is already public.
    pub fn get_npk(&self) -> (r: FieldElement)
        requires
            self.wf(),
        ensures
            r.wf(),
            r.as_int() == spec_npk(*self),
    {
        match self {
            NullifierKeyContainer::Key(nk) => {
                let zero = FieldElement::zero();
                poseidon2(nk, &zero)
            },
            NullifierKeyContainer::Commitment(com) => *com,
        }
    }
}

/// The application identity of a resource: a commitment to the verifying
/// key of its application logic plus the logic's static data.
#[derive(Clone, Copy, Debug, PartialEq, Eq, Structural)]
pub struct ResourceKind {
    pub app_vk: FieldElement,
    pub app_data_static: FieldElement,
}

impl ResourceKind {
    /// Well-formed: both elements are canonical.
    pub open spec fn wf(self) -> bool {
        self.app_vk.wf() && self.app_data_static.wf()
    }

    /// Builds a kind from a verifying-key commitment and static data.
    pub fn new(app_vk: FieldElement, app_data_static: FieldElement) -> (r: ResourceKind)
        ensures
            r == (ResourceKind { app_vk, app_data_static }),
    {
        ResourceKind { app_vk, app_data_static }
    }
}

/// A privately held unit of value or state.
#[derive(Clone, Copy, Debug, PartialEq, Eq, Structural)]
pub struct Resource {
    pub kind: ResourceKind,
    pub app_data_dynamic: FieldElement,
    pub quantity: u64,
    pub nk_container: NullifierKeyContainer,
    pub is_merkle_checked: bool,
    pub psi: FieldElement,
    pub rcm: FieldElement,
    pub rho: Nullifier,
}

/// The commitment a resource publishes on creation: a Poseidon tree over
/// its kind, dynamic data, quantity, nullifier public key, position and
/// randomness.
pub open spec fn spec_cm(r: Resource) -> int {
    poseidon2_of(
        poseidon2_of(
            poseidon2_of(r.kind.app_vk.as_int(), r.kind.app_data_static.as_int()),
            poseidon2_of(r.app_data_dynamic.as_int(), r.quantity as int),
        ),
        poseidon2_of(
            poseidon2_of(spec_npk(r.nk_container), r.rho.inner.as_int()),
            poseidon2_of(r.psi.as_int(), r.rcm.as_int()),
        ),
    )
}

/// The nullifier a resource reveals on consumption, derivable only with the
/// nullifier key itself; a resource whose container holds only a key
/// commitment has no nullifier, and the zero element stands in.
pub open spec fn spec_nf(r: Resource) -> int {
    match r.nk_container {
        NullifierKeyContainer::Key(nk) => poseidon2_of(
            poseidon2_of(nk.as_int(), r.rho.inner.as_int()),
            poseidon2_of(r.psi.as_int(), spec_cm(r)),
        ),
        NullifierKeyContainer::Commitment(_) => 0,
    }
}

impl Resource {
    /// Well-formed: every field element held is canonical.
    pub open spec fn wf(self) -> bool {
        &&& self.kind.wf()
        &&& self.app_data_dynamic.wf()
        &&& self.nk_container.wf()
        &&& self.psi.wf()
        &&& self.rcm.wf()
        &&& self.rho.inner.wf()
    }

    /// Builds a resource, deriving its randomness from the given seed and
    /// consumed position.
    pub fn new(
        app_vk: FieldElement,
        app_data_static: FieldElement,
        app_data_dynamic: FieldElement,
        quantity: u64,
        nk_container: NullifierKeyContainer,
        rho: Nullifier,
        is_merkle_checked: bool,
        rseed: RandomSeed,
    ) -> (r: Resource)
        requires
            app_vk.wf(),
            app_data_static.wf(),
            app_data_dynamic.wf(),
            nk_container.wf(),
            rho.inner.wf(),
        ensures
            r.wf(),
            r.kind == (ResourceKind { app_vk, app_data_static }),
            r.app_data_dynamic == app_data_dynamic,
            r.quantity == quantity,
            r.nk_container == nk_container,
            r.is_merkle_checked == is_merkle_checked,
            r.rho == rho,
            r.psi.as_int() == spec_psi(rseed, rho),
            r.rcm.as_int() == spec_rcm(rseed, rho),
    {
        let psi = rseed.get_psi(&rho);
        let rcm = rseed.get_rcm(&rho);
        Resource {
            kind: ResourceKind { app_vk, app_data_static },
            app_data_dynamic,
            quantity,
            nk_container,
            is_merkle_checked,
            psi,
            rcm,
            rho,
        }
    }

    /// Builds a throwaway resource with fresh random identity, data and key
    /// material; its container always holds the key itself.
    pub fn dummy() -> (r: Resource)
        ensures
            r.wf(),
            r.nk_container is Key,
    {
        let s0 = RandomSeed::random();
        let s1 = RandomSeed::random();
        let s2 = RandomSeed::random();
        let rho = Nullifier { inner: FieldElement::from_words_reduced(s2.w0, s2.w1, s2.w2, s2.w3) };
        let nk = NullifierKeyContainer::random_key();
        Resource::new(
            FieldElement::from_words_reduced(s0.w0, s0.w1, s0.w2, s0.w3),
            FieldElement::from_words_reduced(s0.w1, s0.w2, s0.w3, s0.w0),
            FieldElement::from_words_reduced(s1.w0, s1.w1, s1.w2, s1.w3),
            s1.w0,
            nk,
            rho,
            true,
            RandomSeed::random(),
        )
    }

    /// The commitment published when this resource is created.
    pub fn commitment(&self) -> (r: ResourceCommitment)
        requires
            self.wf(),
        ensures
            r.inner.wf(),
            r.inner.as_int() == spec_cm(*self),
    {
        let kind_hash = poseidon2(&self.kind.app_vk, &self.kind.app_data_static);
        let quantity_element = FieldElement::from_u64(self.quantity);
        let data_hash = poseidon2(&self.app_data_dynamic, &quantity_element);
        let npk = self.nk_container.get_npk();
        let owner_hash = poseidon2(&npk, &self.rho.inner);
        let rand_hash = poseidon2(&self.psi, &self.rcm);
        let left = poseidon2(&kind_hash, &data_hash);
        let right = poseidon2(&owner_hash, &rand_hash);
        ResourceCommitment { inner: poseidon2(&left, &right) }
    }

    /// The nullifier of this resource, available only when the container
    /// holds the nullifier key itself.
    pub fn get_nf(&self) -> (r: Option<Nullifier>)
        requires
            self.wf(),
        ensures
            r is Some <==> self.nk_container is Key,
            r is Some ==> r->0.inner.wf() && r->0.inner.as_int() == spec_nf(*self),
    {
        match &self.nk_container {
            NullifierKeyContainer::Key(nk) => {
                let cm = self.commitment();
                let key_hash = poseidon2(nk, &self.rho.inner);
                let body_hash = poseidon2(&self.psi, &cm.inner);
                Some(Nullifier { inner: poseidon2(&key_hash, &body_hash) })
            },
            NullifierKeyContainer::Commitment(_) => None,
        }
    }
}

} // verus!
