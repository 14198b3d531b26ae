use taiga_halo2::application::ApplicationByteCode;
use taiga_halo2::binding::check_resource_logic_binding;
use taiga_halo2::bytecode::{ResourceLogicByteCode, ResourceLogicRepresentation};
use taiga_halo2::encoding::{push_element, push_seed, push_word};
use taiga_halo2::error::TransactionError;
use taiga_halo2::field::FieldElement;
use taiga_halo2::public_inputs::build_public_inputs;
use taiga_halo2::resource::{Nullifier, RandomSeed, ResourceCommitment};

fn fe(x: u64) -> FieldElement {
    FieldElement::from_u64(x)
}

fn nfs_for(a: u64, b: u64) -> [Nullifier; 2] {
    [Nullifier::from(fe(a)), Nullifier::from(fe(b))]
}

fn cms_for(a: u64, b: u64) -> [ResourceCommitment; 2] {
    [ResourceCommitment::from(fe(a)), ResourceCommitment::from(fe(b))]
}

fn basic_instance(owned: u64, nf1: u64, nf2: u64, cm1: u64, cm2: u64) -> Vec<u8> {
    let mut bytes: Vec<u8> = Vec::new();
    push_element(&mut bytes, &fe(owned));
    push_element(&mut bytes, &fe(nf1));
    push_element(&mut bytes, &fe(nf2));
    push_element(&mut bytes, &fe(cm1));
    push_element(&mut bytes, &fe(cm2));
    push_seed(&mut bytes, &RandomSeed::from_words(1, 2, 3, 4));
    bytes
}

fn vars_block(bytes: &mut Vec<u8>, logic: u64, label: u64, npk: u64, value: u64, quantity: u64) {
    push_element(bytes, &fe(logic));
    push_element(bytes, &fe(label));
    push_element(bytes, &fe(npk));
    push_element(bytes, &fe(value));
    push_word(bytes, quantity);
}

fn intent_instance(
    sold_quantity: u64,
    bought_quantity: u64,
    actual_bought: u64,
    returned: u64,
    is_input: bool,
) -> Vec<u8> {
    let mut bytes = basic_instance(7, 10, 11, 20, 21);
    push_element(&mut bytes, &fe(100)); // token logic vk
    push_element(&mut bytes, &fe(101)); // sold token
    push_word(&mut bytes, sold_quantity);
    push_element(&mut bytes, &fe(102)); // bought token
    push_word(&mut bytes, bought_quantity);
    push_element(&mut bytes, &fe(103)); // receiver npk
    push_element(&mut bytes, &fe(104)); // receiver value
    bytes.push(if is_input { 1 } else { 0 });
    vars_block(&mut bytes, 100, 101, 103, 104, sold_quantity); // sold token resource
    vars_block(&mut bytes, 100, 102, 103, 104, actual_bought); // bought token resource
    vars_block(&mut bytes, 100, 101, 103, 104, returned); // returned token resource
    bytes
}

#[test]
fn binding_accepts_unordered_pairs() {
    let seed = RandomSeed::from_words(9, 9, 9, 9);
    let pi = build_public_inputs(fe(1), fe(10), fe(11), fe(20), fe(21), &seed);
    assert_eq!(
        check_resource_logic_binding(&pi, &nfs_for(10, 11), &cms_for(20, 21)),
        Ok(fe(1))
    );
    assert_eq!(
        check_resource_logic_binding(&pi, &nfs_for(11, 10), &cms_for(21, 20)),
        Ok(fe(1))
    );
}

#[test]
fn binding_rejects_mismatched_pairs() {
    let seed = RandomSeed::from_words(9, 9, 9, 9);
    let pi = build_public_inputs(fe(1), fe(10), fe(11), fe(20), fe(21), &seed);
    assert_eq!(
        check_resource_logic_binding(&pi, &nfs_for(10, 12), &cms_for(20, 21)),
        Err(TransactionError::InconsistentNullifier)
    );
    assert_eq!(
        check_resource_logic_binding(&pi, &nfs_for(10, 11), &cms_for(20, 22)),
        Err(TransactionError::InconsistentOutputResourceCommitment)
    );
}

#[test]
fn dispatch_covers_every_native_tag() {
    let tags = vec![
        ResourceLogicRepresentation::Trivial,
        ResourceLogicRepresentation::Token,
        ResourceLogicRepresentation::SignatureVerification,
        ResourceLogicRepresentation::Receiver,
        ResourceLogicRepresentation::OrRelationIntent,
        ResourceLogicRepresentation::CascadeIntent,
    ];
    for tag in tags {
        let info = ResourceLogicByteCode::new(tag.clone(), basic_instance(7, 10, 11, 20, 21))
            .generate_proof()
            .unwrap();
        assert_eq!(info.public_inputs.get_from_index(0), fe(7));
        let verified = ResourceLogicByteCode::new(tag, basic_instance(7, 10, 11, 20, 21))
            .verify_transparently(&nfs_for(10, 11), &cms_for(20, 21));
        assert_eq!(verified, Ok(fe(7)));
    }
    let intent = ResourceLogicByteCode::new(
        ResourceLogicRepresentation::PartialFulfillmentIntent,
        intent_instance(5, 5, 5, 0, true),
    );
    assert_eq!(
        intent.verify_transparently(&nfs_for(10, 11), &cms_for(20, 21)),
        Ok(fe(7))
    );
}

#[test]
fn vampir_tag_is_not_in_this_build() {
    let bytecode = ResourceLogicByteCode::new(
        ResourceLogicRepresentation::VampIR(vec![1, 2, 3]),
        basic_instance(7, 10, 11, 20, 21),
    );
    assert_eq!(
        bytecode.verify_transparently(&nfs_for(10, 11), &cms_for(20, 21)),
        Err(TransactionError::InvalidResourceLogicRepresentation)
    );
    let bytecode = ResourceLogicByteCode::new(ResourceLogicRepresentation::VampIR(vec![]), vec![]);
    assert!(matches!(
        bytecode.generate_proof(),
        Err(TransactionError::InvalidResourceLogicRepresentation)
    ));
}

#[test]
fn malformed_instances_are_rejected() {
    let short = ResourceLogicByteCode::new(ResourceLogicRepresentation::Trivial, vec![0u8; 100]);
    assert_eq!(
        short.verify_transparently(&nfs_for(10, 11), &cms_for(20, 21)),
        Err(TransactionError::InvalidResourceLogicInputs)
    );
    // 0xff everywhere: the element chunks are far above the modulus.
    let junk = ResourceLogicByteCode::new(ResourceLogicRepresentation::Trivial, vec![0xffu8; 192]);
    assert_eq!(
        junk.verify_transparently(&nfs_for(10, 11), &cms_for(20, 21)),
        Err(TransactionError::InvalidResourceLogicInputs)
    );
    // an intent whose consumed/created flag byte is neither zero nor one
    let mut bytes = intent_instance(5, 5, 5, 0, true);
    bytes[368] = 2;
    let bad_flag =
        ResourceLogicByteCode::new(ResourceLogicRepresentation::PartialFulfillmentIntent, bytes);
    assert_eq!(
        bad_flag.verify_transparently(&nfs_for(10, 11), &cms_for(20, 21)),
        Err(TransactionError::InvalidResourceLogicInputs)
    );
}

#[test]
fn partial_fulfillment_ratio_is_enforced_in_dispatch() {
    // a matching partial fill keeps the 5-for-5 ratio
    let matching = ResourceLogicByteCode::new(
        ResourceLogicRepresentation::PartialFulfillmentIntent,
        intent_instance(5, 5, 2, 3, true),
    );
    assert_eq!(
        matching.verify_transparently(&nfs_for(10, 11), &cms_for(20, 21)),
        Ok(fe(7))
    );
    // paying three for two sold breaks the ratio
    let broken = ResourceLogicByteCode::new(
        ResourceLogicRepresentation::PartialFulfillmentIntent,
        intent_instance(5, 5, 3, 3, true),
    );
    assert_eq!(
        broken.verify_transparently(&nfs_for(10, 11), &cms_for(20, 21)),
        Err(TransactionError::UnsatisfiedResourceLogicConstraints)
    );
}

#[test]
fn owned_id_agreement() {
    let nfs = nfs_for(10, 11);
    let cms = cms_for(20, 21);
    let app = ResourceLogicByteCode::new(
        ResourceLogicRepresentation::Trivial,
        basic_instance(7, 10, 11, 20, 21),
    );
    let same = ResourceLogicByteCode::new(
        ResourceLogicRepresentation::Token,
        basic_instance(7, 10, 11, 20, 21),
    );
    let different = ResourceLogicByteCode::new(
        ResourceLogicRepresentation::Receiver,
        basic_instance(8, 10, 11, 20, 21),
    );
    let agreeing = ApplicationByteCode::new(app.clone(), vec![same.clone()]);
    assert_eq!(agreeing.verify_transparently(&nfs, &cms), Ok(fe(7)));
    let diverging = ApplicationByteCode::new(app, vec![same, different]);
    assert_eq!(
        diverging.verify_transparently(&nfs, &cms),
        Err(TransactionError::InconsistentOwnedResourceID)
    );
}

#[test]
fn generate_proofs_bundles_every_logic() {
    let app = ResourceLogicByteCode::new(
        ResourceLogicRepresentation::Trivial,
        basic_instance(7, 10, 11, 20, 21),
    );
    let dynamic = ResourceLogicByteCode::new(
        ResourceLogicRepresentation::Token,
        basic_instance(7, 10, 11, 20, 21),
    );
    let set = ApplicationByteCode::new(app.clone(), vec![dynamic])
        .generate_proofs()
        .unwrap();
    assert_eq!(set.app_dynamic_resource_logic_verifying_info.len(), 1);
    assert_eq!(
        set.app_resource_logic_verifying_info
            .public_inputs
            .get_from_index(0),
        fe(7)
    );
    let failing = ResourceLogicByteCode::new(ResourceLogicRepresentation::VampIR(vec![]), vec![]);
    assert!(matches!(
        ApplicationByteCode::new(app, vec![failing]).generate_proofs(),
        Err(TransactionError::InvalidResourceLogicRepresentation)
    ));
}

#[test]
fn created_intent_is_dispatched_and_checked() {
    let ok = ResourceLogicByteCode::new(
        ResourceLogicRepresentation::PartialFulfillmentIntent,
        intent_instance(5, 5, 0, 0, false),
    );
    assert_eq!(
        ok.verify_transparently(&nfs_for(10, 11), &cms_for(20, 21)),
        Ok(fe(7))
    );
    let mut bytes = intent_instance(5, 5, 0, 0, false);
    // the sold resource's quantity no longer matches the offered quantity
    bytes[497] = 4;
    let bad = ResourceLogicByteCode::new(
        ResourceLogicRepresentation::PartialFulfillmentIntent,
        bytes,
    );
    assert_eq!(
        bad.verify_transparently(&nfs_for(10, 11), &cms_for(20, 21)),
        Err(TransactionError::UnsatisfiedResourceLogicConstraints)
    );
}
