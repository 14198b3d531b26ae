use taiga_halo2::field::{FieldElement, MODULUS_L0, MODULUS_L1, MODULUS_L2, MODULUS_L3};
use taiga_halo2::gadgets::ratio_cross_check;
use taiga_halo2::hash::poseidon2;
use taiga_halo2::partial_fulfillment::{PartialFulfillmentIntentLabel, ResourceVariables};
use taiga_halo2::public_inputs::{ResourceLogicPublicInputs, RESOURCE_LOGIC_NUM_PUBLIC_INPUTS};
use taiga_halo2::resource::RandomSeed;
use taiga_halo2::sudoku::{check_puzzle, SudokuState};

fn fe(x: u64) -> FieldElement {
    FieldElement::from_u64(x)
}

#[test]
fn canonical_encodings_only() {
    assert!(FieldElement::from_limbs(MODULUS_L0, MODULUS_L1, MODULUS_L2, MODULUS_L3).is_none());
    assert!(FieldElement::from_limbs(MODULUS_L0 - 1, MODULUS_L1, MODULUS_L2, MODULUS_L3).is_some());
    assert!(FieldElement::from_limbs(0, 0, 0, MODULUS_L3).is_some());
    assert!(FieldElement::from_limbs(MODULUS_L0 + 1, MODULUS_L1, MODULUS_L2, MODULUS_L3).is_none());
    assert!(FieldElement::from_limbs(u64::MAX, u64::MAX, u64::MAX, MODULUS_L3 - 1).is_some());
}

#[test]
fn padding_round_trip() {
    let seed = RandomSeed::from_words(5, 6, 7, 8);
    let p1 = ResourceLogicPublicInputs::get_public_input_padding(5, &seed);
    let p2 = ResourceLogicPublicInputs::get_public_input_padding(5, &seed);
    assert_eq!(5 + p1.len(), RESOURCE_LOGIC_NUM_PUBLIC_INPUTS);
    assert_eq!(p1, p2);
    let full = ResourceLogicPublicInputs::get_public_input_padding(
        RESOURCE_LOGIC_NUM_PUBLIC_INPUTS,
        &seed,
    );
    assert!(full.is_empty());
    let other = RandomSeed::from_words(9, 6, 7, 8);
    let p3 = ResourceLogicPublicInputs::get_public_input_padding(5, &other);
    assert_ne!(p1, p3);
    // the padding element for slot 5 mixes the slot index into the first
    // word and clears the top bits of the last
    assert_eq!(p1[0].l0, 5u64 ^ 5u64);
    assert_eq!(p1[0].l1, 6u64);
    assert_eq!(p1[0].l2, 7u64);
    assert_eq!(p1[0].l3, 8u64 & 0x3fffffffffffffff);
}

#[test]
fn poseidon_compression_depends_on_both_inputs() {
    let a = fe(1);
    let b = fe(2);
    let h = poseidon2(&a, &b);
    assert_ne!(h, a);
    assert_ne!(h, b);
    assert_eq!(poseidon2(&a, &b), h);
    assert_ne!(poseidon2(&b, &a), h);
}

#[test]
fn state_encoding_is_deterministic_and_sensitive() {
    let state = SudokuState::default();
    let e1 = state.encode();
    let e2 = state.encode();
    assert_eq!(e1, e2);
    let mut changed = state;
    changed.state[0][1] = 6;
    assert_ne!(changed.encode(), e1);
}

#[test]
fn ratio_check_exactness() {
    // a full 5-for-5 fill: nothing returned, ratio holds
    assert!(ratio_cross_check(5, 5, 5, 0));
    // a partial fill at the same ratio: two bought, three returned
    assert!(ratio_cross_check(5, 5, 2, 3));
    // a partial fill at the wrong ratio
    assert!(!ratio_cross_check(5, 5, 3, 3));
    // returning more than the order offered only balances when everything
    // else is zero
    assert!(ratio_cross_check(5, 0, 0, 7));
    assert!(!ratio_cross_check(5, 1, 0, 7));
}

#[test]
fn partial_fulfillment_label_checks() {
    let label = PartialFulfillmentIntentLabel {
        token_resource_logic_vk: fe(100),
        sold_token: fe(101),
        sold_token_quantity: 5,
        bought_token: fe(102),
        bought_token_quantity: 5,
        receiver_npk: fe(103),
        receiver_value: fe(104),
    };
    let bought = ResourceVariables {
        logic: fe(100),
        label: fe(102),
        quantity: 5,
        npk: fe(103),
        value: fe(104),
    };
    let returned = ResourceVariables {
        logic: fe(100),
        label: fe(101),
        quantity: 0,
        npk: fe(103),
        value: fe(104),
    };
    // full fulfillment: no leftover constraints apply
    assert!(label.is_input_resource_checks(true, &bought));
    assert!(label.is_partial_fulfillment_checks(true, &bought, &returned));
    // a partial fill paying 2 with 3 returned keeps the ratio
    let partial_bought = ResourceVariables { quantity: 2, ..bought };
    let partial_returned = ResourceVariables { quantity: 3, ..returned };
    assert!(label.is_partial_fulfillment_checks(true, &partial_bought, &partial_returned));
    // paying 3 with 3 returned breaks it
    let wrong_bought = ResourceVariables { quantity: 3, ..bought };
    assert!(!label.is_partial_fulfillment_checks(true, &wrong_bought, &partial_returned));
    // the returned resource must go back to the receiver
    let wrong_receiver = ResourceVariables { npk: fe(99), ..partial_returned };
    assert!(!label.is_partial_fulfillment_checks(true, &partial_bought, &wrong_receiver));
    // the label encodes to something other than its own fields
    assert_ne!(label.encode(), fe(100));
}

#[test]
fn puzzle_distinctness() {
    let solved = [
        [7, 6, 9, 5, 3, 8, 1, 2, 4],
        [2, 4, 3, 7, 1, 9, 6, 5, 8],
        [8, 5, 1, 4, 6, 2, 9, 7, 3],
        [4, 8, 6, 9, 7, 5, 3, 1, 2],
        [5, 3, 7, 6, 2, 1, 4, 8, 9],
        [1, 9, 2, 8, 4, 3, 7, 6, 5],
        [6, 1, 8, 3, 5, 4, 2, 9, 7],
        [9, 7, 4, 2, 8, 6, 5, 3, 1],
        [3, 2, 5, 1, 9, 7, 8, 4, 6],
    ];
    assert!(check_puzzle(&solved));
    let mut duplicated = solved;
    // duplicate a digit within the first row
    duplicated[0][1] = 7;
    assert!(!check_puzzle(&duplicated));
    // a grid with blanks is still distinct line by line
    assert!(check_puzzle(&SudokuState::default().state));
    // but a blank cannot hide a duplicate among filled cells
    let mut with_blank_dup = SudokuState::default().state;
    with_blank_dup[0][2] = 7;
    assert!(!check_puzzle(&with_blank_dup));
}

#[test]
fn created_intent_must_match_the_sold_token() {
    let label = PartialFulfillmentIntentLabel {
        token_resource_logic_vk: fe(100),
        sold_token: fe(101),
        sold_token_quantity: 5,
        bought_token: fe(102),
        bought_token_quantity: 5,
        receiver_npk: fe(103),
        receiver_value: fe(104),
    };
    let sold = ResourceVariables {
        logic: fe(100),
        label: fe(101),
        quantity: 5,
        npk: fe(103),
        value: fe(104),
    };
    assert!(label.is_output_resource_checks(true, &sold));
    let wrong_quantity = ResourceVariables { quantity: 4, ..sold };
    assert!(!label.is_output_resource_checks(true, &wrong_quantity));
    // the created-side checks do not apply when the intent is consumed
    assert!(label.is_output_resource_checks(false, &wrong_quantity));
}
