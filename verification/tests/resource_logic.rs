use taiga_halo2::field::FieldElement;
use taiga_halo2::hash::poseidon2;
use taiga_halo2::resource::{
    Nullifier, NullifierKeyContainer, RandomSeed, Resource, ResourceKind,
};
use taiga_halo2::sudoku::{
    SudokuAppResourceLogicCircuit, SudokuCircuit, SudokuResourceLogic, SudokuState,
};

fn random_element() -> FieldElement {
    FieldElement::from_words_reduced(
        rand::random::<u64>(),
        rand::random::<u64>(),
        rand::random::<u64>(),
        rand::random::<u64>(),
    )
}

fn random_input_resource() -> Resource {
    let rho = Nullifier::from(random_element());
    let nk = NullifierKeyContainer::from_key(random_element());
    let kind = ResourceKind::new(random_element(), random_element());
    let rseed = RandomSeed::random();
    Resource {
        kind,
        app_data_dynamic: random_element(),
        quantity: rand::random::<u64>(),
        nk_container: nk,
        is_merkle_checked: true,
        psi: rseed.get_psi(&rho),
        rcm: rseed.get_rcm(&rho),
        rho,
    }
}

fn random_output_resource(rho: Nullifier) -> Resource {
    let nk_com = NullifierKeyContainer::from_commitment(random_element());
    let kind = ResourceKind::new(random_element(), random_element());
    let rseed = RandomSeed::random();
    Resource {
        kind,
        app_data_dynamic: random_element(),
        quantity: rand::random::<u64>(),
        nk_container: nk_com,
        is_merkle_checked: true,
        psi: rseed.get_psi(&rho),
        rcm: rseed.get_rcm(&rho),
        rho,
    }
}

#[test]
fn test_resource_logic() {
    let input_resources = [Resource::dummy(), Resource::dummy()];
    let output_resources = [Resource::dummy(), Resource::dummy()];

    let sudoku = SudokuCircuit {
        sudoku: [
            [7, 6, 9, 5, 3, 8, 1, 2, 4],
            [2, 4, 3, 7, 1, 9, 6, 5, 8],
            [8, 5, 1, 4, 6, 2, 9, 7, 3],
            [4, 8, 6, 9, 7, 5, 3, 1, 2],
            [5, 3, 7, 6, 2, 1, 4, 8, 9],
            [1, 9, 2, 8, 4, 3, 7, 6, 5],
            [6, 1, 8, 3, 5, 4, 2, 9, 7],
            [9, 7, 4, 2, 8, 6, 5, 3, 1],
            [3, 2, 5, 1, 9, 7, 8, 4, 6],
        ],
    };

    let resource_logic = SudokuResourceLogic::new(sudoku, input_resources, output_resources);
    let resource_logic_vk = random_element();

    let app_data_static = FieldElement::from_u64(0);
    let app_data_dynamic = FieldElement::from_u64(0);

    let quantity: u64 = 0;
    let nk = NullifierKeyContainer::random_key();
    let rseed = RandomSeed::random();
    let rho = Nullifier::from(random_element());
    Resource::new(
        resource_logic_vk,
        app_data_static,
        app_data_dynamic,
        quantity,
        nk,
        rho,
        true,
        rseed,
    );
    assert!(resource_logic.custom_constraints());
}

#[test]
fn test_halo2_sudoku_app_resource_logic_circuit_init() {
    let circuit = {
        let input_resources = [random_input_resource(), random_input_resource()];
        let mut output_resources = [
            random_output_resource(input_resources[0].get_nf().unwrap()),
            random_output_resource(input_resources[1].get_nf().unwrap()),
        ];
        let encoded_init_state = SudokuState::default().encode();
        let previous_state = SudokuState::default();
        let current_state = SudokuState::default();
        output_resources[0].kind.app_data_static =
            poseidon2(&encoded_init_state, &current_state.encode());
        output_resources[0].quantity = 1u64;
        let owned_resource_id = output_resources[0].commitment().inner();
        SudokuAppResourceLogicCircuit {
            owned_resource_id,
            input_resources,
            output_resources,
            encoded_init_state,
            previous_state,
            current_state,
        }
    };
    let seed = RandomSeed::random();
    let public_inputs = circuit.get_public_inputs(&seed);
    assert_eq!(public_inputs.to_vec().len(), 20);
    assert!(circuit.custom_constraints());
}

#[test]
fn test_halo2_sudoku_app_resource_logic_circuit_update() {
    let circuit = {
        let mut input_resources = [random_input_resource(), random_input_resource()];
        let mut output_resources = [
            random_output_resource(input_resources[0].get_nf().unwrap()),
            random_output_resource(input_resources[1].get_nf().unwrap()),
        ];
        let init_state = SudokuState {
            state: [
                [5, 0, 1, 6, 7, 2, 4, 3, 9],
                [7, 0, 2, 8, 4, 3, 6, 5, 1],
                [3, 0, 4, 5, 9, 1, 7, 8, 2],
                [4, 0, 8, 9, 5, 7, 2, 1, 6],
                [2, 0, 6, 1, 8, 4, 9, 7, 3],
                [1, 0, 9, 3, 2, 6, 8, 4, 5],
                [8, 0, 5, 2, 1, 9, 3, 6, 7],
                [9, 0, 3, 7, 6, 8, 5, 2, 4],
                [6, 0, 7, 4, 3, 5, 1, 9, 8],
            ],
        };
        let encoded_init_state = init_state.encode();
        let previous_state = SudokuState {
            state: [
                [5, 8, 1, 6, 7, 2, 4, 3, 9],
                [7, 9, 2, 8, 4, 3, 6, 5, 1],
                [3, 0, 4, 5, 9, 1, 7, 8, 2],
                [4, 0, 8, 9, 5, 7, 2, 1, 6],
                [2, 0, 6, 1, 8, 4, 9, 7, 3],
                [1, 0, 9, 3, 2, 6, 8, 4, 5],
                [8, 0, 5, 2, 1, 9, 3, 6, 7],
                [9, 0, 3, 7, 6, 8, 5, 2, 4],
                [6, 0, 7, 4, 3, 5, 1, 9, 8],
            ],
        };
        let current_state = SudokuState {
            state: [
                [5, 8, 1, 6, 7, 2, 4, 3, 9],
                [7, 9, 2, 8, 4, 3, 6, 5, 1],
                [3, 6, 4, 5, 9, 1, 7, 8, 2],
                [4, 3, 8, 9, 5, 7, 2, 1, 6],
                [2, 0, 6, 1, 8, 4, 9, 7, 3],
                [1, 0, 9, 3, 2, 6, 8, 4, 5],
                [8, 0, 5, 2, 1, 9, 3, 6, 7],
                [9, 0, 3, 7, 6, 8, 5, 2, 4],
                [6, 0, 7, 4, 3, 5, 1, 9, 8],
            ],
        };
        input_resources[0].kind.app_data_static =
            poseidon2(&encoded_init_state, &previous_state.encode());
        input_resources[0].quantity = 1u64;
        output_resources[0].kind.app_data_static =
            poseidon2(&encoded_init_state, &current_state.encode());
        output_resources[0].quantity = 1u64;
        output_resources[0].kind.app_vk = input_resources[0].kind.app_vk;
        SudokuAppResourceLogicCircuit {
            owned_resource_id: input_resources[0].get_nf().unwrap().inner(),
            input_resources,
            output_resources,
            encoded_init_state,
            previous_state,
            current_state,
        }
    };
    let seed = RandomSeed::random();
    let public_inputs = circuit.get_public_inputs(&seed);
    assert_eq!(public_inputs.to_vec().len(), 20);
    assert!(circuit.custom_constraints());
}

#[test]
fn halo2_sudoku_app_resource_logic_circuit_final() {
    let circuit = {
        let mut input_resources = [random_input_resource(), random_input_resource()];
        let mut output_resources = [
            random_output_resource(input_resources[0].get_nf().unwrap()),
            random_output_resource(input_resources[1].get_nf().unwrap()),
        ];
        let init_state = SudokuState {
            state: [
                [5, 0, 1, 6, 7, 2, 4, 3, 9],
                [7, 0, 2, 8, 4, 3, 6, 5, 1],
                [3, 0, 4, 5, 9, 1, 7, 8, 2],
                [4, 0, 8, 9, 5, 7, 2, 1, 6],
                [2, 0, 6, 1, 8, 4, 9, 7, 3],
                [1, 0, 9, 3, 2, 6, 8, 4, 5],
                [8, 0, 5, 2, 1, 9, 3, 6, 7],
                [9, 0, 3, 7, 6, 8, 5, 2, 4],
                [6, 0, 7, 4, 3, 5, 1, 9, 8],
            ],
        };
        let encoded_init_state = init_state.encode();
        let previous_state = SudokuState {
            state: [
                [5, 8, 1, 6, 7, 2, 4, 3, 9],
                [7, 9, 2, 8, 4, 3, 6, 5, 1],
                [3, 0, 4, 5, 9, 1, 7, 8, 2],
                [4, 0, 8, 9, 5, 7, 2, 1, 6],
                [2, 0, 6, 1, 8, 4, 9, 7, 3],
                [1, 0, 9, 3, 2, 6, 8, 4, 5],
                [8, 0, 5, 2, 1, 9, 3, 6, 7],
                [9, 0, 3, 7, 6, 8, 5, 2, 4],
                [6, 0, 7, 4, 3, 5, 1, 9, 8],
            ],
        };
        let current_state = SudokuState {
            state: [
                [5, 8, 1, 6, 7, 2, 4, 3, 9],
                [7, 9, 2, 8, 4, 3, 6, 5, 1],
                [3, 6, 4, 5, 9, 1, 7, 8, 2],
                [4, 3, 8, 9, 5, 7, 2, 1, 6],
                [2, 5, 6, 1, 8, 4, 9, 7, 3],
                [1, 7, 9, 3, 2, 6, 8, 4, 5],
                [8, 4, 5, 2, 1, 9, 3, 6, 7],
                [9, 1, 3, 7, 6, 8, 5, 2, 4],
                [6, 2, 7, 4, 3, 5, 1, 9, 8],
            ],
        };
        input_resources[0].kind.app_data_static =
            poseidon2(&encoded_init_state, &previous_state.encode());
        input_resources[0].quantity = 1u64;
        output_resources[0].kind.app_data_static =
            poseidon2(&encoded_init_state, &current_state.encode());
        output_resources[0].quantity = 0u64;
        output_resources[0].kind.app_vk = input_resources[0].kind.app_vk;
        SudokuAppResourceLogicCircuit {
            owned_resource_id: input_resources[0].get_nf().unwrap().inner(),
            input_resources,
            output_resources,
            encoded_init_state,
            previous_state,
            current_state,
        }
    };
    let seed = RandomSeed::random();
    let public_inputs = circuit.get_public_inputs(&seed);
    assert_eq!(public_inputs.to_vec().len(), 20);
    assert!(circuit.custom_constraints());
}
