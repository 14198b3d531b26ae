//! The puzzle application logics: a simple logic that checks a grid's
//! validity, and the stateful application logic that in addition constrains
//! how a puzzle state evolves from resource to resource.
//!
//! A 9x9 grid is valid when each of its 27 lines (9 rows, 9 columns, 9
//! boxes) holds pairwise-distinct entries after every blank cell is
//! remapped to a unique out-of-range value, so blanks never satisfy
//! distinctness by accident.

use vstd::prelude::*;
use crate::field::{lemma_as_int_injective, FieldElement};
use crate::hash::{poseidon2, poseidon2_of};
use crate::public_inputs::{build_public_inputs, spec_padding_element, ResourceLogicPublicInputs};
use crate::resource::{spec_cm, spec_nf, RandomSeed, Resource, NUM_RESOURCE};

verus! {

/// The cell at flat index `i` of a grid.
pub open spec fn spec_grid_cell(grid: [[u8; 9]; 9], i: int) -> u8 {
    grid[i / 9][i % 9]
}

/// The value a cell contributes to distinctness: a blank (zero) cell is
/// remapped to the out-of-range value `10 + i`, unique to its index.
pub open spec fn spec_remapped_cell(grid: [[u8; 9]; 9], i: int) -> int {
    if spec_grid_cell(grid, i) == 0 {
        10 + i
    } else {
        spec_grid_cell(grid, i) as int
    }
}

/// Flat index of the k-th cell of line `l`: lines 0 to 8 are rows, 9 to 17
/// columns, 18 to 26 the 3x3 boxes.
pub open spec fn spec_line_cell(l: int, k: int) -> int {
    if l < 9 {
        9 * l + k
    } else if l < 18 {
        9 * k + (l - 9)
    } else {
        9 * (3 * ((l - 18) / 3) + k / 3) + 3 * ((l - 18) % 3) + k % 3
    }
}

/// Every pair of cells of line `l` is distinct after remapping.
pub open spec fn spec_line_distinct(grid: [[u8; 9]; 9], l: int) -> bool {
    forall|i: int, j: int|
        #![trigger spec_line_cell(l, i), spec_line_cell(l, j)]
        0 <= i < j < 9 ==> spec_remapped_cell(grid, spec_line_cell(l, i))
            != spec_remapped_cell(grid, spec_line_cell(l, j))
}

/// A valid puzzle grid: all 27 lines are distinct after remapping.
pub open spec fn spec_puzzle_valid(grid: [[u8; 9]; 9]) -> bool {
    forall|l: int| 0 <= l < 27 ==> #[trigger] spec_line_distinct(grid, l)
}

/// Reads the cell at flat index `i`.
fn grid_cell(grid: &[[u8; 9]; 9], i: usize) -> (r: u8)
    requires
        i < 81,
    ensures
        r == spec_grid_cell(*grid, i as int),
{
    grid[i / 9][i % 9]
}

/// The remapped value of the cell at flat index `i`.
fn remapped_cell(grid: &[[u8; 9]; 9], i: usize) -> (r: u8)
    requires
        i < 81,
    ensures
        r as int == spec_remapped_cell(*grid, i as int),
{
    let c = grid_cell(grid, i);
    if c == 0 {
        (10 + i) as u8
    } else {
        c
    }
}

/// Computes the flat index of the k-th cell of line `l`.
fn line_cell(l: usize, k: usize) -> (r: usize)
    requires
        l < 27,
        k < 9,
    ensures
        r == spec_line_cell(l as int, k as int),
        r < 81,
{
    if l < 9 {
        9 * l + k
    } else if l < 18 {
        9 * k + (l - 9)
    } else {
        let b = l - 18;
        9 * (3 * (b / 3) + k / 3) + 3 * (b % 3) + k % 3
    }
}

/// Decides a grid's validity: all 27 lines pairwise distinct after blanks
/// are remapped to unique out-of-range values.
pub fn check_puzzle(grid: &[[u8; 9]; 9]) -> (r: bool)
    ensures
        r == spec_puzzle_valid(*grid),
{
    let mut l: usize = 0;
    while l < 27
        invariant
            l <= 27,
            forall|l2: int| 0 <= l2 < l ==> #[trigger] spec_line_distinct(*grid, l2),
        decreases 27 - l,
    {
        let mut i: usize = 0;
        while i < 9
            invariant
                l < 27,
                i <= 9,
                forall|i2: int, j2: int|
                    #![trigger spec_line_cell(l as int, i2), spec_line_cell(l as int, j2)]
                    0 <= i2 < j2 < 9 && i2 < i ==> spec_remapped_cell(
                        *grid,
                        spec_line_cell(l as int, i2),
                    ) != spec_remapped_cell(*grid, spec_line_cell(l as int, j2)),
            decreases 9 - i,
        {
            let a = remapped_cell(grid, line_cell(l, i));
            let mut j: usize = i + 1;
            while j < 9
                invariant
                    l < 27,
                    i < 9,
                    i < j <= 9,
                    a as int == spec_remapped_cell(*grid, spec_line_cell(l as int, i as int)),
                    forall|j2: int| i < j2 < j ==> spec_remapped_cell(
                        *grid,
                        #[trigger] spec_line_cell(l as int, j2),
                    ) != a as int,
                decreases 9 - j,
            {
                let b = remapped_cell(grid, line_cell(l, j));
                if a == b {
                    proof {
                        assert(!spec_line_distinct(*grid, l as int));
                    }
                    return false;
                }
                j = j + 1;
            }
            i = i + 1;
        }
        proof {
            assert(spec_line_distinct(*grid, l as int));
        }
        l = l + 1;
    }
    true
}

/// A puzzle state: the 9x9 grid, with zero marking a blank cell.
#[derive(Clone, Copy, Debug)]
pub struct SudokuState {
    pub state: [[u8; 9]; 9],
}

/// The byte at position `m` of the packed 64-byte encoding of a grid: two
/// digits share a byte (the second scaled by sixteen), the last digit keeps
/// a byte of its own, and every eighth byte stays zero so that each half
/// remains a canonical field element.
pub open spec fn spec_packed_byte(s: SudokuState, m: int) -> u8 {
    if m % 8 == 7 {
        0
    } else {
        let j = m - m / 8;
        if j < 40 {
            ((spec_grid_cell(s.state, j) + 16 * spec_grid_cell(s.state, 40 + j)) as int) as u8
        } else if j == 40 {
            spec_grid_cell(s.state, 80)
        } else {
            0
        }
    }
}

/// The 64-bit limb assembled from the seven packed bytes at `base`.
pub open spec fn spec_packed_word(s: SudokuState, base: int) -> u64 {
    (spec_packed_byte(s, base) as u64)
        | (spec_packed_byte(s, base + 1) as u64) << 8
        | (spec_packed_byte(s, base + 2) as u64) << 16
        | (spec_packed_byte(s, base + 3) as u64) << 24
        | (spec_packed_byte(s, base + 4) as u64) << 32
        | (spec_packed_byte(s, base + 5) as u64) << 40
        | (spec_packed_byte(s, base + 6) as u64) << 48
}

/// One 32-byte half of the packed encoding, as a field element.
pub open spec fn spec_state_half(s: SudokuState, half: int) -> FieldElement {
    FieldElement {
        l0: spec_packed_word(s, 32 * half),
        l1: spec_packed_word(s, 32 * half + 8),
        l2: spec_packed_word(s, 32 * half + 16),
        l3: spec_packed_word(s, 32 * half + 24),
    }
}

/// The single field element a state encodes to: the Poseidon compression
/// of the two packed halves.
pub open spec fn spec_state_encoding(s: SudokuState) -> int {
    poseidon2_of(spec_state_half(s, 0).as_int(), spec_state_half(s, 1).as_int())
}

impl SudokuState {
    /// Well-formed: every cell is a digit or a blank.
    pub open spec fn wf(self) -> bool {
        forall|r: int, c: int| 0 <= r < 9 && 0 <= c < 9 ==> self.state[r][c] <= 9
    }

    /// The packed byte at position `m`.
    fn packed_byte(&self, m: usize) -> (r: u8)
        requires
            self.wf(),
            m < 64,
        ensures
            r == spec_packed_byte(*self, m as int),
    {
        if m % 8 == 7 {
            0
        } else {
            let j = m - m / 8;
            if j < 40 {
                let lo = grid_cell(&self.state, j);
                let hi = grid_cell(&self.state, 40 + j);
                proof {
                    assert(spec_grid_cell(self.state, j as int) <= 9);
                    assert(spec_grid_cell(self.state, 40 + j as int) <= 9);
                }
                lo + 16 * hi
            } else if j == 40 {
                grid_cell(&self.state, 80)
            } else {
                0
            }
        }
    }

    /// The packed limb at byte offset `base`.
    fn packed_word(&self, base: usize) -> (r: u64)
        requires
            self.wf(),
            base % 8 == 0,
            base <= 56,
        ensures
            r == spec_packed_word(*self, base as int),
            r < 0x100000000000000,
    {
        let b0 = self.packed_byte(base);
        let b1 = self.packed_byte(base + 1);
        let b2 = self.packed_byte(base + 2);
        let b3 = self.packed_byte(base + 3);
        let b4 = self.packed_byte(base + 4);
        let b5 = self.packed_byte(base + 5);
        let b6 = self.packed_byte(base + 6);
        let r = (b0 as u64)
            | (b1 as u64) << 8u64
            | (b2 as u64) << 16u64
            | (b3 as u64) << 24u64
            | (b4 as u64) << 32u64
            | (b5 as u64) << 40u64
            | (b6 as u64) << 48u64;
        proof {
            lemma_word7_bound(b0, b1, b2, b3, b4, b5, b6);
        }
        r
    }

    /// One half of the packed encoding.
    fn pack_half(&self, half: usize) -> (r: FieldElement)
        requires
            self.wf(),
            half <= 1,
        ensures
            r == spec_state_half(*self, half as int),
            r.wf(),
    {
        let base = 32 * half;
        let r = FieldElement {
            l0: self.packed_word(base),
            l1: self.packed_word(base + 8),
            l2: self.packed_word(base + 16),
            l3: self.packed_word(base + 24),
        };
        r
    }

    /// Encodes the whole state into a single field element.
    pub fn encode(&self) -> (r: FieldElement)
        requires
            self.wf(),
        ensures
            r.wf(),
            r.as_int() == spec_state_encoding(*self),
    {
        let first = self.pack_half(0);
        let second = self.pack_half(1);
        poseidon2(&first, &second)
    }
}

/// Seven bytes assembled below bit 56 stay below 2^56.
proof fn lemma_word7_bound(b0: u8, b1: u8, b2: u8, b3: u8, b4: u8, b5: u8, b6: u8)
    ensures
        ((b0 as u64)
            | (b1 as u64) << 8
            | (b2 as u64) << 16
            | (b3 as u64) << 24
            | (b4 as u64) << 32
            | (b5 as u64) << 40
            | (b6 as u64) << 48) < 0x100000000000000,
{
    assert(((b0 as u64)
        | (b1 as u64) << 8
        | (b2 as u64) << 16
        | (b3 as u64) << 24
        | (b4 as u64) << 32
        | (b5 as u64) << 40
        | (b6 as u64) << 48) < 0x100000000000000u64) by (bit_vector);
}

impl Default for SudokuState {
    /// The reference puzzle: a solved grid with its second column blanked.
    fn default() -> (r: SudokuState)
        ensures
            r == (SudokuState {
                state: [
                    [7, 0, 9, 5, 3, 8, 1, 2, 4],
                    [2, 0, 3, 7, 1, 9, 6, 5, 8],
                    [8, 0, 1, 4, 6, 2, 9, 7, 3],
                    [4, 0, 6, 9, 7, 5, 3, 1, 2],
                    [5, 0, 7, 6, 2, 1, 4, 8, 9],
                    [1, 0, 2, 8, 4, 3, 7, 6, 5],
                    [6, 0, 8, 3, 5, 4, 2, 9, 7],
                    [9, 0, 4, 2, 8, 6, 5, 3, 1],
                    [3, 0, 5, 1, 9, 7, 8, 4, 6],
                ],
            }),
    {
        SudokuState {
            state: [
                [7, 0, 9, 5, 3, 8, 1, 2, 4],
                [2, 0, 3, 7, 1, 9, 6, 5, 8],
                [8, 0, 1, 4, 6, 2, 9, 7, 3],
                [4, 0, 6, 9, 7, 5, 3, 1, 2],
                [5, 0, 7, 6, 2, 1, 4, 8, 9],
                [1, 0, 2, 8, 4, 3, 7, 6, 5],
                [6, 0, 8, 3, 5, 4, 2, 9, 7],
                [9, 0, 4, 2, 8, 6, 5, 3, 1],
                [3, 0, 5, 1, 9, 7, 8, 4, 6],
            ],
        }
    }
}

/// The state-consistency rule tying a consumed puzzle resource to the one
/// that replaces it: a consumed resource must really carry the claimed
/// previous state (its static data is the hash of the initial state and
/// the previous state) and both resources must run the same application
/// logic; a freshly created resource starts with its previous and current
/// states equal.
pub open spec fn spec_state_check(
    is_input_resource: bool,
    encoded_init_state: int,
    previous_encoding: int,
    current_encoding: int,
    input_app_data_static: int,
    input_app_vk: int,
    output_app_vk: int,
) -> bool {
    &&& is_input_resource ==> input_app_data_static == poseidon2_of(
        encoded_init_state,
        previous_encoding,
    ) && input_app_vk == output_app_vk
    &&& !is_input_resource ==> previous_encoding == current_encoding
}

/// Decides the state-consistency rule.
pub fn check_state(
    is_input_resource: bool,
    encoded_init_state: &FieldElement,
    previous_state: &SudokuState,
    current_state: &SudokuState,
    input_app_data_static: &FieldElement,
    input_app_vk: &FieldElement,
    output_app_vk: &FieldElement,
) -> (r: bool)
    requires
        encoded_init_state.wf(),
        previous_state.wf(),
        current_state.wf(),
        input_app_data_static.wf(),
    ensures
        r == spec_state_check(
            is_input_resource,
            encoded_init_state.as_int(),
            spec_state_encoding(*previous_state),
            spec_state_encoding(*current_state),
            input_app_data_static.as_int(),
            input_app_vk.as_int(),
            output_app_vk.as_int(),
        ),
{
    if is_input_resource {
        let previous_encoded = previous_state.encode();
        let expected_static = poseidon2(encoded_init_state, &previous_encoded);
        proof {
            lemma_as_int_injective(*input_app_data_static, expected_static);
            lemma_as_int_injective(*input_app_vk, *output_app_vk);
        }
        *input_app_data_static == expected_static && *input_app_vk == *output_app_vk
    } else {
        let previous_encoded = previous_state.encode();
        let current_encoded = current_state.encode();
        proof {
            lemma_as_int_injective(previous_encoded, current_encoded);
        }
        previous_encoded == current_encoded
    }
}

/// A state with no blank left.
pub open spec fn spec_solved(s: SudokuState) -> bool {
    forall|i: int| 0 <= i < 81 ==> spec_grid_cell(s.state, i) != 0
}

/// When the puzzle resource is consumed, every cell already filled must
/// keep its digit in the new state.
pub open spec fn spec_state_update_ok(
    previous_state: SudokuState,
    current_state: SudokuState,
    is_input_resource: bool,
) -> bool {
    is_input_resource ==> forall|i: int| 0 <= i < 81
        ==> (#[trigger] spec_grid_cell(previous_state.state, i) == 0
            || spec_grid_cell(current_state.state, i) == spec_grid_cell(
            previous_state.state,
            i,
        ))
}

/// When the puzzle resource is consumed, the consumed resource's quantity
/// must be one, and the created resource's quantity must drop to zero
/// exactly when the new state is the final solution.
pub open spec fn spec_quantity_ok(
    is_input_resource: bool,
    solved: bool,
    input_quantity: u64,
    output_quantity: u64,
) -> bool {
    is_input_resource ==> input_quantity == 1 && output_quantity == (
    if solved {
        0u64
    } else {
        1u64
    })
}

/// The whole solution rule for one step of play.
pub open spec fn spec_solution_check(
    previous_state: SudokuState,
    current_state: SudokuState,
    is_input_resource: bool,
    input_quantity: u64,
    output_quantity: u64,
) -> bool {
    &&& spec_state_update_ok(previous_state, current_state, is_input_resource)
    &&& spec_quantity_ok(
        is_input_resource,
        spec_solved(current_state),
        input_quantity,
        output_quantity,
    )
}

/// Decides the solution rule: the current state extends the previous one,
/// and the created resource's quantity reflects whether the puzzle is
/// finished.
pub fn check_solution(
    previous_state: &SudokuState,
    current_state: &SudokuState,
    is_input_resource: bool,
    input_quantity: u64,
    output_quantity: u64,
) -> (r: bool)
    ensures
        r == spec_solution_check(
            *previous_state,
            *current_state,
            is_input_resource,
            input_quantity,
            output_quantity,
        ),
{
    if !is_input_resource {
        return true;
    }
    let mut i: usize = 0;
    while i < 81
        invariant
            is_input_resource,
            i <= 81,
            forall|i2: int| 0 <= i2 < i
                ==> (#[trigger] spec_grid_cell(previous_state.state, i2) == 0
                    || spec_grid_cell(current_state.state, i2) == spec_grid_cell(
                    previous_state.state,
                    i2,
                )),
        decreases 81 - i,
    {
        let p = grid_cell(&previous_state.state, i);
        let c = grid_cell(&current_state.state, i);
        if p != 0 && c != p {
            proof {
                assert(!spec_state_update_ok(*previous_state, *current_state, true));
            }
            return false;
        }
        i = i + 1;
    }
    let mut solved = true;
    let mut j: usize = 0;
    while j < 81
        invariant
            is_input_resource,
            j <= 81,
            spec_state_update_ok(*previous_state, *current_state, is_input_resource),
            solved == (forall|j2: int| 0 <= j2 < j
                ==> #[trigger] spec_grid_cell(current_state.state, j2) != 0),
        decreases 81 - j,
    {
        if grid_cell(&current_state.state, j) == 0 {
            solved = false;
        }
        j = j + 1;
    }
    input_quantity == 1 && output_quantity == (if solved { 0 } else { 1 })
}


/// A helper: the field element standing for a resource's nullifier (the
/// zero element when only a key commitment is held and no nullifier
/// exists).
fn nf_element(r: &Resource) -> (e: FieldElement)
    requires
        r.wf(),
    ensures
        e.wf(),
        e.as_int() == spec_nf(*r),
{
    match r.get_nf() {
        Some(n) => n.inner,
        None => FieldElement::zero(),
    }
}

/// The plain grid-validity circuit: its single constraint is that the grid
/// is a valid puzzle.
#[derive(Clone, Copy, Debug)]
pub struct SudokuCircuit {
    pub sudoku: [[u8; 9]; 9],
}

/// Configuration of the grid logics: the shape of the puzzle the
/// constraints are built for.
#[derive(Clone, Copy, Debug, PartialEq, Eq, Structural)]
pub struct SudokuResourceLogicConfig {
    pub grid_side: u8,
    pub box_side: u8,
}

impl SudokuResourceLogicConfig {
    /// The standard 9x9 puzzle with 3x3 boxes.
    pub fn new() -> (r: SudokuResourceLogicConfig)
        ensures
            r.grid_side == 9,
            r.box_side == 3,
    {
        SudokuResourceLogicConfig { grid_side: 9, box_side: 3 }
    }
}

/// The simple puzzle resource logic: a grid-validity circuit attached to
/// the consumed and created resources of one compliance step.
#[derive(Clone, Copy, Debug)]
pub struct SudokuResourceLogic {
    pub sudoku: SudokuCircuit,
    pub input_resources: [Resource; NUM_RESOURCE],
    pub output_resources: [Resource; NUM_RESOURCE],
}

impl SudokuResourceLogic {
    /// Well-formed: every resource holds canonical elements.
    pub open spec fn wf(self) -> bool {
        &&& self.spec_input_resources()[0].wf()
        &&& self.spec_input_resources()[1].wf()
        &&& self.spec_output_resources()[0].wf()
        &&& self.spec_output_resources()[1].wf()
    }

    /// The consumed resources.
    pub open spec fn spec_input_resources(self) -> [Resource; NUM_RESOURCE] {
        self.input_resources
    }

    /// The created resources.
    pub open spec fn spec_output_resources(self) -> [Resource; NUM_RESOURCE] {
        self.output_resources
    }

    /// Attaches the grid circuit to its resources.
    pub fn new(
        sudoku: SudokuCircuit,
        input_resources: [Resource; NUM_RESOURCE],
        output_resources: [Resource; NUM_RESOURCE],
    ) -> (r: SudokuResourceLogic)
        ensures
            r.sudoku == sudoku,
            r.spec_input_resources() == input_resources,
            r.spec_output_resources() == output_resources,
    {
        SudokuResourceLogic { sudoku, input_resources, output_resources }
    }

    /// The consumed resources.
    pub fn get_input_resources(&self) -> (r: &[Resource; NUM_RESOURCE])
        ensures
            *r == self.spec_input_resources(),
    {
        &self.input_resources
    }

    /// The created resources.
    pub fn get_output_resources(&self) -> (r: &[Resource; NUM_RESOURCE])
        ensures
            *r == self.spec_output_resources(),
    {
        &self.output_resources
    }

    /// This logic governs no particular resource: its owned-resource id is
    /// the zero element.
    pub fn get_owned_resource_id(&self) -> (r: FieldElement)
        ensures
            r.wf(),
            r.as_int() == 0,
    {
        FieldElement::zero()
    }

    /// The logic's own constraint: the grid is a valid puzzle.
    pub fn custom_constraints(&self) -> (r: bool)
        ensures
            r == spec_puzzle_valid(self.sudoku.sudoku),
    {
        check_puzzle(&self.sudoku.sudoku)
    }

    /// The public inputs this logic exposes: the zero owned-resource id,
    /// the consumed resources' nullifiers, the created resources'
    /// commitments, and padding derived from the seed.
    pub fn get_public_inputs(&self, seed: &RandomSeed) -> (r: ResourceLogicPublicInputs)
        requires
            self.wf(),
        ensures
            r.wf(),
            r@[0].as_int() == 0,
            r@[1].as_int() == spec_nf(self.spec_input_resources()[0]),
            r@[2].as_int() == spec_nf(self.spec_input_resources()[1]),
            r@[3].as_int() == spec_cm(self.spec_output_resources()[0]),
            r@[4].as_int() == spec_cm(self.spec_output_resources()[1]),
            forall|i: int| 5 <= i < r@.len() ==> #[trigger] r@[i] == spec_padding_element(
                *seed,
                i,
            ),
    {
        let nf1 = nf_element(&self.input_resources[0]);
        let nf2 = nf_element(&self.input_resources[1]);
        let cm1 = self.output_resources[0].commitment();
        let cm2 = self.output_resources[1].commitment();
        build_public_inputs(FieldElement::zero(), nf1, nf2, cm1.inner, cm2.inner, seed)
    }
}

/// The stateful puzzle application logic: one step of play, from a
/// previous state to a current state, bound to the resources that carry
/// them.
#[derive(Clone, Copy, Debug)]
pub struct SudokuAppResourceLogicCircuit {
    pub owned_resource_id: FieldElement,
    pub input_resources: [Resource; NUM_RESOURCE],
    pub output_resources: [Resource; NUM_RESOURCE],
    pub encoded_init_state: FieldElement,
    pub previous_state: SudokuState,
    pub current_state: SudokuState,
}

/// The logic governs a consumed resource: its id is one of the input
/// resources' nullifiers.
pub open spec fn spec_is_input_resource(c: SudokuAppResourceLogicCircuit) -> bool {
    ||| c.owned_resource_id.as_int() == spec_nf(c.input_resources[0])
    ||| c.owned_resource_id.as_int() == spec_nf(c.input_resources[1])
}

/// The logic governs a created resource: its id is one of the output
/// resources' commitments.
pub open spec fn spec_is_output_resource(c: SudokuAppResourceLogicCircuit) -> bool {
    ||| c.owned_resource_id.as_int() == spec_cm(c.output_resources[0])
    ||| c.owned_resource_id.as_int() == spec_cm(c.output_resources[1])
}

/// Every constraint of one step of play: the owned resource is known, the
/// created resource's static data commits to the new state, the new state
/// is a valid grid, and the state-consistency and solution rules hold.
pub open spec fn spec_app_constraints(c: SudokuAppResourceLogicCircuit) -> bool {
    &&& spec_is_input_resource(c) || spec_is_output_resource(c)
    &&& c.output_resources[0].kind.app_data_static.as_int() == poseidon2_of(
        c.encoded_init_state.as_int(),
        spec_state_encoding(c.current_state),
    )
    &&& spec_puzzle_valid(c.current_state.state)
    &&& spec_state_check(
        spec_is_input_resource(c),
        c.encoded_init_state.as_int(),
        spec_state_encoding(c.previous_state),
        spec_state_encoding(c.current_state),
        c.input_resources[0].kind.app_data_static.as_int(),
        c.input_resources[0].kind.app_vk.as_int(),
        c.output_resources[0].kind.app_vk.as_int(),
    )
    &&& spec_solution_check(
        c.previous_state,
        c.current_state,
        spec_is_input_resource(c),
        c.input_resources[0].quantity,
        c.output_resources[0].quantity,
    )
}

impl SudokuAppResourceLogicCircuit {
    /// Well-formed: every element held is canonical and the states hold
    /// digits only.
    pub open spec fn wf(self) -> bool {
        &&& self.owned_resource_id.wf()
        &&& self.input_resources[0].wf()
        &&& self.input_resources[1].wf()
        &&& self.output_resources[0].wf()
        &&& self.output_resources[1].wf()
        &&& self.encoded_init_state.wf()
        &&& self.previous_state.wf()
        &&& self.current_state.wf()
    }

    /// The resource this logic governs.
    pub fn get_owned_resource_id(&self) -> (r: FieldElement)
        ensures
            r == self.owned_resource_id,
    {
        self.owned_resource_id
    }

    /// The consumed resources.
    pub fn get_input_resources(&self) -> (r: &[Resource; NUM_RESOURCE])
        ensures
            *r == self.input_resources,
    {
        &self.input_resources
    }

    /// The created resources.
    pub fn get_output_resources(&self) -> (r: &[Resource; NUM_RESOURCE])
        ensures
            *r == self.output_resources,
    {
        &self.output_resources
    }

    /// Decides every constraint of this step of play.
    pub fn custom_constraints(&self) -> (r: bool)
        requires
            self.wf(),
        ensures
            r == spec_app_constraints(*self),
    {
        let nf1 = nf_element(&self.input_resources[0]);
        let nf2 = nf_element(&self.input_resources[1]);
        let cm1 = self.output_resources[0].commitment();
        let cm2 = self.output_resources[1].commitment();
        proof {
            lemma_as_int_injective(self.owned_resource_id, nf1);
            lemma_as_int_injective(self.owned_resource_id, nf2);
            lemma_as_int_injective(self.owned_resource_id, cm1.inner);
            lemma_as_int_injective(self.owned_resource_id, cm2.inner);
        }
        let is_input_resource = self.owned_resource_id == nf1 || self.owned_resource_id == nf2;
        let is_output_resource = self.owned_resource_id == cm1.inner
            || self.owned_resource_id == cm2.inner;
        if !is_input_resource && !is_output_resource {
            return false;
        }
        let current_encoded = self.current_state.encode();
        let expected_static = poseidon2(&self.encoded_init_state, &current_encoded);
        proof {
            lemma_as_int_injective(
                self.output_resources[0].kind.app_data_static,
                expected_static,
            );
        }
        if self.output_resources[0].kind.app_data_static != expected_static {
            return false;
        }
        if !check_puzzle(&self.current_state.state) {
            return false;
        }
        if !check_state(
            is_input_resource,
            &self.encoded_init_state,
            &self.previous_state,
            &self.current_state,
            &self.input_resources[0].kind.app_data_static,
            &self.input_resources[0].kind.app_vk,
            &self.output_resources[0].kind.app_vk,
        ) {
            return false;
        }
        check_solution(
            &self.previous_state,
            &self.current_state,
            is_input_resource,
            self.input_resources[0].quantity,
            self.output_resources[0].quantity,
        )
    }

    /// The public inputs this logic exposes: its owned-resource id, the
    /// consumed resources' nullifiers, the created resources' commitments,
    /// and padding derived from the seed.
    pub fn get_public_inputs(&self, seed: &RandomSeed) -> (r: ResourceLogicPublicInputs)
        requires
            self.wf(),
        ensures
            r.wf(),
            r@[0] == self.owned_resource_id,
            r@[1].as_int() == spec_nf(self.input_resources[0]),
            r@[2].as_int() == spec_nf(self.input_resources[1]),
            r@[3].as_int() == spec_cm(self.output_resources[0]),
            r@[4].as_int() == spec_cm(self.output_resources[1]),
            forall|i: int| 5 <= i < r@.len() ==> #[trigger] r@[i] == spec_padding_element(
                *seed,
                i,
            ),
    {
        let nf1 = nf_element(&self.input_resources[0]);
        let nf2 = nf_element(&self.input_resources[1]);
        let cm1 = self.output_resources[0].commitment();
        let cm2 = self.output_resources[1].commitment();
        build_public_inputs(self.owned_resource_id, nf1, nf2, cm1.inner, cm2.inner, seed)
    }
}

} // verus!
