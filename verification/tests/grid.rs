use life_core::grid::LifeState;

const DEAD_ROW: [bool; 5] = [false, false, false, false, false];

fn all_dead() -> [[bool; 5]; 5] {
    [DEAD_ROW; 5]
}

#[test]
fn transition_is_deterministic() {
    let seed = [
        [false, false, false, false, false],
        [false, true, true, true, false],
        [true, true, true, false, false],
        [false, false, false, false, false],
        [false, false, false, false, false],
    ];
    let mut a = LifeState { matrix: seed };
    let mut b = LifeState { matrix: seed };
    a.next_state();
    b.next_state();
    assert_eq!(a.matrix, b.matrix);
}

#[test]
fn lone_corner_cell_dies() {
    for &(r, c) in &[(0usize, 0usize), (0, 4), (4, 0), (4, 4)] {
        let mut matrix = all_dead();
        matrix[r][c] = true;
        let mut state = LifeState { matrix };
        state.next_state();
        assert_eq!(state.matrix, all_dead());
    }
}

#[test]
fn blinker_turns_vertical() {
    let mut state = LifeState {
        matrix: [
            [false, false, false, false, false],
            [false, false, false, false, false],
            [false, true, true, true, false],
            [false, false, false, false, false],
            [false, false, false, false, false],
        ],
    };
    state.next_state();
    let expected = [
        [false, false, false, false, false],
        [false, false, true, false, false],
        [false, false, true, false, false],
        [false, false, true, false, false],
        [false, false, false, false, false],
    ];
    assert_eq!(state.matrix, expected);
}

#[test]
fn blinker_swings_back() {
    let horizontal = [
        [false, false, false, false, false],
        [false, false, false, false, false],
        [false, true, true, true, false],
        [false, false, false, false, false],
        [false, false, false, false, false],
    ];
    let mut state = LifeState { matrix: horizontal };
    state.next_state();
    state.next_state();
    assert_eq!(state.matrix, horizontal);
}

#[test]
fn int_matrix_renders_zero_one() {
    let state = LifeState {
        matrix: [
            [true, false, false, false, false],
            [false, false, false, false, false],
            [false, false, true, false, false],
            [false, false, false, false, false],
            [false, false, false, false, true],
        ],
    };
    let image = state.int_matrix();
    let expected: [[u8; 5]; 5] = [
        [1, 0, 0, 0, 0],
        [0, 0, 0, 0, 0],
        [0, 0, 1, 0, 0],
        [0, 0, 0, 0, 0],
        [0, 0, 0, 0, 1],
    ];
    assert_eq!(image, expected);
}

#[test]
fn render_round_trip_recovers_grid() {
    let seed = [
        [false, false, false, false, false],
        [false, true, true, true, false],
        [true, true, true, false, false],
        [false, false, false, false, false],
        [false, false, true, false, true],
    ];
    let state = LifeState { matrix: seed };
    let reparsed = LifeState::from_int_matrix(&state.int_matrix());
    assert_eq!(reparsed.matrix, seed);
}

#[test]
fn parse_treats_any_nonzero_as_alive() {
    let image: [[u8; 5]; 5] = [
        [9, 0, 0, 0, 0],
        [0, 0, 0, 0, 0],
        [0, 0, 255, 0, 0],
        [0, 0, 0, 0, 0],
        [0, 0, 0, 0, 1],
    ];
    let state = LifeState::from_int_matrix(&image);
    let mut expected = all_dead();
    expected[0][0] = true;
    expected[2][2] = true;
    expected[4][4] = true;
    assert_eq!(state.matrix, expected);
}

#[test]
fn crowded_cell_dies() {
    // An alive cell with four live neighbors dies of overpopulation.
    let mut state = LifeState {
        matrix: [
            [false, true, false, false, false],
            [true, true, true, false, false],
            [false, true, false, false, false],
            [false, false, false, false, false],
            [false, false, false, false, false],
        ],
    };
    state.next_state();
    assert!(!state.matrix[1][1]);
    // The four arms each keep two neighbors and survive.
    assert!(state.matrix[0][1]);
    assert!(state.matrix[1][0]);
    assert!(state.matrix[1][2]);
    assert!(state.matrix[2][1]);
}
