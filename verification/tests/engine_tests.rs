use game_of_life::board::Board;
use game_of_life::cell_state::CellState;
use game_of_life::pattern::longest_row_len;

#[test]
fn update_is_deterministic() {
    let mut first = Board::new(7, 7);
    first.place_r_pentomino(2, 2);
    let mut second = first.clone();

    first.update();
    second.update();

    assert_eq!(first.cells, second.cells);
}

#[test]
fn adversarial_block_updates_from_snapshot() {
    // An L-shaped triple in the corner of a 2x2 grid: every alive cell has
    // exactly 2 alive neighbors and survives, and the empty corner has
    // exactly 3 and is born. Evaluating any cell against a partially
    // updated grid would see a fourth neighbor appear mid-step.
    let mut board = Board::new(2, 2);
    board.set_cell(0, 0, CellState::Alive);
    board.set_cell(1, 0, CellState::Alive);
    board.set_cell(0, 1, CellState::Alive);

    board.update();

    assert_eq!(board.get_cell(0, 0), CellState::Alive);
    assert_eq!(board.get_cell(1, 0), CellState::Alive);
    assert_eq!(board.get_cell(0, 1), CellState::Alive);
    assert_eq!(board.get_cell(1, 1), CellState::Alive);
}

#[test]
fn corner_cell_counts_at_most_three() {
    let mut board = Board::new(2, 2);
    for x in 0..2 {
        for y in 0..2 {
            board.set_cell(x, y, CellState::Alive);
        }
    }
    assert_eq!(board.count_alive_neighbors(0, 0), 3);
    assert_eq!(board.count_alive_neighbors(1, 0), 3);
    assert_eq!(board.count_alive_neighbors(0, 1), 3);
    assert_eq!(board.count_alive_neighbors(1, 1), 3);
}

#[test]
fn lone_corner_cell_dies_without_wrapping() {
    let mut board = Board::new(2, 2);
    board.set_cell(0, 0, CellState::Alive);
    board.update();
    for x in 0..2 {
        for y in 0..2 {
            assert_eq!(board.get_cell(x, y), CellState::Dead);
        }
    }

    // On a wider grid the lone corner cell contributes nothing to any
    // neighbor count on the opposite edge.
    let mut wide = Board::new(5, 3);
    wide.set_cell(0, 0, CellState::Alive);
    for y in 0..3 {
        assert_eq!(wide.count_alive_neighbors(4, y), 0);
    }
    wide.update();
    for x in 0..5 {
        for y in 0..3 {
            assert_eq!(wide.get_cell(x, y), CellState::Dead);
        }
    }
}

#[test]
fn seeding_extreme_all_alive() {
    let mut board = Board::new(10, 10);
    board.set_initial_state(1, 1);
    for x in 0..10 {
        for y in 0..10 {
            assert_eq!(board.get_cell(x, y), CellState::Alive);
        }
    }
}

#[test]
fn pattern_is_centered() {
    // A 3x3 pattern on a 6x6 board lands with its top-left corner at
    // ((6 - 3) / 2, (6 - 3) / 2) = (1, 1).
    let mut board = Board::new(6, 6);
    let pattern = vec!["X.X".to_string(), ".X.".to_string(), "X.X".to_string()];
    board.add_pattern(pattern);

    for x in 0..6 {
        for y in 0..6 {
            let inside = (1..4).contains(&x) && (1..4).contains(&y);
            let marked = inside && (x + y) % 2 == 0;
            let expected = if marked { CellState::Alive } else { CellState::Dead };
            assert_eq!(board.get_cell(x, y), expected, "cell ({}, {})", x, y);
        }
    }
}

#[test]
fn pattern_box_width_is_longest_row() {
    let pattern = vec!["X".to_string(), "XXX".to_string()];
    assert_eq!(longest_row_len(&pattern), 3);

    // Bounding box 3x2 on a 5x5 board: offsets ((5-3)/2, (5-2)/2) = (1, 1).
    let mut board = Board::new(5, 5);
    board.add_pattern(pattern);
    assert_eq!(board.get_cell(1, 1), CellState::Alive);
    assert_eq!(board.get_cell(2, 1), CellState::Dead);
    assert_eq!(board.get_cell(3, 1), CellState::Dead);
    assert_eq!(board.get_cell(1, 2), CellState::Alive);
    assert_eq!(board.get_cell(2, 2), CellState::Alive);
    assert_eq!(board.get_cell(3, 2), CellState::Alive);
}

#[test]
fn pattern_overlays_without_reset() {
    let mut board = Board::new(5, 5);
    board.set_cell(0, 0, CellState::Alive);
    board.add_pattern(vec!["X".to_string()]);
    assert_eq!(board.get_cell(0, 0), CellState::Alive);
    assert_eq!(board.get_cell(2, 2), CellState::Alive);
}
