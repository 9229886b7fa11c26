use game_of_life::board::Board;
use game_of_life::cell_state::CellState;

#[test]
fn test_new_board() {
    let board = Board::new(10, 20);
    assert_eq!(board.grid_width, 10);
    assert_eq!(board.grid_height, 20);
    assert_eq!(board.cells.len(), 10);
    assert_eq!(board.cells[0].len(), 20);
}

#[test]
fn test_initial_state() {
    let mut has_alive = false;
    let mut has_dead = false;

    let mut board = Board::new(10, 10);
    board.set_initial_state(1, 2);

    for row in board.cells.iter() {
        for cell in row {
            match cell {
                CellState::Alive => has_alive = true,
                CellState::Dead => has_dead = true,
            }
        }
    }

    assert!(has_alive, "There should be at least one alive cell.");
    assert!(has_dead, "There should be at least one dead cell.");
}

#[test]
fn test_initial_state_all_dead() {
    let mut has_alive = false;
    let mut has_dead = false;

    let mut board = Board::new(10, 10);
    board.set_initial_state(0, 1);

    for row in board.cells.iter() {
        for cell in row {
            match cell {
                CellState::Alive => has_alive = true,
                CellState::Dead => has_dead = true,
            }
        }
    }
    assert!(!has_alive, "There should be no alive cells.");
    assert!(has_dead, "There should be at least one dead cell.");
}

#[test]
fn test_set_cell() {
    let mut board = Board::new(10, 10);
    assert_eq!(board.get_cell(2, 3), CellState::Dead);
    board.set_cell(2, 3, CellState::Alive);
    assert_eq!(board.get_cell(2, 3), CellState::Alive);
}

#[test]
fn test_all_neighbors_alive() {
    let mut board = Board::new(3, 3);
    for y in 0..3 {
        for x in 0..3 {
            if x != 1 || y != 1 {
                board.set_cell(x, y, CellState::Alive);
            }
        }
    }

    let alive_neighbors = board.count_alive_neighbors(1, 1);
    assert_eq!(alive_neighbors, 8, "Cell (1, 1) should have 8 alive neighbors.");
}

#[test]
fn test_all_neighbors_dead() {
    let board = Board::new(3, 3);

    let alive_neighbors = board.count_alive_neighbors(1, 1);
    assert_eq!(alive_neighbors, 0, "Cell (1, 1) should have 0 alive neighbors.");
}

#[test]
fn test_four_alive_neighbors() {
    let mut board = Board::new(3, 3);
    board.set_cell(0, 0, CellState::Alive);
    board.set_cell(0, 1, CellState::Alive);
    board.set_cell(1, 0, CellState::Alive);
    board.set_cell(1, 2, CellState::Alive);

    let alive_neighbors = board.count_alive_neighbors(1, 1);
    assert_eq!(alive_neighbors, 4, "Cell (1, 1) should have 4 alive neighbors.");
}

#[test]
fn test_board_update() {
    let mut board = Board::new(5, 5);

    // Initial state:
    // 0 0 0 0 0
    // 0 0 0 0 0
    // 0 X X X 0
    // 0 0 0 0 0
    // 0 0 0 0 0
    board.set_cell(1, 2, CellState::Alive);
    board.set_cell(2, 2, CellState::Alive);
    board.set_cell(3, 2, CellState::Alive);

    board.update();
    // Expected state:
    // 0 0 0 0 0
    // 0 0 X 0 0
    // 0 0 X 0 0
    // 0 0 X 0 0
    // 0 0 0 0 0
    assert_eq!(board.get_cell(2, 1), CellState::Alive);
    assert_eq!(board.get_cell(2, 2), CellState::Alive);
    assert_eq!(board.get_cell(2, 3), CellState::Alive);

    assert_eq!(board.get_cell(1, 2), CellState::Dead);
    assert_eq!(board.get_cell(3, 2), CellState::Dead);
}

#[test]
fn test_r_pentomino_evolution() {
    let mut board = Board::new(6, 6);

    // Initial state:
    // 0 0 0 0 0
    // 0 0 X X 0
    // 0 X X 0 0
    // 0 0 X 0 0
    // 0 0 0 0 0
    board.place_r_pentomino(1, 1);

    board.update();
    // 0 0 0 0 0
    // 0 X X X 0
    // 0 X 0 0 0
    // 0 X X 0 0
    // 0 0 0 0 0
    assert_eq!(board.get_cell(0, 0), CellState::Dead);
    assert_eq!(board.get_cell(0, 1), CellState::Dead);
    assert_eq!(board.get_cell(0, 2), CellState::Dead);
    assert_eq!(board.get_cell(0, 3), CellState::Dead);
    assert_eq!(board.get_cell(0, 4), CellState::Dead);

    assert_eq!(board.get_cell(1, 0), CellState::Dead);
    assert_eq!(board.get_cell(1, 1), CellState::Alive);
    assert_eq!(board.get_cell(1, 2), CellState::Alive);
    assert_eq!(board.get_cell(1, 3), CellState::Alive);
    assert_eq!(board.get_cell(1, 4), CellState::Dead);

    assert_eq!(board.get_cell(2, 0), CellState::Dead);
    assert_eq!(board.get_cell(2, 1), CellState::Alive);
    assert_eq!(board.get_cell(2, 2), CellState::Dead);
    assert_eq!(board.get_cell(2, 3), CellState::Alive);
    assert_eq!(board.get_cell(2, 4), CellState::Dead);

    assert_eq!(board.get_cell(3, 0), CellState::Dead);
    assert_eq!(board.get_cell(3, 1), CellState::Alive);
    assert_eq!(board.get_cell(3, 2), CellState::Dead);
    assert_eq!(board.get_cell(3, 3), CellState::Dead);
    assert_eq!(board.get_cell(3, 4), CellState::Dead);

    assert_eq!(board.get_cell(4, 0), CellState::Dead);
    assert_eq!(board.get_cell(4, 1), CellState::Dead);
    assert_eq!(board.get_cell(4, 2), CellState::Dead);
    assert_eq!(board.get_cell(4, 3), CellState::Dead);
    assert_eq!(board.get_cell(4, 4), CellState::Dead);

    board.update();
    // 0 0 X 0 0
    // 0 X X 0 0
    // X 0 0 X 0
    // 0 X X 0 0
    // 0 0 0 0 0
    assert_eq!(board.get_cell(0, 2), CellState::Alive);
    assert_eq!(board.get_cell(1, 1), CellState::Alive);
    assert_eq!(board.get_cell(1, 3), CellState::Alive);
    assert_eq!(board.get_cell(2, 0), CellState::Alive);
    assert_eq!(board.get_cell(2, 1), CellState::Alive);
    assert_eq!(board.get_cell(2, 3), CellState::Alive);
    assert_eq!(board.get_cell(3, 2), CellState::Alive);
}

#[test]
fn test_coord_inside_board() {
    let board = Board::new(20, 10);
    assert!(board.is_coord_in_board(5, 5));
}

#[test]
fn test_coord_on_edge() {
    let board = Board::new(20, 10);
    assert!(board.is_coord_in_board(19, 9));
}

#[test]
fn test_coord_outside_board() {
    let board = Board::new(20, 10);
    assert!(!board.is_coord_in_board(20, 10));
}

#[test]
fn test_negative_coord() {
    let board = Board::new(20, 10);
    assert!(!board.is_coord_in_board(-1, -1));
}

#[test]
fn test_coord_far_outside_board() {
    let board = Board::new(20, 10);
    assert!(!board.is_coord_in_board(40, 20));
}

#[test]
fn test_x_inside_y_outside() {
    let board = Board::new(20, 10);
    assert!(!board.is_coord_in_board(5, 25));
}

#[test]
fn test_y_inside_x_outside() {
    let board = Board::new(20, 10);
    assert!(!board.is_coord_in_board(25, 5));
}

#[test]
fn test_negative_x_positive_y() {
    let board = Board::new(20, 10);
    assert!(!board.is_coord_in_board(-1, 5));
}

#[test]
fn test_positive_x_negative_y() {
    let board = Board::new(20, 10);
    assert!(!board.is_coord_in_board(5, -1));
}

#[test]
fn test_x_within_board_but_greater_than_height() {
    let board = Board::new(20, 10);
    assert!(board.is_coord_in_board(15, 5));
}

#[test]
fn test_y_within_board_but_greater_than_width() {
    let board = Board::new(10, 20);
    assert!(board.is_coord_in_board(5, 15));
}
