use game_of_life::board::{Board, Cell, CellColor};

#[test]
fn test_cell_is_alive() {
    assert!(Cell::Alive.is_alive());
    assert!(!Cell::Dead.is_alive());
}

#[test]
fn test_cell_render() {
    assert_eq!(Cell::Alive.render(), ('X', CellColor::Green));
    assert_eq!(Cell::Dead.render(), ('O', CellColor::White));
}

#[test]
fn test_is_valid_location() {
    let board = Board::create_empty(3);
    assert!(board.is_valid_location((0, 0)));
    assert!(board.is_valid_location((2, 2)));
    assert!(board.is_valid_location((1, 2)));
    assert!(!board.is_valid_location((-1, 0)));
    assert!(!board.is_valid_location((0, -1)));
    assert!(!board.is_valid_location((3, 0)));
    assert!(!board.is_valid_location((0, 3)));
    let empty = Board::create_empty(0);
    assert!(!empty.is_valid_location((0, 0)));
}

#[test]
fn test_create_empty_all_dead() {
    let board = Board::create_empty(4);
    assert_eq!(board.size, 4);
    for y in 0..4 {
        for x in 0..4 {
            assert!(!board.is_cell_alive((x, y)));
        }
    }
}

#[test]
fn test_create_new_board_shape() {
    for n in [0usize, 1, 2, 5, 8] {
        let board = Board::create_new_board(n);
        assert_eq!(board.size, n);
        assert_eq!(board.rows.len(), n);
        for row in &board.rows {
            assert_eq!(row.cells.len(), n);
        }
    }
}

#[test]
fn test_update_and_read_cell() {
    let mut board = Board::create_empty(3);
    board.update_cell((2, 0), Cell::Alive);
    assert!(board.is_cell_alive((2, 0)));
    assert!(!board.is_cell_alive((0, 2)));
    for y in 0..3 {
        for x in 0..3 {
            assert_eq!(board.is_cell_alive((x, y)), (x, y) == (2, 0));
        }
    }
    board.update_cell((2, 0), Cell::Dead);
    assert!(!board.is_cell_alive((2, 0)));
}

#[test]
fn test_neighbor_count_full_board() {
    let mut board = Board::create_empty(3);
    for y in 0..3 {
        for x in 0..3 {
            board.update_cell((x, y), Cell::Alive);
        }
    }
    // The center sees all 8 neighbors, a corner only the 3 in-bounds ones,
    // an edge cell the 5 in-bounds ones; the cell's own state never counts.
    assert_eq!(board.get_number_of_alive_cells((1, 1)), 8);
    assert_eq!(board.get_number_of_alive_cells((0, 0)), 3);
    assert_eq!(board.get_number_of_alive_cells((2, 0)), 3);
    assert_eq!(board.get_number_of_alive_cells((0, 2)), 3);
    assert_eq!(board.get_number_of_alive_cells((2, 2)), 3);
    assert_eq!(board.get_number_of_alive_cells((1, 0)), 5);
    assert_eq!(board.get_number_of_alive_cells((0, 1)), 5);
}

#[test]
fn test_neighbor_count_counts_only_live() {
    let mut board = Board::create_empty(3);
    board.update_cell((0, 0), Cell::Alive);
    board.update_cell((2, 2), Cell::Alive);
    assert_eq!(board.get_number_of_alive_cells((1, 1)), 2);
    assert_eq!(board.get_number_of_alive_cells((0, 0)), 0);
    assert_eq!(board.get_number_of_alive_cells((1, 0)), 1);
    assert_eq!(board.get_number_of_alive_cells((2, 0)), 0);
    let lone = Board::create_empty(1);
    assert_eq!(lone.get_number_of_alive_cells((0, 0)), 0);
}
