use game_of_life::cell::Cell;
use game_of_life::game::Game;

const A: Cell = Cell::Alive;
const D: Cell = Cell::Dead;

fn board(width: u16, height: u16, cells: Vec<Cell>) -> Game {
    Game::with_cells((80, 24), width, height, cells).expect("one cell for each position")
}

fn filled(width: u16, height: u16, state: Cell) -> Game {
    board(width, height, vec![state; width as usize * height as usize])
}

fn with_live(width: u16, height: u16, live: &[(u16, u16)]) -> Game {
    let mut cells = vec![D; width as usize * height as usize];
    for &(row, col) in live {
        cells[row as usize * width as usize + col as usize] = A;
    }
    board(width, height, cells)
}

#[test]
fn cell_counts_one_if_alive() {
    assert_eq!(A.count(), 1);
    assert_eq!(D.count(), 0);
    assert!(A.is_alive());
    assert!(!D.is_alive());
}

#[test]
fn cell_from_coin_is_alive_on_heads() {
    assert_eq!(Cell::from_coin(true), A);
    assert_eq!(Cell::from_coin(false), D);
}

#[test]
fn next_state_of_a_live_cell() {
    let expected = [D, D, A, A, D, D, D, D, D];
    for n in 0..=8u8 {
        assert_eq!(A.next_state(n), expected[n as usize], "alive with {} neighbours", n);
    }
}

#[test]
fn next_state_of_a_dead_cell() {
    let expected = [D, D, D, A, D, D, D, D, D];
    for n in 0..=8u8 {
        assert_eq!(D.next_state(n), expected[n as usize], "dead with {} neighbours", n);
    }
}

#[test]
fn with_cells_wants_one_cell_for_each_position() {
    assert!(Game::with_cells((80, 24), 3, 2, vec![D; 6]).is_some());
    assert!(Game::with_cells((80, 24), 3, 2, vec![D; 5]).is_none());
    assert!(Game::with_cells((80, 24), 3, 2, vec![D; 7]).is_none());
    assert!(Game::with_cells((80, 24), 0, 9, vec![]).is_some());
    assert!(Game::with_cells((80, 24), 0, 9, vec![D]).is_none());
}

#[test]
fn with_cells_keeps_what_it_is_given() {
    let cells = vec![A, D, D, D, A, A];
    let game = Game::with_cells((132, 43), 3, 2, cells.clone()).unwrap();
    assert_eq!(game.width(), 3);
    assert_eq!(game.height(), 2);
    assert_eq!(game.original_terminal_size(), (132, 43));
    assert_eq!(game.cells(), &cells);
}

#[test]
fn new_board_has_one_cell_for_each_position() {
    let game = Game::new((80, 24), 40, 80);
    assert_eq!(game.width(), 40);
    assert_eq!(game.height(), 80);
    assert_eq!(game.cells().len(), 3200);
    assert_eq!(game.original_terminal_size(), (80, 24));
}

#[test]
fn new_board_may_be_empty() {
    assert_eq!(Game::new((80, 24), 0, 7).cells().len(), 0);
    assert_eq!(Game::new((80, 24), 7, 0).cells().len(), 0);
}

#[test]
fn new_board_is_larger_than_sixteen_bits_can_count() {
    let game = Game::new((80, 24), 300, 300);
    assert_eq!(game.cells().len(), 90_000);
}

#[test]
fn new_board_is_tossed_cell_by_cell() {
    let game = Game::new((80, 24), 40, 80);
    assert!(game.cells().iter().any(|cell| *cell == A));
    assert!(game.cells().iter().any(|cell| *cell == D));
}

#[test]
fn index_is_row_times_width_plus_column() {
    let game = filled(5, 4, D);
    assert_eq!(game.get_index(0, 0), 0);
    assert_eq!(game.get_index(0, 4), 4);
    assert_eq!(game.get_index(1, 0), 5);
    assert_eq!(game.get_index(2, 3), 13);
    assert_eq!(game.get_index(3, 4), 19);
}

#[test]
fn index_does_not_wrap_at_sixteen_bits() {
    let game = filled(300, 300, D);
    assert_eq!(game.get_index(299, 299), 89_999);
}

#[test]
fn tick_keeps_the_length_of_the_board() {
    for (width, height) in [(0u16, 0u16), (1, 1), (1, 6), (6, 1), (2, 2), (5, 4), (40, 80)] {
        let mut game = Game::new((80, 24), width, height);
        for _ in 0..3 {
            game.tick();
            assert_eq!(game.cells().len(), width as usize * height as usize);
            assert_eq!(game.width(), width);
            assert_eq!(game.height(), height);
        }
    }
}

#[test]
fn corner_counts_the_opposite_corner() {
    let game = with_live(5, 4, &[(3, 4)]);
    assert_eq!(game.live_neighbor_count(0, 0), 1);
}

#[test]
fn corner_counts_across_the_top_edge() {
    let game = with_live(5, 4, &[(3, 0)]);
    assert_eq!(game.live_neighbor_count(0, 0), 1);
}

#[test]
fn corner_counts_across_the_left_edge() {
    let game = with_live(5, 4, &[(0, 4)]);
    assert_eq!(game.live_neighbor_count(0, 0), 1);
}

#[test]
fn corner_counts_all_eight_round_the_edges() {
    let game = with_live(
        5,
        4,
        &[(3, 4), (3, 0), (3, 1), (0, 4), (0, 1), (1, 4), (1, 0), (1, 1)],
    );
    assert_eq!(game.live_neighbor_count(0, 0), 8);
    let far = with_live(5, 4, &[(2, 2), (2, 3), (1, 2), (0, 2), (0, 3), (3, 2)]);
    assert_eq!(far.live_neighbor_count(0, 0), 0);
}

#[test]
fn last_cell_counts_the_first() {
    let game = with_live(5, 4, &[(0, 0)]);
    assert_eq!(game.live_neighbor_count(3, 4), 1);
    assert_eq!(game.live_neighbor_count(3, 0), 1);
    assert_eq!(game.live_neighbor_count(0, 4), 1);
    assert_eq!(game.live_neighbor_count(2, 2), 0);
}

#[test]
fn a_cell_is_not_its_own_neighbour() {
    let game = with_live(5, 4, &[(2, 2)]);
    assert_eq!(game.live_neighbor_count(2, 2), 0);
    assert_eq!(game.live_neighbor_count(1, 1), 1);
    assert_eq!(game.live_neighbor_count(3, 3), 1);
}

#[test]
fn position_beyond_the_board_is_taken_round_the_torus() {
    let game = with_live(5, 4, &[(0, 1), (1, 1), (3, 4), (2, 2)]);
    for row in 0..4u16 {
        for col in 0..5u16 {
            let here = game.live_neighbor_count(row, col);
            assert_eq!(game.live_neighbor_count(row + 4, col), here);
            assert_eq!(game.live_neighbor_count(row, col + 5), here);
            assert_eq!(game.live_neighbor_count(row + 8, col + 15), here);
        }
    }
    assert_eq!(game.live_neighbor_count(65535, 65535), game.live_neighbor_count(3, 0));
}

#[test]
fn neighbours_in_the_middle() {
    let game = with_live(5, 5, &[(1, 1), (1, 2), (1, 3), (2, 1), (2, 3), (3, 1), (3, 2), (3, 3)]);
    assert_eq!(game.live_neighbor_count(2, 2), 8);
    assert_eq!(game.live_neighbor_count(1, 1), 2);
    assert_eq!(game.live_neighbor_count(0, 0), 1);
    assert_eq!(game.live_neighbor_count(0, 2), 3);
}

#[test]
fn on_two_rows_the_row_above_is_the_row_below() {
    let game = with_live(4, 2, &[(1, 1)]);
    assert_eq!(game.live_neighbor_count(0, 1), 2);
    assert_eq!(game.live_neighbor_count(0, 0), 2);
    assert_eq!(game.live_neighbor_count(1, 0), 1);
}

#[test]
fn on_one_row_the_offsets_fold_onto_the_row() {
    let game = filled(3, 1, A);
    assert_eq!(game.live_neighbor_count(0, 1), 7);
    let single = filled(1, 1, A);
    assert_eq!(single.live_neighbor_count(0, 0), 5);
}

#[test]
fn blinker_turns_and_turns_back() {
    let vertical = vec![
        D, D, D, D, D,
        D, D, A, D, D,
        D, D, A, D, D,
        D, D, A, D, D,
        D, D, D, D, D,
    ];
    let horizontal = vec![
        D, D, D, D, D,
        D, D, D, D, D,
        D, A, A, A, D,
        D, D, D, D, D,
        D, D, D, D, D,
    ];
    let mut game = board(5, 5, vertical.clone());
    game.tick();
    assert_eq!(game.cells(), &horizontal);
    game.tick();
    assert_eq!(game.cells(), &vertical);
}

#[test]
fn blinker_on_a_wide_board() {
    let mut game = with_live(9, 6, &[(1, 4), (2, 4), (3, 4)]);
    game.tick();
    let turned = with_live(9, 6, &[(2, 3), (2, 4), (2, 5)]);
    assert_eq!(game.cells(), turned.cells());
    game.tick();
    let back = with_live(9, 6, &[(1, 4), (2, 4), (3, 4)]);
    assert_eq!(game.cells(), back.cells());
}

#[test]
fn block_stays_as_it_is() {
    let mut game = with_live(4, 4, &[(1, 1), (1, 2), (2, 1), (2, 2)]);
    let before = game.cells().clone();
    game.tick();
    assert_eq!(game.cells(), &before);
}

#[test]
fn dead_board_stays_dead() {
    for (width, height) in [(0u16, 0u16), (1, 1), (1, 4), (4, 1), (2, 2), (3, 3), (7, 5), (40, 80)] {
        let mut game = filled(width, height, D);
        game.tick();
        assert!(game.cells().iter().all(|cell| *cell == D));
        assert_eq!(game.cells().len(), width as usize * height as usize);
    }
}

#[test]
fn lonely_cell_dies() {
    let mut game = with_live(5, 5, &[(2, 2)]);
    assert_eq!(game.live_neighbor_count(2, 2), 0);
    game.tick();
    assert_eq!(game.cells(), &vec![D; 25]);
}

#[test]
fn lonely_cell_in_the_corner_dies() {
    let mut game = with_live(6, 4, &[(0, 0)]);
    assert_eq!(game.live_neighbor_count(0, 0), 0);
    game.tick();
    assert_eq!(game.cells(), &vec![D; 24]);
}

#[test]
fn dead_cell_with_three_neighbours_comes_alive() {
    let mut game = with_live(5, 5, &[(1, 1), (1, 3), (3, 2)]);
    assert_eq!(game.cells()[12], D);
    assert_eq!(game.live_neighbor_count(2, 2), 3);
    game.tick();
    assert_eq!(game.cells()[12], A);
}

#[test]
fn dead_cell_with_two_neighbours_stays_dead() {
    let mut game = with_live(5, 5, &[(1, 1), (3, 3)]);
    assert_eq!(game.cells()[12], D);
    assert_eq!(game.live_neighbor_count(2, 2), 2);
    game.tick();
    assert_eq!(game.cells()[12], D);
}

#[test]
fn dead_cell_with_four_neighbours_stays_dead() {
    let mut game = with_live(5, 5, &[(1, 1), (1, 3), (3, 1), (3, 3)]);
    assert_eq!(game.cells()[12], D);
    assert_eq!(game.live_neighbor_count(2, 2), 4);
    game.tick();
    assert_eq!(game.cells()[12], D);
}

#[test]
fn live_cell_with_one_neighbour_dies() {
    let mut game = with_live(5, 5, &[(2, 2), (2, 3)]);
    assert_eq!(game.live_neighbor_count(2, 2), 1);
    game.tick();
    assert_eq!(game.cells()[12], D);
}

#[test]
fn live_cell_with_two_or_three_neighbours_lives_on() {
    let mut two = with_live(5, 5, &[(2, 2), (1, 1), (3, 3)]);
    assert_eq!(two.live_neighbor_count(2, 2), 2);
    two.tick();
    assert_eq!(two.cells()[12], A);
    let mut three = with_live(5, 5, &[(2, 2), (1, 1), (3, 3), (1, 3)]);
    assert_eq!(three.live_neighbor_count(2, 2), 3);
    three.tick();
    assert_eq!(three.cells()[12], A);
}

#[test]
fn live_cell_with_four_neighbours_dies() {
    let mut game = with_live(5, 5, &[(2, 2), (1, 1), (1, 3), (3, 1), (3, 3)]);
    assert_eq!(game.live_neighbor_count(2, 2), 4);
    game.tick();
    assert_eq!(game.cells()[12], D);
}

#[test]
fn full_board_dies() {
    for (width, height) in [(2u16, 2u16), (3, 3), (4, 6), (40, 80)] {
        let mut game = filled(width, height, A);
        assert_eq!(game.live_neighbor_count(0, 0), 8);
        assert_eq!(game.live_neighbor_count(height - 1, width - 1), 8);
        game.tick();
        assert!(game.cells().iter().all(|cell| *cell == D));
        assert_eq!(game.cells().len(), width as usize * height as usize);
    }
}

#[test]
fn full_board_of_one_row_or_column_dies() {
    for (width, height) in [(1u16, 1u16), (1, 5), (5, 1)] {
        let mut game = filled(width, height, A);
        game.tick();
        assert!(game.cells().iter().all(|cell| *cell == D));
    }
}

#[test]
fn tick_reads_the_generation_before_it() {
    let mut game = with_live(6, 6, &[(0, 1), (1, 2), (2, 0), (2, 1), (2, 2)]);
    game.tick();
    let glided = with_live(6, 6, &[(1, 0), (1, 2), (2, 1), (2, 2), (3, 1)]);
    assert_eq!(game.cells(), glided.cells());
}

#[test]
fn tick_leaves_the_terminal_size_alone() {
    let mut game = Game::with_cells((132, 43), 2, 2, vec![A, D, D, A]).unwrap();
    game.tick();
    assert_eq!(game.original_terminal_size(), (132, 43));
}
