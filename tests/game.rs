use game_of_life::game::{Cell, Game, GridError};

use Cell::{Alive, Dead};

fn scenario_a() -> Vec<Cell> {
    vec![Dead, Alive, Dead, Alive, Dead, Alive, Dead, Dead, Dead]
}

#[test]
fn all_dead() {
    let mut game = Game::with_initial(10, 10, vec![Cell::Dead; 100]).unwrap();

    for c in game.cells.iter() {
        assert_eq!(c, &Cell::Dead);
    }

    game.next_gen();

    for c in game.cells.iter() {
        assert_eq!(c, &Cell::Dead);
    }
}

#[test]
fn next_gen() {
    let cells = vec![
        Cell::Dead,
        Cell::Alive,
        Cell::Dead,
        Cell::Alive,
        Cell::Dead,
        Cell::Alive,
        Cell::Dead,
        Cell::Dead,
        Cell::Dead,
    ];

    let mut game = Game::with_initial(3, 3, cells).unwrap();

    game.next_gen();

    assert_eq!(
        game.cells,
        vec![
            Cell::Alive,
            Cell::Alive,
            Cell::Alive,
            Cell::Alive,
            Cell::Alive,
            Cell::Alive,
            Cell::Alive,
            Cell::Alive,
            Cell::Alive,
        ]
    );
}

#[test]
fn next_gen_non_square() {
    let cells = vec![
        Cell::Alive,
        Cell::Dead,
        Cell::Alive,
        Cell::Dead,
        Cell::Dead,
        Cell::Dead,
        Cell::Alive,
        Cell::Dead,
        Cell::Dead,
        Cell::Dead,
        Cell::Dead,
        Cell::Alive,
    ];

    let mut game = Game::with_initial(4, 3, cells).unwrap();

    game.next_gen();

    assert_eq!(
        game.cells,
        vec![
            Cell::Dead,
            Cell::Alive,
            Cell::Alive,
            Cell::Dead,
            Cell::Dead,
            Cell::Alive,
            Cell::Alive,
            Cell::Dead,
            Cell::Dead,
            Cell::Alive,
            Cell::Alive,
            Cell::Alive,
        ]
    );
}

#[test]
fn count_neighbours() {
    let cells = vec![
        Cell::Dead,
        Cell::Alive,
        Cell::Dead,
        Cell::Alive,
        Cell::Dead,
        Cell::Alive,
        Cell::Dead,
        Cell::Dead,
        Cell::Dead,
    ];

    let counts = vec![3, 2, 3, 2, 3, 2, 3, 3, 3];

    let game = Game::with_initial(3, 3, cells).unwrap();

    for (count, (i, _)) in counts.iter().zip(game.cells.iter().enumerate()) {
        assert_eq!(*count, game.count_neighbours(i))
    }
}

#[test]
fn empty_grid_stays_empty() {
    let mut game = Game::with_initial(0, 0, Vec::new()).unwrap();
    assert_eq!(game.size(), 0);
    game.next_gen();
    assert!(game.cells.is_empty());
    assert_eq!((game.width, game.height), (0, 0));

    let mut flat = Game::with_initial(0, 7, Vec::new()).unwrap();
    flat.next_gen();
    assert!(flat.cells.is_empty());
}

#[test]
fn dead_non_square_board_stays_dead() {
    let mut game = Game::with_initial(5, 2, vec![Dead; 10]).unwrap();
    game.next_gen();
    assert_eq!(game.cells, vec![Dead; 10]);
}

#[test]
fn with_initial_rejects_wrong_cell_count() {
    assert_eq!(
        Game::with_initial(3, 3, vec![Dead; 8]).err(),
        Some(GridError::InvalidDimensions)
    );
    assert_eq!(
        Game::with_initial(2, 2, vec![Dead; 5]).err(),
        Some(GridError::InvalidDimensions)
    );
    assert_eq!(
        Game::with_initial(usize::MAX, 2, vec![Dead; 2]).err(),
        Some(GridError::InvalidDimensions)
    );
}

#[test]
fn with_initial_keeps_cells() {
    let game = Game::with_initial(3, 3, scenario_a()).unwrap();
    assert_eq!(game.width, 3);
    assert_eq!(game.height, 3);
    assert_eq!(game.cells, scenario_a());
    assert_eq!(game.size(), 9);
}

#[test]
fn new_and_generate_keep_dimensions() {
    let mut game = Game::new(7, 5);
    assert_eq!((game.width, game.height), (7, 5));
    assert_eq!(game.cells.len(), 35);
    assert_eq!(game.size(), 35);
    game.generate();
    assert_eq!((game.width, game.height), (7, 5));
    assert_eq!(game.cells.len(), 35);
    for _ in 0..3 {
        game.next_gen();
        game.generate();
    }
    assert_eq!(game.cells.len(), 35);

    let empty = Game::new(0, 4);
    assert!(empty.cells.is_empty());
}

#[test]
fn from_alive_maps_booleans() {
    assert_eq!(Cell::from_alive(true), Alive);
    assert_eq!(Cell::from_alive(false), Dead);
}

#[test]
fn opposite_corners_are_neighbours() {
    let mut cells = vec![Dead; 20];
    cells[0] = Alive;
    cells[4 + 3 * 5] = Alive;
    let game = Game::with_initial(5, 4, cells).unwrap();
    assert_eq!(game.count_neighbours(0), 1);
    assert_eq!(game.count_neighbours(19), 1);
    assert_eq!(game.count_neighbours(6), 1);
    assert_eq!(game.count_neighbours(12), 0);
}

#[test]
fn block_is_still_life() {
    let mut game = Game::with_initial(6, 5, vec![Dead; 30]).unwrap();
    game.set(2, 1, Alive);
    game.set(3, 1, Alive);
    game.set(2, 2, Alive);
    game.set(3, 2, Alive);
    let before = game.cells.clone();
    game.next_gen();
    assert_eq!(game.cells, before);
    game.next_gen();
    assert_eq!(game.cells, before);
}

#[test]
fn block_at_the_edge_is_still_life() {
    let mut game = Game::with_initial(4, 4, vec![Dead; 16]).unwrap();
    game.set(2, 2, Alive);
    game.set(3, 2, Alive);
    game.set(2, 3, Alive);
    game.set(3, 3, Alive);
    let before = game.cells.clone();
    game.next_gen();
    assert_eq!(game.cells, before);
}

#[test]
fn blinker_oscillates() {
    let mut game = Game::with_initial(5, 5, vec![Dead; 25]).unwrap();
    for x in 1..4 {
        game.set(x, 2, Alive);
    }
    game.next_gen();
    let mut expected = vec![Dead; 25];
    for y in 1..4 {
        expected[2 + y * 5] = Alive;
    }
    assert_eq!(game.cells, expected);
}

#[test]
fn lone_cell_dies() {
    let mut game = Game::with_initial(3, 3, vec![Dead; 9]).unwrap();
    game.set(1, 1, Alive);
    assert_eq!(game.count_neighbours(4), 0);
    game.next_gen();
    assert_eq!(game.cells, vec![Dead; 9]);
}

#[test]
fn single_cell_grid_counts_itself() {
    let game = Game::with_initial(1, 1, vec![Alive]).unwrap();
    assert_eq!(game.count_neighbours(0), 8);
    let mut game = game;
    game.next_gen();
    assert_eq!(game.cells, vec![Dead]);
}

#[test]
fn get_set_and_row() {
    let mut game = Game::with_initial(4, 3, vec![Dead; 12]).unwrap();
    game.set(3, 2, Alive);
    assert_eq!(game.get(3, 2), Alive);
    assert_eq!(game.cells[3 + 2 * 4], Alive);
    assert_eq!(game.get(2, 3 - 1), Dead);
    assert_eq!(game.row(2), vec![Dead, Dead, Dead, Alive]);
    assert_eq!(game.row(0), vec![Dead; 4]);
}
