use multisim::cell::Cell;
use multisim::universe::{cell_of_draw, Universe};

fn assert_all(u: &Universe, val: Cell) {
    for y in 0..u.height {
        for x in 0..u.width {
            assert_eq!(u.get(x, y), val, "cell ({}, {})", x, y);
        }
    }
}

#[test]
fn new_universe_is_all_dead() {
    let u = Universe::new(7, 5);
    assert_eq!(u.width, 7);
    assert_eq!(u.height, 5);
    assert_all(&u, Cell::Dead);
}

#[test]
fn set_and_get_roundtrip() {
    let mut u = Universe::new(6, 4);
    u.set(2, 3, Cell::Alive);
    assert_eq!(u.get(2, 3), Cell::Alive);
    assert_eq!(u.get(3, 2), Cell::Dead);
    assert_eq!(u.get(2, 2), Cell::Dead);
    u.set(2, 3, Cell::Dead);
    assert_eq!(u.get(2, 3), Cell::Dead);
}

#[test]
fn fill_sets_every_cell() {
    let mut u = Universe::new(5, 5);
    u.set(1, 1, Cell::Alive);
    u.fill(Cell::Alive);
    assert_all(&u, Cell::Alive);
}

#[test]
fn fill_alive_then_dead_is_all_dead() {
    let mut u = Universe::new(5, 5);
    u.set(2, 2, Cell::Alive);
    u.fill(Cell::Alive);
    u.fill(Cell::Dead);
    assert_all(&u, Cell::Dead);
}

#[test]
fn clear_empties_the_board() {
    let mut u = Universe::new(4, 4);
    u.fill(Cell::Alive);
    u.clear();
    assert_all(&u, Cell::Dead);
}

#[test]
fn invert_flips_every_cell() {
    let mut u = Universe::new(3, 3);
    u.set(0, 0, Cell::Alive);
    u.set(2, 1, Cell::Alive);
    u.invert();
    assert_eq!(u.get(0, 0), Cell::Dead);
    assert_eq!(u.get(2, 1), Cell::Dead);
    assert_eq!(u.get(1, 1), Cell::Alive);
    assert_eq!(u.get(2, 2), Cell::Alive);
}

#[test]
fn invert_twice_is_identity() {
    let mut u = Universe::new(4, 3);
    u.set(1, 0, Cell::Alive);
    u.set(3, 2, Cell::Alive);
    let before: Vec<Cell> = (0..u.height)
        .flat_map(|y| (0..u.width).map(move |x| (x, y)))
        .map(|(x, y)| u.get(x, y))
        .collect();
    u.invert();
    u.invert();
    let after: Vec<Cell> = (0..u.height)
        .flat_map(|y| (0..u.width).map(move |x| (x, y)))
        .map(|(x, y)| u.get(x, y))
        .collect();
    assert_eq!(before, after);
}

#[test]
fn neighbour_count_centre_and_corner() {
    let mut u = Universe::new(5, 5);
    u.set(1, 1, Cell::Alive);
    u.set(2, 1, Cell::Alive);
    u.set(3, 1, Cell::Alive);
    // centre below the row of three
    assert_eq!(u.count_live_neighbours(2, 2), 3);
    // the middle of the row sees only its two row-mates
    assert_eq!(u.count_live_neighbours(2, 1), 2);
    // a corner: offsets falling off the board count as dead
    assert_eq!(u.count_live_neighbours(0, 0), 1);
    assert_eq!(u.count_live_neighbours(4, 4), 0);
}

#[test]
fn step_keeps_dead_board_dead() {
    let mut u = Universe::new(6, 6);
    u.step();
    assert_all(&u, Cell::Dead);
}

#[test]
fn isolated_cell_dies_in_one_step() {
    let mut u = Universe::new(5, 5);
    u.set(2, 2, Cell::Alive);
    u.step();
    assert_all(&u, Cell::Dead);
}

#[test]
fn block_is_a_still_life() {
    let mut u = Universe::new(6, 6);
    u.set(2, 2, Cell::Alive);
    u.set(3, 2, Cell::Alive);
    u.set(2, 3, Cell::Alive);
    u.set(3, 3, Cell::Alive);
    u.step();
    for y in 0..6 {
        for x in 0..6 {
            let in_block = (x == 2 || x == 3) && (y == 2 || y == 3);
            let expect = if in_block { Cell::Alive } else { Cell::Dead };
            assert_eq!(u.get(x, y), expect, "cell ({}, {})", x, y);
        }
    }
}

#[test]
fn blinker_oscillates_with_period_two() {
    let mut u = Universe::new(9, 9);
    u.set(3, 4, Cell::Alive);
    u.set(4, 4, Cell::Alive);
    u.set(5, 4, Cell::Alive);
    u.step();
    for y in 0..9 {
        for x in 0..9 {
            let in_vertical = x == 4 && (y == 3 || y == 4 || y == 5);
            let expect = if in_vertical { Cell::Alive } else { Cell::Dead };
            assert_eq!(u.get(x, y), expect, "after one step, cell ({}, {})", x, y);
        }
    }
    u.step();
    for y in 0..9 {
        for x in 0..9 {
            let in_horizontal = y == 4 && (x == 3 || x == 4 || x == 5);
            let expect = if in_horizontal { Cell::Alive } else { Cell::Dead };
            assert_eq!(u.get(x, y), expect, "after two steps, cell ({}, {})", x, y);
        }
    }
}

#[test]
fn resize_growing_preserves_content_and_exposes_dead_cells() {
    let mut u = Universe::new(4, 3);
    u.set(0, 0, Cell::Alive);
    u.set(3, 2, Cell::Alive);
    u.set(1, 1, Cell::Alive);
    u.resize(6, 5);
    assert_eq!(u.width, 6);
    assert_eq!(u.height, 5);
    for y in 0..5 {
        for x in 0..6 {
            let expect = if (x, y) == (0, 0) || (x, y) == (3, 2) || (x, y) == (1, 1) {
                Cell::Alive
            } else {
                Cell::Dead
            };
            assert_eq!(u.get(x, y), expect, "cell ({}, {})", x, y);
        }
    }
}

#[test]
fn resize_shrinking_clips_and_regrowing_exposes_dead_cells() {
    let mut u = Universe::new(4, 3);
    u.set(0, 0, Cell::Alive);
    u.set(1, 1, Cell::Alive);
    u.set(3, 2, Cell::Alive);
    u.resize(2, 2);
    assert_eq!(u.width, 2);
    assert_eq!(u.height, 2);
    assert_eq!(u.get(0, 0), Cell::Alive);
    assert_eq!(u.get(1, 1), Cell::Alive);
    assert_eq!(u.get(1, 0), Cell::Dead);
    assert_eq!(u.get(0, 1), Cell::Dead);
    u.resize(4, 3);
    // the overlap of the shrunken board survives; everything clipped away
    // earlier comes back dead
    assert_eq!(u.get(0, 0), Cell::Alive);
    assert_eq!(u.get(1, 1), Cell::Alive);
    assert_eq!(u.get(3, 2), Cell::Dead);
}

#[test]
fn fill_random_keeps_dimensions() {
    let mut u = Universe::new(8, 6);
    u.fill_random();
    assert_eq!(u.width, 8);
    assert_eq!(u.height, 6);
    assert_eq!(u.cells.len(), 48);
    // every cell is still readable and a plain dead/alive value
    for y in 0..6 {
        for x in 0..8 {
            let c = u.get(x, y);
            assert!(c == Cell::Alive || c == Cell::Dead);
        }
    }
}

#[test]
fn cell_of_draw_follows_the_biased_rule() {
    // alive exactly when the draw is even or divisible by 7
    assert_eq!(cell_of_draw(0), Cell::Alive);
    assert_eq!(cell_of_draw(2), Cell::Alive);
    assert_eq!(cell_of_draw(7), Cell::Alive);
    assert_eq!(cell_of_draw(21), Cell::Alive);
    assert_eq!(cell_of_draw(1), Cell::Dead);
    assert_eq!(cell_of_draw(3), Cell::Dead);
    assert_eq!(cell_of_draw(5), Cell::Dead);
    assert_eq!(cell_of_draw(9), Cell::Dead);
    assert_eq!(cell_of_draw(u32::MAX), Cell::Dead);
    assert_eq!(cell_of_draw(u32::MAX - 1), Cell::Alive);
}

#[test]
fn fill_random_follows_the_seeded_source() {
    // with a fixed seed the pattern is cell_of_draw of each draw in order
    macroquad::rand::srand(7);
    let expected: Vec<Cell> = (0..12).map(|_| cell_of_draw(macroquad::rand::rand())).collect();
    macroquad::rand::srand(7);
    let mut u = Universe::new(4, 3);
    u.fill_random();
    let got: Vec<Cell> = (0..3)
        .flat_map(|y| (0..4).map(move |x| (x, y)))
        .map(|(x, y)| u.get(x, y))
        .collect();
    assert_eq!(got, expected);
}
