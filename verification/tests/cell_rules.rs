use multisim::cell::Cell;

#[test]
fn alive_cell_rule_exhaustive() {
    for n in 0..=8usize {
        let next = Cell::Alive.calculate_next_iteration(n);
        let expect_alive = n == 2 || n == 3;
        assert_eq!(next == Cell::Alive, expect_alive, "alive cell with {} neighbours", n);
    }
}

#[test]
fn dead_cell_rule_exhaustive() {
    for n in 0..=8usize {
        let next = Cell::Dead.calculate_next_iteration(n);
        let expect_alive = n == 3;
        assert_eq!(next == Cell::Alive, expect_alive, "dead cell with {} neighbours", n);
    }
}

#[test]
fn flip_is_opposite() {
    assert_eq!(Cell::Alive.flip(), Cell::Dead);
    assert_eq!(Cell::Dead.flip(), Cell::Alive);
}

#[test]
fn flip_twice_is_identity() {
    assert_eq!(Cell::Alive.flip().flip(), Cell::Alive);
    assert_eq!(Cell::Dead.flip().flip(), Cell::Dead);
}

#[test]
fn cell_from_bool() {
    assert_eq!(Cell::from(true), Cell::Alive);
    assert_eq!(Cell::from(false), Cell::Dead);
}
