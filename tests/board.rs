use life_board::{Board, Cell};
use life_board::rules::{apply_rules, MAX_AGE};
use life_board::stage::{stage, Stage};

fn board_with(width: usize, height: usize, live: &[(usize, usize)]) -> Board {
    let mut b = Board::create(width, height);
    for &(r, c) in live {
        b.set_age(r, c, 1);
    }
    b
}

fn living(b: &Board) -> Vec<(usize, usize)> {
    let mut out = Vec::new();
    for r in 0..b.height() {
        for c in 0..b.width() {
            if b.is_alive(r, c) {
                out.push((r, c));
            }
        }
    }
    out
}

#[test]
fn create_is_all_dead_with_given_size() {
    let b = Board::create(80, 40);
    assert_eq!(b.width(), 80);
    assert_eq!(b.height(), 40);
    assert!(living(&b).is_empty());
    assert_eq!(b.age(39, 79), 0);
}

#[test]
fn tick_keeps_dimensions() {
    let b = board_with(7, 4, &[(0, 0), (1, 1), (3, 6)]);
    let t = b.tick();
    assert_eq!(t.width(), 7);
    assert_eq!(t.height(), 4);
}

#[test]
fn zero_sized_boards_tick_to_empty_boards() {
    let t = Board::create(0, 0).tick();
    assert_eq!((t.width(), t.height()), (0, 0));
    let t = Board::create(0, 3).tick();
    assert_eq!((t.width(), t.height()), (0, 3));
    let t = Board::create(4, 0).tick();
    assert_eq!((t.width(), t.height()), (4, 0));
}

#[test]
fn rule_table() {
    for age in [0u32, 1, 9] {
        assert_eq!(apply_rules(age, 0), 0);
        assert_eq!(apply_rules(age, 1), 0);
        assert_eq!(apply_rules(age, 3), age + 1);
        for n in 4..=8 {
            assert_eq!(apply_rules(age, n), 0);
        }
    }
    assert_eq!(apply_rules(0, 2), 0);
    assert_eq!(apply_rules(1, 2), 2);
    assert_eq!(apply_rules(9, 2), 10);
}

#[test]
fn age_stops_at_the_largest_value() {
    assert_eq!(apply_rules(MAX_AGE, 3), MAX_AGE);
    assert_eq!(apply_rules(MAX_AGE, 2), MAX_AGE);
    assert_eq!(apply_rules(MAX_AGE - 1, 3), MAX_AGE);
}

#[test]
fn isolated_and_lonely_cells_die() {
    // a living cell with 1 neighbour, a living cell with 0
    let b = board_with(5, 5, &[(0, 0), (0, 1), (4, 4)]);
    assert_eq!(b.count_living_neighbours(0, 0), 1);
    assert_eq!(b.count_living_neighbours(4, 4), 0);
    let t = b.tick();
    assert!(!t.is_alive(0, 0));
    assert!(!t.is_alive(0, 1));
    assert!(!t.is_alive(4, 4));
}

#[test]
fn three_neighbours_give_life_to_dead_and_living_cells() {
    let b = board_with(3, 3, &[(0, 0), (0, 1), (0, 2), (1, 1)]);
    assert_eq!(b.count_living_neighbours(1, 0), 3);
    assert_eq!(b.count_living_neighbours(0, 1), 3);
    let t = b.tick();
    assert_eq!(t.age(1, 0), 1);
    assert_eq!(t.age(0, 1), 2);
}

#[test]
fn crowded_cells_die() {
    let b = board_with(3, 3, &[(0, 0), (0, 1), (0, 2), (1, 0), (1, 1)]);
    assert_eq!(b.count_living_neighbours(1, 1), 4);
    assert_eq!(b.count_living_neighbours(0, 1), 4);
    let t = b.tick();
    assert!(!t.is_alive(1, 1));
    assert!(!t.is_alive(0, 1));
}

#[test]
fn neighbour_counts_stop_at_the_edges() {
    let full = {
        let mut b = Board::create(4, 3);
        for r in 0..3 {
            for c in 0..4 {
                b.set_age(r, c, 2);
            }
        }
        b
    };
    assert_eq!(full.count_living_neighbours(0, 0), 3);
    assert_eq!(full.count_living_neighbours(0, 3), 3);
    assert_eq!(full.count_living_neighbours(2, 0), 3);
    assert_eq!(full.count_living_neighbours(2, 3), 3);
    assert_eq!(full.count_living_neighbours(0, 1), 5);
    assert_eq!(full.count_living_neighbours(1, 0), 5);
    assert_eq!(full.count_living_neighbours(2, 2), 5);
    assert_eq!(full.count_living_neighbours(1, 3), 5);
    assert_eq!(full.count_living_neighbours(1, 1), 8);
    assert_eq!(full.count_living_neighbours(1, 2), 8);
}

#[test]
fn dead_board_stays_dead() {
    let b = Board::create(6, 4);
    let t = b.tick();
    assert_eq!((t.width(), t.height()), (6, 4));
    assert!(living(&t).is_empty());
}

#[test]
fn blinker_oscillates() {
    let horizontal = vec![(2, 1), (2, 2), (2, 3)];
    let vertical = vec![(1, 2), (2, 2), (3, 2)];
    let b = board_with(5, 5, &horizontal);
    let t1 = b.tick();
    assert_eq!(living(&t1), vertical);
    let t2 = t1.tick();
    assert_eq!(living(&t2), horizontal);
}

#[test]
fn single_cell_dies() {
    let b = board_with(5, 5, &[(2, 2)]);
    let t = b.tick();
    assert!(living(&t).is_empty());
}

#[test]
fn block_is_still() {
    let block = vec![(1, 1), (1, 2), (2, 1), (2, 2)];
    let mut b = board_with(4, 4, &block);
    for &(r, c) in &block {
        assert_eq!(b.count_living_neighbours(r, c), 3);
    }
    for generation in 1..=5u32 {
        b = b.tick();
        assert_eq!(living(&b), block);
        assert_eq!(b.age(1, 1), generation + 1);
    }
}

#[test]
fn seeding_draws_from_the_options() {
    let mut b = Board::create(10, 6);
    b.init_cells_with(&[7]);
    for r in 0..6 {
        for c in 0..10 {
            assert_eq!(b.age(r, c), 7);
        }
    }
    b.init_cells_with(&[3, 4]);
    for r in 0..6 {
        for c in 0..10 {
            assert!(b.age(r, c) == 3 || b.age(r, c) == 4);
        }
    }
    b.init_cells();
    assert_eq!((b.width(), b.height()), (10, 6));
    for r in 0..6 {
        for c in 0..10 {
            assert!(b.age(r, c) <= 1);
        }
    }
}

#[test]
fn cells_report_their_age() {
    let c = Cell::new(4);
    assert_eq!(c.age(), 4);
    assert!(c.is_alive());
    assert!(!Cell::new(0).is_alive());
    let mut b = Board::create(2, 2);
    b.set_age(1, 0, 9);
    assert_eq!(b.cell(1, 0).age(), 9);
    assert_eq!(b.cell(0, 1).age(), 0);
}

#[test]
fn stages_follow_age_brackets() {
    assert_eq!(stage(0), Stage::Empty);
    assert_eq!(stage(1), Stage::Newborn);
    assert_eq!(stage(5), Stage::Newborn);
    assert_eq!(stage(6), Stage::MiddleAged);
    assert_eq!(stage(10), Stage::MiddleAged);
    assert_eq!(stage(11), Stage::Old);
    assert_eq!(stage(18), Stage::Old);
    assert_eq!(stage(19), Stage::Ancient);
    assert_eq!(stage(MAX_AGE), Stage::Ancient);
    assert_eq!(Stage::Empty.index(), None);
    assert_eq!(Stage::Newborn.index(), Some(0));
    assert_eq!(Stage::Ancient.index(), Some(3));
}
