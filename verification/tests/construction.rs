use torus_life::{Cell, LifeRate, Universe, UniverseError};

const HALF: LifeRate = LifeRate { numerator: 1, denominator: 2 };
const NEVER: LifeRate = LifeRate { numerator: 0, denominator: 7 };
const ALWAYS: LifeRate = LifeRate { numerator: 7, denominator: 7 };

fn dead(n: usize) -> Vec<Cell> {
    vec![Cell::Dead; n]
}

#[test]
fn zero_width_is_rejected() {
    assert_eq!(
        Universe::new(0, 5, HALF, 2, 3, vec![3]).err(),
        Some(UniverseError::InvalidDimensions)
    );
    assert_eq!(
        Universe::from_life_rate(0, 5, HALF).err(),
        Some(UniverseError::InvalidDimensions)
    );
    assert_eq!(
        Universe::from_fixed_cells(0, 5).err(),
        Some(UniverseError::InvalidDimensions)
    );
    assert_eq!(
        Universe::from_cells(0, 5, 2, 3, vec![3], dead(0)).err(),
        Some(UniverseError::InvalidDimensions)
    );
}

#[test]
fn zero_height_is_rejected() {
    assert_eq!(
        Universe::new(5, 0, HALF, 2, 3, vec![3]).err(),
        Some(UniverseError::InvalidDimensions)
    );
    assert_eq!(
        Universe::from_life_rate(5, 0, HALF).err(),
        Some(UniverseError::InvalidDimensions)
    );
    assert_eq!(
        Universe::from_fixed_cells(5, 0).err(),
        Some(UniverseError::InvalidDimensions)
    );
    assert_eq!(
        Universe::from_cells(5, 0, 2, 3, vec![3], dead(0)).err(),
        Some(UniverseError::InvalidDimensions)
    );
}

#[test]
fn life_rate_of_one_and_a_half_is_rejected() {
    let rate = LifeRate { numerator: 3, denominator: 2 };
    assert!(!rate.valid());
    assert_eq!(
        Universe::new(4, 4, rate, 2, 3, vec![3]).err(),
        Some(UniverseError::InvalidProbability)
    );
    assert_eq!(
        Universe::from_life_rate(4, 4, rate).err(),
        Some(UniverseError::InvalidProbability)
    );
}

#[test]
fn life_rate_without_denominator_is_rejected() {
    let rate = LifeRate { numerator: 0, denominator: 0 };
    assert!(!rate.valid());
    assert_eq!(
        Universe::new(4, 4, rate, 2, 3, vec![3]).err(),
        Some(UniverseError::InvalidProbability)
    );
}

#[test]
fn dimensions_are_judged_before_the_life_rate() {
    let rate = LifeRate { numerator: 3, denominator: 2 };
    assert_eq!(
        Universe::new(0, 0, rate, 2, 3, vec![3]).err(),
        Some(UniverseError::InvalidDimensions)
    );
}

#[test]
fn cells_must_match_the_dimensions() {
    assert_eq!(
        Universe::from_cells(3, 3, 2, 3, vec![3], dead(8)).err(),
        Some(UniverseError::InvalidDimensions)
    );
    assert_eq!(
        Universe::from_cells(3, 3, 2, 3, vec![3], dead(10)).err(),
        Some(UniverseError::InvalidDimensions)
    );
    assert!(Universe::from_cells(3, 3, 2, 3, vec![3], dead(9)).is_ok());
}

#[test]
fn from_cells_keeps_what_it_is_given() {
    let cells = vec![
        Cell::Alive, Cell::Dead, Cell::Dead,
        Cell::Dead, Cell::Alive, Cell::Alive,
    ];
    let universe = Universe::from_cells(3, 2, 2, 3, vec![3], cells.clone()).unwrap();
    assert_eq!(universe.width(), 3);
    assert_eq!(universe.height(), 2);
    assert_eq!(universe.generation(), 0);
    assert_eq!(universe.cells(), &cells);
    assert_eq!(universe.get_index(1, 2), 5);
    assert_eq!(universe.get_index(0, 0), 0);
    assert_eq!(universe.cell(1, 2), Cell::Alive);
    assert_eq!(universe.cell(0, 1), Cell::Dead);
}

#[test]
fn random_universe_has_one_cell_for_each_position() {
    let universe = Universe::new(7, 5, HALF, 3, 4, vec![2]).unwrap();
    assert_eq!(universe.width(), 7);
    assert_eq!(universe.height(), 5);
    assert_eq!(universe.generation(), 0);
    assert_eq!(universe.cells().len(), 35);
}

#[test]
fn life_rate_of_zero_gives_no_life() {
    let universe = Universe::new(6, 4, NEVER, 2, 3, vec![3]).unwrap();
    assert_eq!(universe.cells(), &dead(24));
    let universe = Universe::from_life_rate(6, 4, NEVER).unwrap();
    assert_eq!(universe.cells(), &dead(24));
}

#[test]
fn life_rate_of_one_gives_life_everywhere() {
    let universe = Universe::new(6, 4, ALWAYS, 2, 3, vec![3]).unwrap();
    assert_eq!(universe.cells(), &vec![Cell::Alive; 24]);
    let universe = Universe::from_life_rate(6, 4, ALWAYS).unwrap();
    assert_eq!(universe.cells(), &vec![Cell::Alive; 24]);
}

#[test]
fn a_draw_below_the_numerator_gives_life() {
    let rate = LifeRate { numerator: 3, denominator: 10 };
    assert!(rate.valid());
    assert_eq!(rate.cell_for(0), Cell::Alive);
    assert_eq!(rate.cell_for(2), Cell::Alive);
    assert_eq!(rate.cell_for(3), Cell::Dead);
    assert_eq!(rate.cell_for(9), Cell::Dead);
}

#[test]
fn populate_gives_as_many_cells_as_asked() {
    assert_eq!(torus_life::random::populate(HALF, 0).len(), 0);
    assert_eq!(torus_life::random::populate(HALF, 100).len(), 100);
    assert_eq!(torus_life::random::populate(ALWAYS, 3), vec![Cell::Alive; 3]);
    assert_eq!(torus_life::random::populate(NEVER, 3), dead(3));
}

#[test]
fn random_universe_follows_conways_rules_when_asked_by_life_rate() {
    let universe = Universe::from_life_rate(3, 3, NEVER).unwrap();
    assert_eq!(universe.next_cell(Cell::Dead, 3), Cell::Alive);
    assert_eq!(universe.next_cell(Cell::Dead, 2), Cell::Dead);
    assert_eq!(universe.next_cell(Cell::Alive, 2), Cell::Alive);
    assert_eq!(universe.next_cell(Cell::Alive, 3), Cell::Alive);
    assert_eq!(universe.next_cell(Cell::Alive, 4), Cell::Dead);
    assert_eq!(universe.next_cell(Cell::Alive, 1), Cell::Dead);
}

#[test]
fn fixed_pattern_is_alive_at_multiples_of_four_and_thirteen() {
    let universe = Universe::from_fixed_cells(6, 5).unwrap();
    assert_eq!(universe.width(), 6);
    assert_eq!(universe.height(), 5);
    assert_eq!(universe.generation(), 0);
    let cells = universe.cells();
    assert_eq!(cells.len(), 30);
    let alive: Vec<usize> = (0..30).filter(|&i| cells[i] == Cell::Alive).collect();
    assert_eq!(alive, vec![0, 4, 8, 12, 13, 16, 20, 24, 26, 28]);
}

#[test]
fn fixed_pattern_of_one_cell_is_alive() {
    let universe = Universe::from_fixed_cells(1, 1).unwrap();
    assert_eq!(universe.cells(), &vec![Cell::Alive]);
}

#[test]
fn fixed_pattern_follows_conways_rules() {
    let universe = Universe::from_fixed_cells(3, 3).unwrap();
    for count in 0..=8u8 {
        let born = if count == 3 { Cell::Alive } else { Cell::Dead };
        let kept = if count == 2 || count == 3 { Cell::Alive } else { Cell::Dead };
        assert_eq!(universe.next_cell(Cell::Dead, count), born);
        assert_eq!(universe.next_cell(Cell::Alive, count), kept);
    }
}
