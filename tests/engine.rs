use cellsim::{
    color_slot, next_cell_state, CellArray, CellState, ConfigError, IVec3, Neighborhood, Rule, Rules,
    Settings, SimulationState, PLOT_SIZE,
};

fn life(states: usize) -> Rules {
    Rules::new(Rule::Range(2, 3), Rule::Single(3), states, Neighborhood::moore_2d()).unwrap()
}

fn engine(w: usize, h: usize, states: usize) -> SimulationState {
    SimulationState::new(w, h, 1, life(states)).unwrap()
}

fn alive_cells(e: &SimulationState) -> Vec<(isize, isize)> {
    let a = e.current();
    let mut out = Vec::new();
    for y in 0..a.height() as isize {
        for x in 0..a.width() as isize {
            if e.current_state(x, y, 0) == CellState::Alive {
                out.push((x, y));
            }
        }
    }
    out
}

fn all_states(a: &CellArray) -> Vec<CellState> {
    (0..a.len()).map(|i| a.cell(i)).collect()
}

#[test]
fn blinker_returns_after_two_ticks() {
    let mut e = engine(8, 8, 2);
    for x in 3..6 {
        e.seed(x, 4, 0, CellState::Alive);
    }
    let start = alive_cells(&e);
    e.advance_one_generation();
    assert_eq!(alive_cells(&e), vec![(4, 3), (4, 4), (4, 5)]);
    e.advance_one_generation();
    assert_eq!(alive_cells(&e), start);
    assert_eq!(e.tick_count(), 2);
}

#[test]
fn block_is_a_still_life() {
    let mut e = engine(6, 6, 2);
    for (x, y) in [(2, 2), (3, 2), (2, 3), (3, 3)] {
        e.seed(x, y, 0, CellState::Alive);
    }
    let start = all_states(e.current());
    for _ in 0..10 {
        e.advance_one_generation();
        assert_eq!(all_states(e.current()), start);
    }
}

#[test]
fn dying_cell_reborn_when_birth_matches() {
    let mut e = engine(8, 8, 5);
    e.seed(4, 4, 0, CellState::Dying(3));
    for (x, y) in [(3, 3), (4, 3), (5, 3)] {
        e.seed(x, y, 0, CellState::Alive);
    }
    e.advance_one_generation();
    assert_eq!(e.current_state(4, 4, 0), CellState::Alive);
}

#[test]
fn decay_steps_down_one_level_per_tick() {
    let mut e = engine(8, 8, 5);
    e.seed(1, 1, 0, CellState::Dying(3));
    e.advance_one_generation();
    assert_eq!(e.current_state(1, 1, 0), CellState::Dying(2));
    e.advance_one_generation();
    assert_eq!(e.current_state(1, 1, 0), CellState::Dying(1));
    e.advance_one_generation();
    assert_eq!(e.current_state(1, 1, 0), CellState::Dead);
}

#[test]
fn failed_survival_with_decay_enters_top_level() {
    let mut e = engine(8, 8, 5);
    e.seed(2, 2, 0, CellState::Alive);
    e.advance_one_generation();
    assert_eq!(e.current_state(2, 2, 0), CellState::Dying(4));
}

#[test]
fn failed_survival_without_decay_dies() {
    let mut e = engine(8, 8, 2);
    e.seed(2, 2, 0, CellState::Alive);
    e.advance_one_generation();
    assert_eq!(e.current_state(2, 2, 0), CellState::Dead);
}

#[test]
fn transition_table() {
    let r = life(5);
    assert_eq!(next_cell_state(CellState::Alive, 2, &r), CellState::Alive);
    assert_eq!(next_cell_state(CellState::Alive, 4, &r), CellState::Dying(4));
    assert_eq!(next_cell_state(CellState::Dying(1), 3, &r), CellState::Dead);
    assert_eq!(next_cell_state(CellState::Dying(3), 3, &r), CellState::Alive);
    assert_eq!(next_cell_state(CellState::Dying(3), 2, &r), CellState::Dying(2));
    assert_eq!(next_cell_state(CellState::Dead, 3, &r), CellState::Alive);
    assert_eq!(next_cell_state(CellState::Dead, 2, &r), CellState::Dead);
}

#[test]
fn tick_counter_counts_single_steps_while_paused() {
    let mut e = engine(8, 8, 5);
    e.seed(1, 1, 0, CellState::Alive);
    e.reset_all_to_dead();
    let before = e.tick_count();
    e.set_paused(true);
    for _ in 0..3 {
        e.advance_one_generation();
    }
    e.set_paused(false);
    for _ in 0..4 {
        e.advance_one_generation();
    }
    assert_eq!(e.tick_count(), before + 7);
}

#[test]
fn scheduled_tick_is_suppressed_while_paused() {
    let mut e = engine(8, 8, 2);
    for x in 3..6 {
        e.seed(x, 4, 0, CellState::Alive);
    }
    let start = all_states(e.current());
    e.set_paused(true);
    assert!(e.is_paused());
    assert!(!e.tick());
    assert_eq!(e.tick_count(), 0);
    assert_eq!(all_states(e.current()), start);
    e.set_paused(false);
    assert!(e.tick());
    assert_eq!(e.tick_count(), 1);
    assert_ne!(all_states(e.current()), start);
}

#[test]
fn reset_clears_every_cell() {
    let mut e = engine(5, 4, 3);
    e.seed(1, 2, 0, CellState::Alive);
    e.seed(3, 3, 0, CellState::Dying(2));
    e.reset_all_to_dead();
    assert!(all_states(e.current()).iter().all(|s| *s == CellState::Dead));
}

#[test]
fn seed_wraps_coordinates() {
    let mut e = engine(5, 4, 3);
    e.seed(-1, 9, 0, CellState::Dying(2));
    assert_eq!(e.current_state(4, 1, 0), CellState::Dying(2));
    assert_eq!(e.current_state(-6, -3, 7), CellState::Dying(2));
    assert_eq!(*e.current().get(4, 1), CellState::Dying(2));
}

#[test]
fn chunked_generation_equals_whole_generation() {
    let mut e = engine(7, 6, 4);
    for (x, y) in [(1, 1), (2, 1), (3, 1), (2, 3), (3, 4), (4, 4), (5, 5), (0, 5)] {
        e.seed(x, y, 0, CellState::Alive);
    }
    e.seed(6, 0, 0, CellState::Dying(2));
    let n = e.current().len();
    let whole = e.current().next_generation_range(e.rules(), 0, n);
    for workers in 1..=n {
        let mut joined = Vec::new();
        let mut lo = 0;
        for w in 0..workers {
            let hi = (w + 1) * n / workers;
            joined.extend(e.current().next_generation_range(e.rules(), lo, hi));
            lo = hi;
        }
        assert_eq!(joined, whole);
    }
    e.advance_one_generation();
    assert_eq!(all_states(e.current()), whole);
}

#[test]
fn new_engine_is_dead_and_running() {
    let e = SimulationState::new(3, 4, 2, life(3)).unwrap();
    assert_eq!(e.current().len(), 24);
    assert_eq!(e.tick_count(), 0);
    assert!(!e.is_paused());
    assert!(all_states(e.current()).iter().all(|s| *s == CellState::Dead));
}

#[test]
fn engine_configuration_errors() {
    assert_eq!(SimulationState::new(0, 4, 1, life(2)).unwrap_err(), ConfigError::ZeroExtent);
    assert_eq!(SimulationState::new(4, 4, 0, life(2)).unwrap_err(), ConfigError::ZeroExtent);
    assert_eq!(
        SimulationState::new(usize::MAX, 2, 1, life(2)).unwrap_err(),
        ConfigError::TooManyCells
    );
    let bad = Rules { survival: Rule::Single(2), born: Rule::Single(3), states: 1, neighborhood_matrix: Neighborhood::moore_2d() };
    assert_eq!(SimulationState::new(4, 4, 1, bad).unwrap_err(), ConfigError::TooFewStates);
}

#[test]
fn lattice_configuration_errors() {
    let n = Neighborhood::moore_3d();
    assert_eq!(CellArray::new(2, 0, 2, &n).unwrap_err(), ConfigError::ZeroExtent);
    assert_eq!(CellArray::new(usize::MAX, usize::MAX, 1, &n).unwrap_err(), ConfigError::TooManyCells);
    let a = CellArray::new(2, 3, 4, &n).unwrap();
    assert_eq!((a.width(), a.height(), a.depth(), a.len()), (2, 3, 4, 24));
}

#[test]
fn tiny_lattice_counts_each_offset() {
    let n = Neighborhood::moore_2d();
    let mut a = CellArray::new(1, 1, 1, &n).unwrap();
    a.seed(0, 0, 0, CellState::Alive);
    assert_eq!(a.alive_neighbors(0), 8);
    assert_eq!(a.neighbor_indices(0), &vec![0usize; 8]);
}

#[test]
fn three_d_moore_counts_all_surrounding_cells() {
    let n = Neighborhood::moore_3d();
    let mut a = CellArray::new(4, 4, 4, &n).unwrap();
    for z in 0..3 {
        for y in 0..3 {
            for x in 0..3 {
                a.seed(x, y, z, CellState::Alive);
            }
        }
    }
    let centre = 1 + 4 * (1 + 4 * 1);
    assert_eq!(a.alive_neighbors(centre), 26);
    let corner = 3 + 4 * (3 + 4 * 3);
    assert_eq!(a.alive_neighbors(corner), 8);
}

#[test]
fn custom_offsets_add_to_the_coordinate() {
    let n = Neighborhood::custom(vec![IVec3::new(1, 0, 0)]).unwrap();
    let mut a = CellArray::new(5, 1, 1, &n).unwrap();
    a.seed(3, 0, 0, CellState::Alive);
    assert_eq!(a.alive_neighbors(2), 1);
    assert_eq!(a.alive_neighbors(4), 0);
    assert_eq!(a.neighbor_indices(4), &vec![0usize]);
}

#[test]
fn replacing_rules_resolves_new_neighborhood() {
    let mut e = engine(6, 6, 2);
    for (x, y) in [(1, 2), (3, 2), (2, 1)] {
        e.seed(x, y, 0, CellState::Alive);
    }
    let vn = Rules::new(Rule::Single(9), Rule::Single(3), 2, Neighborhood::von_neumann_2d()).unwrap();
    e.replace_ruleset(vn).unwrap();
    assert_eq!(e.current().neighbor_indices(0).len(), 4);
    e.advance_one_generation();
    assert_eq!(e.current_state(2, 2, 0), CellState::Alive);
    let bad = Rules { survival: Rule::Single(2), born: Rule::Single(3), states: 0, neighborhood_matrix: Neighborhood::moore_3d() };
    assert_eq!(e.replace_ruleset(bad), Err(ConfigError::TooFewStates));
    assert_eq!(e.rules().states, 2);
    assert_eq!(e.current().neighbor_indices(0).len(), 4);
}

#[test]
fn initial_state_holds_blinker_and_glider() {
    let e = SimulationState::initial();
    assert_eq!(e.current().width(), PLOT_SIZE);
    assert_eq!(e.current().height(), PLOT_SIZE);
    let mut expected = vec![(20, 1), (20, 2), (20, 3), (26, 25), (27, 25), (25, 26), (27, 26), (27, 27)];
    expected.sort_by_key(|&(x, y)| (y, x));
    assert_eq!(alive_cells(&e), expected);
    assert_eq!(e.rules().states, 5);
}

#[test]
fn settings_start_unpaused() {
    assert!(!Settings::default().paused);
}

#[test]
fn color_slots() {
    assert_eq!(color_slot(CellState::Alive, 5), Some(5));
    assert_eq!(color_slot(CellState::Dying(2), 5), Some(2));
    assert_eq!(color_slot(CellState::Dead, 5), None);
}
