use crate::helpers::PLOT_SIZE;
use crate::lattice::{CellArray, CellState, LatticeView};
use crate::neighborhood::{is_moore, ConfigError};
use crate::rules::{Rule, Rules};
use crate::tick::next_generation;
use vstd::prelude::*;

verus! {

/// Options the controller toggles.
#[derive(Clone, Copy, Debug, PartialEq, Eq, Structural)]
pub struct Settings {
    pub paused: bool,
}

impl Default for Settings {
    fn default() -> (r: Settings)
        ensures
            !r.paused,
    {
        Settings { paused: false }
    }
}

/// What an engine holds: the committed lattice, the active rule set, the
/// number of executed ticks and whether scheduled ticks are suppressed.
pub struct EngineView {
    pub lattice: LatticeView,
    pub rules: Rules,
    pub ticks: int,
    pub paused: bool,
}

impl EngineView {
    pub open spec fn wf(self) -> bool {
        &&& self.lattice.wf()
        &&& self.rules.wf()
        &&& self.lattice.offsets == self.rules.neighborhood_matrix@
    }
}

/// The engine state after one executed tick.
pub open spec fn advanced(v: EngineView) -> EngineView {
    EngineView {
        lattice: LatticeView { cells: next_generation(v.lattice, v.rules), ..v.lattice },
        ticks: v.ticks + 1,
        ..v
    }
}

/// The engine state with every cell `Dead`.
pub open spec fn cleared(v: EngineView) -> EngineView {
    EngineView {
        lattice: LatticeView {
            cells: Seq::new(v.lattice.cells.len(), |i: int| CellState::Dead),
            ..v.lattice
        },
        ..v
    }
}

/// The engine state after `n` executed ticks.
pub open spec fn advanced_n(v: EngineView, n: nat) -> EngineView
    decreases n,
{
    if n == 0 {
        v
    } else {
        advanced(advanced_n(v, (n - 1) as nat))
    }
}

/// The cells alive when a run starts on the default lattice: a blinker and a glider.
pub open spec fn initially_alive(x: int, y: int) -> bool {
    ||| (x == 20 && (y == 1 || y == 2 || y == 3))
    ||| (x == 25 && y == 26)
    ||| (x == 26 && y == 25)
    ||| (x == 27 && (y == 25 || y == 26 || y == 27))
}

/// Which entry of a palette of `states + 1` colors shows a cell: `Alive`
/// takes the last, `Dying(level)` the one of its level; `Dead` is not shown.
pub fn color_slot(state: CellState, states: usize) -> (r: Option<usize>)
    ensures
        r == match state {
            CellState::Alive => Some(states),
            CellState::Dying(level) => Some(level),
            CellState::Dead => None::<usize>,
        },
{
    match state {
        CellState::Alive => Some(states),
        CellState::Dying(level) => Some(level),
        CellState::Dead => None,
    }
}

/// The simulation engine: a lattice, its rule set, a tick counter and a pause flag.
#[derive(Debug)]
pub struct SimulationState {
    current: CellArray,
    rules: Rules,
    ticks: u32,
    settings: Settings,
}

impl View for SimulationState {
    type V = EngineView;

    closed spec fn view(&self) -> EngineView {
        EngineView {
            lattice: self.current@,
            rules: self.rules,
            ticks: self.ticks as int,
            paused: self.settings.paused,
        }
    }
}

impl SimulationState {
    pub open spec fn wf(&self) -> bool {
        self@.wf()
    }

    /// An engine over a lattice of `width * height * depth` dead cells, not
    /// paused, with no tick executed.
    pub fn new(width: usize, height: usize, depth: usize, rules: Rules) -> (r: Result<
        SimulationState,
        ConfigError,
    >)
        ensures
            rules.states < 2 ==> r == Err::<SimulationState, ConfigError>(ConfigError::TooFewStates),
            rules.states >= 2 && (width == 0 || height == 0 || depth == 0) ==> r == Err::<
                SimulationState,
                ConfigError,
            >(ConfigError::ZeroExtent),
            rules.states >= 2 && width > 0 && height > 0 && depth > 0 && width * height * depth
                > usize::MAX ==> r == Err::<SimulationState, ConfigError>(ConfigError::TooManyCells),
            rules.states >= 2 && width > 0 && height > 0 && depth > 0 && width * height * depth
                <= usize::MAX ==> r is Ok,
            r matches Ok(e) ==> {
                &&& e.wf()
                &&& e@.rules == rules
                &&& e@.ticks == 0
                &&& !e@.paused
                &&& e@.lattice.width == width
                &&& e@.lattice.height == height
                &&& e@.lattice.depth == depth
                &&& forall|i: int|
                    0 <= i < e@.lattice.len() ==> #[trigger] e@.lattice.cells[i] == CellState::Dead
            },
    {
        if rules.states < 2 {
            return Err(ConfigError::TooFewStates);
        }
        match CellArray::new(width, height, depth, &rules.neighborhood_matrix) {
            Ok(current) => Ok(SimulationState { current, rules, ticks: 0, settings: Settings::default() }),
            Err(e) => Err(e),
        }
    }

    /// The engine a run starts with: a `PLOT_SIZE` square lattice under
    /// `Rules::_2dgol`, with a blinker and a glider alive.
    pub fn initial() -> (r: SimulationState)
        ensures
            r.wf(),
            r@.ticks == 0,
            !r@.paused,
            r@.lattice.width == PLOT_SIZE,
            r@.lattice.height == PLOT_SIZE,
            r@.lattice.depth == 1,
            r@.rules.survival == Rule::Range(2, 3),
            r@.rules.born == Rule::Single(3),
            r@.rules.states == 5,
            is_moore(r@.rules.neighborhood_matrix@, false),
            forall|x: int, y: int|
                0 <= x < PLOT_SIZE && 0 <= y < PLOT_SIZE ==> #[trigger] r@.lattice.at(x, y, 0) == if initially_alive(x, y) {
                    CellState::Alive
                } else {
                    CellState::Dead
                },
    {
        let rules = Rules::_2dgol();
        assert(PLOT_SIZE * PLOT_SIZE * 1 == 4096);
        let mut state = SimulationState::new(PLOT_SIZE, PLOT_SIZE, 1, rules).unwrap();
        state.seed(20, 1, 0, CellState::Alive);
        state.seed(20, 2, 0, CellState::Alive);
        state.seed(20, 3, 0, CellState::Alive);
        state.seed(25, 26, 0, CellState::Alive);
        state.seed(26, 25, 0, CellState::Alive);
        state.seed(27, 25, 0, CellState::Alive);
        state.seed(27, 26, 0, CellState::Alive);
        state.seed(27, 27, 0, CellState::Alive);
        state
    }

    /// The committed lattice.
    pub fn current(&self) -> (r: &CellArray)
        ensures
            r@ == self@.lattice,
    {
        &self.current
    }

    /// The active rule set.
    pub fn rules(&self) -> (r: &Rules)
        ensures
            *r == self@.rules,
    {
        &self.rules
    }

    /// The state of the cell at `(x, y, z)` in the last committed generation.
    pub fn current_state(&self, x: isize, y: isize, z: isize) -> (r: CellState)
        requires
            self.wf(),
        ensures
            r == self@.lattice.at(x as int, y as int, z as int),
    {
        self.current.current_state(x, y, z)
    }

    /// The number of executed ticks.
    pub fn tick_count(&self) -> (r: u32)
        ensures
            r == self@.ticks,
    {
        self.ticks
    }

    pub fn is_paused(&self) -> (r: bool)
        ensures
            r == self@.paused,
    {
        self.settings.paused
    }

    pub fn set_paused(&mut self, paused: bool)
        ensures
            final(self)@ == (EngineView { paused, ..old(self)@ }),
    {
        self.settings.paused = paused;
    }

    /// Executes exactly one tick, paused or not.
    pub fn advance_one_generation(&mut self)
        requires
            old(self).wf(),
            old(self)@.ticks < u32::MAX,
        ensures
            final(self).wf(),
            final(self)@ == advanced(old(self)@),
    {
        self.current.step(&self.rules);
        self.ticks = self.ticks + 1;
    }

    /// A scheduled tick: executes one tick unless the engine is paused, in
    /// which case nothing changes. Returns whether a tick was executed.
    pub fn tick(&mut self) -> (r: bool)
        requires
            old(self).wf(),
            old(self)@.ticks < u32::MAX,
        ensures
            final(self).wf(),
            r == !old(self)@.paused,
            final(self)@ == if old(self)@.paused {
                old(self)@
            } else {
                advanced(old(self)@)
            },
    {
        if self.settings.paused {
            return false;
        }
        self.advance_one_generation();
        true
    }

    /// Forces every cell to `Dead`.
    pub fn reset_all_to_dead(&mut self)
        requires
            old(self).wf(),
        ensures
            final(self).wf(),
            final(self)@ == cleared(old(self)@),
    {
        self.current.reset_all_to_dead();
    }

    /// Forces the cell at `(x, y, z)`, under wraparound, to `state`.
    pub fn seed(&mut self, x: isize, y: isize, z: isize, state: CellState)
        requires
            old(self).wf(),
            state.wf(),
        ensures
            final(self).wf(),
            final(self)@ == (EngineView {
                lattice: LatticeView {
                    cells: old(self)@.lattice.cells.update(
                        old(self)@.lattice.index_wrapped(x as int, y as int, z as int),
                        state,
                    ),
                    ..old(self)@.lattice
                },
                ..old(self)@
            }),
    {
        self.current.seed(x, y, z, state);
    }

    /// Swaps the active rule set; the neighbors are resolved again only when
    /// the neighborhood differs. A rule set with fewer than two states is
    /// refused and nothing changes.
    pub fn replace_ruleset(&mut self, rules: Rules) -> (r: Result<(), ConfigError>)
        requires
            old(self).wf(),
        ensures
            final(self).wf(),
            rules.states < 2 ==> r == Err::<(), ConfigError>(ConfigError::TooFewStates),
            rules.states < 2 ==> final(self)@ == old(self)@,
            rules.states >= 2 ==> {
                &&& r is Ok
                &&& final(self)@.rules == rules
                &&& final(self)@.ticks == old(self)@.ticks
                &&& final(self)@.paused == old(self)@.paused
                &&& final(self)@.lattice.cells == old(self)@.lattice.cells
                &&& final(self)@.lattice.width == old(self)@.lattice.width
                &&& final(self)@.lattice.height == old(self)@.lattice.height
                &&& final(self)@.lattice.depth == old(self)@.lattice.depth
            },
    {
        if rules.states < 2 {
            return Err(ConfigError::TooFewStates);
        }
        if !rules.neighborhood_matrix.same_as(&self.rules.neighborhood_matrix) {
            self.current.resolve_neighbors(&rules.neighborhood_matrix);
        }
        self.rules = rules;
        Ok(())
    }
}

} // verus!
