use crate::lattice::{CellArray, CellState, LatticeView};
use crate::neighborhood::MAX_NEIGHBORS;
use crate::rules::Rules;
use vstd::prelude::*;

verus! {

/// The number of entries of `nb` that index an `Alive` cell, counted once per
/// entry even where two entries name the same cell.
pub open spec fn alive_count(cells: Seq<CellState>, nb: Seq<usize>) -> int
    decreases nb.len(),
{
    if nb.len() == 0 {
        0
    } else {
        alive_count(cells, nb.drop_last()) + if cells[nb.last() as int] == CellState::Alive {
            1int
        } else {
            0
        }
    }
}

/// The state a cell takes in the next generation, from its own state and
/// the number of its alive neighbors, both before the tick.
pub open spec fn next_state(s: CellState, alive: int, rules: Rules) -> CellState {
    match s {
        CellState::Alive => if rules.survival.matches(alive) {
            CellState::Alive
        } else if rules.states == 2 {
            CellState::Dead
        } else {
            CellState::Dying((rules.states - 1) as usize)
        },
        CellState::Dying(n) => if n <= 1 {
            CellState::Dead
        } else if rules.born.matches(alive) {
            CellState::Alive
        } else {
            CellState::Dying((n - 1) as usize)
        },
        CellState::Dead => if rules.born.matches(alive) {
            CellState::Alive
        } else {
            CellState::Dead
        },
    }
}

/// The whole next generation, every cell computed from the pre-tick snapshot.
pub open spec fn next_generation(v: LatticeView, rules: Rules) -> Seq<CellState> {
    Seq::new(
        v.cells.len(),
        |i: int| next_state(v.cells[i], alive_count(v.cells, v.neighbors[i]), rules),
    )
}

proof fn lemma_alive_count_bounds(cells: Seq<CellState>, nb: Seq<usize>)
    ensures
        0 <= alive_count(cells, nb) <= nb.len(),
    decreases nb.len(),
{
    if nb.len() > 0 {
        lemma_alive_count_bounds(cells, nb.drop_last());
    }
}

/// Applies the transition table to one cell.
pub fn next_cell_state(s: CellState, alive: u8, rules: &Rules) -> (r: CellState)
    requires
        rules.wf(),
        s.wf(),
    ensures
        r == next_state(s, alive as int, *rules),
        r.wf(),
{
    match s {
        CellState::Alive => {
            if rules.survival.has_match(alive) {
                CellState::Alive
            } else if rules.states == 2 {
                CellState::Dead
            } else {
                CellState::Dying(rules.states - 1)
            }
        },
        CellState::Dying(n) => {
            if n <= 1 {
                CellState::Dead
            } else if rules.born.has_match(alive) {
                CellState::Alive
            } else {
                CellState::Dying(n - 1)
            }
        },
        CellState::Dead => {
            if rules.born.has_match(alive) {
                CellState::Alive
            } else {
                CellState::Dead
            }
        },
    }
}

impl CellArray {
    /// The number of neighbors of cell `i` that are `Alive`, counted per offset.
    pub fn alive_neighbors(&self, i: usize) -> (r: u8)
        requires
            self.wf(),
            i < self@.len(),
        ensures
            r == alive_count(self@.cells, self@.neighbors[i as int]),
    {
        let nb = self.neighbor_indices(i);
        let mut count: u8 = 0;
        let mut k: usize = 0;
        while k < nb.len()
            invariant
                self.wf(),
                0 <= k <= nb@.len(),
                nb@.len() <= MAX_NEIGHBORS,
                forall|j: int| 0 <= j < nb@.len() ==> #[trigger] nb@[j] < self@.len(),
                count == alive_count(self@.cells, nb@.subrange(0, k as int)),
            decreases nb@.len() - k,
        {
            proof {
                assert(nb@.subrange(0, k + 1).drop_last() =~= nb@.subrange(0, k as int));
                lemma_alive_count_bounds(self@.cells, nb@.subrange(0, k as int));
            }
            if self.cell(nb[k]) == CellState::Alive {
                count = count + 1;
            }
            k += 1;
        }
        assert(nb@.subrange(0, nb@.len() as int) =~= nb@);
        count
    }

    /// The next states of the cells `lo..hi`, each computed from the
    /// current, committed states only. Disjoint ranges may be computed
    /// independently and in any order.
    pub fn next_generation_range(&self, rules: &Rules, lo: usize, hi: usize) -> (r: Vec<CellState>)
        requires
            self.wf(),
            rules.wf(),
            lo <= hi <= self@.len(),
        ensures
            r@ == next_generation(self@, *rules).subrange(lo as int, hi as int),
            forall|i: int| 0 <= i < r@.len() ==> (#[trigger] r@[i]).wf(),
    {
        let mut out: Vec<CellState> = Vec::new();
        let mut i: usize = lo;
        while i < hi
            invariant
                self.wf(),
                rules.wf(),
                lo <= i <= hi <= self@.len(),
                out@ == next_generation(self@, *rules).subrange(lo as int, i as int),
                forall|j: int| 0 <= j < out@.len() ==> (#[trigger] out@[j]).wf(),
            decreases hi - i,
        {
            let alive = self.alive_neighbors(i);
            let s = next_cell_state(self.cell(i), alive, rules);
            out.push(s);
            assert(out@ =~= next_generation(self@, *rules).subrange(lo as int, i + 1));
            i += 1;
        }
        out
    }

    /// Advances every cell by one generation, computing the whole next
    /// generation from the current one before committing any of it.
    pub fn step(&mut self, rules: &Rules)
        requires
            old(self).wf(),
            rules.wf(),
        ensures
            final(self).wf(),
            final(self)@ == (LatticeView { cells: next_generation(old(self)@, *rules), ..old(self)@ }),
    {
        let n = self.len();
        let next = self.next_generation_range(rules, 0, n);
        assert(next@ =~= next_generation(self@, *rules));
        self.commit(next);
    }
}

} // verus!
