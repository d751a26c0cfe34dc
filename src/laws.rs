use crate::lattice::{CellState, LatticeView};
use crate::rules::{Rule, Rules};
use crate::simulation::{advanced_n, cleared, EngineView};
use crate::tick::{next_generation, next_state};
use crate::topology::fold_spec;
use vstd::prelude::*;

verus! {

/// Folding is periodic: shifting a coordinate by any multiple of the extent
/// does not change where it lands.
pub proof fn lemma_fold_periodic(c: int, k: int, extent: int)
    requires
        extent > 0,
    ensures
        fold_spec(c + k * extent, extent) == fold_spec(c, extent),
{
    vstd::arithmetic::div_mod::lemma_mod_multiples_vanish(k, c, extent);
    assert(c + k * extent == extent * k + c) by (nonlinear_arith);
}

/// A range whose lower bound exceeds its upper bound matches no count.
pub proof fn lemma_inverted_range_never_matches(lo: u8, hi: u8, count: int)
    requires
        lo > hi,
    ensures
        !Rule::Range(lo, hi).matches(count),
{
}

/// A rule of no sub-rules matches no count.
pub proof fn lemma_empty_multi_never_matches(rules: Vec<Rule>, count: int)
    requires
        rules@.len() == 0,
    ensures
        !Rule::Multi(rules).matches(count),
{
}

/// The cells `0..bounds.last()` of `g`, taken as the consecutive chunks
/// between the given bounds and joined in order.
pub open spec fn joined_chunks(g: Seq<CellState>, bounds: Seq<int>) -> Seq<CellState>
    decreases bounds.len(),
{
    if bounds.len() < 2 {
        Seq::empty()
    } else {
        joined_chunks(g, bounds.drop_last()) + g.subrange(
            bounds[bounds.len() - 2],
            bounds.last(),
        )
    }
}

/// Computing the next generation in chunks, as any number of workers would,
/// and joining them gives the same generation as computing it whole.
pub proof fn lemma_chunked_generation(v: LatticeView, rules: Rules, bounds: Seq<int>)
    requires
        bounds.len() >= 2,
        bounds[0] == 0,
        bounds.last() == v.cells.len(),
        forall|i: int, j: int| 0 <= i <= j < bounds.len() ==> bounds[i] <= bounds[j],
    ensures
        joined_chunks(next_generation(v, rules), bounds) == next_generation(v, rules),
{
    lemma_joined_prefix(next_generation(v, rules), bounds);
    assert(next_generation(v, rules).subrange(0, v.cells.len() as int) =~= next_generation(
        v,
        rules,
    ));
}

proof fn lemma_joined_prefix(g: Seq<CellState>, bounds: Seq<int>)
    requires
        bounds.len() >= 2,
        bounds[0] == 0,
        bounds.last() <= g.len(),
        forall|i: int, j: int| 0 <= i <= j < bounds.len() ==> bounds[i] <= bounds[j],
    ensures
        joined_chunks(g, bounds) == g.subrange(0, bounds.last()),
    decreases bounds.len(),
{
    let b = bounds.drop_last();
    assert(0 <= bounds[bounds.len() - 2] <= bounds[bounds.len() - 1]);
    if bounds.len() == 2 {
        assert(b.len() < 2);
        assert(joined_chunks(g, b) =~= Seq::empty());
        assert(joined_chunks(g, bounds) =~= g.subrange(0, bounds.last()));
    } else {
        assert(0 <= bounds[bounds.len() - 2] <= bounds[bounds.len() - 1]);
        lemma_joined_prefix(g, b);
        assert(joined_chunks(g, bounds) =~= g.subrange(0, bounds.last()));
    }
}

/// A cell's state after one tick per entry of `counts`, each entry being
/// its alive-neighbor count before that tick.
pub open spec fn run_cell(s: CellState, counts: Seq<int>, rules: Rules) -> CellState
    decreases counts.len(),
{
    if counts.len() == 0 {
        s
    } else {
        next_state(run_cell(s, counts.drop_last(), rules), counts.last(), rules)
    }
}

/// Without a birth, `Dying(n)` steps down one level per tick, never
/// skipping one, and is `Dead` after exactly `n` ticks.
pub proof fn lemma_decay_without_birth(n: usize, counts: Seq<int>, rules: Rules)
    requires
        n >= 1,
        counts.len() <= n,
        forall|t: int| 0 <= t < counts.len() ==> !rules.born.matches(#[trigger] counts[t]),
    ensures
        run_cell(CellState::Dying(n), counts, rules) == if counts.len() < n {
            CellState::Dying((n - counts.len()) as usize)
        } else {
            CellState::Dead
        },
    decreases counts.len(),
{
    if counts.len() > 0 {
        let prefix = counts.drop_last();
        assert forall|t: int| 0 <= t < prefix.len() implies !rules.born.matches(
            #[trigger] prefix[t],
        ) by {
            assert(prefix[t] == counts[t]);
        }
        lemma_decay_without_birth(n, prefix, rules);
        assert(!rules.born.matches(counts[counts.len() - 1]));
    }
}

/// A dying cell above level 1 whose count matches the birth rule becomes
/// `Alive` at once, without passing through the lower levels.
pub proof fn lemma_rebirth_interrupts_decay(n: usize, alive: int, rules: Rules)
    requires
        n > 1,
        rules.born.matches(alive),
    ensures
        next_state(CellState::Dying(n), alive, rules) == CellState::Alive,
{
}

/// After a full clear and `n` executed ticks the counter has grown by
/// exactly `n`, whether or not the engine is paused, and the pause flag is
/// untouched.
pub proof fn lemma_tick_counter(v: EngineView, n: nat)
    ensures
        advanced_n(cleared(v), n).ticks == v.ticks + n,
        advanced_n(cleared(v), n).paused == v.paused,
    decreases n,
{
    if n > 0 {
        lemma_tick_counter(v, (n - 1) as nat);
    }
}

} // verus!
