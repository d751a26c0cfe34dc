use crate::neighborhood::{is_moore, ConfigError, Neighborhood};
use vstd::prelude::*;

verus! {

/// A predicate over a count of alive neighbors.
#[derive(Debug)]
pub enum Rule {
    /// Matches exactly this count.
    Single(u8),
    /// Matches every count from the first bound to the second, both included;
    /// matches nothing when the first bound is greater.
    Range(u8, u8),
    /// Matches when any of the rules matches; matches nothing when empty.
    Multi(Vec<Rule>),
}

impl Rule {
    /// Whether the rule holds of `count`.
    pub open spec fn matches(self, count: int) -> bool
        decreases self,
    {
        match self {
            Rule::Single(n) => count == n,
            Rule::Range(lo, hi) => lo <= count <= hi,
            Rule::Multi(rules) => exists|i: int|
                0 <= i < rules.len() && (#[trigger] rules[i]).matches(count),
        }
    }

    /// Evaluates the rule on `match_target`, stopping at the first matching sub-rule.
    pub fn has_match(&self, match_target: u8) -> (r: bool)
        ensures
            r == self.matches(match_target as int),
        decreases self,
    {
        match self {
            Rule::Single(n) => match_target == *n,
            Rule::Range(lo, hi) => *lo <= match_target && match_target <= *hi,
            Rule::Multi(rules) => {
                let mut i: usize = 0;
                while i < rules.len()
                    invariant
                        0 <= i <= rules.len(),
                        *self == Rule::Multi(*rules),
                        forall|j: int| 0 <= j < i ==> !(#[trigger] rules[j]).matches(match_target as int),
                    decreases rules.len() - i,
                {
                    proof {
                        assert(decreases_to!(*self => self->Multi_0));
                        assert(decreases_to!(*rules => rules[i as int]));
                    }
                    if rules[i].has_match(match_target) {
                        assert(rules[i as int].matches(match_target as int));
                        return true;
                    }
                    i += 1;
                }
                false
            },
        }
    }
}

/// The rule set of a run: when a cell survives, when one is born, how many
/// decay levels there are, and which cells are neighbors.
#[derive(Debug)]
pub struct Rules {
    pub survival: Rule,
    pub born: Rule,
    /// The number of visual levels, `Alive` and `Dead` included; a fresh death
    /// enters `Dying(states - 1)`.
    pub states: usize,
    pub neighborhood_matrix: Neighborhood,
}

impl Rules {
    /// A rule set needs at least the two states `Alive` and `Dead`.
    pub open spec fn wf(&self) -> bool {
        self.states >= 2
    }

    /// Checks the configuration and bundles it into a rule set.
    pub fn new(survival: Rule, born: Rule, states: usize, neighborhood: Neighborhood) -> (r: Result<
        Rules,
        ConfigError,
    >)
        ensures
            states < 2 ==> r == Err::<Rules, ConfigError>(ConfigError::TooFewStates),
            states >= 2 ==> r == Ok::<Rules, ConfigError>(
                Rules { survival, born, states, neighborhood_matrix: neighborhood },
            ),
    {
        if states < 2 {
            Err(ConfigError::TooFewStates)
        } else {
            Ok(Rules { survival, born, states, neighborhood_matrix: neighborhood })
        }
    }

    /// Conway's Game of Life on a 2D lattice: survival on 2 or 3 alive
    /// neighbors, birth on exactly 3, with five visual levels.
    pub fn _2dgol() -> (r: Rules)
        ensures
            r.wf(),
            r.survival == Rule::Range(2, 3),
            r.born == Rule::Single(3),
            r.states == 5,
            is_moore(r.neighborhood_matrix@, false),
    {
        Rules {
            survival: Rule::Range(2, 3),
            born: Rule::Single(3),
            states: 5,
            neighborhood_matrix: Neighborhood::moore_2d(),
        }
    }
}

impl Default for Rules {
    fn default() -> (r: Rules)
        ensures
            r.wf(),
            r.survival == Rule::Range(2, 3),
            r.born == Rule::Single(3),
            r.states == 5,
            is_moore(r.neighborhood_matrix@, false),
    {
        Rules::_2dgol()
    }
}

} // verus!
