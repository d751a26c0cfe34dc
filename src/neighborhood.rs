use crate::helpers::IVec3;
use vstd::prelude::*;

verus! {

/// The largest number of offsets a neighborhood may hold, so that every
/// neighbor count fits in a `u8`.
pub const MAX_NEIGHBORS: usize = 255;

/// Why a configuration was refused.
#[derive(Clone, Copy, Debug, PartialEq, Eq, Structural)]
pub enum ConfigError {
    /// A neighborhood holds the zero offset.
    ZeroOffset,
    /// A neighborhood holds more than `MAX_NEIGHBORS` offsets.
    TooManyOffsets,
    /// A rule set has fewer than two states.
    TooFewStates,
    /// A lattice extent is zero along some axis.
    ZeroExtent,
    /// The lattice holds more cells than can be addressed.
    TooManyCells,
}

pub open spec fn is_zero_offset(o: IVec3) -> bool {
    o.x == 0 && o.y == 0 && o.z == 0
}

pub open spec fn in_unit_cube(o: IVec3, three_d: bool) -> bool {
    &&& -1 <= o.x <= 1
    &&& -1 <= o.y <= 1
    &&& -1 <= o.z <= 1
    &&& (three_d || o.z == 0)
}

/// One of the 26 (3D) or 8 (2D) cells surrounding the origin.
pub open spec fn is_moore_offset(o: IVec3, three_d: bool) -> bool {
    in_unit_cube(o, three_d) && !is_zero_offset(o)
}

/// One of the 6 (3D) or 4 (2D) cells next to the origin along an axis.
pub open spec fn is_von_neumann_offset(o: IVec3, three_d: bool) -> bool {
    in_unit_cube(o, three_d) && abs(o.x as int) + abs(o.y as int) + abs(o.z as int) == 1
}

pub open spec fn abs(v: int) -> int {
    if v < 0 {
        -v
    } else {
        v
    }
}

/// What a neighborhood may hold: no zero offset, and at most `MAX_NEIGHBORS` offsets.
pub open spec fn valid_offsets(s: Seq<IVec3>) -> bool {
    s.len() <= MAX_NEIGHBORS && forall|i: int| 0 <= i < s.len() ==> !is_zero_offset(#[trigger] s[i])
}

/// No offset occurs twice.
pub open spec fn distinct_offsets(s: Seq<IVec3>) -> bool {
    forall|i: int, j: int| 0 <= i < s.len() && 0 <= j < s.len() && i != j ==> s[i] != s[j]
}

/// Exactly the Moore offsets, each once.
pub open spec fn is_moore(s: Seq<IVec3>, three_d: bool) -> bool {
    &&& distinct_offsets(s)
    &&& forall|i: int| 0 <= i < s.len() ==> is_moore_offset(#[trigger] s[i], three_d)
    &&& forall|o: IVec3| is_moore_offset(o, three_d) ==> s.contains(o)
}

/// Exactly the Von Neumann offsets, each once.
pub open spec fn is_von_neumann(s: Seq<IVec3>, three_d: bool) -> bool {
    &&& distinct_offsets(s)
    &&& forall|i: int| 0 <= i < s.len() ==> is_von_neumann_offset(#[trigger] s[i], three_d)
    &&& forall|o: IVec3| is_von_neumann_offset(o, three_d) ==> s.contains(o)
}

/// An ordered set of relative offsets, fixed at construction.
#[derive(Debug)]
pub struct Neighborhood {
    offsets: Vec<IVec3>,
}

/// Numbers the 27 vectors of the unit cube from 0 to 26, `x` varying fastest;
/// the vectors of the plane `z == 0` take 9 to 17.
spec fn code_of(o: IVec3) -> int {
    (o.x + 1) + 3 * (o.y + 1) + 9 * (o.z + 1)
}

spec fn canonical(o: IVec3, three_d: bool, moore: bool) -> bool {
    if moore {
        is_moore_offset(o, three_d)
    } else {
        is_von_neumann_offset(o, three_d)
    }
}

/// How many canonical offsets have a code below `k`, counting from the
/// first code of the lattice's dimensionality.
spec fn kept_below(k: int, three_d: bool, moore: bool) -> int {
    if moore {
        (k - if three_d { 0int } else { 9 }) - if k > 13 { 1int } else { 0 }
    } else {
        (if three_d && k > 4 { 1int } else { 0 }) + (if k > 10 { 1int } else { 0 }) + (if k > 12 {
            1int
        } else {
            0
        }) + (if k > 14 { 1int } else { 0 }) + (if k > 16 { 1int } else { 0 }) + (if three_d && k
            > 22 { 1int } else { 0 })
    }
}

/// The canonical offsets in increasing order of `code_of`.
fn canonical_offsets(three_d: bool, moore: bool) -> (r: Vec<IVec3>)
    ensures
        valid_offsets(r@),
        distinct_offsets(r@),
        forall|i: int| 0 <= i < r@.len() ==> canonical(#[trigger] r@[i], three_d, moore),
        forall|o: IVec3| canonical(o, three_d, moore) ==> r@.contains(o),
        r@.len() == kept_below(if three_d { 27 } else { 18 }, three_d, moore),
{
    let lo: i32 = if three_d { 0 } else { 9 };
    let hi: i32 = if three_d { 27 } else { 18 };
    let mut r: Vec<IVec3> = Vec::new();
    let mut k: i32 = lo;
    while k < hi
        invariant
            lo <= k <= hi,
            lo == (if three_d { 0int } else { 9 }),
            hi == (if three_d { 27int } else { 18 }),
            r@.len() == kept_below(k as int, three_d, moore),
            forall|i: int| 0 <= i < r@.len() ==> !is_zero_offset(#[trigger] r@[i]),
            forall|i: int|
                0 <= i < r@.len() ==> canonical(#[trigger] r@[i], three_d, moore) && code_of(
                    r@[i],
                ) < k,
            distinct_offsets(r@),
            forall|o: IVec3|
                canonical(o, three_d, moore) && code_of(o) < k ==> #[trigger] r@.contains(o),
        decreases hi - k,
    {
        let o = IVec3 { x: k % 3 - 1, y: (k / 3) % 3 - 1, z: k / 9 - 1 };
        assert(code_of(o) == k);
        let keep = if moore {
            o.x != 0 || o.y != 0 || o.z != 0
        } else {
            let ax: i32 = if o.x < 0 { -o.x } else { o.x };
            let ay: i32 = if o.y < 0 { -o.y } else { o.y };
            let az: i32 = if o.z < 0 { -o.z } else { o.z };
            ax + ay + az == 1
        };
        assert(keep == canonical(o, three_d, moore));
        assert(keep == if moore {
            k != 13
        } else {
            k == 10 || k == 12 || k == 14 || k == 16 || (three_d && (k == 4 || k == 22))
        });
        let ghost before = r@;
        if keep {
            r.push(o);
            assert(r@[before.len() as int] == o);
        }
        assert forall|p: IVec3| canonical(p, three_d, moore) && code_of(p) < k + 1 implies #[trigger] r@.contains(p) by {
            if code_of(p) < k {
                assert(before.contains(p));
                let i = choose|i: int| 0 <= i < before.len() && before[i] == p;
                assert(r@[i] == p);
            } else {
                assert(p == o);
                assert(r@[before.len() as int] == p);
            }
        }
        k += 1;
    }
    r
}

impl View for Neighborhood {
    type V = Seq<IVec3>;

    closed spec fn view(&self) -> Seq<IVec3> {
        self.offsets@
    }
}

impl Neighborhood {
    #[verifier::type_invariant]
    spec fn inv(self) -> bool {
        valid_offsets(self.offsets@)
    }

    /// The 26 cells surrounding a cell of a 3D lattice.
    pub fn moore_3d() -> (r: Neighborhood)
        ensures
            is_moore(r@, true),
            r@.len() == 26,
    {
        Neighborhood { offsets: canonical_offsets(true, true) }
    }

    /// The 8 cells surrounding a cell of a 2D lattice.
    pub fn moore_2d() -> (r: Neighborhood)
        ensures
            is_moore(r@, false),
            r@.len() == 8,
    {
        Neighborhood { offsets: canonical_offsets(false, true) }
    }

    /// The 6 cells next to a cell of a 3D lattice along an axis.
    pub fn von_neumann_3d() -> (r: Neighborhood)
        ensures
            is_von_neumann(r@, true),
            r@.len() == 6,
    {
        Neighborhood { offsets: canonical_offsets(true, false) }
    }

    /// The 4 cells next to a cell of a 2D lattice along an axis.
    pub fn von_neumann_2d() -> (r: Neighborhood)
        ensures
            is_von_neumann(r@, false),
            r@.len() == 4,
    {
        Neighborhood { offsets: canonical_offsets(false, false) }
    }

    /// A neighborhood of arbitrary offsets, kept in the given order.
    pub fn custom(offsets: Vec<IVec3>) -> (r: Result<Neighborhood, ConfigError>)
        ensures
            offsets@.len() > MAX_NEIGHBORS ==> r == Err::<Neighborhood, ConfigError>(
                ConfigError::TooManyOffsets,
            ),
            offsets@.len() <= MAX_NEIGHBORS ==> (exists|i: int|
                0 <= i < offsets@.len() && is_zero_offset(#[trigger] offsets@[i])) ==> r == Err::<
                Neighborhood,
                ConfigError,
            >(ConfigError::ZeroOffset),
            valid_offsets(offsets@) ==> r is Ok && r->Ok_0@ == offsets@,
    {
        if offsets.len() > MAX_NEIGHBORS {
            return Err(ConfigError::TooManyOffsets);
        }
        let mut i: usize = 0;
        while i < offsets.len()
            invariant
                0 <= i <= offsets@.len(),
                offsets@.len() <= MAX_NEIGHBORS,
                forall|j: int| 0 <= j < i ==> !is_zero_offset(#[trigger] offsets@[j]),
            decreases offsets@.len() - i,
        {
            let o = offsets[i];
            if o.x == 0 && o.y == 0 && o.z == 0 {
                return Err(ConfigError::ZeroOffset);
            }
            i += 1;
        }
        Ok(Neighborhood { offsets })
    }

    /// The offsets, in their fixed order.
    pub fn offsets(&self) -> (r: &Vec<IVec3>)
        ensures
            r@ == self@,
            valid_offsets(r@),
    {
        proof {
            use_type_invariant(self);
        }
        &self.offsets
    }

    /// The number of offsets.
    pub fn len(&self) -> (r: usize)
        ensures
            r == self@.len(),
            r <= MAX_NEIGHBORS,
    {
        proof {
            use_type_invariant(self);
        }
        self.offsets.len()
    }

    /// Whether both neighborhoods hold the same offsets in the same order.
    pub fn same_as(&self, other: &Neighborhood) -> (r: bool)
        ensures
            r == (self@ == other@),
    {
        if self.offsets.len() != other.offsets.len() {
            return false;
        }
        let mut i: usize = 0;
        while i < self.offsets.len()
            invariant
                0 <= i <= self@.len(),
                self@.len() == other@.len(),
                forall|j: int| 0 <= j < i ==> self@[j] == other@[j],
            decreases self@.len() - i,
        {
            if self.offsets[i] != other.offsets[i] {
                return false;
            }
            i += 1;
        }
        assert(self@ =~= other@);
        true
    }
}

} // verus!
