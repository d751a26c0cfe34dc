use vstd::arithmetic::div_mod::{
    lemma_add_mod_noop_right, lemma_fundamental_div_mod, lemma_fundamental_div_mod_converse,
};
use vstd::prelude::*;

verus! {

/// The toroidal fold of an integer coordinate onto `[0, extent)`.
pub open spec fn fold_spec(i: int, extent: int) -> int {
    i % extent
}

/// Folds any coordinate onto `[0, extent)`, exactly as `((i % extent) + extent) % extent`.
pub fn fold(i: isize, extent: usize) -> (r: usize)
    requires
        extent > 0,
    ensures
        r < extent,
        r as int == fold_spec(i as int, extent as int),
{
    if i >= 0 {
        (i as usize) % extent
    } else {
        let a: usize = (-(i + 1)) as usize;
        let m: usize = a % extent;
        proof {
            let e = extent as int;
            let q = a as int / e;
            lemma_fundamental_div_mod(a as int, e);
            assert(i as int == (-q - 1) * e + (e - 1 - m)) by (nonlinear_arith)
                requires
                    a as int == e * q + m,
                    i as int == -(a as int) - 1,
            ;
            lemma_fundamental_div_mod_converse(i as int, e, -q - 1, e - 1 - m);
        }
        extent - 1 - m
    }
}

/// Folds the sum of an in-range coordinate and an offset onto `[0, extent)`,
/// without intermediate overflow.
pub fn fold_offset(x: usize, dx: i32, extent: usize) -> (r: usize)
    requires
        x < extent,
    ensures
        r < extent,
        r as int == fold_spec(x + dx, extent as int),
{
    let d = fold(dx as isize, extent);
    let room = extent - x;
    proof {
        lemma_add_mod_noop_right(x as int, dx as int, extent as int);
    }
    if d >= room {
        proof {
            lemma_fundamental_div_mod_converse(x + d, extent as int, 1, x + d - extent);
        }
        d - room
    } else {
        proof {
            lemma_fundamental_div_mod_converse(x + d, extent as int, 0, x + d);
        }
        x + d
    }
}

} // verus!
