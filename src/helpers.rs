use crate::topology::{fold, fold_offset, fold_spec};
use vstd::prelude::*;

verus! {

/// The side length of the default square lattice.
pub const PLOT_SIZE: usize = 64;

/// The number of positions a `c32` coordinate wraps over: `0..=PLOT_SIZE`.
pub const C32_EXTENT: usize = PLOT_SIZE + 1;

/// An integer vector of three components, used for relative offsets.
#[derive(Clone, Copy, Debug, PartialEq, Eq, Structural)]
pub struct IVec3 {
    pub x: i32,
    pub y: i32,
    pub z: i32,
}

impl IVec3 {
    pub fn new(x: i32, y: i32, z: i32) -> (r: IVec3)
        ensures
            r == (IVec3 { x, y, z }),
    {
        IVec3 { x, y, z }
    }
}

/// Component-wise sum of two vectors.
pub fn add_ivec3(a: IVec3, b: IVec3) -> (r: IVec3)
    requires
        i32::MIN <= a.x + b.x <= i32::MAX,
        i32::MIN <= a.y + b.y <= i32::MAX,
        i32::MIN <= a.z + b.z <= i32::MAX,
    ensures
        r.x == a.x + b.x,
        r.y == a.y + b.y,
        r.z == a.z + b.z,
{
    IVec3 { x: a.x + b.x, y: a.y + b.y, z: a.z + b.z }
}

/// A coordinate on one wrapping axis of `C32_EXTENT` positions.
#[allow(non_camel_case_types)]
#[derive(Clone, Copy, Debug, PartialEq, Eq, Structural)]
pub struct c32 {
    v: i32,
}

impl View for c32 {
    type V = int;

    closed spec fn view(&self) -> int {
        self.v as int
    }
}

impl c32 {
    #[verifier::type_invariant]
    spec fn in_range(self) -> bool {
        0 <= self.v < C32_EXTENT
    }

    /// Wraps `v` onto the axis.
    pub fn new(v: i32) -> (r: c32)
        ensures
            r@ == fold_spec(v as int, C32_EXTENT as int),
    {
        let f = fold(v as isize, C32_EXTENT);
        c32 { v: f as i32 }
    }

    /// The position on the axis.
    pub fn i32(self) -> (r: i32)
        ensures
            r == self@,
            0 <= r < C32_EXTENT,
    {
        proof {
            use_type_invariant(&self);
        }
        self.v
    }

    /// Moves by `d` positions along the axis, wrapping around.
    pub fn offset(self, d: i32) -> (r: c32)
        ensures
            r@ == fold_spec(self@ + d, C32_EXTENT as int),
    {
        proof {
            use_type_invariant(&self);
        }
        let f = fold_offset(self.v as usize, d, C32_EXTENT);
        c32 { v: f as i32 }
    }
}

impl core::ops::Add for c32 {
    type Output = c32;

    fn add(self, rhs: c32) -> (r: c32)
        ensures
            r@ == fold_spec(self@ + rhs@, C32_EXTENT as int),
    {
        self.offset(rhs.i32())
    }
}

impl vstd::std_specs::ops::AddSpecImpl for c32 {
    open spec fn obeys_add_spec() -> bool {
        false
    }

    open spec fn add_req(self, rhs: c32) -> bool {
        true
    }

    open spec fn add_spec(self, rhs: c32) -> c32 {
        self
    }
}

impl core::ops::Add<i32> for c32 {
    type Output = c32;

    fn add(self, rhs: i32) -> (r: c32)
        ensures
            r@ == fold_spec(self@ + rhs, C32_EXTENT as int),
    {
        self.offset(rhs)
    }
}

impl vstd::std_specs::ops::AddSpecImpl<i32> for c32 {
    open spec fn obeys_add_spec() -> bool {
        false
    }

    open spec fn add_req(self, rhs: i32) -> bool {
        true
    }

    open spec fn add_spec(self, rhs: i32) -> c32 {
        self
    }
}

impl core::ops::Add<u32> for c32 {
    type Output = c32;

    fn add(self, rhs: u32) -> (r: c32)
        ensures
            r@ == fold_spec(self@ + rhs, C32_EXTENT as int),
    {
        let d: u32 = rhs % (C32_EXTENT as u32);
        proof {
            vstd::arithmetic::div_mod::lemma_add_mod_noop_right(self@, rhs as int, C32_EXTENT as int);
        }
        self.offset(d as i32)
    }
}

impl vstd::std_specs::ops::AddSpecImpl<u32> for c32 {
    open spec fn obeys_add_spec() -> bool {
        false
    }

    open spec fn add_req(self, rhs: u32) -> bool {
        true
    }

    open spec fn add_spec(self, rhs: u32) -> c32 {
        self
    }
}

/// A position of three wrapping axes.
#[derive(Clone, Copy, Debug, PartialEq, Eq, Structural)]
pub struct CVec3 {
    pub x: c32,
    pub y: c32,
    pub z: c32,
}

impl CVec3 {
    pub fn new(x: u32, y: u32, z: u32) -> (r: CVec3)
        ensures
            r.x@ == fold_spec(x as int, C32_EXTENT as int),
            r.y@ == fold_spec(y as int, C32_EXTENT as int),
            r.z@ == fold_spec(z as int, C32_EXTENT as int),
    {
        let origin = c32::new(0);
        CVec3 { x: origin + x, y: origin + y, z: origin + z }
    }
}

impl core::ops::Add for CVec3 {
    type Output = CVec3;

    fn add(self, rhs: CVec3) -> (r: CVec3)
        ensures
            r.x@ == fold_spec(self.x@ + rhs.x@, C32_EXTENT as int),
            r.y@ == fold_spec(self.y@ + rhs.y@, C32_EXTENT as int),
            r.z@ == fold_spec(self.z@ + rhs.z@, C32_EXTENT as int),
    {
        CVec3 { x: self.x + rhs.x, y: self.y + rhs.y, z: self.z + rhs.z }
    }
}

impl vstd::std_specs::ops::AddSpecImpl for CVec3 {
    open spec fn obeys_add_spec() -> bool {
        false
    }

    open spec fn add_req(self, rhs: CVec3) -> bool {
        true
    }

    open spec fn add_spec(self, rhs: CVec3) -> CVec3 {
        self
    }
}

impl core::ops::Add<IVec3> for CVec3 {
    type Output = CVec3;

    fn add(self, rhs: IVec3) -> (r: CVec3)
        ensures
            r.x@ == fold_spec(self.x@ + rhs.x, C32_EXTENT as int),
            r.y@ == fold_spec(self.y@ + rhs.y, C32_EXTENT as int),
            r.z@ == fold_spec(self.z@ + rhs.z, C32_EXTENT as int),
    {
        CVec3 { x: self.x + rhs.x, y: self.y + rhs.y, z: self.z + rhs.z }
    }
}

impl vstd::std_specs::ops::AddSpecImpl<IVec3> for CVec3 {
    open spec fn obeys_add_spec() -> bool {
        false
    }

    open spec fn add_req(self, rhs: IVec3) -> bool {
        true
    }

    open spec fn add_spec(self, rhs: IVec3) -> CVec3 {
        self
    }
}

} // verus!
