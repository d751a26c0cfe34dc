use crate::helpers::IVec3;
use crate::neighborhood::{valid_offsets, ConfigError, Neighborhood};
use crate::topology::{fold, fold_offset, fold_spec};
use vstd::prelude::*;

verus! {

/// The state of one cell.
#[derive(Clone, Copy, Debug, PartialEq, Eq, Structural)]
pub enum CellState {
    Alive,
    /// Decaying; the level counts down to `Dead`.
    Dying(usize),
    Dead,
}

impl CellState {
    /// A dying level is at least 1.
    pub open spec fn wf(self) -> bool {
        match self {
            CellState::Dying(n) => n >= 1,
            _ => true,
        }
    }
}

/// The mathematical content of a lattice: its extents, the offsets its
/// neighbors were resolved from, one state per cell, and for each cell the
/// indices of its neighbors, one per offset.
pub struct LatticeView {
    pub width: int,
    pub height: int,
    pub depth: int,
    pub offsets: Seq<IVec3>,
    pub cells: Seq<CellState>,
    pub neighbors: Seq<Seq<usize>>,
}

impl LatticeView {
    pub open spec fn len(self) -> int {
        self.width * self.height * self.depth
    }

    /// The position in `cells` of the in-range coordinate `(x, y, z)`.
    pub open spec fn index_of(self, x: int, y: int, z: int) -> int {
        x + self.width * (y + self.height * z)
    }

    pub open spec fn x_of(self, i: int) -> int {
        i % self.width
    }

    pub open spec fn y_of(self, i: int) -> int {
        (i / self.width) % self.height
    }

    pub open spec fn z_of(self, i: int) -> int {
        (i / self.width) / self.height
    }

    /// The cell at the wrapped coordinate of any integer coordinate.
    pub open spec fn index_wrapped(self, x: int, y: int, z: int) -> int {
        self.index_of(
            fold_spec(x, self.width),
            fold_spec(y, self.height),
            fold_spec(z, self.depth),
        )
    }

    /// The state at any integer coordinate, under wraparound.
    pub open spec fn at(self, x: int, y: int, z: int) -> CellState {
        self.cells[self.index_wrapped(x, y, z)]
    }

    /// The neighbor of cell `i` in the direction `o`, under wraparound.
    pub open spec fn neighbor_of(self, i: int, o: IVec3) -> int {
        self.index_wrapped(self.x_of(i) + o.x, self.y_of(i) + o.y, self.z_of(i) + o.z)
    }

    /// The neighbor table holds, for every cell and every offset, the
    /// wrapped neighbor in that direction.
    pub open spec fn resolved(self) -> bool {
        &&& self.neighbors.len() == self.len()
        &&& forall|i: int|
            0 <= i < self.len() ==> (#[trigger] self.neighbors[i]).len() == self.offsets.len()
        &&& forall|i: int, k: int|
            0 <= i < self.len() && 0 <= k < self.offsets.len() ==> #[trigger] self.neighbors[i][k]
                == self.neighbor_of(i, self.offsets[k])
    }

    pub open spec fn wf(self) -> bool {
        &&& self.width > 0
        &&& self.height > 0
        &&& self.depth > 0
        &&& self.len() <= usize::MAX
        &&& valid_offsets(self.offsets)
        &&& self.cells.len() == self.len()
        &&& forall|i: int| 0 <= i < self.cells.len() ==> (#[trigger] self.cells[i]).wf()
        &&& self.resolved()
    }
}

proof fn lemma_extent_products(w: int, h: int, d: int)
    requires
        w > 0,
        h > 0,
        d > 0,
    ensures
        0 < w * h <= w * h * d,
        0 < h * d <= w * h * d,
{
    assert(0 < w * h <= w * h * d) by (nonlinear_arith)
        requires
            w > 0,
            h > 0,
            d > 0,
    ;
    assert(0 < h * d <= w * h * d) by (nonlinear_arith)
        requires
            w > 0,
            h > 0,
            d > 0,
    ;
}

proof fn lemma_index_in_range(w: int, h: int, d: int, x: int, y: int, z: int)
    requires
        0 <= x < w,
        0 <= y < h,
        0 <= z < d,
    ensures
        0 <= h * z <= h * d - h,
        0 <= y + h * z < h * d,
        0 <= w * (y + h * z) <= w * h * d - w,
        0 <= x + w * (y + h * z) < w * h * d,
{
    assert(0 <= h * z <= h * d - h) by (nonlinear_arith)
        requires
            0 <= y < h,
            0 <= z < d,
    ;
    assert(0 <= w * (y + h * z) <= w * h * d - w) by (nonlinear_arith)
        requires
            0 <= x < w,
            0 <= y + h * z <= h * d - 1,
    ;
}

proof fn lemma_coords_in_range(w: int, h: int, d: int, i: int)
    requires
        w > 0,
        h > 0,
        d > 0,
        0 <= i < w * h * d,
    ensures
        0 <= i % w < w,
        0 <= (i / w) % h < h,
        0 <= (i / w) / h < d,
{
    let q = i / w;
    vstd::arithmetic::div_mod::lemma_fundamental_div_mod(i, w);
    vstd::arithmetic::div_mod::lemma_mod_bound(i, w);
    vstd::arithmetic::div_mod::lemma_div_pos_is_pos(i, w);
    assert(q < h * d) by (nonlinear_arith)
        requires
            i == w * q + i % w,
            0 <= i % w,
            i < w * h * d,
            w > 0,
    ;
    vstd::arithmetic::div_mod::lemma_mod_bound(q, h);
    vstd::arithmetic::div_mod::lemma_fundamental_div_mod(q, h);
    vstd::arithmetic::div_mod::lemma_div_pos_is_pos(q, h);
    assert(q / h < d) by (nonlinear_arith)
        requires
            q == h * (q / h) + q % h,
            0 <= q % h,
            q < h * d,
            h > 0,
    ;
}

/// Computes `x + width * (y + height * z)` for an in-range coordinate.
fn index_of(width: usize, height: usize, depth: usize, x: usize, y: usize, z: usize) -> (r: usize)
    requires
        x < width,
        y < height,
        z < depth,
        width * height * depth <= usize::MAX,
    ensures
        r == x + width * (y + height * z),
        r < width * height * depth,
{
    proof {
        lemma_index_in_range(width as int, height as int, depth as int, x as int, y as int, z as int);
        lemma_extent_products(width as int, height as int, depth as int);
    }
    x + width * (y + height * z)
}

/// Resolves, for every cell of a lattice, the index of its neighbor in each
/// direction of `offsets`.
fn resolve_table(width: usize, height: usize, depth: usize, offsets: &Vec<IVec3>) -> (r: Vec<
    Vec<usize>,
>)
    requires
        width > 0,
        height > 0,
        depth > 0,
        width * height * depth <= usize::MAX,
    ensures
        (LatticeView {
            width: width as int,
            height: height as int,
            depth: depth as int,
            offsets: offsets@,
            cells: Seq::empty(),
            neighbors: r@.map_values(|v: Vec<usize>| v@),
        }).resolved(),
{
    let ghost v = LatticeView {
        width: width as int,
        height: height as int,
        depth: depth as int,
        offsets: offsets@,
        cells: Seq::empty(),
        neighbors: Seq::empty(),
    };
    proof {
        lemma_extent_products(width as int, height as int, depth as int);
    }
    let n: usize = width * height * depth;
    let mut table: Vec<Vec<usize>> = Vec::new();
    let mut i: usize = 0;
    while i < n
        invariant
            n == v.len(),
            0 <= i <= n,
            width > 0,
            height > 0,
            depth > 0,
            v.width == width,
            v.height == height,
            v.depth == depth,
            v.offsets == offsets@,
            width * height * depth <= usize::MAX,
            table@.len() == i,
            forall|j: int| 0 <= j < i ==> (#[trigger] table@[j])@.len() == offsets@.len(),
            forall|j: int, k: int|
                0 <= j < i && 0 <= k < offsets@.len() ==> #[trigger] table@[j]@[k] == v.neighbor_of(
                    j,
                    offsets@[k],
                ),
        decreases n - i,
    {
        proof {
            lemma_coords_in_range(width as int, height as int, depth as int, i as int);
        }
        let x = i % width;
        let q = i / width;
        let y = q % height;
        let z = q / height;
        let mut row: Vec<usize> = Vec::new();
        let mut k: usize = 0;
        while k < offsets.len()
            invariant
                0 <= k <= offsets@.len(),
                x < width,
                y < height,
                z < depth,
                x == v.x_of(i as int),
                y == v.y_of(i as int),
                z == v.z_of(i as int),
                v.width == width,
                v.height == height,
                v.depth == depth,
                width * height * depth <= usize::MAX,
                row@.len() == k,
                forall|j: int|
                    0 <= j < k ==> #[trigger] row@[j] == v.neighbor_of(i as int, offsets@[j]),
            decreases offsets@.len() - k,
        {
            let o = offsets[k];
            let fx = fold_offset(x, o.x, width);
            let fy = fold_offset(y, o.y, height);
            let fz = fold_offset(z, o.z, depth);
            let idx = index_of(width, height, depth, fx, fy, fz);
            row.push(idx);
            k += 1;
        }
        table.push(row);
        i += 1;
    }
    let ghost m = table@.map_values(|v: Vec<usize>| v@);
    assert forall|j: int| 0 <= j < n implies (#[trigger] m[j]).len() == offsets@.len() by {
        assert(m[j] == table@[j]@);
    }
    assert forall|j: int, k: int|
        0 <= j < n && 0 <= k < offsets@.len() implies #[trigger] m[j][k] == v.neighbor_of(
        j,
        offsets@[k],
    ) by {
        assert(m[j] == table@[j]@);
    }
    table
}

/// Every neighbor index of a well-formed lattice addresses one of its cells.
pub proof fn lemma_neighbors_in_range(v: LatticeView, i: int, k: int)
    requires
        v.wf(),
        0 <= i < v.len(),
        0 <= k < v.offsets.len(),
    ensures
        0 <= v.neighbors[i][k] < v.len(),
{
    let o = v.offsets[k];
    let fx = fold_spec(v.x_of(i) + o.x, v.width);
    let fy = fold_spec(v.y_of(i) + o.y, v.height);
    let fz = fold_spec(v.z_of(i) + o.z, v.depth);
    vstd::arithmetic::div_mod::lemma_mod_bound(v.x_of(i) + o.x, v.width);
    vstd::arithmetic::div_mod::lemma_mod_bound(v.y_of(i) + o.y, v.height);
    vstd::arithmetic::div_mod::lemma_mod_bound(v.z_of(i) + o.z, v.depth);
    lemma_index_in_range(v.width, v.height, v.depth, fx, fy, fz);
    assert(v.neighbors[i][k] == v.neighbor_of(i, v.offsets[k]));
}

/// In coordinates: the neighbor of the cell at the in-range coordinate
/// `(x, y, z)` in the direction of the `k`-th offset is the cell at the
/// wrapped coordinate `(x, y, z) + offsets[k]`.
pub proof fn lemma_neighbor_at_coordinate(v: LatticeView, x: int, y: int, z: int, k: int)
    requires
        v.wf(),
        0 <= x < v.width,
        0 <= y < v.height,
        0 <= z < v.depth,
        0 <= k < v.offsets.len(),
    ensures
        0 <= v.index_of(x, y, z) < v.len(),
        v.neighbors[v.index_of(x, y, z)][k] == v.index_wrapped(
            x + v.offsets[k].x,
            y + v.offsets[k].y,
            z + v.offsets[k].z,
        ),
{
    let (w, h) = (v.width, v.height);
    let i = v.index_of(x, y, z);
    lemma_index_in_range(w, h, v.depth, x, y, z);
    vstd::arithmetic::div_mod::lemma_fundamental_div_mod_converse(i, w, y + h * z, x);
    vstd::arithmetic::div_mod::lemma_fundamental_div_mod_converse(y + h * z, h, z, y);
    assert(v.x_of(i) == x && v.y_of(i) == y && v.z_of(i) == z);
    assert(v.neighbors[i][k] == v.neighbor_of(i, v.offsets[k]));
}

/// The grid of cells of a toroidal lattice. Cell states are stored in one
/// array; each cell's neighbors are resolved once, as indices into it.
#[derive(Debug)]
pub struct CellArray {
    width: usize,
    height: usize,
    depth: usize,
    offsets: Vec<IVec3>,
    cells: Vec<CellState>,
    neighbors: Vec<Vec<usize>>,
}

impl View for CellArray {
    type V = LatticeView;

    closed spec fn view(&self) -> LatticeView {
        LatticeView {
            width: self.width as int,
            height: self.height as int,
            depth: self.depth as int,
            offsets: self.offsets@,
            cells: self.cells@,
            neighbors: self.neighbors@.map_values(|v: Vec<usize>| v@),
        }
    }
}

impl CellArray {
    pub open spec fn wf(&self) -> bool {
        self@.wf()
    }

    /// A lattice of `width * height * depth` cells, all `Dead`, whose
    /// neighbors are resolved from `neighborhood`. A 2D lattice has depth 1.
    pub fn new(width: usize, height: usize, depth: usize, neighborhood: &Neighborhood) -> (r: Result<
        CellArray,
        ConfigError,
    >)
        ensures
            (width == 0 || height == 0 || depth == 0) ==> r == Err::<CellArray, ConfigError>(
                ConfigError::ZeroExtent,
            ),
            (width > 0 && height > 0 && depth > 0 && width * height * depth > usize::MAX) ==> r
                == Err::<CellArray, ConfigError>(ConfigError::TooManyCells),
            (width > 0 && height > 0 && depth > 0 && width * height * depth <= usize::MAX) ==> r is Ok,
            r matches Ok(a) ==> {
                &&& a.wf()
                &&& a@.width == width
                &&& a@.height == height
                &&& a@.depth == depth
                &&& a@.offsets == neighborhood@
                &&& forall|i: int| 0 <= i < a@.len() ==> #[trigger] a@.cells[i] == CellState::Dead
            },
    {
        if width == 0 || height == 0 || depth == 0 {
            return Err(ConfigError::ZeroExtent);
        }
        let n = match width.checked_mul(height) {
            Some(wh) => match wh.checked_mul(depth) {
                Some(n) => n,
                None => {
                    return Err(ConfigError::TooManyCells);
                },
            },
            None => {
                proof {
                    lemma_extent_products(width as int, height as int, depth as int);
                }
                return Err(ConfigError::TooManyCells);
            },
        };
        let offsets = neighborhood.offsets().clone();
        assert(offsets@ == neighborhood@);
        let neighbors = resolve_table(width, height, depth, &offsets);
        let mut cells: Vec<CellState> = Vec::new();
        let mut i: usize = 0;
        while i < n
            invariant
                0 <= i <= n,
                cells@.len() == i,
                forall|j: int| 0 <= j < i ==> #[trigger] cells@[j] == CellState::Dead,
            decreases n - i,
        {
            cells.push(CellState::Dead);
            i += 1;
        }
        Ok(CellArray { width, height, depth, offsets, cells, neighbors })
    }

    pub fn width(&self) -> (r: usize)
        ensures
            r == self@.width,
    {
        self.width
    }

    pub fn height(&self) -> (r: usize)
        ensures
            r == self@.height,
    {
        self.height
    }

    pub fn depth(&self) -> (r: usize)
        ensures
            r == self@.depth,
    {
        self.depth
    }

    /// The number of cells.
    pub fn len(&self) -> (r: usize)
        requires
            self.wf(),
        ensures
            r == self@.len(),
    {
        self.cells.len()
    }

    /// The index of the cell at any integer coordinate, under wraparound.
    fn wrapped_index(&self, x: isize, y: isize, z: isize) -> (r: usize)
        requires
            self.wf(),
        ensures
            r == self@.index_wrapped(x as int, y as int, z as int),
            r < self@.len(),
    {
        let fx = fold(x, self.width);
        let fy = fold(y, self.height);
        let fz = fold(z, self.depth);
        index_of(self.width, self.height, self.depth, fx, fy, fz)
    }

    /// The state of the cell at `(x, y, z)`, any integers, under wraparound.
    pub fn current_state(&self, x: isize, y: isize, z: isize) -> (r: CellState)
        requires
            self.wf(),
        ensures
            r == self@.at(x as int, y as int, z as int),
    {
        self.cells[self.wrapped_index(x, y, z)]
    }

    /// The state of the cell at `(i, j)` of the first layer, under wraparound.
    pub fn get(&self, i: isize, j: isize) -> (r: &CellState)
        requires
            self.wf(),
        ensures
            *r == self@.at(i as int, j as int, 0),
    {
        let idx = self.wrapped_index(i, j, 0);
        &self.cells[idx]
    }

    /// Forces the cell at `(x, y, z)`, under wraparound, to `state`.
    pub fn seed(&mut self, x: isize, y: isize, z: isize, state: CellState)
        requires
            old(self).wf(),
            state.wf(),
        ensures
            final(self).wf(),
            final(self)@ == (LatticeView {
                cells: old(self)@.cells.update(
                    old(self)@.index_wrapped(x as int, y as int, z as int),
                    state,
                ),
                ..old(self)@
            }),
    {
        let idx = self.wrapped_index(x, y, z);
        self.cells.set(idx, state);
    }

    /// The state of the cell at index `i`.
    pub fn cell(&self, i: usize) -> (r: CellState)
        requires
            self.wf(),
            i < self@.len(),
        ensures
            r == self@.cells[i as int],
    {
        self.cells[i]
    }

    /// The indices of the neighbors of the cell at index `i`, one per offset.
    pub fn neighbor_indices(&self, i: usize) -> (r: &Vec<usize>)
        requires
            self.wf(),
            i < self@.len(),
        ensures
            r@ == self@.neighbors[i as int],
            r@.len() == self@.offsets.len(),
            forall|k: int| 0 <= k < r@.len() ==> #[trigger] r@[k] < self@.len(),
    {
        proof {
            assert(self@.neighbors[i as int] == self.neighbors@[i as int]@);
            assert forall|k: int| 0 <= k < self@.offsets.len() implies #[trigger] self@.neighbors[i as int][k] < self@.len() by {
                lemma_neighbors_in_range(self@, i as int, k);
            }
        }
        &self.neighbors[i]
    }

    /// Resolves the neighbors again, from `neighborhood`; the cell states stay.
    pub fn resolve_neighbors(&mut self, neighborhood: &Neighborhood)
        requires
            old(self).wf(),
        ensures
            final(self).wf(),
            final(self)@.offsets == neighborhood@,
            final(self)@.width == old(self)@.width,
            final(self)@.height == old(self)@.height,
            final(self)@.depth == old(self)@.depth,
            final(self)@.cells == old(self)@.cells,
    {
        let offsets = neighborhood.offsets().clone();
        assert(offsets@ == neighborhood@);
        let neighbors = resolve_table(self.width, self.height, self.depth, &offsets);
        *self = CellArray {
            width: self.width,
            height: self.height,
            depth: self.depth,
            offsets,
            cells: self.cells.clone(),
            neighbors,
        };
    }

    /// Replaces every cell state at once with those of `next`.
    pub fn commit(&mut self, next: Vec<CellState>)
        requires
            old(self).wf(),
            next@.len() == old(self)@.len(),
            forall|i: int| 0 <= i < next@.len() ==> (#[trigger] next@[i]).wf(),
        ensures
            final(self).wf(),
            final(self)@ == (LatticeView { cells: next@, ..old(self)@ }),
    {
        self.cells = next;
    }

    /// Forces every cell to `Dead`.
    pub fn reset_all_to_dead(&mut self)
        requires
            old(self).wf(),
        ensures
            final(self).wf(),
            final(self)@.cells == Seq::new(old(self)@.cells.len(), |i: int| CellState::Dead),
            final(self)@.width == old(self)@.width,
            final(self)@.height == old(self)@.height,
            final(self)@.depth == old(self)@.depth,
            final(self)@.offsets == old(self)@.offsets,
            final(self)@.neighbors == old(self)@.neighbors,
    {
        let n = self.cells.len();
        let mut i: usize = 0;
        while i < n
            invariant
                0 <= i <= n,
                n == self.cells@.len(),
                self.width == old(self).width,
                self.height == old(self).height,
                self.depth == old(self).depth,
                self.offsets@ == old(self).offsets@,
                self.neighbors@ == old(self).neighbors@,
                old(self)@.wf(),
                old(self)@.cells.len() == n,
                forall|j: int| 0 <= j < i ==> #[trigger] self.cells@[j] == CellState::Dead,
                forall|j: int| i <= j < n ==> #[trigger] self.cells@[j] == old(self).cells@[j],
            decreases n - i,
        {
            self.cells.set(i, CellState::Dead);
            i += 1;
        }
        assert(self@.cells =~= Seq::new(old(self)@.cells.len(), |i: int| CellState::Dead));
    }
}

} // verus!
