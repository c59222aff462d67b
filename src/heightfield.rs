use vstd::prelude::*;

verus! {

/// Flat position of the cell in column `x` of row `y`, rows laid out one after another.
pub open spec fn idx(width: int, x: int, y: int) -> int {
    y * width + x
}

/// Row of the cell at flat position `i`.
pub open spec fn row(width: int, i: int) -> int {
    i / width
}

/// Column of the cell at flat position `i`.
pub open spec fn col(width: int, i: int) -> int {
    i % width
}

/// Neighbour above cell `i`; a cell on the top edge stands in for itself.
pub open spec fn north_of(width: int, height: int, i: int) -> int {
    if row(width, i) == 0 {
        i
    } else {
        i - width
    }
}

/// Neighbour below cell `i`; a cell on the bottom edge stands in for itself.
pub open spec fn south_of(width: int, height: int, i: int) -> int {
    if row(width, i) == height - 1 {
        i
    } else {
        i + width
    }
}

/// Neighbour left of cell `i`; a cell on the left edge stands in for itself.
pub open spec fn west_of(width: int, height: int, i: int) -> int {
    if col(width, i) == 0 {
        i
    } else {
        i - 1
    }
}

/// Neighbour right of cell `i`; a cell on the right edge stands in for itself.
pub open spec fn east_of(width: int, height: int, i: int) -> int {
    if col(width, i) == width - 1 {
        i
    } else {
        i + 1
    }
}

/// The heights that the velocity rule of one cell reads: its own and its four
/// von Neumann neighbours', with a missing neighbour replaced by the cell itself.
pub struct Stencil<T> {
    pub own: T,
    pub north: T,
    pub south: T,
    pub west: T,
    pub east: T,
}

/// The stencil of cell `i` in the heights `z` of a `width` by `height` grid.
pub open spec fn stencil_of<T>(z: Seq<T>, width: int, height: int, i: int) -> Stencil<T> {
    Stencil {
        own: z[i],
        north: z[north_of(width, height, i)],
        south: z[south_of(width, height, i)],
        west: z[west_of(width, height, i)],
        east: z[east_of(width, height, i)],
    }
}

/// Facts on the position of a cell inside a grid of `width * height` cells.
pub proof fn lemma_cell_position(width: int, height: int, i: int)
    requires
        width > 0,
        height > 0,
        0 <= i < width * height,
    ensures
        0 <= row(width, i) < height,
        0 <= col(width, i) < width,
        i == idx(width, col(width, i), row(width, i)),
        0 <= north_of(width, height, i) < width * height,
        0 <= south_of(width, height, i) < width * height,
        0 <= west_of(width, height, i) < width * height,
        0 <= east_of(width, height, i) < width * height,
{
    let r = i / width;
    let c = i % width;
    vstd::arithmetic::div_mod::lemma_fundamental_div_mod(i, width);
    assert(0 <= c < width);
    assert(0 <= r) by (nonlinear_arith)
        requires
            0 <= i,
            width > 0,
            r == i / width,
    ;
    assert(r < height) by (nonlinear_arith)
        requires
            i == width * r + c,
            0 <= c,
            i < width * height,
            width > 0,
    ;
    if r != 0 {
        assert(i - width >= 0) by (nonlinear_arith)
            requires
                i == width * r + c,
                0 <= c,
                r >= 1,
                width > 0,
        ;
    }
    if r != height - 1 {
        assert(i + width < width * height) by (nonlinear_arith)
            requires
                i == width * r + c,
                c < width,
                0 <= r <= height - 2,
                width > 0,
        ;
    }
    if c != width - 1 {
        assert(i + 1 < width * height) by (nonlinear_arith)
            requires
                i == width * r + c,
                0 <= c <= width - 2,
                0 <= r <= height - 1,
                width > 0,
        ;
    }
    assert(i == r * width + c) by (nonlinear_arith)
        requires
            i == width * r + c,
    ;
}

/// The flat position of column `x` of row `y` reads back as that row and column.
pub proof fn lemma_idx_position(width: int, height: int, x: int, y: int)
    requires
        0 <= x < width,
        0 <= y < height,
    ensures
        0 <= idx(width, x, y) < width * height,
        row(width, idx(width, x, y)) == y,
        col(width, idx(width, x, y)) == x,
{
    let i = idx(width, x, y);
    assert(0 <= i < width * height) by (nonlinear_arith)
        requires
            i == y * width + x,
            0 <= x < width,
            0 <= y < height,
    ;
    vstd::arithmetic::div_mod::lemma_fundamental_div_mod(i, width);
    let r = i / width;
    let c = i % width;
    assert(r == y && c == x) by (nonlinear_arith)
        requires
            i == width * r + c,
            i == y * width + x,
            0 <= c < width,
            0 <= x < width,
    ;
}

/// A width by height grid of cells, each holding a height and a vertical velocity.
///
/// Both arrays are flat, row after row: the cell in column `x` of row `y` stands
/// at `idx(width, x, y)`. The cell values are of any copyable type; the arithmetic
/// that advances them is handed to `step` as two per-cell rules.
pub struct Heightfield<T> {
    pub width: usize,
    pub height: usize,
    /// The height of each cell.
    pub z: Vec<T>,
    /// The velocity of each cell's height.
    pub dz: Vec<T>,
}

/// The outcome of one `step` from `before` to `after`: every velocity is what
/// `velocity_rule` gives for the cell's old velocity and its stencil in the old
/// heights, and every height is what `height_rule` gives for the cell's old height
/// and its new velocity.
pub open spec fn stepped<T, F: Fn(T, Stencil<T>) -> T, G: Fn(T, T) -> T>(
    before: Heightfield<T>,
    after: Heightfield<T>,
    velocity_rule: F,
    height_rule: G,
) -> bool {
    &&& after.width == before.width
    &&& after.height == before.height
    &&& after.wf()
    &&& forall|i: int|
        0 <= i < before.cells() ==> velocity_rule.ensures(
            (
                before.dz@[i],
                stencil_of(before.z@, before.width as int, before.height as int, i),
            ),
            #[trigger] after.dz@[i],
        )
    &&& forall|i: int|
        0 <= i < before.cells() ==> height_rule.ensures(
            (before.z@[i], after.dz@[i]),
            #[trigger] after.z@[i],
        )
}

impl<T> Heightfield<T> {
    /// The number of cells.
    pub open spec fn cells(&self) -> int {
        self.width * self.height
    }

    /// Both dimensions are positive and both arrays hold one value per cell.
    pub open spec fn wf(&self) -> bool {
        &&& self.width > 0
        &&& self.height > 0
        &&& self.cells() <= usize::MAX
        &&& self.z@.len() == self.cells()
        &&& self.dz@.len() == self.cells()
    }
}

impl<T: Copy> Heightfield<T> {
    /// Flat position of column `x` of row `y`.
    fn get_z_idx(&self, x: usize, y: usize) -> (r: usize)
        requires
            self.wf(),
            x < self.width,
            y < self.height,
        ensures
            r == idx(self.width as int, x as int, y as int),
            r < self.cells(),
    {
        proof {
            lemma_idx_position(self.width as int, self.height as int, x as int, y as int);
            assert(0 <= y * self.width <= y * self.width + x) by (nonlinear_arith)
                requires
                    self.width > 0,
            ;
        }
        y * self.width + x
    }

    /// Sets the height of column `x` of row `y`; a position outside the grid
    /// changes nothing.
    pub fn set_height(&mut self, x: usize, y: usize, value: T)
        requires
            old(self).wf(),
        ensures
            final(self).wf(),
            final(self).width == old(self).width,
            final(self).height == old(self).height,
            final(self).dz@ == old(self).dz@,
            x < old(self).width && y < old(self).height ==> final(self).z@ == old(self).z@.update(
                idx(old(self).width as int, x as int, y as int),
                value,
            ),
            !(x < old(self).width && y < old(self).height) ==> final(self).z@ == old(self).z@,
    {
        if x >= self.width || y >= self.height {
            return;
        }
        let z_idx = self.get_z_idx(x, y);
        self.z.set(z_idx, value);
    }
}

impl<T: Copy> Heightfield<T> {
    /// The stencil of the cell at flat position `i`: its own height and its four
    /// neighbours', an edge cell standing in for a neighbour that the grid lacks.
    pub fn stencil_at(&self, i: usize) -> (r: Stencil<T>)
        requires
            self.wf(),
            i < self.cells(),
        ensures
            r == stencil_of(self.z@, self.width as int, self.height as int, i as int),
    {
        proof {
            lemma_cell_position(self.width as int, self.height as int, i as int);
        }
        let width = self.width;
        let y = i / width;
        let x = i % width;
        let north = if y == 0 {
            i
        } else {
            i - width
        };
        let south = if y == self.height - 1 {
            i
        } else {
            i + width
        };
        let west = if x == 0 {
            i
        } else {
            i - 1
        };
        let east = if x == width - 1 {
            i
        } else {
            i + 1
        };
        Stencil {
            own: self.z[i],
            north: self.z[north],
            south: self.z[south],
            west: self.z[west],
            east: self.z[east],
        }
    }

    /// Advances every cell by one time step, in two passes over the whole grid.
    ///
    /// The first pass sets each velocity to `velocity_rule(velocity, stencil)`, the
    /// stencil read from the heights as they stood before the step. Only once every
    /// velocity is new does the second pass set each height to
    /// `height_rule(height, new velocity)`.
    pub fn step<F: Fn(T, Stencil<T>) -> T, G: Fn(T, T) -> T>(
        &mut self,
        velocity_rule: F,
        height_rule: G,
    )
        requires
            old(self).wf(),
            forall|v: T, s: Stencil<T>| velocity_rule.requires((v, s)),
            forall|h: T, v: T| height_rule.requires((h, v)),
        ensures
            stepped(*old(self), *final(self), velocity_rule, height_rule),
    {
        let n = self.z.len();
        let mut i: usize = 0;
        while i < n
            invariant
                self.wf(),
                self.width == old(self).width,
                self.height == old(self).height,
                self.z@ == old(self).z@,
                n == self.cells(),
                i <= n,
                forall|v: T, s: Stencil<T>| velocity_rule.requires((v, s)),
                forall|j: int|
                    0 <= j < i ==> velocity_rule.ensures(
                        (
                            old(self).dz@[j],
                            stencil_of(old(self).z@, self.width as int, self.height as int, j),
                        ),
                        #[trigger] self.dz@[j],
                    ),
                forall|j: int| i <= j < n ==> #[trigger] self.dz@[j] == old(self).dz@[j],
            decreases n - i,
        {
            let s = self.stencil_at(i);
            let v = velocity_rule(self.dz[i], s);
            self.dz.set(i, v);
            i = i + 1;
        }
        let ghost dz1 = self.dz@;
        let mut i: usize = 0;
        while i < n
            invariant
                self.wf(),
                self.width == old(self).width,
                self.height == old(self).height,
                self.dz@ == dz1,
                n == self.cells(),
                i <= n,
                forall|h: T, v: T| height_rule.requires((h, v)),
                forall|j: int|
                    0 <= j < n ==> velocity_rule.ensures(
                        (
                            old(self).dz@[j],
                            stencil_of(old(self).z@, self.width as int, self.height as int, j),
                        ),
                        #[trigger] dz1[j],
                    ),
                forall|j: int|
                    0 <= j < i ==> height_rule.ensures(
                        (old(self).z@[j], self.dz@[j]),
                        #[trigger] self.z@[j],
                    ),
                forall|j: int| i <= j < n ==> #[trigger] self.z@[j] == old(self).z@[j],
            decreases n - i,
        {
            let h = height_rule(self.z[i], self.dz[i]);
            self.z.set(i, h);
            i = i + 1;
        }
    }
}

/// A grid of `width` by `height` cells, every height `initial_height` and every
/// velocity `initial_velocity`.
pub fn new<T: Copy>(width: usize, height: usize, initial_height: T, initial_velocity: T) -> (r:
    Heightfield<T>)
    requires
        width > 0,
        height > 0,
        width * height <= usize::MAX,
    ensures
        r.wf(),
        r.width == width,
        r.height == height,
        r.z@.len() == width * height,
        r.dz@.len() == width * height,
        forall|i: int| 0 <= i < r.cells() ==> #[trigger] r.z@[i] == initial_height,
        forall|i: int| 0 <= i < r.cells() ==> #[trigger] r.dz@[i] == initial_velocity,
{
    let n = width * height;
    let mut z: Vec<T> = Vec::new();
    let mut dz: Vec<T> = Vec::new();
    let mut i: usize = 0;
    while i < n
        invariant
            i <= n,
            z@.len() == i,
            dz@.len() == i,
            forall|j: int| 0 <= j < i ==> #[trigger] z@[j] == initial_height,
            forall|j: int| 0 <= j < i ==> #[trigger] dz@[j] == initial_velocity,
        decreases n - i,
    {
        z.push(initial_height);
        dz.push(initial_velocity);
        i = i + 1;
    }
    Heightfield { width, height, z, dz }
}

} // verus!
