//! The grid of cells and the generation-transition rule.

use vstd::arithmetic::div_mod::{
    lemma_fundamental_div_mod,
    lemma_mod_add_multiples_vanish,
    lemma_small_mod,
};
use vstd::prelude::*;

verus! {

/// The state of one cell.
#[derive(Clone, Copy, PartialEq, Eq, Debug, Structural)]
pub enum Cell {
    Alive,
    Dead,
}

/// Why a grid could not be built.
#[derive(Clone, Copy, PartialEq, Eq, Debug, Structural)]
pub enum GridError {
    /// The number of cells given is not `width * height`.
    InvalidDimensions,
}

/// A `width` x `height` grid whose edges wrap around.
///
/// The cell at column `x` and row `y` sits at `cells[x + y * width]`.
pub struct Game {
    pub width: usize,
    pub height: usize,
    pub cells: Vec<Cell>,
}

impl Cell {
    /// The cell that a drawn boolean stands for: `true` is alive.
    pub fn from_alive(alive: bool) -> (c: Cell)
        ensures
            c == (if alive { Cell::Alive } else { Cell::Dead }),
    {
        if alive {
            Cell::Alive
        } else {
            Cell::Dead
        }
    }
}

/// Relies on `rand::random::<bool>`: a boolean drawn from the thread-local
/// generator. Nothing is known of which value comes back. (rand panics only
/// where the operating system cannot seed that generator.)
#[verifier::external_body]
fn random_bool() -> bool {
    rand::random::<bool>()
}

/// `a` reduced into `[0, n)`, also for negative `a`.
#[verifier::opaque]
pub open spec fn wrap(a: int, n: int) -> int {
    a % n
}

/// The state of a cell with `live` live neighbours in the next generation.
pub open spec fn rule(c: Cell, live: int) -> Cell {
    if (c == Cell::Alive && (live == 2 || live == 3)) || (c == Cell::Dead && live == 3) {
        Cell::Alive
    } else {
        Cell::Dead
    }
}

/// One step left, one step right and no step on a ring of `n` positions.
pub proof fn lemma_wrap_steps(x: int, n: int)
    requires
        0 <= x < n,
    ensures
        wrap(x, n) == x,
        wrap(x - 1, n) == (if x == 0 { n - 1 } else { x - 1 }),
        wrap(x + 1, n) == (if x + 1 == n { 0 } else { x + 1 }),
{
    reveal(wrap);
    lemma_small_mod(x as nat, n as nat);
    if x == 0 {
        lemma_mod_add_multiples_vanish(-1, n);
        lemma_small_mod((n - 1) as nat, n as nat);
    } else {
        lemma_small_mod((x - 1) as nat, n as nat);
    }
    if x + 1 == n {
        lemma_mod_add_multiples_vanish(0, n);
        lemma_small_mod(0, n as nat);
    } else {
        lemma_small_mod((x + 1) as nat, n as nat);
    }
}

/// A column and a row inside a `w` x `h` grid give a linear index inside it.
pub proof fn lemma_index_in_grid(x: int, y: int, w: int, h: int)
    requires
        0 <= x < w,
        0 <= y < h,
    ensures
        0 <= x + y * w < w * h,
{
    assert(0 <= x + y * w < w * h) by (nonlinear_arith)
        requires
            0 <= x < w,
            0 <= y < h,
    ;
}

/// A linear index inside a `w` x `h` grid splits into a column and a row.
pub proof fn lemma_split_index(i: int, w: int, h: int)
    requires
        0 <= w,
        0 <= h,
        0 <= i < w * h,
    ensures
        0 <= i % w < w,
        0 <= i / w < h,
        i == i % w + (i / w) * w,
{
    assert(w > 0) by (nonlinear_arith)
        requires
            0 <= i < w * h,
            0 <= w,
            0 <= h,
    ;
    lemma_fundamental_div_mod(i, w);
    let q = i / w;
    let r = i % w;
    assert(0 <= r < w);
    assert(q * w == w * q) by (nonlinear_arith);
    assert(0 <= q < h) by (nonlinear_arith)
        requires
            i == w * q + r,
            0 <= r < w,
            0 <= i < w * h,
    ;
}

/// Any pair of integers, reduced onto a non-empty grid, lands on one of its cells.
pub proof fn lemma_wrap_in_grid(a: int, b: int, w: int, h: int)
    requires
        0 < w,
        0 < h,
    ensures
        0 <= wrap(a, w) < w,
        0 <= wrap(b, h) < h,
        0 <= wrap(a, w) + wrap(b, h) * w < w * h,
{
    reveal(wrap);
    lemma_index_in_grid(wrap(a, w), wrap(b, h), w, h);
}

impl Game {
    /// The cell array holds exactly `width * height` cells, a number that
    /// fits in a `usize`.
    pub open spec fn wf(&self) -> bool {
        &&& self.cells@.len() == self.width * self.height
        &&& self.width * self.height <= usize::MAX
    }

    /// The cell at column `x`, row `y`, without wrapping.
    pub open spec fn cell(&self, x: int, y: int) -> Cell {
        self.cells@[x + y * self.width]
    }

    /// 1 when the cell at `(x, y)` is alive, else 0.
    pub open spec fn alive_cell(&self, x: int, y: int) -> int {
        if self.cell(x, y) == Cell::Alive {
            1
        } else {
            0
        }
    }

    /// 1 when the cell at `(x, y)`, both reduced onto the torus, is alive, else 0.
    pub open spec fn alive_at(&self, x: int, y: int) -> int {
        self.alive_cell(wrap(x, self.width as int), wrap(y, self.height as int))
    }

    /// How many of the eight Moore neighbours of `(x, y)` are alive.
    pub open spec fn live_neighbours(&self, x: int, y: int) -> int {
        self.alive_at(x - 1, y) + self.alive_at(x + 1, y) + self.alive_at(x, y - 1)
            + self.alive_at(x, y + 1) + self.alive_at(x - 1, y - 1) + self.alive_at(x - 1, y + 1)
            + self.alive_at(x + 1, y - 1) + self.alive_at(x + 1, y + 1)
    }

    /// The next state of the cell at linear index `i`.
    pub open spec fn next_cell(&self, i: int) -> Cell {
        rule(
            self.cells@[i],
            self.live_neighbours(i % (self.width as int), i / (self.width as int)),
        )
    }

    /// The whole next generation, in row-major order.
    pub open spec fn next_cells(&self) -> Seq<Cell> {
        Seq::new(self.cells@.len(), |i: int| self.next_cell(i))
    }

    /// A `width` x `height` grid whose cells are each drawn alive or dead at
    /// random.
    pub fn new(width: usize, height: usize) -> (g: Game)
        requires
            width * height <= usize::MAX,
        ensures
            g.width == width,
            g.height == height,
            g.wf(),
    {
        let size = width * height;
        let mut cells: Vec<Cell> = Vec::with_capacity(size);
        for _i in 0..size
            invariant
                cells@.len() == _i,
        {
            cells.push(Cell::from_alive(random_bool()));
        }
        Game { width, height, cells }
    }

    /// Draws every cell anew at random; the dimensions stay.
    pub fn generate(&mut self)
        requires
            old(self).wf(),
        ensures
            final(self).width == old(self).width,
            final(self).height == old(self).height,
            final(self).wf(),
    {
        let size = self.size();
        for i in 0..size
            invariant
                self.wf(),
                size == self.cells@.len(),
                self.width == old(self).width,
                self.height == old(self).height,
        {
            self.cells.set(i, Cell::from_alive(random_bool()));
        }
    }

    /// Builds a grid from the given cells, in row-major order.
    pub fn with_initial(width: usize, height: usize, cells: Vec<Cell>) -> (r: Result<
        Game,
        GridError,
    >)
        ensures
            r is Ok <==> cells@.len() == width * height,
            r matches Ok(g) ==> g.width == width && g.height == height && g.cells@ == cells@
                && g.wf(),
            r matches Err(e) ==> e == GridError::InvalidDimensions,
    {
        let len = cells.len();
        match width.checked_mul(height) {
            Some(n) => {
                if n == len {
                    Ok(Game { width, height, cells })
                } else {
                    Err(GridError::InvalidDimensions)
                }
            },
            None => Err(GridError::InvalidDimensions),
        }
    }

    /// 1 when the cell at `(x, y)` is alive, else 0.
    fn alive(&self, x: usize, y: usize) -> (n: u8)
        requires
            self.wf(),
            x < self.width,
            y < self.height,
        ensures
            n == self.alive_cell(x as int, y as int),
    {
        if self.get(x, y) == Cell::Alive {
            1
        } else {
            0
        }
    }

    /// How many of the eight neighbours of the cell at linear index `pos`
    /// are alive, the edges wrapping around on both axes.
    pub fn count_neighbours(&self, pos: usize) -> (n: u8)
        requires
            self.wf(),
            pos < self.cells@.len(),
        ensures
            n == self.live_neighbours(
                pos as int % self.width as int,
                pos as int / self.width as int,
            ),
    {
        let w = self.width;
        let h = self.height;
        proof {
            lemma_split_index(pos as int, w as int, h as int);
        }
        let x = pos % w;
        let y = pos / w;
        proof {
            lemma_wrap_steps(x as int, w as int);
            lemma_wrap_steps(y as int, h as int);
        }
        let left = if x == 0 { w - 1 } else { x - 1 };
        let right = if x + 1 == w { 0 } else { x + 1 };
        let up = if y == 0 { h - 1 } else { y - 1 };
        let down = if y + 1 == h { 0 } else { y + 1 };

        // Each term is the neighbour at one of the eight offsets, wrapped.
        let ghost (gx, gy) = (x as int, y as int);
        let a = self.alive(left, y);
        assert(a == self.alive_at(gx - 1, gy));
        let b = self.alive(right, y);
        assert(b == self.alive_at(gx + 1, gy));
        let c = self.alive(x, up);
        assert(c == self.alive_at(gx, gy - 1));
        let d = self.alive(x, down);
        assert(d == self.alive_at(gx, gy + 1));
        let e = self.alive(left, up);
        assert(e == self.alive_at(gx - 1, gy - 1));
        let f = self.alive(left, down);
        assert(f == self.alive_at(gx - 1, gy + 1));
        let g = self.alive(right, up);
        assert(g == self.alive_at(gx + 1, gy - 1));
        let k = self.alive(right, down);
        assert(k == self.alive_at(gx + 1, gy + 1));
        a + b + c + d + e + f + g + k
    }

    /// Advances the grid by one generation.
    ///
    /// Every cell is computed from the current generation into a fresh
    /// buffer, which then replaces the old one.
    pub fn next_gen(&mut self)
        requires
            old(self).wf(),
        ensures
            final(self).width == old(self).width,
            final(self).height == old(self).height,
            final(self).cells@ == old(self).next_cells(),
            final(self).wf(),
    {
        let size = self.size();
        let mut new_cells: Vec<Cell> = Vec::with_capacity(size);
        for i in 0..size
            invariant
                self.wf(),
                size == self.cells@.len(),
                new_cells@.len() == i,
                forall|j: int| 0 <= j < i ==> new_cells@[j] == #[trigger] self.next_cell(j),
        {
            let neighbours = self.count_neighbours(i);
            let c = self.cells[i];
            let next = match c {
                Cell::Alive => if neighbours == 2 || neighbours == 3 {
                    Cell::Alive
                } else {
                    Cell::Dead
                },
                Cell::Dead => if neighbours == 3 {
                    Cell::Alive
                } else {
                    Cell::Dead
                },
            };
            new_cells.push(next);
        }
        assert(new_cells@ =~= self.next_cells());
        self.cells = new_cells;
    }

    /// The cell at column `x`, row `y`; the coordinates do not wrap.
    pub fn get(&self, x: usize, y: usize) -> (c: Cell)
        requires
            self.wf(),
            x < self.width,
            y < self.height,
        ensures
            c == self.cell(x as int, y as int),
    {
        proof {
            lemma_index_in_grid(x as int, y as int, self.width as int, self.height as int);
        }
        self.cells[x + y * self.width]
    }

    /// Sets the cell at column `x`, row `y`; the coordinates do not wrap.
    pub fn set(&mut self, x: usize, y: usize, c: Cell)
        requires
            old(self).wf(),
            x < old(self).width,
            y < old(self).height,
        ensures
            final(self).width == old(self).width,
            final(self).height == old(self).height,
            final(self).cells@ == old(self).cells@.update(x + y * old(self).width, c),
            final(self).wf(),
    {
        proof {
            lemma_index_in_grid(x as int, y as int, self.width as int, self.height as int);
        }
        let i = x + y * self.width;
        self.cells.set(i, c);
    }

    /// The cells of row `y`, from column 0 on.
    pub fn row(&self, y: usize) -> (r: Vec<Cell>)
        requires
            self.wf(),
            y < self.height,
        ensures
            r@ == self.cells@.subrange(y * self.width, y * self.width + self.width),
    {
        proof {
            assert(y * self.width + self.width <= self.width * self.height) by (nonlinear_arith)
                requires
                    y < self.height,
            ;
        }
        let mut r: Vec<Cell> = Vec::with_capacity(self.width);
        for x in 0..self.width
            invariant
                self.wf(),
                y < self.height,
                y * self.width + self.width <= self.cells@.len(),
                r@ == self.cells@.subrange(y * self.width, y * self.width + x),
        {
            r.push(self.get(x, y));
            assert(r@ =~= self.cells@.subrange(y * self.width, y * self.width + x + 1));
        }
        r
    }

    /// The number of cells, `width * height`.
    pub fn size(&self) -> (n: usize)
        requires
            self.wf(),
        ensures
            n == self.width * self.height,
    {
        self.width * self.height
    }
}

} // verus!
