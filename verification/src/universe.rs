use vstd::arithmetic::div_mod::lemma_fundamental_div_mod_converse;
use vstd::prelude::*;

use crate::cell::Cell;

verus! {

/// The mathematical model of a universe: a row-major sequence of cells
/// together with the board dimensions. The cell at (x, y) sits at linear
/// index `y * width + x`.
#[verifier::ext_equal]
pub ghost struct GridView {
    pub cells: Seq<Cell>,
    pub width: nat,
    pub height: nat,
}

impl GridView {
    /// Well-formedness: positive dimensions and a dense backing store of
    /// exactly `width * height` cells.
    pub open spec fn wf(self) -> bool {
        &&& self.width >= 1
        &&& self.height >= 1
        &&& self.cells.len() == self.width * self.height
    }

    pub open spec fn in_bounds(self, x: int, y: int) -> bool {
        0 <= x < self.width && 0 <= y < self.height
    }

    pub open spec fn cell(self, x: int, y: int) -> Cell {
        self.cells[y * self.width + x]
    }

    /// 1 when (x, y) lies on the board and holds an alive cell; coordinates
    /// outside the board count as dead (no wraparound topology).
    pub open spec fn live(self, x: int, y: int) -> int {
        if self.in_bounds(x, y) && self.cell(x, y) is Alive {
            1
        } else {
            0
        }
    }

    /// The number of live cells among the 8 Moore neighbours of (x, y).
    pub open spec fn neighbours(self, x: int, y: int) -> int {
        self.live(x - 1, y - 1) + self.live(x, y - 1) + self.live(x + 1, y - 1) + self.live(
            x - 1,
            y,
        ) + self.live(x + 1, y) + self.live(x - 1, y + 1) + self.live(x, y + 1) + self.live(
            x + 1,
            y + 1,
        )
    }

    /// The board with every cell set to `val`.
    pub open spec fn filled(self, val: Cell) -> GridView {
        GridView { cells: Seq::new(self.cells.len(), |i: int| val), ..self }
    }

    /// The board with the one cell at (x, y) replaced by `val`.
    pub open spec fn with_cell(self, x: int, y: int, val: Cell) -> GridView {
        GridView { cells: self.cells.update(y * self.width + x, val), ..self }
    }

    /// The board with every cell flipped.
    pub open spec fn inverted(self) -> GridView {
        GridView {
            cells: Seq::new(self.cells.len(), |i: int| self.cells[i].flip_spec()),
            ..self
        }
    }

    /// The board resized to new dimensions: every cell of the overlapping
    /// region keeps its value, every newly exposed cell is dead.
    pub open spec fn resized(self, new_width: nat, new_height: nat) -> GridView {
        GridView {
            width: new_width,
            height: new_height,
            cells: Seq::new(
                new_width * new_height,
                |i: int|
                    {
                        let x = i % (new_width as int);
                        let y = i / (new_width as int);
                        if x < self.width && y < self.height {
                            self.cell(x, y)
                        } else {
                            Cell::Dead
                        }
                    },
            ),
        }
    }

    /// The next generation: every cell simultaneously follows the Conway rule
    /// applied to its current state and live-neighbour count.
    pub open spec fn stepped(self) -> GridView {
        GridView {
            cells: Seq::new(
                self.cells.len(),
                |i: int|
                    {
                        let x = i % (self.width as int);
                        let y = i / (self.width as int);
                        self.cell(x, y).next_spec(self.neighbours(x, y))
                    },
            ),
            ..self
        }
    }

    /// Every cell of the board is `val`.
    pub open spec fn all(self, val: Cell) -> bool {
        forall|x: int, y: int| self.in_bounds(x, y) ==> self.cell(x, y) == val
    }
}

/// An all-dead board of the given dimensions.
pub open spec fn dead_grid(width: nat, height: nat) -> GridView {
    GridView {
        cells: Seq::new(width * height, |i: int| Cell::Dead),
        width,
        height,
    }
}

/// Relies on macroquad::rand::rand (a re-export of quad_rand::rand): a
/// pseudo-random 32-bit value drawn from the library's global generator.
/// Nothing is promised of which value comes back.
#[verifier::external_body]
fn random_u32() -> u32 {
    macroquad::rand::rand()
}

/// The randomization policy, as a function of one 32-bit draw: the cell is
/// alive exactly when the draw is even or divisible by 7 — an intentionally
/// biased distribution, roughly 57% alive.
pub fn cell_of_draw(draw: u32) -> (r: Cell)
    ensures
        r is Alive <==> (draw % 2 == 0 || draw % 7 == 0),
{
    Cell::from(draw % 2 == 0 || draw % 7 == 0)
}

/// Row-major indexing is a bijection between coordinates and linear indices:
/// for in-range (x, y) the index `y * w + x` is in range and determines x and
/// y back by remainder and quotient.
pub proof fn lemma_index(w: nat, h: nat, x: int, y: int)
    requires
        0 <= x < w,
        0 <= y < h,
    ensures
        0 <= y * w + x < w * h,
        (y * w + x) % (w as int) == x,
        (y * w + x) / (w as int) == y,
{
    assert(0 <= y * w + x < w * h) by (nonlinear_arith)
        requires
            0 <= x < w,
            0 <= y < h,
    ;
    lemma_fundamental_div_mod_converse(y * (w as int) + x, w as int, y, x);
}

/// The other direction of `lemma_index`: a linear index into a board splits
/// into in-range coordinates by remainder and quotient.
pub proof fn lemma_flat_coords(w: nat, h: nat, i: int)
    requires
        w >= 1,
        0 <= i < w * h,
    ensures
        0 <= i % (w as int) < w,
        0 <= i / (w as int) < h,
        (i / (w as int)) * w + (i % (w as int)) == i,
{
    vstd::arithmetic::div_mod::lemma_fundamental_div_mod(i, w as int);
    vstd::arithmetic::div_mod::lemma_mod_pos_bound(i, w as int);
    assert(i / (w as int) < h) by (nonlinear_arith)
        requires
            w >= 1,
            0 <= i < w * h,
            i == (w as int) * (i / (w as int)) + (i % (w as int)),
            0 <= i % (w as int) < w,
    ;
    assert((i / (w as int)) * w == (w as int) * (i / (w as int))) by (nonlinear_arith);
}

/// Two well-formed boards of equal dimensions whose cells agree at every
/// coordinate are equal.
pub proof fn lemma_grid_pointwise_eq(a: GridView, b: GridView)
    requires
        a.wf(),
        b.wf(),
        a.width == b.width,
        a.height == b.height,
        forall|x: int, y: int| a.in_bounds(x, y) ==> a.cell(x, y) == b.cell(x, y),
    ensures
        a == b,
{
    assert forall|i: int| 0 <= i < a.cells.len() implies a.cells[i] == b.cells[i] by {
        lemma_flat_coords(a.width, a.height, i);
        let x = i % (a.width as int);
        let y = i / (a.width as int);
        assert(a.cell(x, y) == b.cell(x, y));
        assert(y * a.width + x == i);
    }
    assert(a.cells =~= b.cells);
    assert(a =~= b);
}

/// The 2D board of cells plus its dimensions, stored densely in row-major
/// order. The length of `cells` is always exactly `width * height`.
#[derive(Clone)]
pub struct Universe {
    pub cells: Vec<Cell>,
    pub width: usize,
    pub height: usize,
}

impl View for Universe {
    type V = GridView;

    open spec fn view(&self) -> GridView {
        GridView { cells: self.cells@, width: self.width as nat, height: self.height as nat }
    }
}

impl Universe {
    /// Creates a board of the given dimensions with every cell dead.
    pub fn new(width: usize, height: usize) -> (r: Universe)
        requires
            width >= 1,
            height >= 1,
            width * height <= usize::MAX,
        ensures
            r@ == dead_grid(width as nat, height as nat),
            r@.wf(),
    {
        let n = width * height;
        let mut cells: Vec<Cell> = Vec::new();
        let mut i: usize = 0;
        while i < n
            invariant
                i <= n,
                cells@.len() == i,
                forall|j: int| 0 <= j < i ==> cells@[j] == Cell::Dead,
            decreases n - i,
        {
            cells.push(Cell::Dead);
            i = i + 1;
        }
        let r = Universe { cells, width, height };
        proof {
            assert(r@.cells =~= dead_grid(width as nat, height as nat).cells);
            assert(r@ =~= dead_grid(width as nat, height as nat));
        }
        r
    }

    /// The linear index of the cell at (x, y).
    fn index(&self, x: usize, y: usize) -> (i: usize)
        requires
            self@.wf(),
            self@.in_bounds(x as int, y as int),
        ensures
            i == y * self@.width + x,
            i < self@.cells.len(),
    {
        let n = self.cells.len();
        proof {
            lemma_index(self@.width, self@.height, x as int, y as int);
            assert(y * self@.width + x < n);
        }
        y * self.width + x
    }

    /// Reads the cell at (x, y).
    pub fn get(&self, x: usize, y: usize) -> (r: Cell)
        requires
            self@.wf(),
            self@.in_bounds(x as int, y as int),
        ensures
            r == self@.cell(x as int, y as int),
    {
        let i = self.index(x, y);
        self.cells[i]
    }

    /// Overwrites the cell at (x, y) with `val`; no other cell changes.
    pub fn set(&mut self, x: usize, y: usize, val: Cell)
        requires
            old(self)@.wf(),
            old(self)@.in_bounds(x as int, y as int),
        ensures
            final(self)@ == old(self)@.with_cell(x as int, y as int, val),
            final(self)@.wf(),
    {
        let i = self.index(x, y);
        self.cells[i] = val;
    }

    /// Sets every cell of the board to `val`.
    pub fn fill(&mut self, val: Cell)
        requires
            old(self)@.wf(),
        ensures
            final(self)@ == old(self)@.filled(val),
            final(self)@.wf(),
    {
        let n = self.cells.len();
        let mut i: usize = 0;
        while i < n
            invariant
                i <= n,
                n == self.cells@.len(),
                self@.width == old(self)@.width,
                self@.height == old(self)@.height,
                forall|j: int| 0 <= j < i ==> self.cells@[j] == val,
            decreases n - i,
        {
            self.cells[i] = val;
            i = i + 1;
        }
        proof {
            assert(self@.cells =~= old(self)@.filled(val).cells);
            assert(self@ =~= old(self)@.filled(val));
        }
    }

    /// Sets every cell of the board to dead.
    pub fn clear(&mut self)
        requires
            old(self)@.wf(),
        ensures
            final(self)@ == old(self)@.filled(Cell::Dead),
            final(self)@.wf(),
    {
        self.fill(Cell::Dead);
    }

    /// Counts the live cells among the 8 Moore neighbours of (x, y); any
    /// offset landing outside the board counts as dead.
    #[verifier::rlimit(50)]
    pub fn count_live_neighbours(&self, x: usize, y: usize) -> (r: usize)
        requires
            self@.wf(),
            self@.in_bounds(x as int, y as int),
        ensures
            r == self@.neighbours(x as int, y as int),
            r <= 8,
    {
        let ghost g = self@;
        let mut count: usize = 0;
        if x >= 1 && y >= 1 {
            if let Cell::Alive = self.get(x - 1, y - 1) {
                count = count + 1;
            }
        }
        assert(count == g.live(x - 1, y - 1));
        if y >= 1 {
            if let Cell::Alive = self.get(x, y - 1) {
                count = count + 1;
            }
        }
        assert(count == g.live(x - 1, y - 1) + g.live(x as int, y - 1));
        if x + 1 < self.width && y >= 1 {
            if let Cell::Alive = self.get(x + 1, y - 1) {
                count = count + 1;
            }
        }
        assert(count == g.live(x - 1, y - 1) + g.live(x as int, y - 1) + g.live(x + 1, y - 1));
        if x >= 1 {
            if let Cell::Alive = self.get(x - 1, y) {
                count = count + 1;
            }
        }
        if x + 1 < self.width {
            if let Cell::Alive = self.get(x + 1, y) {
                count = count + 1;
            }
        }
        assert(count == g.live(x - 1, y - 1) + g.live(x as int, y - 1) + g.live(x + 1, y - 1)
            + g.live(x - 1, y as int) + g.live(x + 1, y as int));
        if x >= 1 && y + 1 < self.height {
            if let Cell::Alive = self.get(x - 1, y + 1) {
                count = count + 1;
            }
        }
        assert(count == g.live(x - 1, y - 1) + g.live(x as int, y - 1) + g.live(x + 1, y - 1)
            + g.live(x - 1, y as int) + g.live(x + 1, y as int) + g.live(x - 1, y + 1));
        if y + 1 < self.height {
            if let Cell::Alive = self.get(x, y + 1) {
                count = count + 1;
            }
        }
        assert(count == g.live(x - 1, y - 1) + g.live(x as int, y - 1) + g.live(x + 1, y - 1)
            + g.live(x - 1, y as int) + g.live(x + 1, y as int) + g.live(x - 1, y + 1) + g.live(
            x as int,
            y + 1,
        ));
        if x + 1 < self.width && y + 1 < self.height {
            if let Cell::Alive = self.get(x + 1, y + 1) {
                count = count + 1;
            }
        }
        assert(count == g.neighbours(x as int, y as int));
        count
    }

    /// Advances the whole board one generation: the next state of every cell
    /// is computed against a consistent snapshot of the current generation
    /// (read old cells, write a fresh buffer, then swap), so neighbour counts
    /// never see a partially updated board.
    pub fn step(&mut self)
        requires
            old(self)@.wf(),
        ensures
            final(self)@ == old(self)@.stepped(),
            final(self)@.wf(),
    {
        let ghost g = self@;
        let w = self.width;
        let h = self.height;
        let mut next: Vec<Cell> = Vec::new();
        let mut y: usize = 0;
        while y < h
            invariant
                self@ == g,
                g.wf(),
                w == g.width,
                h == g.height,
                y <= h,
                next@.len() == y * w,
                forall|i: int| 0 <= i < next@.len() ==> next@[i] == g.stepped().cells[i],
            decreases h - y,
        {
            let mut x: usize = 0;
            while x < w
                invariant
                    self@ == g,
                    g.wf(),
                    w == g.width,
                    h == g.height,
                    y < h,
                    x <= w,
                    next@.len() == y * w + x,
                    forall|i: int| 0 <= i < next@.len() ==> next@[i] == g.stepped().cells[i],
                decreases w - x,
            {
                proof {
                    lemma_index(g.width, g.height, x as int, y as int);
                }
                let c = self.get(x, y);
                let n = self.count_live_neighbours(x, y);
                next.push(c.calculate_next_iteration(n));
                x = x + 1;
            }
            y = y + 1;
            proof {
                assert((y - 1) * w + w == y * w) by (nonlinear_arith);
            }
        }
        proof {
            assert(h * w == w * h) by (nonlinear_arith);
            assert(next@.len() == g.stepped().cells.len());
        }
        self.cells = next;
        proof {
            assert(self@.cells =~= g.stepped().cells);
            assert(self@ =~= g.stepped());
        }
    }

    /// Changes the board dimensions. The chosen policy: the backing store is
    /// rewritten whole — growing exposes fresh dead cells, shrinking clips —
    /// and every cell of the overlapping region keeps its value at the same
    /// (x, y), so a drawn pattern survives a resize.
    pub fn resize(&mut self, new_width: usize, new_height: usize)
        requires
            old(self)@.wf(),
            new_width >= 1,
            new_height >= 1,
            new_width * new_height <= usize::MAX,
        ensures
            final(self)@ == old(self)@.resized(new_width as nat, new_height as nat),
            final(self)@.wf(),
    {
        let ghost g = self@;
        let ghost target = g.resized(new_width as nat, new_height as nat);
        let mut next: Vec<Cell> = Vec::new();
        let mut y: usize = 0;
        while y < new_height
            invariant
                self@ == g,
                g.wf(),
                target == g.resized(new_width as nat, new_height as nat),
                new_width >= 1,
                new_height >= 1,
                y <= new_height,
                next@.len() == y * new_width,
                forall|i: int| 0 <= i < next@.len() ==> next@[i] == target.cells[i],
            decreases new_height - y,
        {
            let mut x: usize = 0;
            while x < new_width
                invariant
                    self@ == g,
                    g.wf(),
                    target == g.resized(new_width as nat, new_height as nat),
                    new_width >= 1,
                    new_height >= 1,
                    y < new_height,
                    x <= new_width,
                    next@.len() == y * new_width + x,
                    forall|i: int| 0 <= i < next@.len() ==> next@[i] == target.cells[i],
                decreases new_width - x,
            {
                proof {
                    lemma_index(new_width as nat, new_height as nat, x as int, y as int);
                }
                let c = if x < self.width && y < self.height {
                    self.get(x, y)
                } else {
                    Cell::Dead
                };
                next.push(c);
                x = x + 1;
            }
            y = y + 1;
            proof {
                assert((y - 1) * new_width + new_width == y * new_width) by (nonlinear_arith);
            }
        }
        proof {
            assert(new_height * new_width == new_width * new_height) by (nonlinear_arith);
            assert(next@.len() == target.cells.len());
        }
        self.cells = next;
        self.width = new_width;
        self.height = new_height;
        proof {
            assert(self@.cells =~= target.cells);
            assert(self@ =~= target);
        }
    }

    /// Replaces every cell with `cell_of_draw` of a fresh 32-bit draw from
    /// the pseudo-random source; `cell_of_draw`'s contract fixes what each
    /// draw produces. Which pattern comes out depends on the generator's
    /// state, so of the whole board only the dimensions are promised.
    pub fn fill_random(&mut self)
        requires
            old(self)@.wf(),
        ensures
            final(self)@.wf(),
            final(self)@.width == old(self)@.width,
            final(self)@.height == old(self)@.height,
    {
        let n = self.cells.len();
        let mut i: usize = 0;
        while i < n
            invariant
                i <= n,
                n == self.cells@.len(),
                self@.width == old(self)@.width,
                self@.height == old(self)@.height,
            decreases n - i,
        {
            let draw = random_u32();
            self.cells[i] = cell_of_draw(draw);
            i = i + 1;
        }
    }

    /// Replaces every cell with its opposite state.
    pub fn invert(&mut self)
        requires
            old(self)@.wf(),
        ensures
            final(self)@ == old(self)@.inverted(),
            final(self)@.wf(),
    {
        let n = self.cells.len();
        let mut i: usize = 0;
        while i < n
            invariant
                i <= n,
                n == self.cells@.len(),
                self.cells@.len() == old(self).cells@.len(),
                self@.width == old(self)@.width,
                self@.height == old(self)@.height,
                forall|j: int| 0 <= j < i ==> self.cells@[j] == old(self).cells@[j].flip_spec(),
                forall|j: int| i <= j < n ==> self.cells@[j] == old(self).cells@[j],
            decreases n - i,
        {
            let c = self.cells[i].flip();
            self.cells[i] = c;
            i = i + 1;
        }
        proof {
            assert(self@.cells =~= old(self)@.inverted().cells);
            assert(self@ =~= old(self)@.inverted());
        }
    }
}

} // verus!
