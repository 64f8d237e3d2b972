use vstd::prelude::*;

use crate::random::choose_one;
use crate::rules::{apply_rules, dead_grid, is_grid, neighbour_count, next_age, step};

verus! {

/// One position of a board: its age, 0 when dead.
#[derive(Debug, Clone, Copy)]
pub struct Cell {
    alive: u32,
}

impl View for Cell {
    type V = u32;

    closed spec fn view(&self) -> u32 {
        self.alive
    }
}

impl Cell {
    /// A cell of the given age (0 is dead).
    pub fn new(age: u32) -> (r: Cell)
        ensures
            r@ == age,
    {
        Cell { alive: age }
    }

    pub fn age(&self) -> (r: u32)
        ensures
            r == self@,
    {
        self.alive
    }

    pub fn is_alive(&self) -> (r: bool)
        ensures
            r == (self@ > 0),
    {
        self.alive > 0
    }
}

/// The ages of a row of cells.
pub closed spec fn ages(row: Seq<Cell>) -> Seq<u32> {
    row.map_values(|c: Cell| c.alive)
}

/// A fixed-size grid of cells, addressed by (row, column) from 0.
pub struct Board {
    width: usize,
    contents: Vec<Vec<Cell>>,
}

impl View for Board {
    type V = Seq<Seq<u32>>;

    /// The ages, row by row.
    closed spec fn view(&self) -> Seq<Seq<u32>> {
        self.contents@.map_values(|row: Vec<Cell>| ages(row@))
    }
}

impl Board {
    /// The number of columns.
    pub closed spec fn cols(&self) -> nat {
        self.width as nat
    }

    /// Every row has `cols()` cells.
    pub open spec fn wf(&self) -> bool {
        is_grid(self@, self.cols())
    }

    /// A board of `height` rows and `width` columns, every cell dead.
    pub fn create(width: usize, height: usize) -> (r: Board)
        ensures
            r.wf(),
            r.cols() == width,
            r@ == dead_grid(height as nat, width as nat),
    {
        let mut contents: Vec<Vec<Cell>> = Vec::new();
        let mut i: usize = 0;
        while i < height
            invariant
                i <= height,
                contents@.len() == i,
                forall|k: int| 0 <= k < i ==> ages(#[trigger] contents@[k]@) == Seq::new(width as nat, |_j: int| 0u32),
            decreases height - i,
        {
            let mut row: Vec<Cell> = Vec::new();
            let mut j: usize = 0;
            while j < width
                invariant
                    j <= width,
                    row@.len() == j,
                    forall|l: int| 0 <= l < j ==> (#[trigger] row@[l]).alive == 0,
                decreases width - j,
            {
                row.push(Cell { alive: 0 });
                j = j + 1;
            }
            assert(ages(row@) =~= Seq::new(width as nat, |_j: int| 0u32));
            contents.push(row);
            i = i + 1;
        }
        let r = Board { width, contents };
        assert(r@ =~= dead_grid(height as nat, width as nat));
        r
    }

    /// Whether the cell at (`x`, `y`) is alive.
    fn alive_at(&self, x: usize, y: usize) -> (r: bool)
        requires
            self.wf(),
            x < self@.len(),
            y < self.cols(),
        ensures
            r == (self@[x as int][y as int] > 0),
    {
        assert(self@[x as int] == ages(self.contents@[x as int]@));
        self.contents[x][y].alive > 0
    }

    /// The number of living cells among the eight positions around
    /// (`x`, `y`) that lie on the board.
    pub fn count_living_neighbours(&self, x: usize, y: usize) -> (r: u32)
        requires
            self.wf(),
            x < self@.len(),
            y < self.cols(),
        ensures
            r == neighbour_count(self@, x as int, y as int),
            r <= 8,
    {
        let height = self.contents.len();
        let width = self.width;
        let mut result: u32 = 0;

        // the row above
        if x > 0 {
            if y > 0 && self.alive_at(x - 1, y - 1) {
                result = result + 1;
            }
            if self.alive_at(x - 1, y) {
                result = result + 1;
            }
            if y + 1 < width && self.alive_at(x - 1, y + 1) {
                result = result + 1;
            }
        }
        // the same row, skipping the cell itself
        if y > 0 && self.alive_at(x, y - 1) {
            result = result + 1;
        }
        if y + 1 < width && self.alive_at(x, y + 1) {
            result = result + 1;
        }
        // the row below
        if x + 1 < height {
            if y > 0 && self.alive_at(x + 1, y - 1) {
                result = result + 1;
            }
            if self.alive_at(x + 1, y) {
                result = result + 1;
            }
            if y + 1 < width && self.alive_at(x + 1, y + 1) {
                result = result + 1;
            }
        }
        result
    }

    /// The next generation: a new board of the same size in which every cell
    /// follows the rules with its neighbours counted on this board.
    pub fn tick(&self) -> (r: Board)
        requires
            self.wf(),
        ensures
            r.wf(),
            r.cols() == self.cols(),
            r@.len() == self@.len(),
            r@ == step(self@),
    {
        let height = self.contents.len();
        let width = self.width;
        let mut rows: Vec<Vec<Cell>> = Vec::new();
        let mut i: usize = 0;
        while i < height
            invariant
                self.wf(),
                height == self@.len(),
                width == self.cols(),
                i <= height,
                rows@.len() == i,
                forall|k: int| 0 <= k < i ==> ages(#[trigger] rows@[k]@) == step(self@)[k],
            decreases height - i,
        {
            let mut row: Vec<Cell> = Vec::new();
            let mut j: usize = 0;
            while j < width
                invariant
                    self.wf(),
                    height == self@.len(),
                    width == self.cols(),
                    i < height,
                    j <= width,
                    row@.len() == j,
                    forall|l: int| 0 <= l < j ==> (#[trigger] row@[l]).alive == next_age(
                        self@[i as int][l],
                        neighbour_count(self@, i as int, l),
                    ),
                decreases width - j,
            {
                let n = self.count_living_neighbours(i, j);
                assert(self@[i as int] == ages(self.contents@[i as int]@));
                let age = apply_rules(self.contents[i][j].alive, n);
                row.push(Cell { alive: age });
                j = j + 1;
            }
            assert(ages(row@) =~= step(self@)[i as int]);
            rows.push(row);
            i = i + 1;
        }
        let r = Board { width, contents: rows };
        assert(r@ =~= step(self@));
        r
    }

    /// Gives every cell an age drawn at random from `options`, each entry
    /// equally likely; an outcome listed twice is twice as likely.
    pub fn init_cells_with(&mut self, options: &[u32])
        requires
            old(self).wf(),
            options@.len() > 0,
        ensures
            final(self).wf(),
            final(self).cols() == old(self).cols(),
            final(self)@.len() == old(self)@.len(),
            forall|i: int, j: int|
                0 <= i < final(self)@.len() && 0 <= j < final(self).cols() ==> options@.contains(
                    #[trigger] final(self)@[i][j],
                ),
    {
        let height = self.contents.len();
        let width = self.width;
        let mut rows: Vec<Vec<Cell>> = Vec::new();
        let mut i: usize = 0;
        while i < height
            invariant
                i <= height,
                options@.len() > 0,
                rows@.len() == i,
                forall|k: int| 0 <= k < i ==> (#[trigger] rows@[k])@.len() == width,
                forall|k: int, l: int|
                    0 <= k < i && 0 <= l < width ==> options@.contains(#[trigger] rows@[k]@[l].alive),
            decreases height - i,
        {
            let mut row: Vec<Cell> = Vec::new();
            let mut j: usize = 0;
            while j < width
                invariant
                    j <= width,
                    options@.len() > 0,
                    row@.len() == j,
                    forall|l: int| 0 <= l < j ==> options@.contains(#[trigger] row@[l].alive),
                decreases width - j,
            {
                let age = match choose_one(options) {
                    Some(a) => a,
                    None => 0,
                };
                row.push(Cell { alive: age });
                j = j + 1;
            }
            rows.push(row);
            i = i + 1;
        }
        self.contents = rows;
        assert forall|k: int, l: int| 0 <= k < height && 0 <= l < width implies options@.contains(
            #[trigger] self@[k][l],
        ) by {
            assert(self@[k] == ages(self.contents@[k]@));
        }
    }

    /// Seeds the board at random: each cell is alive (age 1) with
    /// probability one in three, else dead.
    pub fn init_cells(&mut self)
        requires
            old(self).wf(),
        ensures
            final(self).wf(),
            final(self).cols() == old(self).cols(),
            final(self)@.len() == old(self)@.len(),
            forall|i: int, j: int|
                0 <= i < final(self)@.len() && 0 <= j < final(self).cols() ==> #[trigger] final(self)@[i][j] <= 1,
    {
        let options: [u32; 6] = [1, 0, 0, 1, 0, 0];
        self.init_cells_with(&options);
        assert forall|i: int, j: int|
            0 <= i < self@.len() && 0 <= j < self.cols() implies #[trigger] self@[i][j] <= 1 by {
            assert(options@.contains(self@[i][j]));
        }
    }

    /// The number of columns.
    pub fn width(&self) -> (r: usize)
        ensures
            r == self.cols(),
    {
        self.width
    }

    /// The number of rows.
    pub fn height(&self) -> (r: usize)
        ensures
            r == self@.len(),
    {
        self.contents.len()
    }

    /// The cell at (`row`, `col`).
    pub fn cell(&self, row: usize, col: usize) -> (r: Cell)
        requires
            self.wf(),
            row < self@.len(),
            col < self.cols(),
        ensures
            r@ == self@[row as int][col as int],
    {
        assert(self@[row as int] == ages(self.contents@[row as int]@));
        self.contents[row][col]
    }

    /// The age of the cell at (`row`, `col`), 0 when dead.
    pub fn age(&self, row: usize, col: usize) -> (r: u32)
        requires
            self.wf(),
            row < self@.len(),
            col < self.cols(),
        ensures
            r == self@[row as int][col as int],
    {
        self.cell(row, col).age()
    }

    /// Whether the cell at (`row`, `col`) is alive.
    pub fn is_alive(&self, row: usize, col: usize) -> (r: bool)
        requires
            self.wf(),
            row < self@.len(),
            col < self.cols(),
        ensures
            r == (self@[row as int][col as int] > 0),
    {
        self.alive_at(row, col)
    }

    /// Sets the age of the cell at (`row`, `col`); 0 makes it dead.
    pub fn set_age(&mut self, row: usize, col: usize, age: u32)
        requires
            old(self).wf(),
            row < old(self)@.len(),
            col < old(self).cols(),
        ensures
            final(self).wf(),
            final(self).cols() == old(self).cols(),
            final(self)@ == old(self)@.update(row as int, old(self)@[row as int].update(col as int, age)),
    {
        assert(self@[row as int] == ages(self.contents@[row as int]@));
        self.contents[row][col] = Cell { alive: age };
        assert(self@ =~= old(self)@.update(row as int, old(self)@[row as int].update(col as int, age))) by {
            assert(self@[row as int] =~= old(self)@[row as int].update(col as int, age));
        }
    }
}

} // verus!
