use vstd::prelude::*;

use crate::rules::{dead_grid, is_grid, live, neighbour_count, next_age, step};

verus! {

/// The next generation has the dimensions of the current one.
pub proof fn lemma_step_keeps_shape(g: Seq<Seq<u32>>, width: nat)
    requires
        is_grid(g, width),
    ensures
        step(g).len() == g.len(),
        is_grid(step(g), width),
{
}

/// Whatever a cell's age: with 0 or 1 living neighbours it is dead in the
/// next generation, with exactly 3 it is alive, and with 4 or more it is dead.
pub proof fn lemma_step_rules(g: Seq<Seq<u32>>, r: int, c: int)
    requires
        0 <= r < g.len(),
        0 <= c < g[r].len(),
    ensures
        neighbour_count(g, r, c) <= 1 ==> step(g)[r][c] == 0,
        neighbour_count(g, r, c) == 3 ==> step(g)[r][c] > 0,
        neighbour_count(g, r, c) >= 4 ==> step(g)[r][c] == 0,
{
    assert(step(g)[r][c] == next_age(g[r][c], neighbour_count(g, r, c)));
}

/// A cell has at most 8 living neighbours; at most 5 on an edge of the grid
/// and at most 3 in a corner, since positions off the grid never count.
pub proof fn lemma_neighbour_bounds(g: Seq<Seq<u32>>, width: nat, r: int, c: int)
    requires
        is_grid(g, width),
        0 <= r < g.len(),
        0 <= c < width,
    ensures
        0 <= neighbour_count(g, r, c) <= 8,
        (r == 0 || r == g.len() - 1 || c == 0 || c == width - 1) ==> neighbour_count(g, r, c) <= 5,
        (r == 0 || r == g.len() - 1) && (c == 0 || c == width - 1) ==> neighbour_count(g, r, c) <= 3,
{
    if r == 0 {
        assert(live(g, r - 1, c - 1) == 0 && live(g, r - 1, c) == 0 && live(g, r - 1, c + 1) == 0);
    }
    if r == g.len() - 1 {
        assert(live(g, r + 1, c - 1) == 0 && live(g, r + 1, c) == 0 && live(g, r + 1, c + 1) == 0);
    }
    if c == 0 {
        assert(live(g, r - 1, c - 1) == 0 && live(g, r, c - 1) == 0 && live(g, r + 1, c - 1) == 0);
    }
    if c == width - 1 {
        if 0 <= r - 1 {
            assert(g[r - 1].len() == width);
        }
        if r + 1 < g.len() {
            assert(g[r + 1].len() == width);
        }
        assert(g[r].len() == width);
        assert(live(g, r - 1, c + 1) == 0 && live(g, r, c + 1) == 0 && live(g, r + 1, c + 1) == 0);
    }
}

/// A grid of dead cells stays dead: the next generation equals it.
pub proof fn lemma_dead_grid_is_still(height: nat, width: nat)
    ensures
        step(dead_grid(height, width)) == dead_grid(height, width),
{
    let g = dead_grid(height, width);
    assert forall|i: int, j: int| 0 <= i < height && 0 <= j < width implies neighbour_count(g, i, j) == 0 by {
        assert(live(g, i - 1, j - 1) == 0 && live(g, i - 1, j) == 0 && live(g, i - 1, j + 1) == 0);
        assert(live(g, i, j - 1) == 0 && live(g, i, j + 1) == 0);
        assert(live(g, i + 1, j - 1) == 0 && live(g, i + 1, j) == 0 && live(g, i + 1, j + 1) == 0);
    }
    assert forall|i: int| 0 <= i < height implies #[trigger] step(g)[i] =~= g[i] by {
        assert forall|j: int| 0 <= j < width implies #[trigger] step(g)[i][j] == g[i][j] by {
            assert(neighbour_count(g, i, j) == 0);
        }
    }
    assert(step(g) =~= g);
}

} // verus!
