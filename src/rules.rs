use vstd::prelude::*;

verus! {

/// The largest age a cell can reach; older cells keep this age.
pub const MAX_AGE: u32 = 0xffff_ffff;

/// The age one generation later, held at `MAX_AGE` once it is reached.
pub open spec fn older(age: u32) -> u32 {
    if age == MAX_AGE {
        age
    } else {
        (age + 1) as u32
    }
}

/// The age of a cell in the next generation, given its age now and the
/// number `n` of its living neighbours.
///
/// - 0 or 1 neighbours: the cell dies of isolation.
/// - 2 neighbours: a living cell survives and ages, a dead one stays dead.
/// - 3 neighbours: the cell is alive and one generation older (a dead cell
///   is born with age 1).
/// - 4 or more neighbours: the cell dies of overcrowding.
pub open spec fn next_age(age: u32, n: int) -> u32 {
    if n <= 1 {
        0
    } else if n == 2 {
        if age > 0 {
            older(age)
        } else {
            0
        }
    } else if n == 3 {
        older(age)
    } else {
        0
    }
}

/// Every row of `g` holds `width` cells.
pub open spec fn is_grid(g: Seq<Seq<u32>>, width: nat) -> bool {
    forall|i: int| 0 <= i < g.len() ==> #[trigger] g[i].len() == width
}

/// The grid of `height` rows of `width` dead cells.
pub open spec fn dead_grid(height: nat, width: nat) -> Seq<Seq<u32>> {
    Seq::new(height, |_i: int| Seq::new(width, |_j: int| 0u32))
}

/// 1 where position (`r`, `c`) lies inside `g` and holds a living cell, else 0.
pub open spec fn live(g: Seq<Seq<u32>>, r: int, c: int) -> int {
    if 0 <= r < g.len() && 0 <= c < g[r].len() && g[r][c] > 0 {
        1
    } else {
        0
    }
}

/// The number of living cells among the eight positions around (`r`, `c`);
/// positions outside the grid count as dead.
pub open spec fn neighbour_count(g: Seq<Seq<u32>>, r: int, c: int) -> int {
    live(g, r - 1, c - 1) + live(g, r - 1, c) + live(g, r - 1, c + 1)
        + live(g, r, c - 1) + live(g, r, c + 1)
        + live(g, r + 1, c - 1) + live(g, r + 1, c) + live(g, r + 1, c + 1)
}

/// The next generation of `g`: every cell follows `next_age` with its
/// neighbours counted in `g`, all at once.
pub open spec fn step(g: Seq<Seq<u32>>) -> Seq<Seq<u32>> {
    Seq::new(
        g.len(),
        |i: int| Seq::new(g[i].len(), |j: int| next_age(g[i][j], neighbour_count(g, i, j))),
    )
}

/// Applies the birth, survival and death rules to one cell.
pub fn apply_rules(age: u32, neighbours: u32) -> (r: u32)
    ensures
        r == next_age(age, neighbours as int),
{
    match neighbours {
        0 | 1 => 0,
        2 => {
            if age > 0 {
                age.saturating_add(1)
            } else {
                0
            }
        },
        3 => age.saturating_add(1),
        _ => 0,
    }
}

} // verus!
