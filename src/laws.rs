//! Facts about whole generations that follow from the transition rule.

use crate::game::{lemma_split_index, lemma_wrap_in_grid, lemma_wrap_steps, Cell, Game};
use vstd::prelude::*;

verus! {

/// A board with no live cell stays without one: no dead cell can have three
/// live neighbours.
pub proof fn lemma_dead_board_stays_dead(g: Game)
    requires
        g.wf(),
        forall|i: int| 0 <= i < g.cells@.len() ==> g.cells@[i] == Cell::Dead,
    ensures
        g.next_cells().len() == g.cells@.len(),
        forall|i: int| 0 <= i < g.next_cells().len() ==> g.next_cells()[i] == Cell::Dead,
{
    let w = g.width as int;
    let h = g.height as int;
    assert forall|i: int| 0 <= i < g.next_cells().len() implies g.next_cells()[i]
        == Cell::Dead by {
        lemma_split_index(i, w, h);
        let x = i % w;
        let y = i / w;
        assert forall|a: int, b: int| #[trigger] g.alive_at(a, b) == 0 by {
            lemma_wrap_in_grid(a, b, w, h);
        }
        assert(g.live_neighbours(x, y) == 0);
    }
}

/// Opposite corners of a non-empty grid touch diagonally: a live cell at
/// `(width - 1, height - 1)` is counted as a neighbour of the cell at `(0, 0)`,
/// and a live cell at `(0, 0)` as a neighbour of the one at
/// `(width - 1, height - 1)`, both axes wrapping at once.
pub proof fn lemma_corners_are_neighbours(g: Game)
    requires
        g.wf(),
        g.width > 0,
        g.height > 0,
    ensures
        g.cell(g.width - 1, g.height - 1) == Cell::Alive ==> g.alive_at(0 - 1, 0 - 1) == 1
            && g.live_neighbours(0, 0) >= 1,
        g.cell(0, 0) == Cell::Alive ==> g.alive_at(g.width as int, g.height as int) == 1
            && g.live_neighbours(g.width - 1, g.height - 1) >= 1,
{
    let w = g.width as int;
    let h = g.height as int;
    lemma_wrap_steps(0, w);
    lemma_wrap_steps(0, h);
    lemma_wrap_steps(w - 1, w);
    lemma_wrap_steps(h - 1, h);
    assert forall|a: int, b: int| 0 <= #[trigger] g.alive_at(a, b) <= 1 by {}
}

/// The cell at `(x, y)` of a board whose only live cells form the 2 x 2 block
/// with top-left cell `(bx, by)`.
pub open spec fn block_pattern(bx: int, by: int, x: int, y: int) -> Cell {
    if (x == bx || x == bx + 1) && (y == by || y == by + 1) {
        Cell::Alive
    } else {
        Cell::Dead
    }
}

/// A 2 x 2 block of live cells on an otherwise dead grid of at least 4 x 4
/// cells is a still life: the next generation equals the current one.
pub proof fn lemma_block_is_still_life(g: Game, bx: int, by: int)
    requires
        g.wf(),
        g.width >= 4,
        g.height >= 4,
        0 <= bx,
        bx + 1 < g.width,
        0 <= by,
        by + 1 < g.height,
        forall|x: int, y: int|
            0 <= x < g.width && 0 <= y < g.height ==> #[trigger] g.cell(x, y) == block_pattern(
                bx,
                by,
                x,
                y,
            ),
    ensures
        g.next_cells() == g.cells@,
{
    let w = g.width as int;
    let h = g.height as int;
    assert forall|i: int| 0 <= i < g.cells@.len() implies #[trigger] g.next_cell(i)
        == g.cells@[i] by {
        lemma_split_index(i, w, h);
        let x = i % w;
        let y = i / w;
        lemma_wrap_steps(x, w);
        lemma_wrap_steps(y, h);
        assert(g.cells@[i] == g.cell(x, y));
    }
    assert(g.next_cells() =~= g.cells@);
}

} // verus!
