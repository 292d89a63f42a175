//! The engine's laws: properties that hold of every board and every
//! controller state, stated over the same models the functions' contracts
//! use, and proved once and for all.

use vstd::prelude::*;

use crate::cell::Cell;
use crate::consts::UPDATE_TIME_STEP_MS;
use crate::gol::{dec_interval, GolView, Key, State};
use crate::universe::{dead_grid, lemma_grid_pointwise_eq, lemma_index, GridView};

verus! {

/// What one generation does to a single cell: the Conway rule applied to its
/// current state and live-neighbour count.
pub proof fn lemma_stepped_cell(g: GridView, x: int, y: int)
    requires
        g.wf(),
        g.in_bounds(x, y),
    ensures
        g.stepped().wf(),
        g.stepped().width == g.width,
        g.stepped().height == g.height,
        g.stepped().cell(x, y) == g.cell(x, y).next_spec(g.neighbours(x, y)),
{
    lemma_index(g.width, g.height, x, y);
}

/// Stability of the empty board: a board with every cell dead steps to a
/// board with every cell dead.
pub proof fn lemma_dead_board_stays_dead(g: GridView)
    requires
        g.wf(),
        g.all(Cell::Dead),
    ensures
        g.stepped().all(Cell::Dead),
        g.stepped() == g,
{
    assert forall|x: int, y: int| g.stepped().in_bounds(x, y) implies g.stepped().cell(x, y)
        == Cell::Dead by {
        lemma_stepped_cell(g, x, y);
        assert(g.neighbours(x, y) == 0);
    }
    lemma_grid_pointwise_eq(g.stepped(), g);
}

/// An alive cell with no live neighbour dies of underpopulation in one step.
pub proof fn lemma_isolated_cell_dies(g: GridView, x: int, y: int)
    requires
        g.wf(),
        g.in_bounds(x, y),
        g.cell(x, y) is Alive,
        g.neighbours(x, y) == 0,
    ensures
        g.stepped().cell(x, y) is Dead,
{
    lemma_stepped_cell(g, x, y);
}

/// Whether (x, y) belongs to the 2x2 block whose top-left corner is (bx, by).
pub open spec fn in_block(bx: int, by: int, x: int, y: int) -> bool {
    (x == bx || x == bx + 1) && (y == by || y == by + 1)
}

/// The board holds exactly the 2x2 block at (bx, by): those four cells are
/// alive and every other cell is dead.
pub open spec fn only_block_alive(g: GridView, bx: int, by: int) -> bool {
    forall|x: int, y: int|
        g.in_bounds(x, y) ==> g.cell(x, y) == (if in_block(bx, by, x, y) {
            Cell::Alive
        } else {
            Cell::Dead
        })
}

/// The 2x2 block is a still life: each of its cells has exactly 3 live
/// neighbours and survives, every other cell has at most 2 and stays dead,
/// so one step leaves the board unchanged.
pub proof fn lemma_block_still_life(g: GridView, bx: int, by: int)
    requires
        g.wf(),
        0 <= bx,
        bx + 1 < g.width,
        0 <= by,
        by + 1 < g.height,
        only_block_alive(g, bx, by),
    ensures
        g.stepped() == g,
{
    assert forall|x: int, y: int| g.in_bounds(x, y) implies g.stepped().cell(x, y) == g.cell(
        x,
        y,
    ) by {
        lemma_stepped_cell(g, x, y);
        if in_block(bx, by, x, y) {
            assert(g.neighbours(x, y) == 3);
        } else {
            assert(g.neighbours(x, y) != 3);
        }
    }
    lemma_grid_pointwise_eq(g.stepped(), g);
}

/// Whether (x, y) belongs to the horizontal 3-cell line centred at (cx, cy).
pub open spec fn in_hline(cx: int, cy: int, x: int, y: int) -> bool {
    y == cy && (x == cx - 1 || x == cx || x == cx + 1)
}

/// Whether (x, y) belongs to the vertical 3-cell line centred at (cx, cy).
pub open spec fn in_vline(cx: int, cy: int, x: int, y: int) -> bool {
    x == cx && (y == cy - 1 || y == cy || y == cy + 1)
}

/// The board holds exactly the horizontal blinker centred at (cx, cy).
pub open spec fn only_hline_alive(g: GridView, cx: int, cy: int) -> bool {
    forall|x: int, y: int|
        g.in_bounds(x, y) ==> g.cell(x, y) == (if in_hline(cx, cy, x, y) {
            Cell::Alive
        } else {
            Cell::Dead
        })
}

/// The board holds exactly the vertical blinker centred at (cx, cy).
pub open spec fn only_vline_alive(g: GridView, cx: int, cy: int) -> bool {
    forall|x: int, y: int|
        g.in_bounds(x, y) ==> g.cell(x, y) == (if in_vline(cx, cy, x, y) {
            Cell::Alive
        } else {
            Cell::Dead
        })
}

/// A horizontal blinker, far enough from the edges that its whole bounding
/// box lies on the board, flips to a vertical blinker in one step.
pub proof fn lemma_hline_steps_to_vline(g: GridView, cx: int, cy: int)
    requires
        g.wf(),
        1 <= cx,
        cx + 1 < g.width,
        1 <= cy,
        cy + 1 < g.height,
        only_hline_alive(g, cx, cy),
    ensures
        g.stepped().wf(),
        g.stepped().width == g.width,
        g.stepped().height == g.height,
        only_vline_alive(g.stepped(), cx, cy),
{
    assert forall|x: int, y: int| g.stepped().in_bounds(x, y) implies g.stepped().cell(x, y) == (
    if in_vline(cx, cy, x, y) {
        Cell::Alive
    } else {
        Cell::Dead
    }) by {
        lemma_stepped_cell(g, x, y);
        if in_vline(cx, cy, x, y) {
            if y == cy {
                assert(g.neighbours(x, y) == 2);
            } else {
                assert(g.neighbours(x, y) == 3);
            }
        } else {
            assert(g.neighbours(x, y) != 3 || g.cell(x, y) is Dead);
            if g.cell(x, y) is Alive {
                assert(g.neighbours(x, y) == 1);
            }
        }
    }
    lemma_index(g.width, g.height, cx, cy);
}

/// A vertical blinker, far enough from the edges, flips to a horizontal
/// blinker in one step.
pub proof fn lemma_vline_steps_to_hline(g: GridView, cx: int, cy: int)
    requires
        g.wf(),
        1 <= cx,
        cx + 1 < g.width,
        1 <= cy,
        cy + 1 < g.height,
        only_vline_alive(g, cx, cy),
    ensures
        g.stepped().wf(),
        g.stepped().width == g.width,
        g.stepped().height == g.height,
        only_hline_alive(g.stepped(), cx, cy),
{
    assert forall|x: int, y: int| g.stepped().in_bounds(x, y) implies g.stepped().cell(x, y) == (
    if in_hline(cx, cy, x, y) {
        Cell::Alive
    } else {
        Cell::Dead
    }) by {
        lemma_stepped_cell(g, x, y);
        if in_hline(cx, cy, x, y) {
            if x == cx {
                assert(g.neighbours(x, y) == 2);
            } else {
                assert(g.neighbours(x, y) == 3);
            }
        } else {
            if g.cell(x, y) is Alive {
                assert(g.neighbours(x, y) == 1);
            }
        }
    }
    lemma_index(g.width, g.height, cx, cy);
}

/// The blinker is a period-2 oscillator: a horizontal blinker becomes a
/// vertical one after one step and is back to horizontal — the very same
/// board — after two.
pub proof fn lemma_blinker_period_two(g: GridView, cx: int, cy: int)
    requires
        g.wf(),
        1 <= cx,
        cx + 1 < g.width,
        1 <= cy,
        cy + 1 < g.height,
        only_hline_alive(g, cx, cy),
    ensures
        only_vline_alive(g.stepped(), cx, cy),
        g.stepped().stepped() == g,
{
    lemma_hline_steps_to_vline(g, cx, cy);
    lemma_vline_steps_to_hline(g.stepped(), cx, cy);
    lemma_grid_pointwise_eq(g.stepped().stepped(), g);
}

/// Resizing preserves the overlap and exposes only dead cells: every cell of
/// the region common to the old and new dimensions keeps its value, and every
/// cell of the new board outside the old dimensions is dead.
pub proof fn lemma_resize_preserves_overlap(g: GridView, nw: nat, nh: nat)
    requires
        g.wf(),
        nw >= 1,
        nh >= 1,
    ensures
        g.resized(nw, nh).wf(),
        g.resized(nw, nh).width == nw,
        g.resized(nw, nh).height == nh,
        forall|x: int, y: int|
            0 <= x < nw && 0 <= y < nh && x < g.width && y < g.height ==> g.resized(nw, nh).cell(
                x,
                y,
            ) == g.cell(x, y),
        forall|x: int, y: int|
            0 <= x < nw && 0 <= y < nh && !(x < g.width && y < g.height) ==> g.resized(
                nw,
                nh,
            ).cell(x, y) == Cell::Dead,
{
    assert forall|x: int, y: int| 0 <= x < nw && 0 <= y < nh implies g.resized(nw, nh).cell(x, y)
        == (if x < g.width && y < g.height {
        g.cell(x, y)
    } else {
        Cell::Dead
    }) by {
        lemma_index(nw, nh, x, y);
    }
}

/// Inverting the board twice gives the original board back.
pub proof fn lemma_invert_involution(g: GridView)
    requires
        g.wf(),
    ensures
        g.inverted().inverted() == g,
{
    assert forall|i: int| 0 <= i < g.cells.len() implies g.inverted().inverted().cells[i]
        == g.cells[i] by {
        assert(g.cells[i].flip_spec().flip_spec() == g.cells[i]);
    }
    assert(g.inverted().inverted().cells =~= g.cells);
    assert(g.inverted().inverted() =~= g);
}

/// Filling with dead cells is terminal: whatever the board held before — in
/// particular after a fill with live cells — the result is the all-dead board
/// of the same dimensions.
pub proof fn lemma_fill_dead_terminal(g: GridView)
    requires
        g.wf(),
    ensures
        g.filled(Cell::Alive).filled(Cell::Dead) == dead_grid(g.width, g.height),
        g.filled(Cell::Dead) == dead_grid(g.width, g.height),
        dead_grid(g.width, g.height).all(Cell::Dead),
{
    assert(g.filled(Cell::Alive).filled(Cell::Dead).cells =~= dead_grid(
        g.width,
        g.height,
    ).cells);
    assert(g.filled(Cell::Alive).filled(Cell::Dead) =~= dead_grid(g.width, g.height));
    assert(g.filled(Cell::Dead).cells =~= dead_grid(g.width, g.height).cells);
    assert(g.filled(Cell::Dead) =~= dead_grid(g.width, g.height));
    assert forall|x: int, y: int|
        dead_grid(g.width, g.height).in_bounds(x, y) implies dead_grid(g.width, g.height).cell(
        x,
        y,
    ) == Cell::Dead by {
        lemma_index(g.width, g.height, x, y);
    }
}

/// The mode state machine: from design mode, Space toggles to simulation and
/// a second Space toggles back; in help mode, Space changes nothing at all;
/// Escape leaves help mode for design mode and is a no-op everywhere else.
pub proof fn lemma_mode_machine(v: GolView)
    ensures
        v.state is DesignMode ==> v.key_model(Some(Key::Space)).state is SimulationMode,
        v.state is SimulationMode ==> v.key_model(Some(Key::Space)).state is DesignMode,
        v.key_model(Some(Key::Space)).key_model(Some(Key::Space)).state == v.state,
        v.state is HelpMode ==> v.key_model(Some(Key::Space)) == v,
        v.state is HelpMode ==> v.key_model(Some(Key::Escape)).state is DesignMode,
        !(v.state is HelpMode) ==> v.key_model(Some(Key::Escape)) == v,
{
}

/// `n` decrement events applied to the simulation interval.
pub open spec fn dec_interval_n(cap: nat, n: nat) -> nat
    decreases n,
{
    if n == 0 {
        cap
    } else {
        dec_interval(dec_interval_n(cap, (n - 1) as nat))
    }
}

/// The simulation interval never goes below zero, no matter how many
/// decrement events are applied: after `n` of them it is exactly the original
/// interval less `n` steps, floored at zero.
pub proof fn lemma_interval_floor(cap: nat, n: nat)
    ensures
        dec_interval_n(cap, n) == if cap >= n * UPDATE_TIME_STEP_MS {
            (cap - n * UPDATE_TIME_STEP_MS) as nat
        } else {
            0nat
        },
        dec_interval_n(cap, n) >= 0,
    decreases n,
{
    if n > 0 {
        lemma_interval_floor(cap, (n - 1) as nat);
        assert((n - 1) * UPDATE_TIME_STEP_MS + UPDATE_TIME_STEP_MS == n * UPDATE_TIME_STEP_MS)
            by (nonlinear_arith);
    }
}

} // verus!
