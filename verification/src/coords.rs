//! The coordinate mapper: from a pixel position, a grid origin and a
//! uniform cell size to a board cell index, and the inverse placement
//! formula used to position a sprite on an occupied cell.

use vstd::prelude::*;
use vstd::arithmetic::div_mod::lemma_div_is_ordered;
use vstd::arithmetic::div_mod::lemma_fundamental_div_mod;
use vstd::arithmetic::div_mod::lemma_fundamental_div_mod_converse;
use vstd::arithmetic::div_mod::lemma_mod_bound;

verus! {

/// Side length of one board cell, in pixels.
pub const CELL_SIZE: u32 = 150;

/// Offset of the grid's top-left corner from the window's top-left
/// corner, in pixels, the same on both axes.
pub const PADDING: u32 = 50;

/// The cell under pixel `(x, y)` for a grid anchored at `(ax, ay)` with
/// cells of side `cs`: `Some(row * 3 + col)` by zero-based floor division
/// when the pixel lies inside the 3x3 grid, `None` otherwise.
pub open spec fn cell_at(x: int, y: int, ax: int, ay: int, cs: int) -> Option<usize>
    recommends
        cs > 0,
{
    if x < ax || y < ay {
        Option::None
    } else {
        let col = (x - ax) / cs;
        let row = (y - ay) / cs;
        if col < 3 && row < 3 {
            Option::Some((3 * row + col) as usize)
        } else {
            Option::None
        }
    }
}

/// Maps a pixel position to the board cell under it, or `None` when the
/// position lies outside the 3x3 grid.
pub fn cell_from_coord(x: u32, y: u32, anchor: (u32, u32), cellsize: u32) -> (r: Option<usize>)
    requires
        cellsize > 0,
    ensures
        r == cell_at(x as int, y as int, anchor.0 as int, anchor.1 as int, cellsize as int),
        r matches Option::Some(i) ==> i < 9,
{
    if x < anchor.0 || y < anchor.1 {
        return Option::None;
    }
    let col = ((x - anchor.0) / cellsize) as usize;
    let row = ((y - anchor.1) / cellsize) as usize;
    if col < 3 && row < 3 {
        Option::Some(3 * row + col)
    } else {
        Option::None
    }
}

/// Maps a pixel position known to lie inside the 3x3 grid to its cell
/// index, computing the index through one-based row and column numbers.
pub fn id_from_coord(x: u32, y: u32, anchor: (u32, u32), cellsize: u32) -> (id: usize)
    requires
        cellsize > 0,
        anchor.0 <= x < anchor.0 + 3 * cellsize,
        anchor.1 <= y < anchor.1 + 3 * cellsize,
    ensures
        Option::Some(id) == cell_at(
            x as int,
            y as int,
            anchor.0 as int,
            anchor.1 as int,
            cellsize as int,
        ),
        id < 9,
{
    proof {
        lemma_in_grid_col_row_bounds(x as int, y as int, anchor.0 as int, anchor.1 as int,
            cellsize as int);
    }
    let h_padd = ((x - anchor.0) / cellsize) as usize + 1;
    let v_padd = ((y - anchor.1) / cellsize) as usize + 1;
    3 * v_padd - (3 - h_padd) - 1
}

/// Inside the grid, the zero-based column and row given by floor division
/// are both below three.
proof fn lemma_in_grid_col_row_bounds(x: int, y: int, ax: int, ay: int, cs: int)
    requires
        cs > 0,
        ax <= x < ax + 3 * cs,
        ay <= y < ay + 3 * cs,
    ensures
        0 <= (x - ax) / cs < 3,
        0 <= (y - ay) / cs < 3,
{
    lemma_fundamental_div_mod_converse(3 * cs - 1, cs, 2, cs - 1);
    lemma_div_is_ordered(0, x - ax, cs);
    lemma_div_is_ordered(x - ax, 3 * cs - 1, cs);
    lemma_div_is_ordered(0, y - ay, cs);
    lemma_div_is_ordered(y - ay, 3 * cs - 1, cs);
}

/// The top-left pixel of the rectangle in which the sprite for cell
/// `index` is drawn: the grid anchor plus `(col, row) * CELL_SIZE`.
pub fn sprite_dest(index: usize) -> (d: (u32, u32))
    requires
        index < 9,
    ensures
        d.0 == PADDING + (index as int % 3) * CELL_SIZE,
        d.1 == PADDING + (index as int / 3) * CELL_SIZE,
{
    proof {
        lemma_mod_bound(index as int, 3);
        lemma_div_is_ordered(index as int, 8, 3);
    }
    let col = (index % 3) as u32;
    let row = (index / 3) as u32;
    (PADDING + col * CELL_SIZE, PADDING + row * CELL_SIZE)
}

/// Round trip between the renderer's placement formula and the coordinate
/// mapper: for any cell index and any grid geometry, the pixel at the
/// center of that cell's rendered rectangle maps back to the same index.
pub proof fn lemma_center_round_trip(i: usize, ax: int, ay: int, cs: int)
    requires
        i < 9,
        cs >= 1,
        ax >= 0,
        ay >= 0,
    ensures
        ({
            let col = i as int % 3;
            let row = i as int / 3;
            cell_at(ax + col * cs + cs / 2, ay + row * cs + cs / 2, ax, ay, cs)
                == Option::Some(i)
        }),
{
    let col = i as int % 3;
    let row = i as int / 3;
    let half = cs / 2;
    lemma_mod_bound(i as int, 3);
    lemma_div_is_ordered(0, i as int, 3);
    lemma_div_is_ordered(i as int, 8, 3);
    lemma_fundamental_div_mod(cs, 2);
    lemma_mod_bound(cs, 2);
    lemma_div_is_ordered(0, cs, 2);
    assert(0 <= half < cs);
    lemma_fundamental_div_mod_converse(col * cs + half, cs, col, half);
    lemma_fundamental_div_mod_converse(row * cs + half, cs, row, half);
    lemma_fundamental_div_mod(i as int, 3);
    assert(3 * row + col == i);
}

} // verus!
