//! What the renderer reads: the symbol of each grid cell, and the block of
//! cells visible around the player.

use crate::foundation::Position;
use crate::tapestry::Tapestry;
use crate::threads::{ThreadId, ThreadKind};
use vstd::prelude::*;

verus! {

pub const PLAYER_SYMBOL: char = '@';

pub const REGION_SYMBOL: char = '\u{b7}';

pub const NPC_SYMBOL: char = 'N';

pub const EMPTY_SYMBOL: char = ' ';

pub open spec fn kind_symbol(kind: ThreadKind) -> char {
    match kind {
        ThreadKind::Player { .. } => PLAYER_SYMBOL,
        ThreadKind::Region { .. } => REGION_SYMBOL,
        ThreadKind::Npc { .. } => NPC_SYMBOL,
    }
}

/// The symbol drawn at `cell`: the player's own cell shows the player, any
/// other shows the thread found there, or nothing.
pub open spec fn cell_symbol_of<S>(t: Tapestry<S>, player_pos: Position, cell: Position) -> char {
    if cell == player_pos {
        PLAYER_SYMBOL
    } else {
        match t.lookup_at(cell) {
            Some(thread) => kind_symbol(thread.kind),
            None => EMPTY_SYMBOL,
        }
    }
}

/// Where the view is centred: the player's position, or the origin where the
/// player is missing or has none.
pub open spec fn view_center_of<S>(t: Tapestry<S>, player_id: ThreadId) -> Position {
    match t.lookup(player_id) {
        Some(thread) => match thread.position {
            Some(p) => p,
            None => Position { x: 0, y: 0 },
        },
        None => Position { x: 0, y: 0 },
    }
}

/// The symbol at column `col` and row `row` of a `width` by `height` view
/// centred on `center`. Cells beyond the coordinates a position can hold
/// are empty.
pub open spec fn view_cell<S>(
    t: Tapestry<S>,
    center: Position,
    width: int,
    height: int,
    col: int,
    row: int,
) -> char {
    let x = center.x - width / 2 + col;
    let y = center.y - height / 2 + row;
    if i32::MIN <= x <= i32::MAX && i32::MIN <= y <= i32::MAX {
        cell_symbol_of(t, center, Position { x: x as i32, y: y as i32 })
    } else {
        EMPTY_SYMBOL
    }
}

/// Classifies one grid cell for drawing.
pub fn cell_symbol<S>(tapestry: &Tapestry<S>, player_pos: Position, cell: Position) -> (r: char)
    ensures
        r == cell_symbol_of(*tapestry, player_pos, cell),
{
    if cell == player_pos {
        PLAYER_SYMBOL
    } else {
        match tapestry.get_thread_at(cell) {
            Some(thread) => match thread.kind {
                ThreadKind::Player { .. } => PLAYER_SYMBOL,
                ThreadKind::Region { .. } => REGION_SYMBOL,
                ThreadKind::Npc { .. } => NPC_SYMBOL,
            },
            None => EMPTY_SYMBOL,
        }
    }
}

/// The position the view is centred on.
pub fn view_center<S>(tapestry: &Tapestry<S>, player_id: ThreadId) -> (r: Position)
    ensures
        r == view_center_of(*tapestry, player_id),
{
    match tapestry.get_thread(player_id) {
        Some(thread) => match thread.position {
            Some(p) => p,
            None => Position::new(0, 0),
        },
        None => Position::new(0, 0),
    }
}

/// The symbols of a `width` by `height` view centred on the player, row by
/// row from the top.
pub fn view_rows<S>(tapestry: &Tapestry<S>, player_id: ThreadId, width: u16, height: u16) -> (r: Vec<
    Vec<char>,
>)
    ensures
        r@.len() == height,
        forall|row: int|
            0 <= row < height ==> #[trigger] r@[row]@.len() == width && forall|col: int|
                0 <= col < width ==> #[trigger] r@[row]@[col] == view_cell(
                    *tapestry,
                    view_center_of(*tapestry, player_id),
                    width as int,
                    height as int,
                    col,
                    row,
                ),
{
    let center = view_center(tapestry, player_id);
    let start_x: i64 = center.x as i64 - (width / 2) as i64;
    let start_y: i64 = center.y as i64 - (height / 2) as i64;
    let mut rows: Vec<Vec<char>> = Vec::new();
    let mut row: u16 = 0;
    while row < height
        invariant
            center == view_center_of(*tapestry, player_id),
            start_x == center.x - width / 2,
            start_y == center.y - height / 2,
            row <= height,
            rows@.len() == row,
            forall|k: int|
                0 <= k < row ==> #[trigger] rows@[k]@.len() == width && forall|col: int|
                    0 <= col < width ==> #[trigger] rows@[k]@[col] == view_cell(
                        *tapestry,
                        center,
                        width as int,
                        height as int,
                        col,
                        k,
                    ),
        decreases height - row,
    {
        let y: i64 = start_y + row as i64;
        let mut line: Vec<char> = Vec::new();
        let mut col: u16 = 0;
        while col < width
            invariant
                center == view_center_of(*tapestry, player_id),
                start_x == center.x - width / 2,
                y == center.y - height / 2 + row,
                col <= width,
                line@.len() == col,
                forall|c: int|
                    0 <= c < col ==> #[trigger] line@[c] == view_cell(
                        *tapestry,
                        center,
                        width as int,
                        height as int,
                        c,
                        row as int,
                    ),
            decreases width - col,
        {
            let x: i64 = start_x + col as i64;
            let symbol = if i32::MIN as i64 <= x && x <= i32::MAX as i64 && i32::MIN as i64 <= y
                && y <= i32::MAX as i64 {
                cell_symbol(tapestry, center, Position::new(x as i32, y as i32))
            } else {
                EMPTY_SYMBOL
            };
            line.push(symbol);
            col = col + 1;
        }
        rows.push(line);
        row = row + 1;
    }
    rows
}

} // verus!
