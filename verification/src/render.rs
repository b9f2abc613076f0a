//! What the console asks of the display.

use crate::graphic::{
    ScreenChar, FONT_HEIGHT, FONT_WIDTH, FRAME_BUFFER_HEIGHT, FRAME_BUFFER_WIDTH, TEXT_BUFFER_HEIGHT,
    TEXT_BUFFER_WIDTH,
};
use vstd::prelude::*;

verus! {

/// Number of pixel rows that a scroll moves: all but the topmost glyph row.
pub const SCROLLED_HEIGHT: usize = FRAME_BUFFER_HEIGHT - FONT_HEIGHT;

/// One request of the console to the display.
#[derive(Debug, Clone, Copy, PartialEq, Eq, Structural)]
pub enum DrawCommand {
    /// Switch the display into its graphics mode.
    SetMode,
    /// Fill the whole frame with one colour.
    ClearScreen { color: u8 },
    /// Paint the glyph block of the cell at `row`, `col`: the background
    /// first, the character on top of it.
    PaintCell { row: usize, col: usize, cell: ScreenChar },
    /// Move everything below the topmost text row up by one text row.
    ScrollUp,
}

/// One call of a framebuffer primitive. Coordinates are in pixels.
#[derive(Debug, Clone, Copy, PartialEq, Eq, Structural)]
pub enum DriverCall {
    SetMode,
    ClearScreen { color: u8 },
    SetPixel { x: usize, y: usize, color: u8 },
    DrawCharacter { x: usize, y: usize, character: char, color: u8 },
    /// Copy `count` pixel rows, starting at row `from`, to the rows starting
    /// at `to`, as one block.
    MoveRows { from: usize, to: usize, count: usize },
}

/// The `count` first calls that fill the glyph block of the cell at `row`,
/// `col` with `color`: one pixel each, the pixel rows from the top, each from
/// the left.
pub open spec fn fill_calls(row: usize, col: usize, color: u8, count: int) -> Seq<DriverCall> {
    Seq::new(
        count as nat,
        |k: int|
            DriverCall::SetPixel {
                x: (col * FONT_WIDTH + k % (FONT_WIDTH as int)) as usize,
                y: (row * FONT_HEIGHT + k / (FONT_WIDTH as int)) as usize,
                color,
            },
    )
}

impl DriverCall {
    /// The call touches no pixel beyond the frame.
    pub open spec fn in_frame(self) -> bool {
        match self {
            DriverCall::SetPixel { x, y, .. } => x < FRAME_BUFFER_WIDTH && y < FRAME_BUFFER_HEIGHT,
            DriverCall::DrawCharacter { x, y, .. } => x + FONT_WIDTH <= FRAME_BUFFER_WIDTH && y
                + FONT_HEIGHT <= FRAME_BUFFER_HEIGHT,
            DriverCall::MoveRows { from, to, count } => from + count <= FRAME_BUFFER_HEIGHT && to
                + count <= FRAME_BUFFER_HEIGHT,
            _ => true,
        }
    }

    /// Whether the call touches no pixel beyond the frame.
    pub fn fits(&self) -> (ok: bool)
        ensures
            ok == self.in_frame(),
    {
        match self {
            DriverCall::SetPixel { x, y, .. } => *x < FRAME_BUFFER_WIDTH && *y < FRAME_BUFFER_HEIGHT,
            DriverCall::DrawCharacter { x, y, .. } => *x <= FRAME_BUFFER_WIDTH - FONT_WIDTH && *y
                <= FRAME_BUFFER_HEIGHT - FONT_HEIGHT,
            DriverCall::MoveRows { from, to, count } => *count <= FRAME_BUFFER_HEIGHT && *from
                <= FRAME_BUFFER_HEIGHT - *count && *to <= FRAME_BUFFER_HEIGHT - *count,
            _ => true,
        }
    }
}

impl DrawCommand {
    /// A cell to paint lies on the grid.
    pub open spec fn wf(self) -> bool {
        match self {
            DrawCommand::PaintCell { row, col, .. } => row < TEXT_BUFFER_HEIGHT && col
                < TEXT_BUFFER_WIDTH,
            _ => true,
        }
    }

    /// The primitive calls that carry the command out, in order. A cell is
    /// painted by setting each pixel of its block to the background and then
    /// drawing the character over it in the foreground. A scroll is one block
    /// move of all pixel rows but the topmost glyph row.
    pub open spec fn calls(self) -> Seq<DriverCall> {
        match self {
            DrawCommand::SetMode => seq![DriverCall::SetMode],
            DrawCommand::ClearScreen { color } => seq![DriverCall::ClearScreen { color }],
            DrawCommand::PaintCell { row, col, cell } => fill_calls(
                row,
                col,
                cell.bg_color,
                FONT_HEIGHT * FONT_WIDTH,
            ).push(
                DriverCall::DrawCharacter {
                    x: (col * FONT_WIDTH) as usize,
                    y: (row * FONT_HEIGHT) as usize,
                    character: cell.character,
                    color: cell.fg_color,
                },
            ),
            DrawCommand::ScrollUp => seq![
                DriverCall::MoveRows { from: FONT_HEIGHT, to: 0, count: SCROLLED_HEIGHT },
            ],
        }
    }

    /// Whether the command is one that `lower` takes.
    pub fn fits(&self) -> (ok: bool)
        ensures
            ok == self.wf(),
    {
        match self {
            DrawCommand::PaintCell { row, col, .. } => *row < TEXT_BUFFER_HEIGHT && *col
                < TEXT_BUFFER_WIDTH,
            _ => true,
        }
    }

    /// The primitive calls that carry the command out, in order.
    pub fn lower(&self) -> (calls: Vec<DriverCall>)
        requires
            self.wf(),
        ensures
            calls@ == self.calls(),
            forall|i: int| 0 <= i < calls@.len() ==> (#[trigger] calls@[i]).in_frame(),
    {
        match self {
            DrawCommand::SetMode => vec![DriverCall::SetMode],
            DrawCommand::ClearScreen { color } => vec![DriverCall::ClearScreen { color: *color }],
            DrawCommand::PaintCell { row, col, cell } => {
                let mut calls: Vec<DriverCall> = Vec::new();
                let mut y: usize = 0;
                while y < FONT_HEIGHT
                    invariant
                        y <= FONT_HEIGHT,
                        *row < TEXT_BUFFER_HEIGHT,
                        *col < TEXT_BUFFER_WIDTH,
                        calls@ == fill_calls(*row, *col, cell.bg_color, y * FONT_WIDTH),
                    decreases FONT_HEIGHT - y,
                {
                    let mut x: usize = 0;
                    while x < FONT_WIDTH
                        invariant
                            y < FONT_HEIGHT,
                            x <= FONT_WIDTH,
                            *row < TEXT_BUFFER_HEIGHT,
                            *col < TEXT_BUFFER_WIDTH,
                            calls@ == fill_calls(*row, *col, cell.bg_color, y * FONT_WIDTH + x),
                        decreases FONT_WIDTH - x,
                    {
                        calls.push(
                            DriverCall::SetPixel {
                                x: *col * FONT_WIDTH + x,
                                y: *row * FONT_HEIGHT + y,
                                color: cell.bg_color,
                            },
                        );
                        x += 1;
                    }
                    y += 1;
                }
                calls.push(
                    DriverCall::DrawCharacter {
                        x: *col * FONT_WIDTH,
                        y: *row * FONT_HEIGHT,
                        character: cell.character,
                        color: cell.fg_color,
                    },
                );
                calls
            },
            DrawCommand::ScrollUp => vec![
                DriverCall::MoveRows { from: FONT_HEIGHT, to: 0, count: SCROLLED_HEIGHT },
            ],
        }
    }
}

/// The palette index of the backdrop at the pixel `x`, `y`: rings around the
/// middle of the frame, from the square of the distance to it.
pub open spec fn backdrop(x: int, y: int) -> int {
    let dx: int = x - FRAME_BUFFER_WIDTH / 2;
    let dy: int = y - FRAME_BUFFER_HEIGHT / 2;
    (dx * dx + dy * dy) / 24 % 0x32
}

/// The palette index of the backdrop at the pixel `x`, `y` of the frame.
pub fn backdrop_color(x: usize, y: usize) -> (color: u8)
    requires
        x < FRAME_BUFFER_WIDTH,
        y < FRAME_BUFFER_HEIGHT,
    ensures
        color == backdrop(x as int, y as int),
{
    let half_width: usize = FRAME_BUFFER_WIDTH / 2;
    let half_height: usize = FRAME_BUFFER_HEIGHT / 2;
    let dx: usize = if x >= half_width {
        x - half_width
    } else {
        half_width - x
    };
    let dy: usize = if y >= half_height {
        y - half_height
    } else {
        half_height - y
    };
    assert(dx * dx <= 160 * 160 && dx * dx == (x - 160) * (x - 160)) by (nonlinear_arith)
        requires
            dx <= 160,
            dx == x - 160 || dx == 160 - x,
    ;
    assert(dy * dy <= 120 * 120 && dy * dy == (y - 120) * (y - 120)) by (nonlinear_arith)
        requires
            dy <= 120,
            dy == y - 120 || dy == 120 - y,
    ;
    let rings: usize = (dx * dx + dy * dy) / 24 % 0x32;
    rings as u8
}

} // verus!
