//! Which cell of the sprite sheet to draw, and where on the screen.
//!
//! The sheet is a grid of cells of one size. A row holds the frames of one
//! direction, a column one frame of the walk cycle. The player is drawn
//! around the point that lies its position away from the middle of the
//! viewport.

use crate::direction::{direction_spritesheet_row, SHEET_ROWS};
use crate::geometry::{clamp_position, in_position_range, Point, PointView, Rect, RectView};
use crate::player::{Player, PlayerView, FRAMES_PER_DIRECTION};
use vstd::prelude::*;

verus! {

/// How the sprite sheet is laid out: `cell` is the cell of the first frame
/// in the first row. Its corner is where the grid starts and its size is the
/// size of every cell.
#[derive(Clone, Copy, Debug, PartialEq, Eq, Structural)]
pub struct SpriteSheetLayout {
    pub cell: Rect,
}

impl SpriteSheetLayout {
    /// The first cell is a rectangle of the grid.
    pub open spec fn wf(&self) -> bool {
        self.cell.wf()
    }

    /// Whether the first cell is a rectangle of the grid: what `wf` says,
    /// computed.
    pub fn is_valid(&self) -> (ok: bool)
        ensures
            ok == self.wf(),
    {
        self.cell.is_valid()
    }

    /// The layout whose grid starts at `(0, 0)` with cells of the given
    /// size. A size of zero counts as one.
    pub fn new(cell_width: u32, cell_height: u32) -> (layout: SpriteSheetLayout)
        ensures
            layout.wf(),
            layout.cell@ == (RectView {
                x: 0,
                y: 0,
                width: cell_width as int,
                height: cell_height as int,
            }).clamped(),
    {
        SpriteSheetLayout { cell: Rect::new(0, 0, cell_width, cell_height) }
    }
}

/// The two rectangles of one draw call: `source` is cut out of the sprite
/// sheet and drawn into `dest` on the screen.
#[derive(Clone, Copy, Debug, PartialEq, Eq, Structural)]
pub struct DrawInstruction {
    pub source: Rect,
    pub dest: Rect,
}

/// The cell of the sheet that shows `player`: in the column of its frame
/// and the row of its direction.
pub open spec fn source_cell(player: PlayerView, cell: RectView) -> RectView {
    RectView {
        x: clamp_position(cell.x + cell.width * player.current_frame),
        y: clamp_position(cell.y + cell.height * player.direction.sheet_row()),
        width: cell.width,
        height: cell.height,
    }
}

/// The point of the screen around which the player is drawn: its position,
/// counted from the middle of the viewport.
pub open spec fn screen_position(player: PlayerView, viewport: (int, int)) -> PointView {
    let middle = (PointView { x: viewport.0 / 2, y: viewport.1 / 2 }).clamped();
    player.position.offset(middle.x, middle.y)
}

/// The rectangle of the screen into which the player is drawn: as large as
/// a cell of the sheet, around the player's place on the screen.
pub open spec fn dest_cell(player: PlayerView, viewport: (int, int), cell: RectView) -> RectView {
    RectView::centered_on(screen_position(player, viewport), cell.width, cell.height)
}

/// Says which cell of the sheet to draw for `player` and where to draw it
/// in a viewport of `viewport.0` by `viewport.1` pixels.
pub fn compute_draw_instruction(
    player: &Player,
    viewport: (u32, u32),
    sheet: &SpriteSheetLayout,
) -> (draw: DrawInstruction)
    requires
        player.wf(),
        sheet.wf(),
    ensures
        draw.source.wf(),
        draw.dest.wf(),
        draw.source@ == source_cell(player@, sheet.cell@),
        draw.dest@ == dest_cell(player@, (viewport.0 as int, viewport.1 as int), sheet.cell@),
{
    let (frame_width, frame_height) = sheet.cell.size();
    let row: i32 = direction_spritesheet_row(player.direction);
    assert(0 <= frame_width * player.current_frame <= 2 * frame_width) by (nonlinear_arith)
        requires
            0 <= player.current_frame <= 2,
            0 <= frame_width,
    ;
    assert(0 <= frame_height * row <= 3 * frame_height) by (nonlinear_arith)
        requires
            0 <= row <= 3,
            0 <= frame_height,
    ;
    let column_x: i64 = sheet.cell.x as i64 + frame_width as i64 * player.current_frame as i64;
    let row_y: i64 = sheet.cell.y as i64 + frame_height as i64 * row as i64;
    let source = Rect {
        x: crate::geometry::position_from(column_x),
        y: crate::geometry::position_from(row_y),
        width: frame_width,
        height: frame_height,
    };
    let middle = Point::new((viewport.0 / 2) as i32, (viewport.1 / 2) as i32);
    let on_screen = player.position.offset(middle.x, middle.y);
    let dest = Rect::from_center(on_screen, frame_width, frame_height);
    DrawInstruction { source, dest }
}

/// The cell that is drawn lies within the sheet's grid of
/// `FRAMES_PER_DIRECTION` columns and `SHEET_ROWS` rows, in the row of the
/// player's direction, as long as that grid fits on the coordinate grid.
pub proof fn source_within_sheet(player: PlayerView, cell: RectView)
    requires
        player.valid(),
        cell.in_range(),
        in_position_range(cell.x + FRAMES_PER_DIRECTION * cell.width),
        in_position_range(cell.y + SHEET_ROWS * cell.height),
    ensures
        source_cell(player, cell).x == cell.x + cell.width * player.current_frame,
        source_cell(player, cell).y == cell.y + cell.height * player.direction.sheet_row(),
        cell.x <= source_cell(player, cell).x,
        source_cell(player, cell).x + cell.width <= cell.x + FRAMES_PER_DIRECTION * cell.width,
        cell.y <= source_cell(player, cell).y,
        source_cell(player, cell).y + cell.height <= cell.y + SHEET_ROWS * cell.height,
        source_cell(player, cell).in_range(),
{
    let f = player.current_frame;
    let r = player.direction.sheet_row();
    assert(0 <= cell.width * f <= 2 * cell.width) by (nonlinear_arith)
        requires
            0 <= f <= 2,
            0 <= cell.width,
    ;
    assert(0 <= cell.height * r <= 3 * cell.height) by (nonlinear_arith)
        requires
            0 <= r <= 3,
            0 <= cell.height,
    ;
}

/// The player is drawn around the point that lies its position away from
/// the middle of the viewport, as long as neither that point nor the corner
/// of the rectangle around it leaves the coordinate grid.
pub proof fn dest_centered_on_player(player: PlayerView, viewport: (int, int), cell: RectView)
    requires
        player.valid(),
        cell.in_range(),
        0 <= viewport.0,
        0 <= viewport.1,
        in_position_range(viewport.0 / 2),
        in_position_range(viewport.1 / 2),
        in_position_range(player.position.x + viewport.0 / 2),
        in_position_range(player.position.y + viewport.1 / 2),
        in_position_range(player.position.x + viewport.0 / 2 - cell.width / 2),
        in_position_range(player.position.y + viewport.1 / 2 - cell.height / 2),
    ensures
        dest_cell(player, viewport, cell).center() == (PointView {
            x: player.position.x + viewport.0 / 2,
            y: player.position.y + viewport.1 / 2,
        }),
        dest_cell(player, viewport, cell).width == cell.width,
        dest_cell(player, viewport, cell).height == cell.height,
{
}

} // verus!
