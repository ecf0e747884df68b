//! Where a tile lands on screen, in pixels.
//!
//! The renderer wants two corners: where to put the tile on screen and where
//! to cut its picture out of the tile sheet. Both are a cell position scaled
//! by the size of a tile.

use vstd::prelude::*;

verus! {

/// The pixel coordinates that the renderer needs to draw one tile.
#[derive(Clone, Copy, Debug, PartialEq, Eq, Structural)]
pub struct TilePlacement {
    /// Left edge of the tile on screen.
    pub screen_x: i32,
    /// Top edge of the tile on screen.
    pub screen_y: i32,
    /// Left edge of the tile's picture in the tile sheet.
    pub sheet_x: i32,
    /// Top edge of the tile's picture in the tile sheet.
    pub sheet_y: i32,
    /// Width of a tile.
    pub width: i32,
    /// Height of a tile.
    pub height: i32,
}

/// A cell position scaled by a tile size, where the product is an `i32`.
pub open spec fn scaled(cell: int, size: int) -> Option<i32> {
    if i32::MIN <= cell * size <= i32::MAX {
        Some((cell * size) as i32)
    } else {
        None
    }
}

/// The placement of the tile in grid cell `(x, y)` whose picture is in sheet
/// cell `(tx, ty)`, for tiles `w` wide and `h` high; `None` where one of the
/// four pixel coordinates is no `i32`.
pub open spec fn placement_of(x: int, y: int, w: int, h: int, tx: int, ty: int) -> Option<
    TilePlacement,
> {
    match (scaled(x, w), scaled(y, h), scaled(tx, w), scaled(ty, h)) {
        (Some(screen_x), Some(screen_y), Some(sheet_x), Some(sheet_y)) => Some(
            TilePlacement {
                screen_x,
                screen_y,
                sheet_x,
                sheet_y,
                width: w as i32,
                height: h as i32,
            },
        ),
        _ => None,
    }
}

/// Computes where to draw the tile in grid cell `(x, y)` whose picture is in
/// sheet cell `(tx, ty)`, for tiles `w` pixels wide and `h` pixels high.
pub fn tile_placement(x: i32, y: i32, w: i32, h: i32, tx: i32, ty: i32) -> (placed: Option<
    TilePlacement,
>)
    ensures
        placed == placement_of(x as int, y as int, w as int, h as int, tx as int, ty as int),
{
    let screen_x = match x.checked_mul(w) {
        Some(v) => v,
        None => { return None; },
    };
    let screen_y = match y.checked_mul(h) {
        Some(v) => v,
        None => { return None; },
    };
    let sheet_x = match tx.checked_mul(w) {
        Some(v) => v,
        None => { return None; },
    };
    let sheet_y = match ty.checked_mul(h) {
        Some(v) => v,
        None => { return None; },
    };
    Some(TilePlacement { screen_x, screen_y, sheet_x, sheet_y, width: w, height: h })
}

} // verus!
