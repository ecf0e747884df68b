use car_sim::placement::{tile_placement, TilePlacement};
use car_sim::tiles::TileLayer;

#[test]
fn a_tile_is_placed_by_its_cell_times_its_size() {
    assert_eq!(
        tile_placement(3, 2, 128, 128, 5, 8),
        Some(TilePlacement {
            screen_x: 384,
            screen_y: 256,
            sheet_x: 640,
            sheet_y: 1024,
            width: 128,
            height: 128,
        })
    );
}

#[test]
fn width_and_height_scale_their_own_axis() {
    assert_eq!(
        tile_placement(3, 2, 10, 100, 5, 8),
        Some(TilePlacement {
            screen_x: 30,
            screen_y: 200,
            sheet_x: 50,
            sheet_y: 800,
            width: 10,
            height: 100,
        })
    );
}

#[test]
fn the_first_cell_sits_at_the_origin() {
    assert_eq!(
        tile_placement(0, 0, 128, 128, 0, 0),
        Some(TilePlacement {
            screen_x: 0,
            screen_y: 0,
            sheet_x: 0,
            sheet_y: 0,
            width: 128,
            height: 128,
        })
    );
}

#[test]
fn negative_cells_and_sizes_are_scaled_like_any_other() {
    assert_eq!(
        tile_placement(-1, 2, 128, -64, 3, -4),
        Some(TilePlacement {
            screen_x: -128,
            screen_y: -128,
            sheet_x: 384,
            sheet_y: 256,
            width: 128,
            height: -64,
        })
    );
}

#[test]
fn a_coordinate_that_fits_no_i32_gives_no_placement() {
    assert_eq!(tile_placement(16_777_216, 0, 128, 128, 0, 0), None);
    assert_eq!(tile_placement(0, 16_777_216, 128, 128, 0, 0), None);
    assert_eq!(tile_placement(0, 0, 128, 128, 16_777_216, 0), None);
    assert_eq!(tile_placement(0, 0, 128, 128, 0, 16_777_216), None);
    assert_eq!(tile_placement(i32::MIN, 0, -1, 1, 0, 0), None);
    assert_eq!(
        tile_placement(16_777_215, 0, 128, 128, 0, 0).map(|placed| placed.screen_x),
        Some(2_147_483_520)
    );
    assert_eq!(
        tile_placement(-16_777_216, 0, 128, 128, 0, 0).map(|placed| placed.screen_x),
        Some(i32::MIN)
    );
}

#[test]
fn the_built_in_level_fills_a_window_of_1280_by_896() {
    let mut layer = TileLayer::new();
    layer.set_up();
    let mut right = 0;
    let mut bottom = 0;
    for entry in layer.visible_tiles() {
        let placed = tile_placement(
            entry.grid_x,
            entry.grid_y,
            128,
            128,
            entry.sheet_col,
            entry.sheet_row,
        )
        .unwrap();
        assert_eq!(placed.screen_x, entry.grid_x * 128);
        assert_eq!(placed.screen_y, entry.grid_y * 128);
        assert_eq!(placed.sheet_x, entry.sheet_col * 128);
        assert_eq!(placed.sheet_y, entry.sheet_row * 128);
        right = right.max(placed.screen_x + placed.width);
        bottom = bottom.max(placed.screen_y + placed.height);
    }
    assert_eq!((right, bottom), (1280, 896));
}
