//! The built-in level: two sheets of 7 rows by 10 columns, numbered for a
//! tile sheet 18 tiles wide.

use vstd::prelude::*;

verus! {

/// The sheet of the built-in level that is drawn first: the grass.
pub open spec fn default_grass() -> Seq<i32> {
    seq![
        102, 281, 281, 281, 281, 281, 281, 281, 281, 84,
        30, 70, 70, 70, 70, 70, 70, 70, 70, 66,
        30, 70, 70, 70, 70, 70, 70, 70, 70, 66,
        30, 70, 70, 70, 70, 70, 70, 70, 70, 66,
        30, 70, 70, 70, 70, 70, 70, 70, 70, 66,
        30, 70, 70, 70, 70, 70, 70, 70, 70, 66,
        12, 209, 209, 209, 209, 209, 209, 209, 209, 317,
    ]
}

/// The sheet of the built-in level that is drawn on top: the track.
pub open spec fn default_track() -> Seq<i32> {
    seq![
        0, 0, 0, 0, 0, 0, 0, 0, 0, 0,
        0, 149, 185, 185, 185, 185, 185, 185, 131, 0,
        0, 202, 94, 183, 183, 183, 183, 76, 166, 0,
        0, 307, 271, 0, 0, 0, 0, 202, 166, 0,
        0, 202, 93, 185, 185, 185, 185, 75, 166, 0,
        0, 148, 183, 183, 183, 183, 183, 183, 130, 0,
        0, 0, 0, 0, 0, 0, 0, 0, 0, 0,
    ]
}

/// The grass of the built-in level.
pub fn grass_sheet() -> (sheet: Vec<i32>)
    ensures
        sheet@ == default_grass(),
{
    let sheet: Vec<i32> = vec![
        102, 281, 281, 281, 281, 281, 281, 281, 281, 84,
        30, 70, 70, 70, 70, 70, 70, 70, 70, 66,
        30, 70, 70, 70, 70, 70, 70, 70, 70, 66,
        30, 70, 70, 70, 70, 70, 70, 70, 70, 66,
        30, 70, 70, 70, 70, 70, 70, 70, 70, 66,
        30, 70, 70, 70, 70, 70, 70, 70, 70, 66,
        12, 209, 209, 209, 209, 209, 209, 209, 209, 317,
    ];
    assert(sheet@ =~= default_grass());
    sheet
}

/// The track of the built-in level.
pub fn track_sheet() -> (sheet: Vec<i32>)
    ensures
        sheet@ == default_track(),
{
    let sheet: Vec<i32> = vec![
        0, 0, 0, 0, 0, 0, 0, 0, 0, 0,
        0, 149, 185, 185, 185, 185, 185, 185, 131, 0,
        0, 202, 94, 183, 183, 183, 183, 76, 166, 0,
        0, 307, 271, 0, 0, 0, 0, 202, 166, 0,
        0, 202, 93, 185, 185, 185, 185, 75, 166, 0,
        0, 148, 183, 183, 183, 183, 183, 183, 130, 0,
        0, 0, 0, 0, 0, 0, 0, 0, 0, 0,
    ];
    assert(sheet@ =~= default_track());
    sheet
}

} // verus!
