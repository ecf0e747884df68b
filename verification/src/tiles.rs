//! The tile layers of the background.
//!
//! A layer is a grid of numbers, stored row by row. A positive number picks a
//! tile of the tile sheet, counted from one; anything else leaves the cell
//! empty. From the numbers the layer derives, cell by cell, where the tile
//! sits in the grid and where its picture sits in the sheet.

use vstd::prelude::*;
use crate::level::{default_grass, default_track, grass_sheet, track_sheet};
use crate::grid::{
    column_of, flat_index, in_grid, lemma_cell_in_grid, lemma_cell_of_flat_index,
    lemma_flat_index_in_bounds, row_of,
};

verus! {

/// What is known of one cell once the layer has been set up.
#[derive(Clone, Copy, Debug, PartialEq, Eq, Structural)]
pub struct TileInfo {
    /// Whether the cell holds a tile at all.
    pub present: bool,
    /// Column of the cell in the grid.
    pub grid_x: i32,
    /// Row of the cell in the grid.
    pub grid_y: i32,
    /// Column of the tile's picture in the tile sheet.
    pub sheet_col: i32,
    /// Row of the tile's picture in the tile sheet.
    pub sheet_row: i32,
}

/// The entry of a cell without a tile.
pub open spec fn blank_tile() -> TileInfo {
    TileInfo { present: false, grid_x: 0, grid_y: 0, sheet_col: 0, sheet_row: 0 }
}

/// The entry of the cell at flat position `index` that holds the number `num`,
/// in a grid `cols` cells wide, with a tile sheet `tile_sheet_cols` tiles wide.
pub open spec fn derive_tile(cols: int, tile_sheet_cols: int, index: int, num: i32) -> TileInfo {
    if num > 0 {
        TileInfo {
            present: true,
            grid_x: column_of(cols, index) as i32,
            grid_y: row_of(cols, index) as i32,
            sheet_col: (num as int % tile_sheet_cols) as i32,
            sheet_row: (num as int / tile_sheet_cols) as i32,
        }
    } else {
        blank_tile()
    }
}

/// The entries of a whole sheet, in storage order.
pub open spec fn derive_sheet(cols: int, tile_sheet_cols: int, sheet: Seq<i32>) -> Seq<TileInfo> {
    Seq::new(sheet.len(), |index: int| derive_tile(cols, tile_sheet_cols, index, sheet[index]))
}

/// The contents of the rows of a nested vector.
pub open spec fn nested_view<T>(rows: Seq<Vec<T>>) -> Seq<Seq<T>> {
    Seq::new(rows.len(), |l: int| rows[l]@)
}

/// The mathematical content of a [`TileLayer`].
pub ghost struct TileLayerView {
    pub rows: int,
    pub cols: int,
    pub tile_sheet_cols: int,
    /// The numbers of each sheet, the one drawn first at position 0.
    pub tile_sheets: Seq<Seq<i32>>,
    /// The entries derived from each sheet.
    pub tile_sheets_info: Seq<Seq<TileInfo>>,
}

impl TileLayerView {
    /// The number of cells of each sheet.
    pub open spec fn cells(self) -> int {
        self.rows * self.cols
    }

    /// The entries that the sheets determine.
    pub open spec fn derived_info(self) -> Seq<Seq<TileInfo>> {
        Seq::new(
            self.tile_sheets.len(),
            |l: int| derive_sheet(self.cols, self.tile_sheet_cols, self.tile_sheets[l]),
        )
    }

    /// The shape that every layer has: two sheets of `rows * cols` cells, and
    /// entries that are either still blank or the ones the sheets determine.
    pub open spec fn wf(self) -> bool {
        &&& 0 < self.rows
        &&& 0 < self.cols
        &&& 0 < self.tile_sheet_cols <= i32::MAX
        &&& self.cells() <= i32::MAX
        &&& self.tile_sheets.len() == 2
        &&& self.tile_sheets_info.len() == 2
        &&& forall|l: int|
            0 <= l < 2 ==> (#[trigger] self.tile_sheets[l]).len() == self.cells()
        &&& forall|l: int|
            0 <= l < 2 ==> (#[trigger] self.tile_sheets_info[l]).len() == self.cells()
        &&& forall|l: int, c: int|
            0 <= l < 2 && 0 <= c < self.cells() ==> {
                let entry = #[trigger] self.tile_sheets_info[l][c];
                entry == blank_tile() || entry == self.derived_info()[l][c]
            }
    }

    /// Whether no entry has been derived yet.
    pub open spec fn is_blank(self) -> bool {
        forall|l: int, c: int|
            0 <= l < self.tile_sheets_info.len() && 0 <= c < self.tile_sheets_info[l].len()
                ==> #[trigger] self.tile_sheets_info[l][c] == blank_tile()
    }

    /// Whether the entries are the ones the sheets determine.
    pub open spec fn is_set_up(self) -> bool {
        self.tile_sheets_info == self.derived_info()
    }

    /// The layer after the set-up pass: the same sheets, with every entry derived.
    pub open spec fn set_up(self) -> TileLayerView {
        TileLayerView { tile_sheets_info: self.derived_info(), ..self }
    }

    /// The entries to draw, in the order to draw them: the sheet at position 0
    /// before the one at position 1, each in storage order, cells without a
    /// tile left out.
    pub open spec fn draw_order(self) -> Seq<TileInfo> {
        (self.tile_sheets_info[0] + self.tile_sheets_info[1]).filter(is_present())
    }
}

/// The test that picks the cells that hold a tile.
pub open spec fn is_present() -> spec_fn(TileInfo) -> bool {
    |entry: TileInfo| entry.present
}

/// A layer on which no entry has been derived yet.
pub open spec fn blank_layer(
    rows: int,
    cols: int,
    tile_sheet_cols: int,
    lower: Seq<i32>,
    upper: Seq<i32>,
) -> TileLayerView {
    TileLayerView {
        rows,
        cols,
        tile_sheet_cols,
        tile_sheets: seq![lower, upper],
        tile_sheets_info: seq![
            Seq::new(lower.len(), |c: int| blank_tile()),
            Seq::new(upper.len(), |c: int| blank_tile()),
        ],
    }
}

/// Whether two sheets of the given lengths fill a grid of `rows` by `cols`
/// cells that a tile sheet `tile_sheet_cols` tiles wide can serve.
pub open spec fn valid_layout(
    rows: int,
    cols: int,
    tile_sheet_cols: int,
    lower_len: int,
    upper_len: int,
) -> bool {
    &&& 0 < rows
    &&& 0 < cols
    &&& 0 < tile_sheet_cols
    &&& rows * cols <= i32::MAX
    &&& lower_len == rows * cols
    &&& upper_len == rows * cols
}

/// Setting a layer up a second time changes nothing: the pass gives the same
/// entries every time, and it never touches the sheets.
pub proof fn lemma_set_up_idempotent(layer: TileLayerView)
    ensures
        layer.set_up().set_up() == layer.set_up(),
        layer.set_up().tile_sheets == layer.tile_sheets,
        layer.set_up().is_set_up(),
{
}

/// What the set-up pass leaves for cell `(x, y)` of a sheet. The cell is stored
/// at flat position `x + cols * y`. Where its number `num` is positive, the
/// entry says that a tile is present, at column `x` and row `y` of the grid,
/// with its picture at column `num % tile_sheet_cols` and row
/// `num / tile_sheet_cols` of the tile sheet. Otherwise the entry is blank.
pub proof fn lemma_set_up_entry(layer: TileLayerView, sheet: int, x: int, y: int)
    requires
        layer.wf(),
        0 <= sheet < 2,
        in_grid(layer.rows, layer.cols, x, y),
    ensures
        ({
            let index = flat_index(layer.cols, x, y);
            let num = layer.tile_sheets[sheet][index];
            let entry = layer.set_up().tile_sheets_info[sheet][index];
            &&& 0 <= index < layer.cells()
            &&& num > 0 ==> entry == (TileInfo {
                present: true,
                grid_x: x as i32,
                grid_y: y as i32,
                sheet_col: (num as int % layer.tile_sheet_cols) as i32,
                sheet_row: (num as int / layer.tile_sheet_cols) as i32,
            })
            &&& num <= 0 ==> entry == blank_tile()
        }),
{
    lemma_flat_index_in_bounds(layer.rows, layer.cols, x, y);
    lemma_cell_of_flat_index(layer.cols, x, y);
}

/// The draw order is everything to draw of the sheet at position 0, followed
/// by everything to draw of the sheet at position 1: the second is painted
/// over the first.
pub proof fn lemma_draw_order_by_sheet(layer: TileLayerView)
    ensures
        layer.draw_order() == layer.tile_sheets_info[0].filter(is_present())
            + layer.tile_sheets_info[1].filter(is_present()),
{
    Seq::filter_distributes_over_add(
        layer.tile_sheets_info[0],
        layer.tile_sheets_info[1],
        is_present(),
    );
}

/// Two stacked sheets of tiles and what has been derived from them.
#[derive(Debug)]
pub struct TileLayer {
    rows: i32,
    cols: i32,
    tile_sheet_cols: i32,
    tile_sheets: Vec<Vec<i32>>,
    tile_sheets_info: Vec<Vec<TileInfo>>,
}

impl View for TileLayer {
    type V = TileLayerView;

    closed spec fn view(&self) -> TileLayerView {
        TileLayerView {
            rows: self.rows as int,
            cols: self.cols as int,
            tile_sheet_cols: self.tile_sheet_cols as int,
            tile_sheets: nested_view(self.tile_sheets@),
            tile_sheets_info: nested_view(self.tile_sheets_info@),
        }
    }
}

/// The column and the row of the cell stored at flat position `index`.
fn unflatten(cols: i32, index: usize) -> (cell: (i32, i32))
    requires
        0 < cols,
        index <= i32::MAX,
    ensures
        cell.0 == column_of(cols as int, index as int),
        cell.1 == row_of(cols as int, index as int),
{
    let width: usize = cols as usize;
    proof {
        assert(index < (index + 1) * cols) by (nonlinear_arith)
            requires
                0 <= index,
                0 < cols,
        ;
        lemma_cell_in_grid(index as int + 1, cols as int, index as int);
    }
    ((index % width) as i32, (index / width) as i32)
}

/// Derives the entry of one cell.
fn tile_entry(cols: i32, tile_sheet_cols: i32, index: usize, num: i32) -> (entry: TileInfo)
    requires
        0 < cols,
        0 < tile_sheet_cols,
        index <= i32::MAX,
    ensures
        entry == derive_tile(cols as int, tile_sheet_cols as int, index as int, num),
{
    if num <= 0 {
        return TileInfo { present: false, grid_x: 0, grid_y: 0, sheet_col: 0, sheet_row: 0 };
    }
    let (grid_x, grid_y) = unflatten(cols, index);
    TileInfo {
        present: true,
        grid_x,
        grid_y,
        sheet_col: num % tile_sheet_cols,
        sheet_row: num / tile_sheet_cols,
    }
}

/// Derives the entries of one sheet, in storage order.
fn sheet_entries(cols: i32, tile_sheet_cols: i32, sheet: &Vec<i32>) -> (entries: Vec<TileInfo>)
    requires
        0 < cols,
        0 < tile_sheet_cols,
        sheet@.len() <= i32::MAX,
    ensures
        entries@ == derive_sheet(cols as int, tile_sheet_cols as int, sheet@),
{
    let mut entries: Vec<TileInfo> = Vec::new();
    let mut index: usize = 0;
    while index < sheet.len()
        invariant
            0 < cols,
            0 < tile_sheet_cols,
            sheet@.len() <= i32::MAX,
            index <= sheet@.len(),
            entries@.len() == index,
            forall|c: int|
                0 <= c < index ==> #[trigger] entries@[c] == derive_tile(
                    cols as int,
                    tile_sheet_cols as int,
                    c,
                    sheet@[c],
                ),
        decreases sheet@.len() - index,
    {
        entries.push(tile_entry(cols, tile_sheet_cols, index, sheet[index]));
        index += 1;
    }
    entries
}

/// As many blank entries as a sheet has cells.
fn blank_entries(cells: usize) -> (entries: Vec<TileInfo>)
    ensures
        entries@ == Seq::new(cells as nat, |c: int| blank_tile()),
{
    let mut entries: Vec<TileInfo> = Vec::new();
    let mut index: usize = 0;
    while index < cells
        invariant
            index <= cells,
            entries@.len() == index,
            forall|c: int| 0 <= c < index ==> #[trigger] entries@[c] == blank_tile(),
        decreases cells - index,
    {
        entries.push(
            TileInfo { present: false, grid_x: 0, grid_y: 0, sheet_col: 0, sheet_row: 0 },
        );
        index += 1;
    }
    entries
}

impl TileLayer {
    /// The built-in level: a grid of 7 rows by 10 columns, grass below and the
    /// track on top, for a tile sheet 18 tiles wide. No entry is derived yet.
    pub fn new() -> (layer: TileLayer)
        ensures
            layer@ == blank_layer(7, 10, 18, default_grass(), default_track()),
            layer@.wf(),
            layer@.is_blank(),
    {
        let grass = grass_sheet();
        let track = track_sheet();
        let layer = TileLayer::from_layers(7, 10, 18, grass, track);
        layer.unwrap()
    }

    /// A layer of `rows` by `cols` cells over two sheets of numbers, `lower`
    /// drawn first and `upper` on top of it. No entry is derived yet.
    ///
    /// Gives `None` unless the three sizes are positive and each sheet holds
    /// exactly `rows * cols` numbers.
    pub fn from_layers(
        rows: i32,
        cols: i32,
        tile_sheet_cols: i32,
        lower: Vec<i32>,
        upper: Vec<i32>,
    ) -> (made: Option<TileLayer>)
        ensures
            made.is_some() <==> valid_layout(
                rows as int,
                cols as int,
                tile_sheet_cols as int,
                lower@.len() as int,
                upper@.len() as int,
            ),
            made matches Some(layer) ==> {
                &&& layer@ == blank_layer(
                    rows as int,
                    cols as int,
                    tile_sheet_cols as int,
                    lower@,
                    upper@,
                )
                &&& layer@.wf()
                &&& layer@.is_blank()
            },
    {
        if rows <= 0 || cols <= 0 || tile_sheet_cols <= 0 {
            return None;
        }
        assert(0 < rows * cols <= 0x3fff_ffff_0000_0001) by (nonlinear_arith)
            requires
                0 < rows <= 0x7fff_ffff,
                0 < cols <= 0x7fff_ffff,
        ;
        let cells: i64 = (rows as i64) * (cols as i64);
        if cells > 0x7fff_ffff {
            return None;
        }
        let cells: usize = cells as usize;
        if lower.len() != cells || upper.len() != cells {
            return None;
        }
        let mut tile_sheets: Vec<Vec<i32>> = Vec::new();
        tile_sheets.push(lower);
        tile_sheets.push(upper);
        let mut tile_sheets_info: Vec<Vec<TileInfo>> = Vec::new();
        tile_sheets_info.push(blank_entries(cells));
        tile_sheets_info.push(blank_entries(cells));
        let layer = TileLayer { rows, cols, tile_sheet_cols, tile_sheets, tile_sheets_info };
        proof {
            let target = blank_layer(
                rows as int,
                cols as int,
                tile_sheet_cols as int,
                lower@,
                upper@,
            );
            assert(layer@.tile_sheets =~~= target.tile_sheets);
            assert(layer@.tile_sheets_info =~~= target.tile_sheets_info);
        }
        Some(layer)
    }

    /// Derives the entry of every cell of both sheets. The sheets themselves
    /// stay as they are; entries of cells without a tile are blank. On a layer
    /// that has been set up, the pass changes nothing.
    pub fn set_up(&mut self)
        requires
            old(self)@.wf(),
        ensures
            final(self)@ == old(self)@.set_up(),
            final(self)@.wf(),
            final(self)@.is_set_up(),
            old(self)@.is_set_up() ==> final(self)@ == old(self)@,
    {
        let mut info: Vec<Vec<TileInfo>> = Vec::new();
        let mut layer: usize = 0;
        while layer < self.tile_sheets.len()
            invariant
                self@ == old(self)@,
                self@.wf(),
                layer <= self.tile_sheets@.len(),
                info@.len() == layer,
                forall|l: int|
                    0 <= l < layer ==> (#[trigger] info@[l])@ == derive_sheet(
                        self.cols as int,
                        self.tile_sheet_cols as int,
                        self.tile_sheets@[l]@,
                    ),
            decreases self.tile_sheets@.len() - layer,
        {
            assert(self@.tile_sheets[layer as int] == self.tile_sheets@[layer as int]@);
            let entries = sheet_entries(self.cols, self.tile_sheet_cols, &self.tile_sheets[layer]);
            info.push(entries);
            layer += 1;
        }
        self.tile_sheets_info = info;
        assert(self@.tile_sheets_info =~~= old(self)@.derived_info());
    }

    /// The derived entries of both sheets: first those of the sheet drawn
    /// first, each sheet in storage order.
    pub fn get_info(&self) -> (info: &Vec<Vec<TileInfo>>)
        ensures
            nested_view(info@) == self@.tile_sheets_info,
    {
        &self.tile_sheets_info
    }

    /// The entries to draw, in the order to draw them, so that the sheet at
    /// position 1 comes to lie on top of the one at position 0.
    pub fn visible_tiles(&self) -> (tiles: Vec<TileInfo>)
        requires
            self@.wf(),
        ensures
            tiles@ == self@.draw_order(),
    {
        let mut tiles: Vec<TileInfo> = Vec::new();
        let ghost mut done: Seq<TileInfo> = Seq::empty();
        let mut layer: usize = 0;
        while layer < self.tile_sheets_info.len()
            invariant
                self@.wf(),
                layer <= 2,
                self.tile_sheets_info@.len() == 2,
                layer == 0 ==> done == Seq::<TileInfo>::empty(),
                layer == 1 ==> done == self@.tile_sheets_info[0],
                layer == 2 ==> done == self@.tile_sheets_info[0] + self@.tile_sheets_info[1],
                tiles@ == done.filter(is_present()),
            decreases 2 - layer,
        {
            let row = &self.tile_sheets_info[layer];
            let mut index: usize = 0;
            while index < row.len()
                invariant
                    index <= row@.len(),
                    tiles@ == (done + row@.take(index as int)).filter(is_present()),
                decreases row@.len() - index,
            {
                let entry = row[index];
                proof {
                    let before = done + row@.take(index as int);
                    assert(done + row@.take(index + 1) =~= before.push(entry));
                    before.lemma_filter_push(entry, is_present());
                }
                if entry.present {
                    tiles.push(entry);
                }
                index += 1;
            }
            proof {
                assert(row@.take(row@.len() as int) =~= row@);
                done = done + row@;
            }
            layer += 1;
        }
        tiles
    }

    /// The number of rows of the grid.
    pub fn rows(&self) -> (rows: i32)
        ensures
            rows == self@.rows,
    {
        self.rows
    }

    /// The number of columns of the grid.
    pub fn cols(&self) -> (cols: i32)
        ensures
            cols == self@.cols,
    {
        self.cols
    }

    /// The number of tiles in one row of the tile sheet.
    pub fn tile_sheet_cols(&self) -> (tile_sheet_cols: i32)
        ensures
            tile_sheet_cols == self@.tile_sheet_cols,
    {
        self.tile_sheet_cols
    }

    /// The flat position of cell `(x, y)`, or `None` where the grid has no
    /// such cell.
    pub fn index_of(&self, x: i32, y: i32) -> (index: Option<usize>)
        requires
            self@.wf(),
        ensures
            index.is_some() <==> in_grid(self@.rows, self@.cols, x as int, y as int),
            index matches Some(i) ==> i == flat_index(self@.cols, x as int, y as int)
                && i < self@.cells(),
    {
        if x < 0 || x >= self.cols || y < 0 || y >= self.rows {
            return None;
        }
        proof {
            lemma_flat_index_in_bounds(self.rows as int, self.cols as int, x as int, y as int);
            assert(0 <= self.cols * y) by (nonlinear_arith)
                requires
                    0 < self.cols,
                    0 <= y,
            ;
        }
        Some((x + self.cols * y) as usize)
    }

    /// The cell stored at flat position `index`, as column and row, or `None`
    /// where the grid has no such position.
    pub fn cell_of(&self, index: usize) -> (cell: Option<(i32, i32)>)
        requires
            self@.wf(),
        ensures
            cell.is_some() <==> index < self@.cells(),
            cell matches Some((x, y)) ==> {
                &&& x == column_of(self@.cols, index as int)
                &&& y == row_of(self@.cols, index as int)
                &&& in_grid(self@.rows, self@.cols, x as int, y as int)
            },
    {
        assert(self@.tile_sheets[0] == self.tile_sheets@[0]@);
        if index >= self.tile_sheets[0].len() {
            return None;
        }
        proof {
            lemma_cell_in_grid(self.rows as int, self.cols as int, index as int);
        }
        Some(unflatten(self.cols, index))
    }

    /// The number that the sheet at position `layer` holds for cell `(x, y)`,
    /// or `None` where there is no such sheet or no such cell.
    pub fn tile_at(&self, layer: usize, x: i32, y: i32) -> (num: Option<i32>)
        requires
            self@.wf(),
        ensures
            num.is_some() <==> layer < 2 && in_grid(self@.rows, self@.cols, x as int, y as int),
            num matches Some(n) ==> n == self@.tile_sheets[layer as int][flat_index(
                self@.cols,
                x as int,
                y as int,
            )],
    {
        if layer >= self.tile_sheets.len() {
            return None;
        }
        match self.index_of(x, y) {
            Some(index) => {
                assert(self@.tile_sheets[layer as int] == self.tile_sheets@[layer as int]@);
                Some(self.tile_sheets[layer][index])
            },
            None => None,
        }
    }

    /// The entry that the sheet at position `layer` has for cell `(x, y)`, or
    /// `None` where there is no such sheet or no such cell.
    pub fn info_at(&self, layer: usize, x: i32, y: i32) -> (entry: Option<TileInfo>)
        requires
            self@.wf(),
        ensures
            entry.is_some() <==> layer < 2 && in_grid(self@.rows, self@.cols, x as int, y as int),
            entry matches Some(e) ==> e == self@.tile_sheets_info[layer as int][flat_index(
                self@.cols,
                x as int,
                y as int,
            )],
    {
        if layer >= self.tile_sheets_info.len() {
            return None;
        }
        match self.index_of(x, y) {
            Some(index) => {
                assert(self@.tile_sheets_info[layer as int] == self.tile_sheets_info@[layer as int]@);
                Some(self.tile_sheets_info[layer][index])
            },
            None => None,
        }
    }
}

} // verus!
