//! Layout of the glyph atlas: the printable ASCII characters `!`..=`~`, each
//! centred in a cell of a 16 x 8 grid of 64 x 64 pixel cells.

use vstd::prelude::*;

verus! {

/// Cell width in pixels.
pub const CELL_W: usize = 64;
/// Cell height in pixels.
pub const CELL_H: usize = 64;
/// Cells per atlas row.
pub const ATLAS_COLS: usize = 16;
/// Cell rows in the atlas.
pub const ATLAS_ROWS: usize = 8;
/// Atlas width in pixels.
pub const ATLAS_W: usize = CELL_W * ATLAS_COLS;
/// Atlas height in pixels.
pub const ATLAS_H: usize = CELL_H * ATLAS_ROWS;
/// First character in the atlas (`!`).
pub const FIRST_CHAR: u8 = 33;
/// Last character in the atlas (`~`).
pub const LAST_CHAR: u8 = 126;
/// Number of characters in the atlas, `LAST_CHAR - FIRST_CHAR + 1`.
pub const CHAR_COUNT: usize = 94;

/// Atlas column of the character with index `index`.
pub fn col_of(index: usize) -> (c: usize)
    ensures
        c == index % ATLAS_COLS,
{
    index % ATLAS_COLS
}

/// Atlas row of the character with index `index`.
pub fn row_of(index: usize) -> (r: usize)
    ensures
        r == index / ATLAS_COLS,
{
    index / ATLAS_COLS
}

/// Index of the ASCII character `ch` in the atlas (`ch - FIRST_CHAR`).
pub fn index_of(ch: u8) -> (i: usize)
    requires
        ch >= FIRST_CHAR,
    ensures
        i == ch - FIRST_CHAR,
{
    (ch - FIRST_CHAR) as usize
}

/// `w / 2` rounded toward zero, as integer division does.
pub open spec fn half_toward_zero(w: int) -> int {
    if w >= 0 {
        w / 2
    } else {
        -((-w) / 2)
    }
}

/// Pixel x of the centre of column `col`.
pub open spec fn cell_center_x(col: int) -> int {
    col * CELL_W + CELL_W / 2
}

/// Pixel y of the centre of row `row`.
pub open spec fn cell_center_y(row: int) -> int {
    row * CELL_H + CELL_H / 2
}

/// Where a glyph with ink rectangle (`ink_x`, `ink_y`, `ink_w`, `ink_h`),
/// relative to its layout origin, is drawn so that its ink is centred in
/// the cell of `index`.
pub open spec fn glyph_origin_spec(index: int, ink_x: int, ink_y: int, ink_w: int, ink_h: int) -> (int, int) {
    (
        cell_center_x(index % (ATLAS_COLS as int)) - half_toward_zero(ink_w) - ink_x,
        cell_center_y(index / (ATLAS_COLS as int)) - half_toward_zero(ink_h) - ink_y,
    )
}

fn half_i32(w: i32) -> (h: i32)
    ensures
        h == half_toward_zero(w as int),
{
    if w >= 0 {
        w / 2
    } else {
        let m = -(w as i64);
        (-(m / 2)) as i32
    }
}

/// Whether the layout origin of the glyph of `index` for this ink rectangle
/// fits in `i32`, which `glyph_origin` needs.
pub fn glyph_origin_fits(index: usize, ink_x: i32, ink_y: i32, ink_w: i32, ink_h: i32) -> (b: bool)
    requires
        index < CHAR_COUNT,
    ensures
        b == (i32::MIN <= glyph_origin_spec(index as int, ink_x as int, ink_y as int, ink_w as int, ink_h as int).0 <= i32::MAX
            && i32::MIN <= glyph_origin_spec(index as int, ink_x as int, ink_y as int, ink_w as int, ink_h as int).1 <= i32::MAX),
{
    let cx = (col_of(index) as i64) * (CELL_W as i64) + (CELL_W / 2) as i64;
    let cy = (row_of(index) as i64) * (CELL_H as i64) + (CELL_H / 2) as i64;
    let x = cx - half_i32(ink_w) as i64 - ink_x as i64;
    let y = cy - half_i32(ink_h) as i64 - ink_y as i64;
    i32::MIN as i64 <= x && x <= i32::MAX as i64 && i32::MIN as i64 <= y && y <= i32::MAX as i64
}

/// The layout origin at which the glyph of `index` is drawn, given the ink
/// rectangle of its laid-out text.
pub fn glyph_origin(index: usize, ink_x: i32, ink_y: i32, ink_w: i32, ink_h: i32) -> (p: (i32, i32))
    requires
        index < CHAR_COUNT,
        i32::MIN <= glyph_origin_spec(index as int, ink_x as int, ink_y as int, ink_w as int, ink_h as int).0 <= i32::MAX,
        i32::MIN <= glyph_origin_spec(index as int, ink_x as int, ink_y as int, ink_w as int, ink_h as int).1 <= i32::MAX,
    ensures
        (p.0 as int, p.1 as int) == glyph_origin_spec(index as int, ink_x as int, ink_y as int, ink_w as int, ink_h as int),
{
    let col = col_of(index);
    let row = row_of(index);
    let cx = (col as i64) * (CELL_W as i64) + (CELL_W / 2) as i64;
    let cy = (row as i64) * (CELL_H as i64) + (CELL_H / 2) as i64;
    let x = cx - half_i32(ink_w) as i64 - ink_x as i64;
    let y = cy - half_i32(ink_h) as i64 - ink_y as i64;
    (x as i32, y as i32)
}

/// The atlas holds every character: there are `LAST_CHAR - FIRST_CHAR + 1`
/// of them, no more than the cells of the `ATLAS_COLS` x `ATLAS_ROWS` grid,
/// and the atlas measures `ATLAS_W` x `ATLAS_H` = 1024 x 512 pixels.
pub proof fn atlas_holds_all_chars()
    ensures
        CHAR_COUNT == LAST_CHAR - FIRST_CHAR + 1,
        CHAR_COUNT <= ATLAS_COLS * ATLAS_ROWS,
        ATLAS_W == CELL_W * ATLAS_COLS && ATLAS_W == 1024,
        ATLAS_H == CELL_H * ATLAS_ROWS && ATLAS_H == 512,
{
}

/// Every character index lies in its own cell inside the grid: its row and
/// column are in range and give the index back as `row * ATLAS_COLS + col`.
pub proof fn cell_of_index(index: usize)
    requires
        index < CHAR_COUNT,
    ensures
        index / ATLAS_COLS < ATLAS_ROWS,
        index % ATLAS_COLS < ATLAS_COLS,
        (index / ATLAS_COLS) * ATLAS_COLS + index % ATLAS_COLS == index,
{
}

/// Distinct characters get distinct cells.
pub proof fn cells_distinct(i: usize, j: usize)
    requires
        i < CHAR_COUNT,
        j < CHAR_COUNT,
        i != j,
    ensures
        i / ATLAS_COLS != j / ATLAS_COLS || i % ATLAS_COLS != j % ATLAS_COLS,
{
    cell_of_index(i);
    cell_of_index(j);
}

/// The characters `FIRST_CHAR..=LAST_CHAR` map one to one onto the indexes
/// `0..CHAR_COUNT`.
pub proof fn index_of_printable(ch: u8)
    requires
        FIRST_CHAR <= ch <= LAST_CHAR,
    ensures
        ch - FIRST_CHAR < CHAR_COUNT,
        FIRST_CHAR + (ch - FIRST_CHAR) == ch,
{
}

/// The glyph shown by the character with `seed` during the 200 ms time
/// bucket `bucket`: a hash of both, reduced to an atlas index.
pub open spec fn glyph_index_spec(bucket: u64, seed: usize) -> usize {
    let h = vstd::wrapping::u64_specs::wrapping_mul(bucket, 0x85EBCA77) ^ vstd::wrapping::u64_specs::wrapping_mul(
        seed as u64,
        0xC2B2AE35,
    );
    ((h as usize) % CHAR_COUNT) as usize
}

/// The atlas index of the glyph a character with `seed` shows during time
/// bucket `bucket`; always a valid index.
pub fn glyph_index(bucket: u64, seed: usize) -> (i: usize)
    ensures
        i == glyph_index_spec(bucket, seed),
        i < CHAR_COUNT,
{
    let h = bucket.wrapping_mul(0x85EBCA77) ^ (seed as u64).wrapping_mul(0xC2B2AE35);
    (h as usize) % CHAR_COUNT
}

} // verus!
