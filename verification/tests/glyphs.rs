use niri_cursor::glyphs::{
    col_of, glyph_origin, glyph_origin_fits, index_of, row_of, ATLAS_COLS, ATLAS_H, ATLAS_ROWS, ATLAS_W, CELL_H,
    CELL_W, CHAR_COUNT, FIRST_CHAR, LAST_CHAR,
};

#[test]
fn atlas_layout_matches_shader_constants() {
    assert_eq!(ATLAS_W, CELL_W * ATLAS_COLS);
    assert_eq!(ATLAS_H, CELL_H * ATLAS_ROWS);
    assert!(CHAR_COUNT <= ATLAS_COLS * ATLAS_ROWS);
}

#[test]
fn index_mapping_roundtrips() {
    assert_eq!(index_of(b'A'), 0x41 - FIRST_CHAR as usize);
    assert_eq!(index_of(b'z'), 0x7A - FIRST_CHAR as usize);
    assert_eq!(index_of(b'~'), CHAR_COUNT - 1);
    assert_eq!(col_of(0), 0);
    assert_eq!(row_of(0), 0);
    assert_eq!(col_of(16), 0);
    assert_eq!(row_of(16), 1);
}

#[test]
fn char_count_covers_printable_ascii() {
    assert_eq!(CHAR_COUNT, (LAST_CHAR - FIRST_CHAR + 1) as usize);
    assert_eq!(ATLAS_W, 1024);
    assert_eq!(ATLAS_H, 512);
    assert_eq!(index_of(b'!'), 0);
    for i in 0..CHAR_COUNT {
        assert!(row_of(i) < ATLAS_ROWS);
        assert_eq!(row_of(i) * ATLAS_COLS + col_of(i), i);
    }
}

#[test]
fn glyph_origin_centres_ink_in_cell() {
    // Cell 0 is centred at (32, 32); ink 20 x 30 at offset (2, -25).
    assert_eq!(glyph_origin(0, 2, -25, 20, 30), (32 - 10 - 2, 32 - 15 + 25));
    // Cell 17 (row 1, column 1) is centred at (96, 96); odd widths round toward zero.
    assert_eq!(glyph_origin(17, 0, 0, 21, 7), (96 - 10, 96 - 3));
    // Last character: index 93 -> row 5, column 13.
    assert_eq!(glyph_origin(93, 1, 1, 0, 0), (13 * 64 + 32 - 1, 5 * 64 + 32 - 1));
    // A negative width halves toward zero as well.
    assert_eq!(glyph_origin(0, 0, 0, -5, 0), (32 + 2, 32));
}

#[test]
fn glyph_origin_fits_in_i32() {
    assert!(glyph_origin_fits(0, 2, -25, 20, 30));
    assert!(!glyph_origin_fits(0, i32::MIN, 0, 0, 0));
    assert!(!glyph_origin_fits(93, 0, i32::MIN, 0, 0));
    assert!(glyph_origin_fits(0, i32::MAX - 32, 0, 0, 0));
}
