use termvid::color256::{Color, Color256, Rgb};
use termvid::frame::{compose_plain, render_frame, Frame, TerminalCell};
use termvid::glyph::GlyphMapper;

fn ramp(s: &str) -> GlyphMapper {
    GlyphMapper::new(s.chars().collect()).unwrap()
}

fn grey_palette() -> Color256 {
    Color256 {
        colors: vec![
            Color { id: 16, rgb: Rgb::new(0, 0, 0), name: String::from("black") },
            Color { id: 231, rgb: Rgb::new(255, 255, 255), name: String::from("white") },
        ],
    }
}

#[test]
fn glyph_mapper_rejects_empty_ramp() {
    assert!(GlyphMapper::new(Vec::new()).is_none());
}

#[test]
fn four_glyph_ramp_maps_reference_brightnesses() {
    let m = ramp(" .:#");
    assert_eq!(m.glyph_for(0), ' ');
    assert_eq!(m.glyph_for(64), '.');
    assert_eq!(m.glyph_for(128), ':');
    assert_eq!(m.glyph_for(255), '#');
}

#[test]
fn glyph_choice_is_monotonic_over_all_brightnesses() {
    let chars: Vec<char> = " .,:;ox%#@".chars().collect();
    let m = GlyphMapper::new(chars.clone()).unwrap();
    let mut last: usize = 0;
    for b in 0..=255u8 {
        let g = m.glyph_for(b);
        let idx = chars.iter().position(|&c| c == g).unwrap();
        assert!(idx >= last, "brightness {} mapped backwards", b);
        last = idx;
    }
    assert_eq!(last, chars.len() - 1);
}

#[test]
fn frame_new_checks_buffer_length() {
    assert!(Frame::new(2, 1, vec![0; 6]).is_some());
    assert!(Frame::new(2, 1, vec![0; 5]).is_none());
    assert!(Frame::new(0, 0, Vec::new()).is_some());
}

#[test]
fn pixels_are_read_in_bgr_order() {
    // One pixel stored as blue=1, green=2, red=3.
    let f = Frame::new(1, 1, vec![1, 2, 3]).unwrap();
    assert_eq!(f.pixel(0, 0), Rgb::new(3, 2, 1));
}

#[test]
fn render_colors_and_glyphs_per_pixel() {
    // Two pixels: black, then white (BGR byte order).
    let f = Frame::new(2, 1, vec![0, 0, 0, 255, 255, 255]).unwrap();
    let palette = grey_palette();
    let m = ramp(" .:#");
    let grid = render_frame(&f, &palette, &m, true);
    assert_eq!(grid.len(), 1);
    assert_eq!(grid[0].len(), 2);
    assert_eq!(grid[0][0].glyph, ' ');
    assert_eq!(grid[0][0].color, Some(16));
    assert_eq!(grid[0][1].glyph, '#');
    assert_eq!(grid[0][1].color, Some(231));
}

#[test]
fn render_greyscale_bypasses_the_palette() {
    let f = Frame::new(1, 2, vec![255, 255, 255, 0, 0, 0]).unwrap();
    let palette = grey_palette();
    let m = ramp(" .:#");
    let grid = render_frame(&f, &palette, &m, false);
    assert_eq!(grid.len(), 2);
    assert_eq!(grid[0][0].glyph, '#');
    assert_eq!(grid[0][0].color, None);
    assert_eq!(grid[1][0].glyph, ' ');
    assert_eq!(grid[1][0].color, None);
}

#[test]
fn compose_joins_rows_with_single_line_breaks() {
    let cell = |glyph: char| TerminalCell { glyph, color: None };
    let grid = vec![
        vec![cell('a'), cell('b')],
        vec![cell('c'), cell('d')],
        vec![cell('e'), cell('f')],
    ];
    let text: String = compose_plain(&grid).into_iter().collect();
    assert_eq!(text, "ab\ncd\nef");
}

#[test]
fn compose_of_empty_grid_is_empty() {
    let grid: Vec<Vec<TerminalCell>> = Vec::new();
    assert!(compose_plain(&grid).is_empty());
}
