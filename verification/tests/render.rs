use acreetionos::palette::{ColorList, NamedColor, Rgb, TermColor, COLOR_COUNT};
use acreetionos::render::{
    cell_color_to_rgb, grid_line, renderable_cells, BgAlpha, CellFlags, RenderCell, TermCell,
    FLAG_DIM,
};

fn palette() -> ColorList {
    let colors: Vec<Rgb> = (0..COLOR_COUNT)
        .map(|i| Rgb::new((i % 256) as u8, (i / 256) as u8, 7))
        .collect();
    ColorList::from_vec(colors).unwrap()
}

fn slot(i: usize) -> Rgb {
    Rgb::new((i % 256) as u8, (i / 256) as u8, 7)
}

#[test]
fn palette_needs_every_slot() {
    assert!(ColorList::from_vec(vec![Rgb::new(0, 0, 0); COLOR_COUNT - 1]).is_none());
    assert!(ColorList::from_vec(vec![Rgb::new(0, 0, 0); COLOR_COUNT + 1]).is_none());
    assert!(ColorList::from_vec(vec![Rgb::new(0, 0, 0); COLOR_COUNT]).is_some());
}

#[test]
fn named_and_indexed_lookups() {
    let p = palette();
    let none = CellFlags { bits: 0 };
    assert_eq!(cell_color_to_rgb(&p, TermColor::Named(NamedColor::Red), none), slot(1));
    assert_eq!(cell_color_to_rgb(&p, TermColor::Indexed(1), none), slot(1));
    assert_eq!(cell_color_to_rgb(&p, TermColor::Indexed(255), none), slot(255));
    assert_eq!(cell_color_to_rgb(&p, TermColor::Named(NamedColor::Foreground), none), slot(256));
    assert_eq!(cell_color_to_rgb(&p, TermColor::Named(NamedColor::Background), none), slot(257));
    assert_eq!(cell_color_to_rgb(&p, TermColor::Named(NamedColor::DimForeground), none), slot(268));
    let direct = Rgb::new(1, 2, 3);
    assert_eq!(cell_color_to_rgb(&p, TermColor::Spec(direct), none), direct);
}

#[test]
fn dim_foreground_only() {
    let p = palette();
    let dim = CellFlags { bits: FLAG_DIM };
    assert_eq!(cell_color_to_rgb(&p, TermColor::Named(NamedColor::Foreground), dim), slot(268));
    assert_eq!(cell_color_to_rgb(&p, TermColor::Named(NamedColor::Red), dim), slot(1));
    assert_eq!(cell_color_to_rgb(&p, TermColor::Indexed(7), dim), slot(7));
    let bold = CellFlags { bits: 0x0002 };
    assert_eq!(cell_color_to_rgb(&p, TermColor::Named(NamedColor::Foreground), bold), slot(256));
}

#[test]
fn grid_line_counts_from_the_bottom() {
    assert_eq!(grid_line(0, 24, 0), 23);
    assert_eq!(grid_line(0, 24, 23), 0);
    assert_eq!(grid_line(5, 24, 23), 5);
    assert_eq!(grid_line(5, 24, 0), 28);
}

fn cell(c: char, bits: u16, fg: TermColor, bg: TermColor) -> TermCell {
    TermCell { c, flags: CellFlags { bits }, fg, bg }
}

#[test]
fn blank_cells_are_skipped_in_row_major_order() {
    let p = palette();
    let fg = TermColor::Named(NamedColor::Foreground);
    let bg = TermColor::Named(NamedColor::Background);
    let rows = vec![
        vec![cell('a', 0, fg, bg), cell(' ', 0, fg, bg), cell('b', 0, fg, TermColor::Indexed(4))],
        vec![cell(' ', 0, fg, bg), cell(' ', FLAG_DIM, fg, bg), cell(' ', 0, fg, bg)],
    ];
    let cells = renderable_cells(&rows, 3, &p);
    assert_eq!(
        cells,
        vec![
            RenderCell {
                line: 0,
                column: 0,
                character: 'a',
                flags: CellFlags { bits: 0 },
                fg: slot(256),
                bg: slot(257),
                underline: slot(256),
                bg_alpha: BgAlpha::WindowOpacity,
            },
            RenderCell {
                line: 0,
                column: 2,
                character: 'b',
                flags: CellFlags { bits: 0 },
                fg: slot(256),
                bg: slot(4),
                underline: slot(256),
                bg_alpha: BgAlpha::Opaque,
            },
            RenderCell {
                line: 1,
                column: 1,
                character: ' ',
                flags: CellFlags { bits: FLAG_DIM },
                fg: slot(268),
                bg: slot(257),
                underline: slot(268),
                bg_alpha: BgAlpha::WindowOpacity,
            },
        ]
    );
}

#[test]
fn columns_beyond_num_cols_are_not_read() {
    let p = palette();
    let fg = TermColor::Named(NamedColor::Foreground);
    let bg = TermColor::Named(NamedColor::Background);
    let rows = vec![vec![cell(' ', 0, fg, bg), cell('x', 0, fg, bg)]];
    assert!(renderable_cells(&rows, 1, &p).is_empty());
    assert_eq!(renderable_cells(&rows, 2, &p).len(), 1);
}

#[test]
fn empty_viewport_draws_nothing() {
    let p = palette();
    let rows: Vec<Vec<TermCell>> = vec![vec![], vec![]];
    assert!(renderable_cells(&rows, 0, &p).is_empty());
}

#[test]
fn background_alpha_follows_the_stated_colour() {
    let p = palette();
    let fg = TermColor::Named(NamedColor::Foreground);
    // Slot 257 given directly is drawn opaque: the choice goes by the named colour.
    let rows = vec![vec![cell('x', 0, fg, TermColor::Spec(slot(257)))]];
    let cells = renderable_cells(&rows, 1, &p);
    assert_eq!(cells[0].bg_alpha, BgAlpha::Opaque);
    assert_eq!(cells[0].bg, slot(257));
}

#[test]
fn all_blank_viewport_draws_nothing() {
    let p = palette();
    let fg = TermColor::Named(NamedColor::Foreground);
    let bg = TermColor::Indexed(3);
    let rows = vec![vec![cell(' ', 0, fg, bg); 4]; 3];
    assert!(renderable_cells(&rows, 4, &p).is_empty());
}

#[test]
fn bottom_viewport_line_shows_display_offset() {
    for offset in [0usize, 1, 100] {
        assert_eq!(grid_line(offset, 10, 9), offset as i32);
        for i in 0..9 {
            assert_eq!(grid_line(offset, 10, i) - grid_line(offset, 10, i + 1), 1);
        }
    }
}
