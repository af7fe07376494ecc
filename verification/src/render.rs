//! Which cells of the visible grid are drawn, where, and in which colours.
use vstd::prelude::*;
use crate::palette::{ColorList, NamedColor, Rgb, TermColor, named_slot};

verus! {

/// The flag bit that marks a cell as dimmed.
pub const FLAG_DIM: u16 = 0x0080;

/// The attribute bits of a grid cell.
#[derive(Clone, Copy, Debug, PartialEq, Eq, Structural)]
pub struct CellFlags {
    pub bits: u16,
}

impl CellFlags {
    pub open spec fn spec_is_dim(self) -> bool {
        self.bits & FLAG_DIM != 0
    }

    pub open spec fn spec_is_empty(self) -> bool {
        self.bits == 0
    }

    /// Whether the dim bit is set.
    #[verifier::when_used_as_spec(spec_is_dim)]
    pub fn is_dim(self) -> (b: bool)
        ensures
            b == self.spec_is_dim(),
    {
        self.bits & FLAG_DIM != 0
    }

    /// Whether no bit is set.
    #[verifier::when_used_as_spec(spec_is_empty)]
    pub fn is_empty(self) -> (b: bool)
        ensures
            b == self.spec_is_empty(),
    {
        self.bits == 0
    }
}

/// One cell of the terminal grid, as far as drawing reads it.
#[derive(Clone, Copy, Debug, PartialEq, Eq, Structural)]
pub struct TermCell {
    pub c: char,
    pub flags: CellFlags,
    pub fg: TermColor,
    pub bg: TermColor,
}

/// The alpha of a cell's background: the window's opacity for cells on the
/// default background, fully opaque for every other background.
#[derive(Clone, Copy, Debug, PartialEq, Eq, Structural)]
pub enum BgAlpha {
    WindowOpacity,
    Opaque,
}

/// A cell ready to draw, at viewport line `line` and column `column`.
#[derive(Clone, Copy, Debug, PartialEq, Eq, Structural)]
pub struct RenderCell {
    pub line: usize,
    pub column: usize,
    pub character: char,
    pub flags: CellFlags,
    pub fg: Rgb,
    pub bg: Rgb,
    pub underline: Rgb,
    pub bg_alpha: BgAlpha,
}

/// The RGB value of `color` under `palette` for a cell with `flags`: a dim
/// cell in the default foreground takes the dim foreground.
pub open spec fn resolve_color(palette: Seq<Rgb>, color: TermColor, flags: CellFlags) -> Rgb {
    match color {
        TermColor::Named(n) => {
            if flags.spec_is_dim() && n == NamedColor::Foreground {
                palette[named_slot(NamedColor::DimForeground) as int]
            } else {
                palette[named_slot(n) as int]
            }
        },
        TermColor::Spec(rgb) => rgb,
        TermColor::Indexed(i) => palette[i as int],
    }
}

/// A cell holding a space and no attribute: nothing is drawn for it.
pub open spec fn is_blank(cell: TermCell) -> bool {
    cell.c == ' ' && cell.flags.spec_is_empty()
}

pub open spec fn bg_alpha_of(bg: TermColor) -> BgAlpha {
    if bg == TermColor::Named(NamedColor::Background) {
        BgAlpha::WindowOpacity
    } else {
        BgAlpha::Opaque
    }
}

/// How `cell`, at viewport line `line` and column `column`, is drawn.
pub open spec fn render_cell(palette: Seq<Rgb>, cell: TermCell, line: int, column: int) -> RenderCell {
    let fg = resolve_color(palette, cell.fg, cell.flags);
    RenderCell {
        line: line as usize,
        column: column as usize,
        character: cell.c,
        flags: cell.flags,
        fg: fg,
        bg: resolve_color(palette, cell.bg, cell.flags),
        underline: fg,
        bg_alpha: bg_alpha_of(cell.bg),
    }
}

/// The drawn cells among the first `n` cells of `row`, in column order.
pub open spec fn row_cells(palette: Seq<Rgb>, row: Seq<TermCell>, line: int, n: nat) -> Seq<
    RenderCell,
>
    decreases n,
{
    if n == 0 {
        Seq::empty()
    } else {
        let k = (n - 1) as nat;
        row_cells(palette, row, line, k) + if is_blank(row[k as int]) {
            Seq::empty()
        } else {
            seq![render_cell(palette, row[k as int], line, k as int)]
        }
    }
}

/// The drawn cells of the first `n` rows, each read up to column
/// `num_cols`, in row-major order.
pub open spec fn viewport_cells(
    palette: Seq<Rgb>,
    rows: Seq<Vec<TermCell>>,
    num_cols: nat,
    n: nat,
) -> Seq<RenderCell>
    decreases n,
{
    if n == 0 {
        Seq::empty()
    } else {
        let k = (n - 1) as nat;
        viewport_cells(palette, rows, num_cols, k) + row_cells(
            palette,
            rows[k as int]@,
            k as int,
            num_cols,
        )
    }
}

/// The RGB value of a cell colour: a dim cell in the default foreground
/// takes the dim foreground; direct colours are kept; table and named
/// colours are looked up in the palette.
pub fn cell_color_to_rgb(colors: &ColorList, color: TermColor, flags: CellFlags) -> (c: Rgb)
    ensures
        c == resolve_color(colors@, color, flags),
        color matches TermColor::Indexed(i) ==> c == colors@[i as int],
        color matches TermColor::Spec(rgb) ==> c == rgb,
        color matches TermColor::Named(n) ==> c == if flags.bits & FLAG_DIM != 0 && n
            == NamedColor::Foreground {
            colors@[268]
        } else {
            colors@[named_slot(n) as int]
        },
{
    match color {
        TermColor::Named(named) => {
            if flags.is_dim() && matches!(named, NamedColor::Foreground) {
                colors.named(NamedColor::DimForeground)
            } else {
                colors.named(named)
            }
        },
        TermColor::Spec(rgb) => Rgb::new(rgb.r, rgb.g, rgb.b),
        TermColor::Indexed(idx) => colors.indexed(idx),
    }
}

/// The grid line shown at viewport line `line_idx`, for a viewport of
/// `screen_lines` lines scrolled back by `display_offset` lines.
pub open spec fn spec_grid_line(display_offset: int, screen_lines: int, line_idx: int) -> int {
    display_offset + screen_lines - 1 - line_idx
}

/// The grid line shown at viewport line `line_idx`.
pub fn grid_line(display_offset: usize, screen_lines: usize, line_idx: usize) -> (l: i32)
    requires
        line_idx < screen_lines,
        display_offset + screen_lines <= i32::MAX,
    ensures
        l == spec_grid_line(display_offset as int, screen_lines as int, line_idx as int),
        0 <= l,
{
    let d: i32 = display_offset as i32;
    let s: i32 = screen_lines as i32;
    let i: i32 = line_idx as i32;
    d + s - 1 - i
}

/// The cells to draw for a viewport whose `rows[i]` is the grid row shown
/// at viewport line `i`, each read up to column `num_cols`: blank cells are
/// skipped, the others are resolved against `colors`, in row-major order.
pub fn renderable_cells(rows: &Vec<Vec<TermCell>>, num_cols: usize, colors: &ColorList) -> (cells:
    Vec<RenderCell>)
    requires
        forall|i: int| 0 <= i < rows.len() ==> num_cols <= (#[trigger] rows[i]).len(),
    ensures
        cells@ == viewport_cells(colors@, rows@, num_cols as nat, rows.len() as nat),
        forall|l: int, col: int|
            #![trigger rows@[l]@[col]]
            0 <= l < rows.len() && 0 <= col < num_cols && (rows@[l]@[col].c != ' '
                || rows@[l]@[col].flags.bits != 0) ==> exists|j: int|
                0 <= j < cells.len() && #[trigger] cells@[j].line == l && cells@[j].column == col,
        forall|j: int|
            #![trigger cells@[j]]
            0 <= j < cells.len() ==> {
                let c = cells@[j];
                let src = rows@[c.line as int]@[c.column as int];
                &&& c.line < rows.len()
                &&& c.column < num_cols
                &&& (src.c != ' ' || src.flags.bits != 0)
                &&& c.character == src.c
                &&& c.flags == src.flags
                &&& c.fg == resolve_color(colors@, src.fg, src.flags)
                &&& c.bg == resolve_color(colors@, src.bg, src.flags)
                &&& c.underline == c.fg
                &&& (c.bg_alpha == BgAlpha::WindowOpacity <==> src.bg == TermColor::Named(
                    NamedColor::Background,
                ))
            },
{
    let mut cells: Vec<RenderCell> = Vec::new();
    let screen_lines = rows.len();
    for line_idx in 0..screen_lines
        invariant
            screen_lines == rows.len(),
            forall|i: int| 0 <= i < rows.len() ==> num_cols <= (#[trigger] rows[i]).len(),
            cells@ == viewport_cells(colors@, rows@, num_cols as nat, line_idx as nat),
    {
        let row = &rows[line_idx];
        let ghost before = cells@;
        for col_idx in 0..num_cols
            invariant
                screen_lines == rows.len(),
                line_idx < screen_lines,
                row == rows[line_idx as int],
                num_cols <= row.len(),
                before == viewport_cells(colors@, rows@, num_cols as nat, line_idx as nat),
                cells@ == before + row_cells(colors@, row@, line_idx as int, col_idx as nat),
        {
            let cell = &row[col_idx];
            if !(cell.c == ' ' && cell.flags.is_empty()) {
                let fg = cell_color_to_rgb(colors, cell.fg, cell.flags);
                let bg = cell_color_to_rgb(colors, cell.bg, cell.flags);
                let bg_alpha = if matches!(cell.bg, TermColor::Named(NamedColor::Background)) {
                    BgAlpha::WindowOpacity
                } else {
                    BgAlpha::Opaque
                };
                cells.push(
                    RenderCell {
                        line: line_idx,
                        column: col_idx,
                        character: cell.c,
                        flags: cell.flags,
                        fg,
                        bg,
                        underline: fg,
                        bg_alpha,
                    },
                );
            }
            assert(cells@ =~= before + row_cells(
                colors@,
                row@,
                line_idx as int,
                (col_idx + 1) as nat,
            ));
        }
        assert(cells@ =~= viewport_cells(colors@, rows@, num_cols as nat, (line_idx + 1) as nat));
    }
    proof {
        law_viewport_cells_exact(colors@, rows@, num_cols as nat, rows.len() as nat);
        assert forall|j: int| 0 <= j < cells.len() implies drawn_from(
            colors@,
            rows@,
            num_cols as nat,
            rows.len() as nat,
            #[trigger] cells@[j],
        ) by {}
    }
    cells
}

/// Whether `c` is the drawing of the non-blank cell at its place, within
/// `num_cols` columns of the first `n` lines of `rows`.
pub open spec fn drawn_from(
    palette: Seq<Rgb>,
    rows: Seq<Vec<TermCell>>,
    num_cols: nat,
    n: nat,
    c: RenderCell,
) -> bool {
    &&& c.line < n
    &&& c.column < num_cols
    &&& !is_blank(rows[c.line as int]@[c.column as int])
    &&& c == render_cell(palette, rows[c.line as int]@[c.column as int], c.line as int, c.column as int)
}

/// Row-major order: `a` comes strictly before `b`.
pub open spec fn precedes(a: RenderCell, b: RenderCell) -> bool {
    a.line < b.line || (a.line == b.line && a.column < b.column)
}

/// Whether `cells` are drawings of non-blank cells within the first `n`
/// lines and `num_cols` columns, in strictly increasing row-major order.
pub open spec fn drawn_within(
    palette: Seq<Rgb>,
    rows: Seq<Vec<TermCell>>,
    num_cols: nat,
    n: nat,
    cells: Seq<RenderCell>,
) -> bool {
    &&& forall|j: int|
        0 <= j < cells.len() ==> drawn_from(palette, rows, num_cols, n, #[trigger] cells[j])
    &&& forall|j: int, k: int|
        0 <= j < k < cells.len() ==> precedes(#[trigger] cells[j], #[trigger] cells[k])
}

/// Whether every non-blank cell of the first `n` lines, up to column
/// `num_cols`, appears in `cells`.
pub open spec fn covers(rows: Seq<Vec<TermCell>>, num_cols: nat, n: nat, cells: Seq<RenderCell>) -> bool {
    forall|l: int, col: int|
        #![trigger rows[l]@[col]]
        0 <= l < n && 0 <= col < num_cols && !is_blank(rows[l]@[col]) ==> exists|j: int|
            0 <= j < cells.len() && #[trigger] cells[j].line == l && cells[j].column == col
}

spec fn row_cell_from(palette: Seq<Rgb>, row: Seq<TermCell>, line: int, n: nat, c: RenderCell) -> bool {
    &&& c.line == line
    &&& c.column < n
    &&& !is_blank(row[c.column as int])
    &&& c == render_cell(palette, row[c.column as int], line, c.column as int)
}

proof fn lemma_row_cells(palette: Seq<Rgb>, row: Seq<TermCell>, line: int, n: nat)
    requires
        n <= row.len(),
        row.len() <= usize::MAX,
        0 <= line <= usize::MAX,
    ensures
        forall|j: int|
            0 <= j < row_cells(palette, row, line, n).len() ==> row_cell_from(
                palette,
                row,
                line,
                n,
                #[trigger] row_cells(palette, row, line, n)[j],
            ),
        forall|j: int, k: int|
            0 <= j < k < row_cells(palette, row, line, n).len() ==> (#[trigger] row_cells(
                palette,
                row,
                line,
                n,
            )[j]).column < (#[trigger] row_cells(palette, row, line, n)[k]).column,
        forall|col: int|
            0 <= col < n && !is_blank(#[trigger] row[col]) ==> exists|j: int|
                0 <= j < row_cells(palette, row, line, n).len() && (#[trigger] row_cells(
                    palette,
                    row,
                    line,
                    n,
                )[j]).column == col,
    decreases n,
{
    if n > 0 {
        let k = (n - 1) as nat;
        lemma_row_cells(palette, row, line, k);
        let prev = row_cells(palette, row, line, k);
        let cells = row_cells(palette, row, line, n);
        let tail = if is_blank(row[k as int]) {
            Seq::<RenderCell>::empty()
        } else {
            seq![render_cell(palette, row[k as int], line, k as int)]
        };
        assert(cells == prev + tail);
        assert forall|j: int| 0 <= j < cells.len() implies row_cell_from(
            palette,
            row,
            line,
            n,
            #[trigger] cells[j],
        ) by {
            if j < prev.len() {
                assert(cells[j] == prev[j]);
                assert(row_cell_from(palette, row, line, k, prev[j]));
            }
        }
        assert forall|j: int, i: int|
            0 <= j < i < cells.len() implies (#[trigger] cells[j]).column < (
            #[trigger] cells[i]).column by {
            assert(cells[j] == prev[j]);
            assert(row_cell_from(palette, row, line, k, prev[j]));
            if i < prev.len() {
                assert(cells[i] == prev[i]);
            }
        }
        assert forall|col: int| 0 <= col < n && !is_blank(#[trigger] row[col]) implies exists|j: int|
            0 <= j < cells.len() && (#[trigger] cells[j]).column == col by {
            if col < k {
                let j = choose|j: int| 0 <= j < prev.len() && (#[trigger] prev[j]).column == col;
                assert(cells[j] == prev[j]);
            } else {
                assert(cells[cells.len() - 1].column == col);
            }
        }
    }
}

/// What `renderable_cells` returns draws exactly the non-blank cells of the
/// viewport: each drawn cell is the drawing of a non-blank cell within the
/// viewport, every non-blank cell is drawn, and the cells come in strictly
/// increasing row-major order, so none is drawn twice.
pub proof fn law_viewport_cells_exact(
    palette: Seq<Rgb>,
    rows: Seq<Vec<TermCell>>,
    num_cols: nat,
    n: nat,
)
    requires
        n <= rows.len(),
        rows.len() <= usize::MAX,
        forall|i: int| 0 <= i < rows.len() ==> num_cols <= (#[trigger] rows[i]).len(),
    ensures
        drawn_within(palette, rows, num_cols, n, viewport_cells(palette, rows, num_cols, n)),
        covers(rows, num_cols, n, viewport_cells(palette, rows, num_cols, n)),
    decreases n,
{
    if n > 0 {
        let k = (n - 1) as nat;
        law_viewport_cells_exact(palette, rows, num_cols, k);
        let prev = viewport_cells(palette, rows, num_cols, k);
        let row = rows[k as int]@;
        assert(num_cols <= rows[k as int].len());
        lemma_row_cells(palette, row, k as int, num_cols);
        let last = row_cells(palette, row, k as int, num_cols);
        let cells = viewport_cells(palette, rows, num_cols, n);
        assert(cells == prev + last);
        assert forall|j: int| 0 <= j < cells.len() implies drawn_from(
            palette,
            rows,
            num_cols,
            n,
            #[trigger] cells[j],
        ) by {
            if j < prev.len() {
                assert(cells[j] == prev[j]);
                assert(drawn_from(palette, rows, num_cols, k, prev[j]));
            } else {
                assert(cells[j] == last[j - prev.len()]);
                assert(row_cell_from(palette, row, k as int, num_cols, last[j - prev.len()]));
            }
        }
        assert forall|j: int, i: int| 0 <= j < i < cells.len() implies precedes(
            #[trigger] cells[j],
            #[trigger] cells[i],
        ) by {
            if i < prev.len() {
                assert(cells[j] == prev[j]);
                assert(cells[i] == prev[i]);
            } else if j < prev.len() {
                assert(cells[j] == prev[j]);
                assert(drawn_from(palette, rows, num_cols, k, prev[j]));
                assert(cells[i] == last[i - prev.len()]);
                assert(row_cell_from(palette, row, k as int, num_cols, last[i - prev.len()]));
            } else {
                assert(cells[j] == last[j - prev.len()]);
                assert(cells[i] == last[i - prev.len()]);
                assert(row_cell_from(palette, row, k as int, num_cols, last[i - prev.len()]));
                assert(row_cell_from(palette, row, k as int, num_cols, last[j - prev.len()]));
            }
        }
        assert forall|l: int, col: int|
            0 <= l < n && 0 <= col < num_cols && !is_blank(#[trigger] rows[l]@[col]) implies exists|
            j: int|
            0 <= j < cells.len() && #[trigger] cells[j].line == l && cells[j].column == col by {
            if l < k {
                let j = choose|j: int|
                    0 <= j < prev.len() && #[trigger] prev[j].line == l && prev[j].column == col;
                assert(cells[j] == prev[j]);
            } else {
                assert(row[col] == rows[l]@[col]);
                let j = choose|j: int| 0 <= j < last.len() && (#[trigger] last[j]).column == col;
                assert(row_cell_from(palette, row, k as int, num_cols, last[j]));
                assert(cells[prev.len() + j] == last[j]);
            }
        }
    }
}

/// A viewport whose cells are all blank draws nothing.
pub proof fn law_blank_viewport_draws_nothing(
    palette: Seq<Rgb>,
    rows: Seq<Vec<TermCell>>,
    num_cols: nat,
    n: nat,
)
    requires
        n <= rows.len(),
        rows.len() <= usize::MAX,
        forall|i: int| 0 <= i < rows.len() ==> num_cols <= (#[trigger] rows[i]).len(),
        forall|l: int, col: int|
            0 <= l < n && 0 <= col < num_cols ==> is_blank(#[trigger] rows[l]@[col]),
    ensures
        viewport_cells(palette, rows, num_cols, n).len() == 0,
{
    law_viewport_cells_exact(palette, rows, num_cols, n);
    let cells = viewport_cells(palette, rows, num_cols, n);
    if cells.len() > 0 {
        assert(drawn_from(palette, rows, num_cols, n, cells[0]));
    }
}

/// The dim flag changes only the default foreground: any other colour
/// resolves the same with or without it.
pub proof fn law_dim_only_affects_foreground(palette: Seq<Rgb>, color: TermColor, f1: CellFlags, f2: CellFlags)
    requires
        color != TermColor::Named(NamedColor::Foreground),
    ensures
        resolve_color(palette, color, f1) == resolve_color(palette, color, f2),
{
}

/// The sixteen base named colours are the first sixteen entries of the
/// 256-colour table: naming one or giving its table index resolves alike.
pub proof fn law_base_colors_are_table_entries(palette: Seq<Rgb>, n: NamedColor, flags: CellFlags)
    requires
        named_slot(n) < 16,
    ensures
        resolve_color(palette, TermColor::Named(n), flags) == resolve_color(
            palette,
            TermColor::Indexed(named_slot(n) as u8),
            flags,
        ),
{
}

/// Viewport lines map to grid lines in reverse order, one grid line each:
/// the last viewport line shows grid line `display_offset` and each line
/// above it shows the next grid line up.
pub proof fn law_grid_lines_reverse(display_offset: int, screen_lines: int, i: int, j: int)
    requires
        0 <= i < j < screen_lines,
    ensures
        spec_grid_line(display_offset, screen_lines, i) > spec_grid_line(display_offset, screen_lines, j),
        spec_grid_line(display_offset, screen_lines, screen_lines - 1) == display_offset,
        spec_grid_line(display_offset, screen_lines, i) - spec_grid_line(display_offset, screen_lines, i + 1) == 1,
{
}

/// A cell is left undrawn exactly when it holds a space and has no flag bit
/// set: any other character, or any attribute at all, gets it drawn.
pub proof fn law_blank_means_bare_space(cell: TermCell)
    ensures
        is_blank(cell) <==> (cell.c == ' ' && cell.flags.bits == 0),
{
}

/// Entry `i` of the 256-colour table resolves to palette slot `i`, whatever
/// the cell's flags; a direct colour resolves to itself.
pub proof fn law_table_entries_resolve_to_their_slot(palette: Seq<Rgb>, i: u8, rgb: Rgb, flags: CellFlags)
    ensures
        resolve_color(palette, TermColor::Indexed(i), flags) == palette[i as int],
        resolve_color(palette, TermColor::Spec(rgb), flags) == rgb,
{
}

/// Each named colour resolves to its palette slot: the sixteen base colours
/// to their ANSI numbers 0 to 15, the same slots as table entries 0 to 15;
/// the special colours to slots 256 to 268. A dim cell's default foreground
/// takes slot 268.
pub proof fn law_named_colors_at_their_slots(p: Seq<Rgb>, f: CellFlags)
    ensures
        resolve_color(p, TermColor::Named(NamedColor::Black), f) == p[0],
        resolve_color(p, TermColor::Named(NamedColor::Red), f) == p[1],
        resolve_color(p, TermColor::Named(NamedColor::Green), f) == p[2],
        resolve_color(p, TermColor::Named(NamedColor::Yellow), f) == p[3],
        resolve_color(p, TermColor::Named(NamedColor::Blue), f) == p[4],
        resolve_color(p, TermColor::Named(NamedColor::Magenta), f) == p[5],
        resolve_color(p, TermColor::Named(NamedColor::Cyan), f) == p[6],
        resolve_color(p, TermColor::Named(NamedColor::White), f) == p[7],
        resolve_color(p, TermColor::Named(NamedColor::BrightBlack), f) == p[8],
        resolve_color(p, TermColor::Named(NamedColor::BrightRed), f) == p[9],
        resolve_color(p, TermColor::Named(NamedColor::BrightGreen), f) == p[10],
        resolve_color(p, TermColor::Named(NamedColor::BrightYellow), f) == p[11],
        resolve_color(p, TermColor::Named(NamedColor::BrightBlue), f) == p[12],
        resolve_color(p, TermColor::Named(NamedColor::BrightMagenta), f) == p[13],
        resolve_color(p, TermColor::Named(NamedColor::BrightCyan), f) == p[14],
        resolve_color(p, TermColor::Named(NamedColor::BrightWhite), f) == p[15],
        f.bits & FLAG_DIM == 0 ==> resolve_color(p, TermColor::Named(NamedColor::Foreground), f)
            == p[256],
        f.bits & FLAG_DIM != 0 ==> resolve_color(p, TermColor::Named(NamedColor::Foreground), f)
            == p[268],
        resolve_color(p, TermColor::Named(NamedColor::Background), f) == p[257],
        resolve_color(p, TermColor::Named(NamedColor::Cursor), f) == p[258],
        resolve_color(p, TermColor::Named(NamedColor::DimBlack), f) == p[259],
        resolve_color(p, TermColor::Named(NamedColor::DimRed), f) == p[260],
        resolve_color(p, TermColor::Named(NamedColor::DimGreen), f) == p[261],
        resolve_color(p, TermColor::Named(NamedColor::DimYellow), f) == p[262],
        resolve_color(p, TermColor::Named(NamedColor::DimBlue), f) == p[263],
        resolve_color(p, TermColor::Named(NamedColor::DimMagenta), f) == p[264],
        resolve_color(p, TermColor::Named(NamedColor::DimCyan), f) == p[265],
        resolve_color(p, TermColor::Named(NamedColor::DimWhite), f) == p[266],
        resolve_color(p, TermColor::Named(NamedColor::BrightForeground), f) == p[267],
        resolve_color(p, TermColor::Named(NamedColor::DimForeground), f) == p[268],
{
}

} // verus!
