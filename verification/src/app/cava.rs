//! Cava (audio visualizer) support: its configuration file, the height of
//! its pane and the grouping of its screen cells into colored spans.

use vstd::prelude::*;
use crate::text::{push_char, push_str};
use crate::ui::theme::string_views;

verus! {

/// The start of cava's configuration, up to its vertical gradient colors.
pub const CAVA_CONFIG_HEAD: &'static str = "[general]\nframerate = 60\nautosens = 1\novershoot = 0\nbars = 0\nbar_width = 1\nbar_spacing = 0\nlower_cutoff_freq = 10\nhigher_cutoff_freq = 18000\n\n[input]\nsample_rate = 96000\nsample_bits = 32\nremix = 1\n\n[output]\nmethod = noncurses\norientation = horizontal\nchannels = mono\nmono_option = average\nsynchronized_sync = 1\ndisable_blanking = 1\n\n[color]\ngradient = 1\n";

/// The line between the vertical and the horizontal gradient colors.
pub const CAVA_HORIZONTAL_LINE: &'static str = "horizontal_gradient = 1\n";

/// The end of cava's configuration, after its gradient colors.
pub const CAVA_CONFIG_TAIL: &'static str = "\n[smoothing]\nmonstercat = 0\nwaves = 0\nnoise_reduction = 11\n";

/// The decimal digit of `n` (between 0 and 9).
pub open spec fn digit_char(n: int) -> char {
    (n + 48) as char
}

/// The line `<label><n> = '<color>'` that sets the color of slot `n`.
pub open spec fn color_line(label: Seq<char>, n: int, color: Seq<char>) -> Seq<char> {
    label + seq![digit_char(n)] + " = '"@ + color + "'\n"@
}

/// The lines setting slots 1 to `k` to the first `k` colors, in order.
pub open spec fn color_lines(label: Seq<char>, colors: Seq<Seq<char>>, k: int) -> Seq<char>
    decreases k,
{
    if k <= 0 {
        Seq::empty()
    } else {
        color_lines(label, colors, k - 1) + color_line(label, k, colors[k - 1])
    }
}

/// The configuration text cava is started with: noncurses output, and the
/// theme's vertical gradient `g` and horizontal gradient `h` (eight colors
/// each, `gradient_color_1` to `gradient_color_8` and
/// `horizontal_gradient_color_1` to `horizontal_gradient_color_8`).
pub open spec fn cava_config(g: Seq<Seq<char>>, h: Seq<Seq<char>>) -> Seq<char> {
    CAVA_CONFIG_HEAD@ + color_lines("gradient_color_"@, g, 8) + CAVA_HORIZONTAL_LINE@ + color_lines(
        "horizontal_gradient_color_"@,
        h,
        8,
    ) + CAVA_CONFIG_TAIL@
}

/// The digit character of `n`.
fn digit(n: usize) -> (c: char)
    requires
        n <= 9,
    ensures
        c == digit_char(n as int),
{
    ((n as u8) + 48u8) as char
}

/// Appends the lines setting slots 1 to 8 of `label` to the colors.
fn push_color_lines(out: &mut String, label: &str, colors: &[String; 8])
    ensures
        final(out)@ == old(out)@ + color_lines(label@, string_views(colors@), 8),
{
    let ghost start = out@;
    let mut i: usize = 0;
    while i < 8
        invariant
            i <= 8,
            colors@.len() == 8,
            out@ == start + color_lines(label@, string_views(colors@), i as int),
        decreases 8 - i,
    {
        let ghost before = out@;
        push_str(out, label);
        push_char(out, digit(i + 1));
        push_str(out, " = '");
        push_str(out, colors[i].as_str());
        push_str(out, "'\n");
        proof {
            assert(string_views(colors@)[i as int] == colors@[i as int]@);
            assert(out@ =~= before + color_line(label@, i + 1, string_views(colors@)[i as int]));
        }
        i = i + 1;
    }
}

/// Generates the cava configuration for the theme gradients `g`
/// (vertical) and `h` (horizontal).
pub fn generate_cava_config(g: &[String; 8], h: &[String; 8]) -> (config: String)
    ensures
        config@ == cava_config(string_views(g@), string_views(h@)),
{
    let mut out = String::new();
    push_str(&mut out, CAVA_CONFIG_HEAD);
    push_color_lines(&mut out, "gradient_color_", g);
    push_str(&mut out, CAVA_HORIZONTAL_LINE);
    push_color_lines(&mut out, "horizontal_gradient_color_", h);
    push_str(&mut out, CAVA_CONFIG_TAIL);
    proof {
        assert(out@ =~= cava_config(string_views(g@), string_views(h@)));
    }
    out
}

proof fn lemma_lines_end_with_newline(label: Seq<char>, colors: Seq<Seq<char>>, k: int)
    ensures
        k <= 0 ==> color_lines(label, colors, k).len() == 0,
        k > 0 ==> color_lines(label, colors, k).len() > 0 && color_lines(label, colors, k).last() == '\n',
{
    reveal_strlit("'\n");
}

proof fn lemma_line_in_lines(label: Seq<char>, colors: Seq<Seq<char>>, k: int, i: int) -> (ab: (Seq<char>, Seq<char>))
    requires
        0 <= i < k,
    ensures
        color_lines(label, colors, k) == ab.0 + color_line(label, i + 1, colors[i]) + ab.1,
        ab.0.len() == 0 || ab.0.last() == '\n',
    decreases k,
{
    if i == k - 1 {
        lemma_lines_end_with_newline(label, colors, k - 1);
        let a = color_lines(label, colors, k - 1);
        assert(color_lines(label, colors, k) =~= a + color_line(label, i + 1, colors[i]) + Seq::empty());
        (a, Seq::empty())
    } else {
        let (a, b) = lemma_line_in_lines(label, colors, k - 1, i);
        let b2 = b + color_line(label, k, colors[k - 1]);
        assert(color_lines(label, colors, k) =~= a + color_line(label, i + 1, colors[i]) + b2);
        (a, b2)
    }
}

/// Each gradient slot carries the theme color of the same index: for every
/// `i` from 0 to 7 the configuration has, on a line of its own, the line
/// `gradient_color_<i+1> = '<g[i]>'` and the line
/// `horizontal_gradient_color_<i+1> = '<h[i]>'`.
pub proof fn cava_config_slots_hold_their_colors(g: Seq<Seq<char>>, h: Seq<Seq<char>>, i: int)
    requires
        0 <= i < 8,
    ensures
        exists|pre: Seq<char>, post: Seq<char>|
            #![trigger pre.last(), post.len()]
            pre.len() > 0 && pre.last() == '\n' && cava_config(g, h) == pre + "gradient_color_"@ + seq![
                (i + 49) as char,
            ] + " = '"@ + g[i] + "'\n"@ + post,
        exists|pre: Seq<char>, post: Seq<char>|
            #![trigger pre.last(), post.len()]
            pre.len() > 0 && pre.last() == '\n' && cava_config(g, h) == pre + "horizontal_gradient_color_"@
                + seq![(i + 49) as char] + " = '"@ + h[i] + "'\n"@ + post,
{
    reveal_strlit("[general]\nframerate = 60\nautosens = 1\novershoot = 0\nbars = 0\nbar_width = 1\nbar_spacing = 0\nlower_cutoff_freq = 10\nhigher_cutoff_freq = 18000\n\n[input]\nsample_rate = 96000\nsample_bits = 32\nremix = 1\n\n[output]\nmethod = noncurses\norientation = horizontal\nchannels = mono\nmono_option = average\nsynchronized_sync = 1\ndisable_blanking = 1\n\n[color]\ngradient = 1\n");
    reveal_strlit("horizontal_gradient = 1\n");
    let head = CAVA_CONFIG_HEAD@;
    let gl = color_lines("gradient_color_"@, g, 8);
    let hl = color_lines("horizontal_gradient_color_"@, h, 8);
    let mid = CAVA_HORIZONTAL_LINE@;
    let tail = CAVA_CONFIG_TAIL@;
    assert(head.len() > 0 && head.last() == '\n');
    assert(mid.len() > 0 && mid.last() == '\n');
    let (a, b) = lemma_line_in_lines("gradient_color_"@, g, 8, i);
    let pre = head + a;
    let post = b + mid + hl + tail;
    assert(pre.last() == '\n');
    assert(cava_config(g, h) =~= pre + "gradient_color_"@ + seq![(i + 49) as char] + " = '"@ + g[i] + "'\n"@
        + post);
    let (c, d) = lemma_line_in_lines("horizontal_gradient_color_"@, h, 8, i);
    let pre2 = head + gl + mid + c;
    let post2 = d + tail;
    assert(pre2.last() == '\n');
    assert(cava_config(g, h) =~= pre2 + "horizontal_gradient_color_"@ + seq![(i + 49) as char] + " = '"@ + h[i]
        + "'\n"@ + post2);
}

/// The color of a cava screen cell.
#[derive(Clone, Copy, PartialEq, Eq, Structural, Debug)]
pub enum CavaColor {
    Default,
    Indexed(u8),
    Rgb(u8, u8, u8),
}

/// One cell of the cava screen: its text and colors.
pub struct CavaCell {
    pub contents: String,
    pub fg: CavaColor,
    pub bg: CavaColor,
}

/// A run of text drawn with one pair of colors.
pub struct CavaSpan {
    pub text: String,
    pub fg: CavaColor,
    pub bg: CavaColor,
}

/// One screen row as colored spans.
pub struct CavaRow {
    pub spans: Vec<CavaSpan>,
}

/// The text a cell shows: its contents, or a space when it is empty.
pub open spec fn cell_text(contents: Seq<char>) -> Seq<char> {
    if contents.len() == 0 {
        seq![' ']
    } else {
        contents
    }
}

/// A span as (text, foreground, background).
pub type SpanView = (Seq<char>, CavaColor, CavaColor);

/// The spans of a row of cells: maximal runs of consecutive cells with the
/// same colors, each holding the concatenated texts of its cells.
pub open spec fn color_runs(cells: Seq<CavaCell>) -> Seq<SpanView>
    decreases cells.len(),
{
    if cells.len() == 0 {
        Seq::empty()
    } else {
        let r = color_runs(cells.drop_last());
        let c = cells.last();
        if r.len() > 0 && r.last().1 == c.fg && r.last().2 == c.bg {
            r.update(r.len() - 1, (r.last().0 + cell_text(c.contents@), c.fg, c.bg))
        } else {
            r.push((cell_text(c.contents@), c.fg, c.bg))
        }
    }
}

/// The views of spans.
pub open spec fn span_views(spans: Seq<CavaSpan>) -> Seq<SpanView> {
    spans.map_values(|s: CavaSpan| (s.text@, s.fg, s.bg))
}

/// Groups a row of screen cells into colored spans.
pub fn group_cells(cells: &[CavaCell]) -> (row: CavaRow)
    ensures
        span_views(row.spans@) == color_runs(cells@),
{
    let mut spans: Vec<CavaSpan> = Vec::new();
    let mut cur_text = String::new();
    let mut cur_fg = CavaColor::Default;
    let mut cur_bg = CavaColor::Default;
    let mut i: usize = 0;
    while i < cells.len()
        invariant
            i <= cells@.len(),
            i == 0 ==> cur_text@.len() == 0 && spans@.len() == 0,
            i > 0 ==> cur_text@.len() > 0,
            i > 0 ==> color_runs(cells@.take(i as int)) == span_views(spans@).push(
                (cur_text@, cur_fg, cur_bg),
            ),
        decreases cells.len() - i,
    {
        let cell = &cells[i];
        let ghost prev = color_runs(cells@.take(i as int));
        let ghost old_spans = span_views(spans@);
        let ghost old_text = cur_text@;
        let ghost old_fg = cur_fg;
        let ghost old_bg = cur_bg;
        proof {
            assert(cells@.take(i + 1).drop_last() =~= cells@.take(i as int));
            assert(cells@.take(i + 1).last() == cells@[i as int]);
        }
        if cell.fg != cur_fg || cell.bg != cur_bg {
            if !cur_text.as_str().is_empty() {
                let done = CavaSpan { text: cur_text, fg: cur_fg, bg: cur_bg };
                let ghost before = spans@;
                spans.push(done);
                proof {
                    assert(span_views(spans@) =~= span_views(before).push(
                        (done.text@, done.fg, done.bg),
                    ));
                }
                cur_text = String::new();
            }
            cur_fg = cell.fg;
            cur_bg = cell.bg;
        }
        if cell.contents.as_str().is_empty() {
            push_char(&mut cur_text, ' ');
        } else {
            push_str(&mut cur_text, cell.contents.as_str());
        }
        proof {
            let next = color_runs(cells@.take(i + 1));
            let t = cell_text(cells@[i as int].contents@);
            if i == 0 {
                assert(prev.len() == 0);
                assert(cur_text@ =~= t);
                assert(next =~= span_views(spans@).push((cur_text@, cur_fg, cur_bg)));
            } else {
                assert(prev == old_spans.push((old_text, old_fg, old_bg)));
                assert(prev.last() == (old_text, old_fg, old_bg));
                if old_fg == cell.fg && old_bg == cell.bg {
                    assert(cur_text@ =~= old_text + t);
                    assert(next =~= old_spans.push((old_text + t, cell.fg, cell.bg)));
                } else {
                    assert(cur_text@ =~= t);
                    assert(span_views(spans@) == old_spans.push((old_text, old_fg, old_bg)));
                }
                assert(next =~= span_views(spans@).push((cur_text@, cur_fg, cur_bg)));
            }
        }
        i = i + 1;
    }
    if !cur_text.as_str().is_empty() {
        let ghost before = spans@;
        let last = CavaSpan { text: cur_text, fg: cur_fg, bg: cur_bg };
        spans.push(last);
        proof {
            assert(span_views(spans@) =~= span_views(before).push((last.text@, last.fg, last.bg)));
        }
    }
    proof {
        assert(cells@.take(cells@.len() as int) =~= cells@);
    }
    CavaRow { spans }
}

/// The text of a row of cells: each cell's text, in order.
pub open spec fn row_text(cells: Seq<CavaCell>) -> Seq<char>
    decreases cells.len(),
{
    if cells.len() == 0 {
        Seq::empty()
    } else {
        row_text(cells.drop_last()) + cell_text(cells.last().contents@)
    }
}

/// The texts of spans, concatenated.
pub open spec fn spans_text(spans: Seq<SpanView>) -> Seq<char>
    decreases spans.len(),
{
    if spans.len() == 0 {
        Seq::empty()
    } else {
        spans_text(spans.drop_last()) + spans.last().0
    }
}

/// Grouping loses nothing and merges as far as it can: the spans' texts
/// spell the row, every span has text, and neighbouring spans differ in
/// color.
pub proof fn color_runs_are_maximal(cells: Seq<CavaCell>)
    ensures
        spans_text(color_runs(cells)) == row_text(cells),
        forall|i: int| 0 <= i < color_runs(cells).len() ==> (#[trigger] color_runs(cells)[i]).0.len() > 0,
        forall|i: int|
            0 <= i < color_runs(cells).len() - 1 ==> ((#[trigger] color_runs(cells)[i]).1, color_runs(
                cells,
            )[i].2) != (color_runs(cells)[i + 1].1, color_runs(cells)[i + 1].2),
    decreases cells.len(),
{
    if cells.len() > 0 {
        let p = cells.drop_last();
        color_runs_are_maximal(p);
        let r = color_runs(p);
        let c = cells.last();
        let t = cell_text(c.contents@);
        if r.len() > 0 && r.last().1 == c.fg && r.last().2 == c.bg {
            let x = (r.last().0 + t, c.fg, c.bg);
            let u = r.update(r.len() - 1, x);
            assert(u.drop_last() =~= r.drop_last());
            assert(spans_text(r) == spans_text(r.drop_last()) + r.last().0);
            assert(spans_text(u) == spans_text(r) + t);
            assert forall|i: int| 0 <= i < u.len() - 1 implies ((#[trigger] u[i]).1, u[i].2) != (
                u[i + 1].1,
                u[i + 1].2,
            ) by {
                assert(u[i] == r[i]);
                if i + 1 < u.len() - 1 {
                    assert(u[i + 1] == r[i + 1]);
                } else {
                    assert((u[i + 1].1, u[i + 1].2) == (r[i + 1].1, r[i + 1].2));
                }
            }
        } else {
            let x = (t, c.fg, c.bg);
            let u = r.push(x);
            assert(u.drop_last() =~= r);
            assert forall|i: int| 0 <= i < u.len() - 1 implies ((#[trigger] u[i]).1, u[i].2) != (
                u[i + 1].1,
                u[i + 1].2,
            ) by {
                assert(u[i] == r[i]);
                if i + 1 < u.len() - 1 {
                    assert(u[i + 1] == r[i + 1]);
                }
            }
        }
    }
}

/// A cell as (text, foreground, background).
pub type CellView = (Seq<char>, CavaColor, CavaColor);

/// The view of a cell.
pub open spec fn cell_view(c: CavaCell) -> CellView {
    (c.contents@, c.fg, c.bg)
}

/// The spans of a row of cell views, as [`color_runs`] groups cells.
pub open spec fn view_runs(cells: Seq<CellView>) -> Seq<SpanView>
    decreases cells.len(),
{
    if cells.len() == 0 {
        Seq::empty()
    } else {
        let r = view_runs(cells.drop_last());
        let c = cells.last();
        if r.len() > 0 && r.last().1 == c.1 && r.last().2 == c.2 {
            r.update(r.len() - 1, (r.last().0 + cell_text(c.0), c.1, c.2))
        } else {
            r.push((cell_text(c.0), c.1, c.2))
        }
    }
}

proof fn lemma_runs_of_views(cells: Seq<CavaCell>)
    ensures
        color_runs(cells) == view_runs(cells.map_values(|c: CavaCell| cell_view(c))),
    decreases cells.len(),
{
    if cells.len() > 0 {
        lemma_runs_of_views(cells.drop_last());
        assert(cells.drop_last().map_values(|c: CavaCell| cell_view(c)) =~= cells.map_values(
            |c: CavaCell| cell_view(c),
        ).drop_last());
    }
}

/// The terminal cava draws into, with the `vt100` parser that keeps its
/// screen.
#[verifier::external_body]
pub struct CavaTerminal {
    parser: vt100::Parser,
}

/// The cells of the terminal's screen, row by row, as the parser holds
/// them.
pub uninterp spec fn terminal_cells(t: CavaTerminal) -> Seq<Seq<CellView>>;

/// A blank screen: `rows` rows of `cols` empty cells in default colors.
pub open spec fn blank_screen(rows: nat, cols: nat) -> Seq<Seq<CellView>> {
    Seq::new(rows, |i: int| Seq::new(cols, |j: int| (Seq::<char>::empty(), CavaColor::Default, CavaColor::Default)))
}

/// `vt100::Parser::new` without scrollback. A new screen has `rows` rows of
/// `cols` cells, each empty and in default colors (`Screen::new` allocates
/// its rows of `Cell::new()`).
#[verifier::external_body]
fn vt_new(rows: u16, cols: u16) -> (t: CavaTerminal)
    requires
        rows > 0,
        cols > 0,
    ensures
        terminal_cells(t) == blank_screen(rows as nat, cols as nat),
{
    let r = std::num::NonZeroU16::new(rows).unwrap();
    let c = std::num::NonZeroU16::new(cols).unwrap();
    CavaTerminal { parser: vt100::Parser::new(r, c, 0) }
}

/// `vt100::Parser::process`: the parser interprets the bytes as terminal
/// output. What they do to the screen (the escape sequences of a terminal)
/// is not stated.
#[verifier::external_body]
fn vt_process(term: &mut CavaTerminal, bytes: &[u8]) {
    term.parser.process(bytes);
}

/// The cells of the screen, row by row (`Screen::size`, `Screen::cell`,
/// `Cell::contents`, `Cell::fgcolor`, `Cell::bgcolor`).
#[verifier::external_body]
fn vt_cells(term: &CavaTerminal) -> (rows: Vec<Vec<CavaCell>>)
    ensures
        rows@.map_values(|r: Vec<CavaCell>| r@.map_values(|c: CavaCell| cell_view(c))) == terminal_cells(*term),
{
    let screen = term.parser.screen();
    let (rows, cols) = screen.size();
    let conv = |c: vt100::Color| match c {
        vt100::Color::Default => CavaColor::Default,
        vt100::Color::Idx(i) => CavaColor::Indexed(i),
        vt100::Color::Rgb(r, g, b) => CavaColor::Rgb(r, g, b),
    };
    (0..rows.get()).map(|r| (0..cols.get()).map(|c| {
        let cell = screen.cell(r, c).unwrap();
        CavaCell { contents: cell.contents().to_string(), fg: conv(cell.fgcolor()), bg: conv(cell.bgcolor()) }
    }).collect()).collect()
}

impl CavaTerminal {
    /// A terminal of `rows` rows and `cols` columns with a blank screen.
    pub fn new(rows: u16, cols: u16) -> (t: CavaTerminal)
        requires
            rows > 0,
            cols > 0,
        ensures
            terminal_cells(t) == blank_screen(rows as nat, cols as nat),
    {
        vt_new(rows, cols)
    }
}

/// The screen of the terminal as colored rows: each row of cells grouped
/// into spans as [`group_cells`] does.
pub fn terminal_screen(term: &CavaTerminal) -> (screen: Vec<CavaRow>)
    ensures
        screen@.len() == terminal_cells(*term).len(),
        forall|k: int|
            0 <= k < screen@.len() ==> span_views(#[trigger] screen@[k].spans@) == view_runs(
                terminal_cells(*term)[k],
            ),
{
    let cells = vt_cells(term);
    let ghost views = terminal_cells(*term);
    let mut rows: Vec<CavaRow> = Vec::new();
    let mut i: usize = 0;
    while i < cells.len()
        invariant
            i <= cells@.len(),
            cells@.map_values(|r: Vec<CavaCell>| r@.map_values(|c: CavaCell| cell_view(c))) == views,
            rows@.len() == i,
            forall|k: int| 0 <= k < i ==> span_views(#[trigger] rows@[k].spans@) == view_runs(views[k]),
        decreases cells.len() - i,
    {
        let row = group_cells(cells[i].as_slice());
        proof {
            lemma_runs_of_views(cells@[i as int]@);
            assert(views[i as int] == cells@[i as int]@.map_values(|c: CavaCell| cell_view(c)));
            assert(span_views(row.spans@) == view_runs(views[i as int]));
        }
        let ghost before = rows@;
        let ghost pushed = row;
        rows.push(row);
        proof {
            assert forall|k: int| 0 <= k < i + 1 implies span_views(#[trigger] rows@[k].spans@)
                == view_runs(views[k]) by {
                if k < i {
                    assert(rows@[k] == before[k]);
                    assert(span_views(before[k].spans@) == view_runs(views[k]));
                } else {
                    assert(rows@[k] == pushed);
                    assert(span_views(pushed.spans@) == view_runs(views[k]));
                }
            }
        }
        i = i + 1;
    }
    assert(views.len() == cells@.len());
    rows
}

/// Feeds what cava printed to the terminal and, when anything was printed,
/// returns its screen as colored rows (see [`terminal_screen`]); when
/// nothing was printed the screen is left as it was.
pub fn cava_screen_after(term: &mut CavaTerminal, data: &[u8]) -> (screen: Option<Vec<CavaRow>>)
    ensures
        data@.len() == 0 <==> screen is None,
        data@.len() == 0 ==> terminal_cells(*final(term)) == terminal_cells(*old(term)),
        match screen {
            Some(out) => {
                &&& out@.len() == terminal_cells(*final(term)).len()
                &&& forall|k: int|
                    0 <= k < out@.len() ==> span_views(#[trigger] out@[k].spans@) == view_runs(
                        terminal_cells(*final(term))[k],
                    )
            },
            None => true,
        },
{
    if data.len() == 0 {
        return None;
    }
    vt_process(term, data);
    let rows = terminal_screen(term);
    assert(terminal_cells(*term) == terminal_cells(*final(term)));
    assert(forall|k: int|
        0 <= k < rows@.len() ==> span_views(#[trigger] rows@[k].spans@) == view_runs(
            terminal_cells(*final(term))[k],
        ));
    let screen = Some(rows);
    assert(match screen {
        Some(out) => out@.len() == terminal_cells(*final(term)).len(),
        None => true,
    });
    screen
}

/// Height of the cava pane: `cava_size` percent of the terminal height,
/// at least 4 rows, truncated to 16 bits.
pub open spec fn cava_height_spec(term_h: u16, cava_size: u32) -> u16 {
    let q = (term_h * cava_size) / 100;
    (if q > 4 {
        q
    } else {
        4
    }) as u16
}

/// Computes the height of the cava pane.
pub fn cava_height(term_h: u16, cava_size: u32) -> (h: u16)
    requires
        term_h * cava_size <= u32::MAX,
    ensures
        h == cava_height_spec(term_h, cava_size),
{
    let q: u32 = (term_h as u32) * cava_size / 100;
    let m: u32 = if q > 4 {
        q
    } else {
        4
    };
    m as u16
}

} // verus!
