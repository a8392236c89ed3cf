//! Themes: colors parsed from hex strings, cava gradients, the built-in
//! default theme and the display names of theme files.

use vstd::prelude::*;
use crate::text::{chars_of, push_char, push_str};

verus! {

/// A terminal color, as the renderer understands them.
#[derive(Clone, Copy, PartialEq, Eq, Debug)]
pub enum Color {
    Reset,
    Black,
    Red,
    Green,
    Yellow,
    Blue,
    Magenta,
    Cyan,
    Gray,
    DarkGray,
    LightRed,
    LightGreen,
    LightYellow,
    LightBlue,
    LightMagenta,
    LightCyan,
    White,
    Rgb(u8, u8, u8),
    Indexed(u8),
}

/// The bytes of a color string after its leading `#` characters.
pub open spec fn trim_hashes(bytes: Seq<u8>) -> Seq<u8>
    decreases bytes.len(),
{
    if bytes.len() > 0 && bytes[0] == 35 {
        trim_hashes(bytes.drop_first())
    } else {
        bytes
    }
}

/// The bytes of `hex` that are read as a color: its UTF-8 encoding without
/// the leading `#` characters.
pub open spec fn hex_body(hex: Seq<char>) -> Seq<u8> {
    trim_hashes(vstd::utf8::encode_utf8(hex))
}

/// The value of one hexadecimal digit byte, either case.
pub open spec fn hex_digit_value(b: u8) -> Option<u8> {
    if 48 <= b <= 57 {
        Some((b - 48) as u8)
    } else if 97 <= b <= 102 {
        Some((b - 87) as u8)
    } else if 65 <= b <= 70 {
        Some((b - 55) as u8)
    } else {
        None
    }
}

/// What `u8::from_str_radix(s, 16)` gives for a two-byte `s`: an optional
/// `+` followed by one digit, or two digits.
pub open spec fn hex_pair(b0: u8, b1: u8) -> Option<u8> {
    if b0 == 43 {
        hex_digit_value(b1)
    } else {
        match (hex_digit_value(b0), hex_digit_value(b1)) {
            (Some(h), Some(l)) => Some((h * 16 + l) as u8),
            _ => None,
        }
    }
}

/// The color written as `#rrggbb` (any number of leading `#`): an RGB color
/// when the rest is six bytes of three parsable pairs, white otherwise.
pub open spec fn hex_color(hex: Seq<char>) -> Color {
    let b = hex_body(hex);
    if b.len() == 6 {
        match (hex_pair(b[0], b[1]), hex_pair(b[2], b[3]), hex_pair(b[4], b[5])) {
            (Some(r), Some(g), Some(bl)) => Color::Rgb(r, g, bl),
            _ => Color::White,
        }
    } else {
        Color::White
    }
}

/// Whether the three two-byte pieces of a six-byte color body start on
/// character boundaries (slicing the string there does not panic).
pub open spec fn hex_color_sliceable(hex: Seq<char>) -> bool {
    let b = hex_body(hex);
    b.len() == 6 ==> !vstd::utf8::is_continuation_byte(b[2]) && !vstd::utf8::is_continuation_byte(
        b[4],
    )
}

fn hex_digit_value_exec(b: u8) -> (v: Option<u8>)
    ensures
        v == hex_digit_value(b),
{
    if 48 <= b && b <= 57 {
        Some(b - 48)
    } else if 97 <= b && b <= 102 {
        Some(b - 87)
    } else if 65 <= b && b <= 70 {
        Some(b - 55)
    } else {
        None
    }
}

fn hex_pair_exec(b0: u8, b1: u8) -> (v: Option<u8>)
    ensures
        v == hex_pair(b0, b1),
{
    if b0 == 43 {
        hex_digit_value_exec(b1)
    } else {
        match (hex_digit_value_exec(b0), hex_digit_value_exec(b1)) {
            (Some(h), Some(l)) => Some(h * 16 + l),
            _ => None,
        }
    }
}

fn hex_body_exec(hex: &str) -> (body: &[u8])
    ensures
        body@ == hex_body(hex@),
{
    let bytes = hex.as_bytes();
    let mut k: usize = 0;
    proof {
        assert(bytes@.skip(0) =~= bytes@);
    }
    while k < bytes.len() && bytes[k] == 35
        invariant
            k <= bytes@.len(),
            bytes@ == vstd::utf8::encode_utf8(hex@),
            trim_hashes(bytes@) == trim_hashes(bytes@.skip(k as int)),
        decreases bytes.len() - k,
    {
        proof {
            assert(bytes@.skip(k as int).drop_first() =~= bytes@.skip(k + 1));
        }
        k = k + 1;
    }
    let body = &bytes[k..bytes.len()];
    proof {
        assert(body@ =~= bytes@.skip(k as int));
    }
    body
}

/// Whether [`hex_to_color`] can slice `hex` without panicking.
pub fn hex_color_is_sliceable(hex: &str) -> (ok: bool)
    ensures
        ok == hex_color_sliceable(hex@),
{
    let b = hex_body_exec(hex);
    if b.len() == 6 {
        !(0x80 <= b[2] && b[2] <= 0xbf) && !(0x80 <= b[4] && b[4] <= 0xbf)
    } else {
        true
    }
}

/// Parses a `#rrggbb` color; anything that is not six hex digits after the
/// leading `#` gives white.
pub fn hex_to_color(hex: &str) -> (c: Color)
    requires
        hex_color_sliceable(hex@),
    ensures
        c == hex_color(hex@),
{
    let b = hex_body_exec(hex);
    if b.len() == 6 {
        match (hex_pair_exec(b[0], b[1]), hex_pair_exec(b[2], b[3]), hex_pair_exec(b[4], b[5])) {
            (Some(r), Some(g), Some(bl)) => Color::Rgb(r, g, bl),
            _ => Color::White,
        }
    } else {
        Color::White
    }
}

/// The lowercase hexadecimal digit of a value below sixteen.
pub open spec fn hex_digit_char(n: nat) -> char {
    if n < 10 {
        (n + 48) as char
    } else {
        (n - 10 + 97) as char
    }
}

/// A color written as `#rrggbb` in lowercase hexadecimal.
pub open spec fn rgb_text(r: u8, g: u8, b: u8) -> Seq<char> {
    seq![
        '#',
        hex_digit_char((r / 16) as nat),
        hex_digit_char((r % 16) as nat),
        hex_digit_char((g / 16) as nat),
        hex_digit_char((g % 16) as nat),
        hex_digit_char((b / 16) as nat),
        hex_digit_char((b % 16) as nat),
    ]
}

proof fn lemma_encode_ascii(s: Seq<char>)
    requires
        forall|i: int| 0 <= i < s.len() ==> (#[trigger] s[i] as u32) < 0x80,
    ensures
        vstd::utf8::encode_utf8(s) == s.map_values(|c: char| (c as u32) as u8),
    decreases s.len(),
{
    if s.len() > 0 {
        lemma_encode_ascii(s.drop_first());
        let x = s[0] as u32;
        assert(x < 0x80);
        assert(x & 0x7F == x) by (bit_vector)
            requires
                x < 0x80,
        ;
        assert(vstd::utf8::encode_scalar(x) =~= seq![x as u8]);
        assert(s.map_values(|c: char| (c as u32) as u8) =~= seq![x as u8] + s.drop_first().map_values(
            |c: char| (c as u32) as u8,
        ));
    }
}

proof fn lemma_hex_digit_reads_back(n: nat)
    requires
        n < 16,
    ensures
        (hex_digit_char(n) as u32) < 0x80,
        ((hex_digit_char(n) as u32) as u8) != 35,
        ((hex_digit_char(n) as u32) as u8) != 43,
        hex_digit_value((hex_digit_char(n) as u32) as u8) == Some(n as u8),
{
}

/// A color written as `#rrggbb` reads back as that color, and reading it
/// never slices inside a character.
pub proof fn rgb_text_reads_back(r: u8, g: u8, b: u8)
    ensures
        hex_color_sliceable(rgb_text(r, g, b)),
        hex_color(rgb_text(r, g, b)) == Color::Rgb(r, g, b),
{
    let t = rgb_text(r, g, b);
    lemma_hex_digit_reads_back((r / 16) as nat);
    lemma_hex_digit_reads_back((r % 16) as nat);
    lemma_hex_digit_reads_back((g / 16) as nat);
    lemma_hex_digit_reads_back((g % 16) as nat);
    lemma_hex_digit_reads_back((b / 16) as nat);
    lemma_hex_digit_reads_back((b % 16) as nat);
    assert forall|i: int| 0 <= i < t.len() implies (#[trigger] t[i] as u32) < 0x80 by {}
    lemma_encode_ascii(t);
    let bytes = t.map_values(|c: char| (c as u32) as u8);
    assert(bytes[0] == 35u8);
    assert(bytes.drop_first()[0] != 35u8);
    assert(trim_hashes(bytes.drop_first()) == bytes.drop_first());
    assert(trim_hashes(bytes) == bytes.drop_first());
    let body = bytes.drop_first();
    assert(body.len() == 6);
    assert(hex_pair(body[0], body[1]) == Some(r)) by {
        assert((r / 16) * 16 + r % 16 == r);
    }
    assert(hex_pair(body[2], body[3]) == Some(g)) by {
        assert((g / 16) * 16 + g % 16 == g);
    }
    assert(hex_pair(body[4], body[5]) == Some(b)) by {
        assert((b / 16) * 16 + b % 16 == b);
    }
}

/// Color palette of a theme.
#[derive(Clone, Copy, PartialEq, Eq, Debug)]
pub struct ThemeColors {
    /// Primary highlight color (focused elements, selected tabs).
    pub primary: Color,
    /// Secondary color (borders, less important elements).
    pub secondary: Color,
    /// Accent color (currently playing, important highlights).
    pub accent: Color,
    /// Artist names.
    pub artist: Color,
    /// Album names.
    pub album: Color,
    /// Song titles.
    pub song: Color,
    /// Muted text (track numbers, durations, hints).
    pub muted: Color,
    /// Selection background.
    pub highlight_bg: Color,
    /// Text on the selection background.
    pub highlight_fg: Color,
    /// Success messages.
    pub success: Color,
    /// Error messages.
    pub error: Color,
    /// Playing indicator.
    pub playing: Color,
    /// Played songs in the queue.
    pub played: Color,
    /// Border of the focused pane.
    pub border_focused: Color,
    /// Border of unfocused panes.
    pub border_unfocused: Color,
}

/// A loaded theme: display name, colors and the two cava gradients of
/// eight hex colors each.
#[derive(Debug)]
pub struct ThemeData {
    pub name: String,
    pub colors: ThemeColors,
    pub cava_gradient: [String; 8],
    pub cava_horizontal_gradient: [String; 8],
}

/// The color strings of a theme file, as read from its `[colors]` table.
pub struct ThemeFileColors {
    pub primary: String,
    pub secondary: String,
    pub accent: String,
    pub artist: String,
    pub album: String,
    pub song: String,
    pub muted: String,
    pub highlight_bg: String,
    pub highlight_fg: String,
    pub success: String,
    pub error: String,
    pub playing: String,
    pub played: String,
    pub border_focused: String,
    pub border_unfocused: String,
}

/// The optional `[cava]` table of a theme file.
pub struct ThemeFileCava {
    pub gradient: Option<Vec<String>>,
    pub horizontal_gradient: Option<Vec<String>>,
}

/// A theme file as read from TOML.
pub struct ThemeFile {
    pub colors: ThemeFileColors,
    pub cava: Option<ThemeFileCava>,
}

/// The views of the strings in a sequence.
pub open spec fn string_views(v: Seq<String>) -> Seq<Seq<char>> {
    v.map_values(|s: String| s@)
}

/// The views of the string slices in a sequence.
pub open spec fn str_views(v: Seq<&str>) -> Seq<Seq<char>> {
    v.map_values(|s: &str| s@)
}

/// Eight gradient colors: the given values in order, the fallback where
/// fewer than eight are given; values past the eighth are ignored.
pub open spec fn gradient_of(values: Seq<Seq<char>>, fallback: Seq<Seq<char>>) -> Seq<Seq<char>> {
    Seq::new(8, |i: int| if i < values.len() { values[i] } else { fallback[i] })
}

/// The default vertical cava gradient.
pub open spec fn default_gradient_spec() -> Seq<Seq<char>> {
    seq![
        "#59cc33"@,
        "#cccc33"@,
        "#cc8033"@,
        "#cc5533"@,
        "#cc3333"@,
        "#bb1111"@,
        "#990000"@,
        "#990000"@,
    ]
}

/// The default horizontal cava gradient.
pub open spec fn default_horizontal_gradient_spec() -> Seq<Seq<char>> {
    seq![
        "#c45161"@,
        "#e094a0"@,
        "#f2b6c0"@,
        "#f2dde1"@,
        "#cbc7d8"@,
        "#8db7d2"@,
        "#5e62a9"@,
        "#434279"@,
    ]
}

/// The default vertical cava gradient.
pub fn default_gradient() -> (g: [&'static str; 8])
    ensures
        str_views(g@) == default_gradient_spec(),
{
    let g = ["#59cc33", "#cccc33", "#cc8033", "#cc5533", "#cc3333", "#bb1111", "#990000", "#990000"];
    proof {
        assert(str_views(g@) =~= default_gradient_spec());
    }
    g
}

/// The default horizontal cava gradient.
pub fn default_horizontal_gradient() -> (g: [&'static str; 8])
    ensures
        str_views(g@) == default_horizontal_gradient_spec(),
{
    let g = ["#c45161", "#e094a0", "#f2b6c0", "#f2dde1", "#cbc7d8", "#8db7d2", "#5e62a9", "#434279"];
    proof {
        assert(str_views(g@) =~= default_horizontal_gradient_spec());
    }
    g
}

fn gradient_entry(values: &[String], fallback: &[&str; 8], i: usize) -> (s: String)
    requires
        i < 8,
    ensures
        s@ == gradient_of(string_views(values@), str_views(fallback@))[i as int],
{
    if i < values.len() {
        values[i].clone()
    } else {
        fallback[i].to_owned()
    }
}

/// Fills a gradient of eight colors from `values`, taking `fallback` where
/// fewer than eight values are given.
pub fn parse_gradient(values: &[String], fallback: &[&str; 8]) -> (g: [String; 8])
    ensures
        string_views(g@) == gradient_of(string_views(values@), str_views(fallback@)),
{
    let g = [
        gradient_entry(values, fallback, 0),
        gradient_entry(values, fallback, 1),
        gradient_entry(values, fallback, 2),
        gradient_entry(values, fallback, 3),
        gradient_entry(values, fallback, 4),
        gradient_entry(values, fallback, 5),
        gradient_entry(values, fallback, 6),
        gradient_entry(values, fallback, 7),
    ];
    proof {
        assert(string_views(g@) =~= gradient_of(string_views(values@), str_views(fallback@)));
    }
    g
}

fn owned_gradient(g: &[&str; 8]) -> (r: [String; 8])
    ensures
        string_views(r@) == str_views(g@),
{
    let r = [
        g[0].to_owned(),
        g[1].to_owned(),
        g[2].to_owned(),
        g[3].to_owned(),
        g[4].to_owned(),
        g[5].to_owned(),
        g[6].to_owned(),
        g[7].to_owned(),
    ];
    proof {
        assert(string_views(r@) =~= str_views(g@));
    }
    r
}

/// The palette described by the color strings of a theme file.
pub open spec fn palette_of(c: ThemeFileColors) -> ThemeColors {
    ThemeColors {
        primary: hex_color(c.primary@),
        secondary: hex_color(c.secondary@),
        accent: hex_color(c.accent@),
        artist: hex_color(c.artist@),
        album: hex_color(c.album@),
        song: hex_color(c.song@),
        muted: hex_color(c.muted@),
        highlight_bg: hex_color(c.highlight_bg@),
        highlight_fg: hex_color(c.highlight_fg@),
        success: hex_color(c.success@),
        error: hex_color(c.error@),
        playing: hex_color(c.playing@),
        played: hex_color(c.played@),
        border_focused: hex_color(c.border_focused@),
        border_unfocused: hex_color(c.border_unfocused@),
    }
}

/// Whether every color string of a theme file can be sliced.
pub open spec fn palette_sliceable(c: ThemeFileColors) -> bool {
    &&& hex_color_sliceable(c.primary@)
    &&& hex_color_sliceable(c.secondary@)
    &&& hex_color_sliceable(c.accent@)
    &&& hex_color_sliceable(c.artist@)
    &&& hex_color_sliceable(c.album@)
    &&& hex_color_sliceable(c.song@)
    &&& hex_color_sliceable(c.muted@)
    &&& hex_color_sliceable(c.highlight_bg@)
    &&& hex_color_sliceable(c.highlight_fg@)
    &&& hex_color_sliceable(c.success@)
    &&& hex_color_sliceable(c.error@)
    &&& hex_color_sliceable(c.playing@)
    &&& hex_color_sliceable(c.played@)
    &&& hex_color_sliceable(c.border_focused@)
    &&& hex_color_sliceable(c.border_unfocused@)
}

/// Whether every color string of a theme file can be read without
/// panicking.
pub fn theme_file_is_sliceable(file: &ThemeFile) -> (ok: bool)
    ensures
        ok == palette_sliceable(file.colors),
{
    let c = &file.colors;
    hex_color_is_sliceable(c.primary.as_str()) && hex_color_is_sliceable(c.secondary.as_str())
        && hex_color_is_sliceable(c.accent.as_str()) && hex_color_is_sliceable(c.artist.as_str())
        && hex_color_is_sliceable(c.album.as_str()) && hex_color_is_sliceable(c.song.as_str())
        && hex_color_is_sliceable(c.muted.as_str()) && hex_color_is_sliceable(
        c.highlight_bg.as_str(),
    ) && hex_color_is_sliceable(c.highlight_fg.as_str()) && hex_color_is_sliceable(
        c.success.as_str(),
    ) && hex_color_is_sliceable(c.error.as_str()) && hex_color_is_sliceable(c.playing.as_str())
        && hex_color_is_sliceable(c.played.as_str()) && hex_color_is_sliceable(
        c.border_focused.as_str(),
    ) && hex_color_is_sliceable(c.border_unfocused.as_str())
}

/// The gradient a theme file gives: its values over the fallback when the
/// `[cava]` table has them, the fallback otherwise.
pub open spec fn file_gradient(values: Option<Vec<String>>, fallback: Seq<Seq<char>>) -> Seq<Seq<char>> {
    match values {
        Some(v) => gradient_of(string_views(v@), fallback),
        None => fallback,
    }
}

fn gradient_from_file(values: &Option<Vec<String>>, fallback: &[&str; 8]) -> (g: [String; 8])
    ensures
        string_views(g@) == file_gradient(*values, str_views(fallback@)),
{
    match values {
        Some(v) => parse_gradient(v.as_slice(), fallback),
        None => owned_gradient(fallback),
    }
}

impl ThemeData {
    /// Builds a theme named `name` from a parsed theme file: every color
    /// string parsed with [`hex_to_color`], gradients filled over the
    /// defaults.
    pub fn from_theme_file(name: &str, file: &ThemeFile) -> (t: ThemeData)
        requires
            palette_sliceable(file.colors),
        ensures
            t.name@ == name@,
            t.colors == palette_of(file.colors),
            string_views(t.cava_gradient@) == file_gradient(
                match file.cava {
                    Some(c) => c.gradient,
                    None => None,
                },
                default_gradient_spec(),
            ),
            string_views(t.cava_horizontal_gradient@) == file_gradient(
                match file.cava {
                    Some(c) => c.horizontal_gradient,
                    None => None,
                },
                default_horizontal_gradient_spec(),
            ),
    {
        let c = &file.colors;
        let colors = ThemeColors {
            primary: hex_to_color(c.primary.as_str()),
            secondary: hex_to_color(c.secondary.as_str()),
            accent: hex_to_color(c.accent.as_str()),
            artist: hex_to_color(c.artist.as_str()),
            album: hex_to_color(c.album.as_str()),
            song: hex_to_color(c.song.as_str()),
            muted: hex_to_color(c.muted.as_str()),
            highlight_bg: hex_to_color(c.highlight_bg.as_str()),
            highlight_fg: hex_to_color(c.highlight_fg.as_str()),
            success: hex_to_color(c.success.as_str()),
            error: hex_to_color(c.error.as_str()),
            playing: hex_to_color(c.playing.as_str()),
            played: hex_to_color(c.played.as_str()),
            border_focused: hex_to_color(c.border_focused.as_str()),
            border_unfocused: hex_to_color(c.border_unfocused.as_str()),
        };
        let default_g = default_gradient();
        let default_h = default_horizontal_gradient();
        let none: Option<Vec<String>> = None;
        let (g_values, h_values) = match &file.cava {
            Some(cava) => (&cava.gradient, &cava.horizontal_gradient),
            None => (&none, &none),
        };
        let cava_gradient = gradient_from_file(g_values, &default_g);
        let cava_horizontal_gradient = gradient_from_file(h_values, &default_h);
        ThemeData { name: name.to_owned(), colors, cava_gradient, cava_horizontal_gradient }
    }

    /// The built-in Default theme.
    pub fn default_theme() -> (t: ThemeData)
        ensures
            t.name@ == "Default"@,
            t.colors == default_palette(),
            string_views(t.cava_gradient@) == default_gradient_spec(),
            string_views(t.cava_horizontal_gradient@) == default_horizontal_gradient_spec(),
    {
        ThemeData {
            name: "Default".to_owned(),
            colors: ThemeColors {
                primary: Color::Cyan,
                secondary: Color::DarkGray,
                accent: Color::Yellow,
                artist: Color::LightGreen,
                album: Color::Magenta,
                song: Color::Magenta,
                muted: Color::Gray,
                highlight_bg: Color::Rgb(102, 51, 153),
                highlight_fg: Color::White,
                success: Color::Green,
                error: Color::Red,
                playing: Color::LightGreen,
                played: Color::Red,
                border_focused: Color::Cyan,
                border_unfocused: Color::DarkGray,
            },
            cava_gradient: owned_gradient(&default_gradient()),
            cava_horizontal_gradient: owned_gradient(&default_horizontal_gradient()),
        }
    }
}

/// The palette of the built-in Default theme.
pub open spec fn default_palette() -> ThemeColors {
    ThemeColors {
        primary: Color::Cyan,
        secondary: Color::DarkGray,
        accent: Color::Yellow,
        artist: Color::LightGreen,
        album: Color::Magenta,
        song: Color::Magenta,
        muted: Color::Gray,
        highlight_bg: Color::Rgb(102, 51, 153),
        highlight_fg: Color::White,
        success: Color::Green,
        error: Color::Red,
        playing: Color::LightGreen,
        played: Color::Red,
        border_focused: Color::Cyan,
        border_unfocused: Color::DarkGray,
    }
}

/// The uppercase mapping of a character, as `char::to_uppercase` gives it
/// (one or more characters).
pub uninterp spec fn uppercase_of(c: char) -> Seq<char>;

/// The uppercase form of a character: for ASCII letters and other ASCII
/// characters as ASCII defines it, beyond ASCII as Unicode does.
pub open spec fn upper_char(c: char) -> Seq<char> {
    if 'a' <= c && c <= 'z' {
        seq![((c as u32) - 32) as char]
    } else if (c as u32) < 128 {
        seq![c]
    } else {
        uppercase_of(c)
    }
}

/// `char::to_uppercase`, collected into a string. Its result depends on the
/// character alone (Unicode case tables); on ASCII it maps `a`..`z` to
/// `A`..`Z` and keeps every other character, as its documentation says.
#[verifier::external_body]
fn to_uppercase_string(c: char) -> (s: String)
    ensures
        s@ == uppercase_of(c),
        'a' <= c && c <= 'z' ==> s@ == seq![((c as u32) - 32) as char],
        !('a' <= c && c <= 'z') && (c as u32) < 128 ==> s@ == seq![c],
{
    c.to_uppercase().collect()
}

/// Whether `c` separates words in a theme file name.
pub open spec fn is_word_separator(c: char) -> bool {
    c == '-' || c == '_'
}

/// The pieces of `s` between separators, empty pieces included (there is
/// always at least one).
pub open spec fn segments(s: Seq<char>) -> Seq<Seq<char>>
    decreases s.len(),
{
    if s.len() == 0 {
        seq![Seq::empty()]
    } else {
        let p = segments(s.drop_last());
        if is_word_separator(s.last()) {
            p.push(Seq::empty())
        } else {
            p.update(p.len() - 1, p.last().push(s.last()))
        }
    }
}

/// The non-empty pieces, in order.
pub open spec fn nonempty_words(ws: Seq<Seq<char>>) -> Seq<Seq<char>>
    decreases ws.len(),
{
    if ws.len() == 0 {
        Seq::empty()
    } else if ws.last().len() > 0 {
        nonempty_words(ws.drop_last()).push(ws.last())
    } else {
        nonempty_words(ws.drop_last())
    }
}

/// Every word capitalized.
pub open spec fn capitalized_words(ws: Seq<Seq<char>>) -> Seq<Seq<char>>
    decreases ws.len(),
{
    if ws.len() == 0 {
        Seq::empty()
    } else {
        capitalized_words(ws.drop_last()).push(capitalized(ws.last()))
    }
}

/// A word with its first character in uppercase.
pub open spec fn capitalized(w: Seq<char>) -> Seq<char> {
    upper_char(w[0]) + w.drop_first()
}

/// Words joined by single spaces.
pub open spec fn join_words(ws: Seq<Seq<char>>) -> Seq<char>
    decreases ws.len(),
{
    if ws.len() == 0 {
        Seq::empty()
    } else if ws.len() == 1 {
        ws[0]
    } else {
        join_words(ws.drop_last()) + " "@ + ws.last()
    }
}

/// The display name of a theme file stem: the non-empty words between `-`
/// and `_`, each capitalized, joined by spaces ("tokyo-night" gives
/// "Tokyo Night").
pub open spec fn title_of(stem: Seq<char>) -> Seq<char> {
    join_words(capitalized_words(nonempty_words(segments(stem))))
}

proof fn lemma_segments_nonempty(s: Seq<char>)
    ensures
        segments(s).len() >= 1,
    decreases s.len(),
{
    if s.len() > 0 {
        lemma_segments_nonempty(s.drop_last());
    }
}

/// The words finished before the last segment.
spec fn done_words(s: Seq<char>) -> Seq<Seq<char>> {
    capitalized_words(nonempty_words(segments(s).drop_last()))
}

proof fn lemma_join_push(ws: Seq<Seq<char>>, w: Seq<char>)
    ensures
        join_words(ws.push(w)) == if ws.len() == 0 {
            w
        } else {
            join_words(ws) + " "@ + w
        },
{
    assert(ws.push(w).drop_last() =~= ws);
}

/// Appends the capitalized word to `out`, after a space when words precede.
fn emit_word(out: &mut String, word: &Vec<char>, any: bool)
    requires
        word@.len() > 0,
    ensures
        final(out)@ == if any {
            old(out)@ + " "@ + capitalized(word@)
        } else {
            old(out)@ + capitalized(word@)
        },
{
    if any {
        push_str(out, " ");
    }
    let ghost mid = out@;
    let upper = to_uppercase_string(word[0]);
    push_str(out, upper.as_str());
    let mut k: usize = 1;
    while k < word.len()
        invariant
            1 <= k <= word@.len(),
            out@ == mid + upper_char(word@[0]) + word@.subrange(1, k as int),
        decreases word.len() - k,
    {
        push_char(out, word[k]);
        proof {
            assert(word@.subrange(1, k as int).push(word@[k as int]) =~= word@.subrange(1, k + 1));
        }
        k = k + 1;
    }
    proof {
        assert(word@.subrange(1, word@.len() as int) =~= word@.drop_first());
    }
}

/// Converts a file name stem like "tokyo-night" or "rose_pine" to a display
/// name like "Tokyo Night" or "Rose Pine".
pub fn titlecase_filename(s: &str) -> (name: String)
    ensures
        name@ == title_of(s@),
{
    let chars = chars_of(s);
    let mut out = String::new();
    let mut cur: Vec<char> = Vec::new();
    let mut any = false;
    let mut i: usize = 0;
    proof {
        assert(chars@.take(0) =~= Seq::<char>::empty());
        assert(segments(Seq::<char>::empty()).drop_last() =~= Seq::<Seq<char>>::empty());
    }
    while i < chars.len()
        invariant
            i <= chars@.len(),
            chars@ == s@,
            cur@ == segments(chars@.take(i as int)).last(),
            out@ == join_words(done_words(chars@.take(i as int))),
            any == (done_words(chars@.take(i as int)).len() > 0),
        decreases chars.len() - i,
    {
        let c = chars[i];
        let ghost p = chars@.take(i as int);
        let ghost q = chars@.take(i + 1);
        proof {
            assert(q.drop_last() =~= p);
            assert(q.last() == c);
            lemma_segments_nonempty(p);
        }
        if c == '-' || c == '_' {
            if cur.len() > 0 {
                emit_word(&mut out, &cur, any);
                proof {
                    assert(segments(q).drop_last() =~= segments(p));
                    assert(segments(p) =~= segments(p).drop_last().push(cur@));
                    let n = nonempty_words(segments(p).drop_last());
                    assert(nonempty_words(segments(p)) == n.push(cur@));
                    assert(n.push(cur@).drop_last() =~= n);
                    assert(capitalized_words(n.push(cur@)) == capitalized_words(n).push(
                        capitalized(cur@),
                    ));
                    lemma_join_push(done_words(p), capitalized(cur@));
                }
                any = true;
            } else {
                proof {
                    assert(segments(q).drop_last() =~= segments(p));
                    assert(segments(p) =~= segments(p).drop_last().push(cur@));
                    assert(nonempty_words(segments(p)) == nonempty_words(segments(p).drop_last()));
                }
            }
            cur = Vec::new();
            proof {
                assert(cur@ =~= segments(q).last());
            }
        } else {
            cur.push(c);
            proof {
                assert(segments(q).drop_last() =~= segments(p).drop_last());
            }
        }
        i = i + 1;
    }
    proof {
        assert(chars@.take(chars@.len() as int) =~= chars@);
        lemma_segments_nonempty(chars@);
    }
    let ghost segs = segments(chars@);
    proof {
        assert(segs =~= segs.drop_last().push(cur@));
        if cur@.len() > 0 {
            let n = nonempty_words(segs.drop_last());
            assert(nonempty_words(segs) == n.push(cur@));
            assert(n.push(cur@).drop_last() =~= n);
            assert(capitalized_words(n.push(cur@)) == capitalized_words(n).push(capitalized(cur@)));
            lemma_join_push(done_words(chars@), capitalized(cur@));
        } else {
            assert(nonempty_words(segs) == nonempty_words(segs.drop_last()));
        }
    }
    if cur.len() > 0 {
        emit_word(&mut out, &cur, any);
    }
    out
}


/// Each palette field of a loaded theme is the color written in the theme
/// file's field of the same name: where the file writes `#rrggbb` for a
/// field, that field of the palette is that RGB color.
pub proof fn palette_fields_come_from_their_own_names(c: ThemeFileColors)
    ensures
        forall|r: u8, g: u8, b: u8| c.primary@ == rgb_text(r, g, b) ==> palette_of(c).primary == Color::Rgb(r, g, b),
        forall|r: u8, g: u8, b: u8| c.secondary@ == rgb_text(r, g, b) ==> palette_of(c).secondary == Color::Rgb(r, g, b),
        forall|r: u8, g: u8, b: u8| c.accent@ == rgb_text(r, g, b) ==> palette_of(c).accent == Color::Rgb(r, g, b),
        forall|r: u8, g: u8, b: u8| c.artist@ == rgb_text(r, g, b) ==> palette_of(c).artist == Color::Rgb(r, g, b),
        forall|r: u8, g: u8, b: u8| c.album@ == rgb_text(r, g, b) ==> palette_of(c).album == Color::Rgb(r, g, b),
        forall|r: u8, g: u8, b: u8| c.song@ == rgb_text(r, g, b) ==> palette_of(c).song == Color::Rgb(r, g, b),
        forall|r: u8, g: u8, b: u8| c.muted@ == rgb_text(r, g, b) ==> palette_of(c).muted == Color::Rgb(r, g, b),
        forall|r: u8, g: u8, b: u8| c.highlight_bg@ == rgb_text(r, g, b) ==> palette_of(c).highlight_bg == Color::Rgb(r, g, b),
        forall|r: u8, g: u8, b: u8| c.highlight_fg@ == rgb_text(r, g, b) ==> palette_of(c).highlight_fg == Color::Rgb(r, g, b),
        forall|r: u8, g: u8, b: u8| c.success@ == rgb_text(r, g, b) ==> palette_of(c).success == Color::Rgb(r, g, b),
        forall|r: u8, g: u8, b: u8| c.error@ == rgb_text(r, g, b) ==> palette_of(c).error == Color::Rgb(r, g, b),
        forall|r: u8, g: u8, b: u8| c.playing@ == rgb_text(r, g, b) ==> palette_of(c).playing == Color::Rgb(r, g, b),
        forall|r: u8, g: u8, b: u8| c.played@ == rgb_text(r, g, b) ==> palette_of(c).played == Color::Rgb(r, g, b),
        forall|r: u8, g: u8, b: u8| c.border_focused@ == rgb_text(r, g, b) ==> palette_of(c).border_focused == Color::Rgb(r, g, b),
        forall|r: u8, g: u8, b: u8| c.border_unfocused@ == rgb_text(r, g, b) ==> palette_of(c).border_unfocused == Color::Rgb(r, g, b),
{
    assert forall|r: u8, g: u8, b: u8| #[trigger] hex_color(rgb_text(r, g, b)) == Color::Rgb(r, g, b) by {
        rgb_text_reads_back(r, g, b);
    }
}

/// A palette field depends on the file's field of the same name alone: two
/// theme files that write the same text for a field give it the same color.
pub proof fn palette_field_depends_on_its_own_name(c1: ThemeFileColors, c2: ThemeFileColors)
    ensures
        c1.primary@ == c2.primary@ ==> palette_of(c1).primary == palette_of(c2).primary,
        c1.secondary@ == c2.secondary@ ==> palette_of(c1).secondary == palette_of(c2).secondary,
        c1.accent@ == c2.accent@ ==> palette_of(c1).accent == palette_of(c2).accent,
        c1.artist@ == c2.artist@ ==> palette_of(c1).artist == palette_of(c2).artist,
        c1.album@ == c2.album@ ==> palette_of(c1).album == palette_of(c2).album,
        c1.song@ == c2.song@ ==> palette_of(c1).song == palette_of(c2).song,
        c1.muted@ == c2.muted@ ==> palette_of(c1).muted == palette_of(c2).muted,
        c1.highlight_bg@ == c2.highlight_bg@ ==> palette_of(c1).highlight_bg == palette_of(c2).highlight_bg,
        c1.highlight_fg@ == c2.highlight_fg@ ==> palette_of(c1).highlight_fg == palette_of(c2).highlight_fg,
        c1.success@ == c2.success@ ==> palette_of(c1).success == palette_of(c2).success,
        c1.error@ == c2.error@ ==> palette_of(c1).error == palette_of(c2).error,
        c1.playing@ == c2.playing@ ==> palette_of(c1).playing == palette_of(c2).playing,
        c1.played@ == c2.played@ ==> palette_of(c1).played == palette_of(c2).played,
        c1.border_focused@ == c2.border_focused@ ==> palette_of(c1).border_focused == palette_of(c2).border_focused,
        c1.border_unfocused@ == c2.border_unfocused@ ==> palette_of(c1).border_unfocused == palette_of(c2).border_unfocused,
{
}


/// A theme file's gradient fills the eight slots in order over the
/// defaults: slot `i` takes the file's `i`-th color when the file has one,
/// the default's `i`-th color otherwise, and a file without the gradient
/// keeps the defaults.
pub proof fn gradient_slots_in_order(values: Option<Vec<String>>, fallback: Seq<Seq<char>>, i: int)
    requires
        0 <= i < 8,
        fallback.len() == 8,
    ensures
        file_gradient(values, fallback).len() == 8,
        values matches Some(v) ==> (i < v@.len() ==> file_gradient(values, fallback)[i] == v@[i]@),
        values matches Some(v) ==> (i >= v@.len() ==> file_gradient(values, fallback)[i] == fallback[i]),
        values is None ==> file_gradient(values, fallback) == fallback,
{
}

} // verus!
