//! Terminal theme rendering: the banner logo, colour gradients over text,
//! and random palettes.  Colour interpolation and HSL conversion are defined
//! over integers, so every rendered byte is pinned down exactly.

use vstd::prelude::*;
use vstd::arithmetic::div_mod::lemma_div_is_ordered;
use vstd::arithmetic::mul::lemma_mul_inequality;
use vstd::string::StringExecFns;
use crate::textutil::{push_char, spec_decimal, string_views, u64_to_string};

verus! {

/// Sky blue.
pub const WAKE_SKY_BLUE: (u8, u8, u8) = (135, 206, 235);

/// Light blue.
pub const WAKE_LIGHT_BLUE: (u8, u8, u8) = (173, 216, 230);

/// Alice blue, almost white with a blue tint.
pub const WAKE_WHITE_BLUE: (u8, u8, u8) = (240, 248, 255);

/// Steel blue.
pub const WAKE_DEEP_BLUE: (u8, u8, u8) = (70, 130, 180);

/// Legacy yellow.
pub const WAKE_YELLOW: (u8, u8, u8) = (249, 188, 81);

/// Legacy green.
pub const WAKE_GREEN: (u8, u8, u8) = (18, 200, 124);

/// Legacy blue.
pub const WAKE_BLUE: (u8, u8, u8) = (148, 220, 239);

/// Legacy white.
pub const WAKE_WHITE: (u8, u8, u8) = (200, 200, 200);

/// The banner text.
pub open spec fn spec_wake_logo() -> Seq<char> {
    "\n ██╗    ██╗ █████╗ ██╗  ██╗███████╗\n ██║    ██║██╔══██╗██║ ██╔╝██╔════╝\n ██║ █╗ ██║███████║█████╔╝ █████╗  \n ██║███╗██║██╔══██║██╔═██╗ ██╔══╝  \n ╚███╔███╔╝██║  ██║██║  ██╗███████╗\n  ╚══╝╚══╝ ╚═╝  ╚═╝╚═╝  ╚═╝╚══════╝\n          Hardware-First Coding Agent by Wind\n"@
}

/// The banner.
pub fn wake_logo() -> (r: String)
    ensures
        r@ == spec_wake_logo(),
{
    "\n ██╗    ██╗ █████╗ ██╗  ██╗███████╗\n ██║    ██║██╔══██╗██║ ██╔╝██╔════╝\n ██║ █╗ ██║███████║█████╔╝ █████╗  \n ██║███╗██║██╔══██║██╔═██╗ ██╔══╝  \n ╚███╔███╔╝██║  ██║██║  ██╗███████╗\n  ╚══╝╚══╝ ╚═╝  ╚═╝╚═╝  ╚═╝╚══════╝\n          Hardware-First Coding Agent by Wind\n".to_owned()
}

/// One colour channel's 0..=5 cube index in the 256-colour palette: the
/// nearest sixth of the 0..=255 range (no tie is possible).
pub open spec fn spec_channel_index(v: u8) -> int {
    ((v * 10 + 255) / 510) as int
}

/// The 256-colour palette entry nearest an RGB colour, in the 6x6x6 cube.
pub open spec fn spec_color_256(r: u8, g: u8, b: u8) -> u8 {
    (16 + 36 * spec_channel_index(r) + 6 * spec_channel_index(g) + spec_channel_index(b)) as u8
}

/// Map an RGB colour to its 256-colour palette entry.
pub fn rgb_to_256_color(r: u8, g: u8, b: u8) -> (c: u8)
    ensures
        c == spec_color_256(r, g, b),
{
    let ri = (r as u32 * 10 + 255) / 510;
    let gi = (g as u32 * 10 + 255) / 510;
    let bi = (b as u32 * 10 + 255) / 510;
    (16 + 36 * ri + 6 * gi + bi) as u8
}

/// Truncating linear interpolation between two channel values at `col` of
/// `den` steps; never leaves the 0..=255 range.
pub open spec fn spec_lerp(f: u8, t: u8, col: nat, den: nat) -> u8
    recommends
        den >= 1,
        col <= den,
{
    if t >= f {
        (f + (t - f) * col / (den as int)) as u8
    } else {
        (f - (f - t) * col / (den as int)) as u8
    }
}

proof fn lemma_lerp_bounds(d: int, col: int, den: int)
    requires
        den >= 1,
        0 <= col <= den,
        0 <= d <= 255,
    ensures
        d * col / den <= d,
        d * col / den >= 0,
{
    lemma_mul_inequality(col, den, d);
    assert(d * col == col * d) by (nonlinear_arith);
    assert(d * den == den * d) by (nonlinear_arith);
    lemma_div_is_ordered(d * col, d * den, den);
    assert(d * den / den == d) by (nonlinear_arith)
        requires
            den >= 1,
    ;
    assert(d * col >= 0) by (nonlinear_arith)
        requires
            d >= 0,
            col >= 0,
    ;
}

fn lerp(f: u8, t: u8, col: u64, den: u64) -> (r: u8)
    requires
        den >= 1,
        col <= den,
    ensures
        r == spec_lerp(f, t, col as nat, den as nat),
{
    if t >= f {
        let d = (t - f) as u128;
        proof {
            assert(d * (col as u128) <= 255 * 0xffff_ffff_ffff_ffffu128) by (nonlinear_arith)
                requires
                    d <= 255,
                    col as u128 <= 0xffff_ffff_ffff_ffffu128,
            ;
        }
        let q = (d * col as u128) / den as u128;
        proof {
            lemma_lerp_bounds((t - f) as int, col as int, den as int);
        }
        (f as u128 + q) as u8
    } else {
        let d = (f - t) as u128;
        proof {
            assert(d * (col as u128) <= 255 * 0xffff_ffff_ffff_ffffu128) by (nonlinear_arith)
                requires
                    d <= 255,
                    col as u128 <= 0xffff_ffff_ffff_ffffu128,
            ;
        }
        let q = (d * col as u128) / den as u128;
        proof {
            lemma_lerp_bounds((f - t) as int, col as int, den as int);
        }
        (f as u128 - q) as u8
    }
}

/// The characters the gradient passes through unchanged.
pub open spec fn spec_is_space(c: char) -> bool {
    c == ' ' || c == '\t' || c == '\n' || c == '\r'
}

fn is_space(c: char) -> (r: bool)
    ensures
        r == spec_is_space(c),
{
    c == ' ' || c == '\t' || c == '\n' || c == '\r'
}

/// The colour a cell gets: each channel interpolated from `from` to `to`
/// across the line's width.
pub open spec fn spec_cell_color(
    from: (u8, u8, u8),
    to: (u8, u8, u8),
    col: nat,
    max_width: nat,
) -> u8 {
    if max_width <= 1 {
        spec_color_256(from.0, from.1, from.2)
    } else {
        spec_color_256(
            spec_lerp(from.0, to.0, col, (max_width - 1) as nat),
            spec_lerp(from.1, to.1, col, (max_width - 1) as nat),
            spec_lerp(from.2, to.2, col, (max_width - 1) as nat),
        )
    }
}

/// One rendered cell: whitespace passes through; anything else is wrapped in
/// the 256-colour escape for its interpolated colour.
pub open spec fn spec_render_cell(
    c: char,
    col: nat,
    max_width: nat,
    from: (u8, u8, u8),
    to: (u8, u8, u8),
) -> Seq<char> {
    if spec_is_space(c) {
        seq![c]
    } else {
        "\x1b[38;5;"@ + spec_decimal(spec_cell_color(from, to, col, max_width) as nat) + "m"@
            + seq![c] + "\x1b[0m"@
    }
}

/// One rendered line: its cells in order, then a newline.
pub open spec fn spec_render_line_up_to(
    line: Seq<char>,
    n: int,
    max_width: nat,
    from: (u8, u8, u8),
    to: (u8, u8, u8),
) -> Seq<char>
    decreases n,
{
    if n <= 0 {
        Seq::empty()
    } else {
        spec_render_line_up_to(line, n - 1, max_width, from, to) + spec_render_cell(
            line[n - 1],
            (n - 1) as nat,
            max_width,
            from,
            to,
        )
    }
}

/// The rendered lines, each ended with a newline.
pub open spec fn spec_render_lines(
    lines: Seq<Seq<char>>,
    n: int,
    max_width: nat,
    from: (u8, u8, u8),
    to: (u8, u8, u8),
) -> Seq<char>
    decreases n,
{
    if n <= 0 {
        Seq::empty()
    } else {
        spec_render_lines(lines, n - 1, max_width, from, to) + spec_render_line_up_to(
            lines[n - 1],
            lines[n - 1].len() as int,
            max_width,
            from,
            to,
        ) + "\n"@
    }
}

/// The text split at newlines, with the carriage return of a CRLF ending
/// stripped, as an accumulating pass over the characters.
pub open spec fn spec_lines_rec(s: Seq<char>, cur: Seq<char>, acc: Seq<Seq<char>>) -> Seq<
    Seq<char>,
>
    decreases s.len(),
{
    if s.len() == 0 {
        if cur.len() == 0 {
            acc
        } else {
            acc.push(cur)
        }
    } else if s[0] == '\n' {
        spec_lines_rec(s.drop_first(), Seq::empty(), acc.push(spec_strip_cr(cur)))
    } else {
        spec_lines_rec(s.drop_first(), cur.push(s[0]), acc)
    }
}

/// A line with the carriage return of a CRLF ending removed.
pub open spec fn spec_strip_cr(line: Seq<char>) -> Seq<char> {
    if line.len() > 0 && line.last() == '\r' {
        line.drop_last()
    } else {
        line
    }
}

/// The lines of a text.
pub open spec fn spec_lines_of(s: Seq<char>) -> Seq<Seq<char>> {
    spec_lines_rec(s, Seq::empty(), Seq::empty())
}

/// Split a text into its lines.
fn split_lines(text: &str) -> (r: Vec<String>)
    ensures
        string_views(r@) == spec_lines_of(text@),
{
    let n = text.unicode_len();
    let mut out: Vec<String> = Vec::new();
    let mut cur = String::new();
    proof {
        assert(text@.skip(0) =~= text@);
        assert(string_views(out@) =~= Seq::<Seq<char>>::empty());
    }
    for i in 0..n
        invariant
            n == text@.len(),
            spec_lines_rec(text@.skip(i as int), cur@, string_views(out@)) == spec_lines_of(
                text@,
            ),
    {
        let c = text.get_char(i);
        proof {
            assert(text@.skip(i as int)[0] == text@[i as int]);
            assert(text@.skip(i as int).drop_first() =~= text@.skip(i + 1));
        }
        if c == '\n' {
            let ghost pre_views = string_views(out@);
            let ghost cur_pre = cur@;
            let stripped = strip_cr(cur);
            out.push(stripped);
            cur = String::new();
            proof {
                assert(string_views(out@) =~~= pre_views.push(spec_strip_cr(cur_pre)));
            }
        } else {
            push_char(&mut cur, c);
        }
    }
    proof {
        assert(text@.skip(n as int).len() == 0);
    }
    if !cur.as_str().is_empty() {
        out.push(cur);
    }
    proof {
        assert(string_views(out@) =~~= spec_lines_of(text@));
    }
    out
}

/// Remove the carriage return of a CRLF ending.
fn strip_cr(line: String) -> (r: String)
    ensures
        r@ == spec_strip_cr(line@),
{
    let n = line.unicode_len();
    if n > 0 && line.as_str().get_char(n - 1) == '\r' {
        let mut out = String::new();
        for i in 0..n - 1
            invariant
                n == line@.len(),
                n >= 1,
                out@ == line@.subrange(0, i as int),
        {
            push_char(&mut out, line.as_str().get_char(i));
            proof {
                assert(out@ =~= line@.subrange(0, i + 1));
            }
        }
        proof {
            assert(out@ =~= line@.drop_last());
        }
        out
    } else {
        line
    }
}

/// The widest line's width.
pub open spec fn spec_max_width(lines: Seq<Seq<char>>, n: int) -> nat
    decreases n,
{
    if n <= 0 {
        0
    } else {
        let rest = spec_max_width(lines, n - 1);
        if lines[n - 1].len() > rest {
            lines[n - 1].len()
        } else {
            rest
        }
    }
}

proof fn lemma_max_width_bound(lines: Seq<Seq<char>>, n: int, i: int)
    requires
        0 <= i < n,
    ensures
        lines[i].len() <= spec_max_width(lines, n),
    decreases n,
{
    if i < n - 1 {
        lemma_max_width_bound(lines, n - 1, i);
    }
}

/// What a gradient render looks like: empty when there is nothing to colour,
/// otherwise every line rendered cell by cell against the widest line.
pub open spec fn spec_gradient(text: Seq<char>, from: (u8, u8, u8), to: (u8, u8, u8)) -> Seq<
    char,
> {
    let lines = spec_lines_of(text);
    let max_width = spec_max_width(lines, lines.len() as int);
    if lines.len() == 0 || max_width == 0 {
        Seq::empty()
    } else {
        spec_render_lines(lines, lines.len() as int, max_width, from, to)
    }
}

/// Colour a text with a horizontal gradient: each non-space character is
/// wrapped in the 256-colour escape for its column's interpolated colour.
pub fn apply_gradient(text: &str, from_color: (u8, u8, u8), to_color: (u8, u8, u8)) -> (r: String)
    ensures
        r@ == spec_gradient(text@, from_color, to_color),
{
    let lines = split_lines(text);
    let line_count = lines.len();
    if line_count == 0 {
        return String::new();
    }
    let mut max_width: usize = 0;
    for i in 0..line_count
        invariant
            line_count == lines@.len(),
            string_views(lines@) == spec_lines_of(text@),
            max_width as nat == spec_max_width(string_views(lines@), i as int),
    {
        let w = lines[i].as_str().unicode_len();
        if w > max_width {
            max_width = w;
        }
    }
    if max_width == 0 {
        return String::new();
    }
    let mut result = String::new();
    for i in 0..line_count
        invariant
            line_count == lines@.len(),
            string_views(lines@) == spec_lines_of(text@),
            max_width as nat == spec_max_width(string_views(lines@), line_count as int),
            max_width >= 1,
            result@ == spec_render_lines(
                string_views(lines@),
                i as int,
                max_width as nat,
                from_color,
                to_color,
            ),
    {
        let line = &lines[i];
        let m = line.as_str().unicode_len();
        let ghost line_view = line@;
        for j in 0..m
            invariant
                m == line@.len(),
                line_view == line@,
                line_count == lines@.len(),
                i < line_count,
                line@ == string_views(lines@)[i as int],
                string_views(lines@) == spec_lines_of(text@),
                max_width as nat == spec_max_width(string_views(lines@), line_count as int),
                max_width >= 1,
                result@ == spec_render_lines(
                    string_views(lines@),
                    i as int,
                    max_width as nat,
                    from_color,
                    to_color,
                ) + spec_render_line_up_to(
                    line_view,
                    j as int,
                    max_width as nat,
                    from_color,
                    to_color,
                ),
        {
            proof {
                lemma_max_width_bound(string_views(lines@), line_count as int, i as int);
                assert(line@.len() <= max_width as nat);
            }
            let ch = line.as_str().get_char(j);
            if is_space(ch) {
                push_char(&mut result, ch);
            } else {
                let color = if max_width <= 1 {
                    rgb_to_256_color(from_color.0, from_color.1, from_color.2)
                } else {
                    let den = (max_width - 1) as u64;
                    rgb_to_256_color(
                        lerp(from_color.0, to_color.0, j as u64, den),
                        lerp(from_color.1, to_color.1, j as u64, den),
                        lerp(from_color.2, to_color.2, j as u64, den),
                    )
                };
                result.append("\x1b[38;5;");
                let d = u64_to_string(color as u64);
                result.append(d.as_str());
                result.append("m");
                push_char(&mut result, ch);
                result.append("\x1b[0m");
            }
            proof {
                assert(result@ =~= spec_render_lines(
                    string_views(lines@),
                    i as int,
                    max_width as nat,
                    from_color,
                    to_color,
                ) + spec_render_line_up_to(
                    line_view,
                    j + 1,
                    max_width as nat,
                    from_color,
                    to_color,
                ));
            }
        }
        result.append("\n");
        proof {
            assert(result@ =~= spec_render_lines(
                string_views(lines@),
                i + 1,
                max_width as nat,
                from_color,
                to_color,
            ));
        }
    }
    result
}

/// Newlines doubled into CRLF form.
pub open spec fn spec_crlf(s: Seq<char>, n: int) -> Seq<char>
    decreases n,
{
    if n <= 0 {
        Seq::empty()
    } else {
        spec_crlf(s, n - 1) + (if s[n - 1] == '\n' {
            "\r\n"@
        } else {
            seq![s[n - 1]]
        })
    }
}

fn to_crlf(s: &str) -> (r: String)
    ensures
        r@ == spec_crlf(s@, s@.len() as int),
{
    let n = s.unicode_len();
    let mut out = String::new();
    for i in 0..n
        invariant
            n == s@.len(),
            out@ == spec_crlf(s@, i as int),
    {
        let c = s.get_char(i);
        if c == '\n' {
            out.append("\r\n");
        } else {
            push_char(&mut out, c);
        }
        proof {
            assert(out@ =~= spec_crlf(s@, i + 1));
        }
    }
    out
}

/// The banner under the default deep-blue to white gradient.
pub fn logo() -> (r: String)
    ensures
        r@ == spec_gradient(
            spec_crlf(spec_wake_logo(), spec_wake_logo().len() as int),
            WAKE_DEEP_BLUE,
            WAKE_WHITE_BLUE,
        ),
{
    let banner = wake_logo();
    let banner = to_crlf(banner.as_str());
    apply_gradient(banner.as_str(), WAKE_DEEP_BLUE, WAKE_WHITE_BLUE)
}

/// The banner under the sky-blue gradient.
pub fn logo_cyan() -> (r: String)
    ensures
        r@ == spec_gradient(
            spec_crlf(spec_wake_logo(), spec_wake_logo().len() as int),
            WAKE_SKY_BLUE,
            WAKE_WHITE_BLUE,
        ),
{
    let banner = wake_logo();
    let banner = to_crlf(banner.as_str());
    apply_gradient(banner.as_str(), WAKE_SKY_BLUE, WAKE_WHITE_BLUE)
}

/// Relies on `rand::rng` and `rand::Rng::random_range`: a draw from the
/// thread-local generator, uniform over `lo..hi` (which must be non-empty).
/// Nothing more can be promised of a random value.
#[verifier::external_body]
fn random_in(lo: u32, hi: u32) -> (r: u32)
    requires
        lo < hi,
    ensures
        lo <= r < hi,
{
    let mut rng = rand::rng();
    rand::Rng::random_range(&mut rng, lo..hi)
}

/// HSL to RGB over integers: hue in degrees below 360, saturation and
/// lightness in percent.  Chroma and the intermediate component are held in
/// ten-thousandths; each output channel is the scaled value truncated to
/// 0..=255.
pub open spec fn spec_hsl_to_rgb(h: u32, s: u32, l: u32) -> (u8, u8, u8)
    recommends
        h < 360,
        s <= 100,
        l <= 100,
{
    let spread = if 2 * l >= 100 {
        (2 * l - 100) as int
    } else {
        (100 - 2 * l) as int
    };
    let c = (100 - spread) * s;
    let t = (h % 120) as int;
    let toward = if t >= 60 {
        (t - 60) as int
    } else {
        (60 - t) as int
    };
    let x = c * (60 - toward) / 60;
    let m = 100 * l - c / 2;
    let sextant = h / 60;
    let rgb1: (int, int, int) = if sextant == 0 {
        (c, x, 0)
    } else if sextant == 1 {
        (x, c, 0)
    } else if sextant == 2 {
        (0, c, x)
    } else if sextant == 3 {
        (0, x, c)
    } else if sextant == 4 {
        (x, 0, c)
    } else {
        (c, 0, x)
    };
    (
        (((rgb1.0 + m) * 255) / 10000) as u8,
        (((rgb1.1 + m) * 255) / 10000) as u8,
        (((rgb1.2 + m) * 255) / 10000) as u8,
    )
}

/// Convert an HSL colour to RGB.
pub fn hsl_to_rgb(h: u32, s: u32, l: u32) -> (rgb: (u8, u8, u8))
    requires
        h < 360,
        s <= 100,
        l <= 100,
    ensures
        rgb == spec_hsl_to_rgb(h, s, l),
{
    let spread: u32 = if 2 * l >= 100 {
        2 * l - 100
    } else {
        100 - 2 * l
    };
    proof {
        assert((100 - spread) * s <= 10000) by (nonlinear_arith)
            requires
                spread <= 100,
                s <= 100,
        ;
    }
    let c: u32 = (100 - spread) * s;
    let t: u32 = h % 120;
    let toward: u32 = if t >= 60 {
        t - 60
    } else {
        60 - t
    };
    proof {
        assert(c * (60 - toward) <= 600000) by (nonlinear_arith)
            requires
                c <= 10000,
                toward <= 60,
        ;
        assert(c / 2 <= 100 * l && c / 2 + 100 * l <= 10000 && c % 2 == 0) by (nonlinear_arith)
            requires
                s <= 100,
                l <= 100,
                spread == (if 2 * l >= 100 {
                    (2 * l - 100) as u32
                } else {
                    (100 - 2 * l) as u32
                }),
                c == (100 - spread) * s,
        ;
    }
    let x: u32 = c * (60 - toward) / 60;
    let m: u32 = 100 * l - c / 2;
    proof {
        assert(x <= c) by (nonlinear_arith)
            requires
                toward <= 60,
                x == c * (60 - toward) / 60,
        ;
        assert((c + m) * 255 <= 2550000 && (x + m) * 255 <= 2550000 && m * 255 <= 2550000)
            by (nonlinear_arith)
            requires
                x <= c,
                c % 2 == 0,
                m == 100 * l - c / 2,
                c / 2 + 100 * l <= 10000,
                c / 2 <= 100 * l,
        ;
    }
    let sextant = h / 60;
    let rgb1: (u32, u32, u32) = if sextant == 0 {
        (c, x, 0)
    } else if sextant == 1 {
        (x, c, 0)
    } else if sextant == 2 {
        (0, c, x)
    } else if sextant == 3 {
        (0, x, c)
    } else if sextant == 4 {
        (x, 0, c)
    } else {
        (c, 0, x)
    };
    (
        (((rgb1.0 + m) * 255) / 10000) as u8,
        (((rgb1.1 + m) * 255) / 10000) as u8,
        (((rgb1.2 + m) * 255) / 10000) as u8,
    )
}

/// A random vibrant colour: high saturation and medium lightness, converted
/// from HSL.  The hue, saturation and lightness are random draws, so only
/// their ranges are known.
pub fn generate_nice_color() -> (rgb: (u8, u8, u8))
    ensures
        exists|h: u32, s: u32, l: u32|
            h < 360 && 70 <= s < 100 && 40 <= l < 80 && rgb == #[trigger] spec_hsl_to_rgb(h, s, l),
{
    let hue = random_in(0, 360);
    let saturation = random_in(70, 100);
    let lightness = random_in(40, 80);
    let rgb = hsl_to_rgb(hue, saturation, lightness);
    proof {
        assert(rgb == spec_hsl_to_rgb(hue, saturation, lightness));
    }
    rgb
}

/// One palette section: the numbered header naming both endpoint colours,
/// the logo under their gradient, and a blank line.
pub open spec fn spec_palette_section(
    i: nat,
    logo_text: Seq<char>,
    from: (u8, u8, u8),
    to: (u8, u8, u8),
) -> Seq<char> {
    "=== Palette "@ + spec_decimal(i) + " - RGB("@ + spec_decimal(from.0 as nat) + ","@
        + spec_decimal(from.1 as nat) + ","@ + spec_decimal(from.2 as nat) + ") to RGB("@
        + spec_decimal(to.0 as nat) + ","@ + spec_decimal(to.1 as nat) + ","@ + spec_decimal(
        to.2 as nat,
    ) + ") ===\n"@ + spec_gradient(logo_text, from, to) + "\n"@
}

fn palette_section(i: u64, logo_text: &str, from: (u8, u8, u8), to: (u8, u8, u8)) -> (r: String)
    ensures
        r@ == spec_palette_section(i as nat, logo_text@, from, to),
{
    let mut out = "=== Palette ".to_owned();
    let d = u64_to_string(i);
    out.append(d.as_str());
    out.append(" - RGB(");
    let c = u64_to_string(from.0 as u64);
    out.append(c.as_str());
    out.append(",");
    let c = u64_to_string(from.1 as u64);
    out.append(c.as_str());
    out.append(",");
    let c = u64_to_string(from.2 as u64);
    out.append(c.as_str());
    out.append(") to RGB(");
    let c = u64_to_string(to.0 as u64);
    out.append(c.as_str());
    out.append(",");
    let c = u64_to_string(to.1 as u64);
    out.append(c.as_str());
    out.append(",");
    let c = u64_to_string(to.2 as u64);
    out.append(c.as_str());
    out.append(") ===\n");
    let g = apply_gradient(logo_text, from, to);
    out.append(g.as_str());
    out.append("\n");
    proof {
        assert(out@ =~= spec_palette_section(i as nat, logo_text@, from, to));
    }
    out
}

/// Twelve palette previews of the rendered logo under random colour pairs.
/// The colours are random, so what is known is the shape: twelve numbered
/// sections over the same logo text, each for some pair of HSL-derived
/// colours.
#[verifier::rlimit(60)]
pub fn random_palette() -> (r: String)
    ensures
        exists|pairs: Seq<((u8, u8, u8), (u8, u8, u8))>|
            pairs.len() == 12 && r@ == #[trigger] spec_palette_sections(pairs, 12),
{
    let rendered = logo();
    let mut result = String::new();
    let ghost logo_view = rendered@;
    let mut pairs_ghost: Ghost<Seq<((u8, u8, u8), (u8, u8, u8))>> = Ghost(Seq::empty());
    for i in 1..13u64
        invariant
            1 <= i <= 13,
            pairs_ghost@.len() == i - 1,
            result@ == spec_palette_sections_over(pairs_ghost@, (i - 1) as int, logo_view),
            logo_view == spec_logo_view(),
            rendered@ == logo_view,
    {
        let from = generate_nice_color();
        let to = generate_nice_color();
        let section = palette_section(i, rendered.as_str(), from, to);
        result.append(section.as_str());
        proof {
            let pre_pairs = pairs_ghost@;
            pairs_ghost@ = pairs_ghost@.push((from, to));
            lemma_sections_prefix(pre_pairs, pairs_ghost@, (i - 1) as int, logo_view);
            assert(pairs_ghost@[i - 1] == (from, to));
            assert(result@ =~= spec_palette_sections_over(
                pairs_ghost@,
                i as int,
                logo_view,
            ));
        }
    }
    proof {
        assert(spec_palette_sections_over(pairs_ghost@, 12, logo_view) == spec_palette_sections(
            pairs_ghost@,
            12,
        ));
    }
    result
}

/// The rendered logo the palette previews colour.
pub open spec fn spec_logo_view() -> Seq<char> {
    spec_gradient(
        spec_crlf(spec_wake_logo(), spec_wake_logo().len() as int),
        WAKE_DEEP_BLUE,
        WAKE_WHITE_BLUE,
    )
}

/// The first `n` palette sections for the given colour pairs, over the
/// rendered logo.
pub open spec fn spec_palette_sections(
    pairs: Seq<((u8, u8, u8), (u8, u8, u8))>,
    n: int,
) -> Seq<char> {
    spec_palette_sections_over(pairs, n, spec_logo_view())
}

proof fn lemma_sections_prefix(
    pairs1: Seq<((u8, u8, u8), (u8, u8, u8))>,
    pairs2: Seq<((u8, u8, u8), (u8, u8, u8))>,
    n: int,
    logo_text: Seq<char>,
)
    requires
        forall|k: int| 0 <= k < n ==> pairs1[k] == pairs2[k],
    ensures
        spec_palette_sections_over(pairs1, n, logo_text) == spec_palette_sections_over(
            pairs2,
            n,
            logo_text,
        ),
    decreases n,
{
    if n > 0 {
        lemma_sections_prefix(pairs1, pairs2, n - 1, logo_text);
    }
}

pub open spec fn spec_palette_sections_over(
    pairs: Seq<((u8, u8, u8), (u8, u8, u8))>,
    n: int,
    logo_text: Seq<char>,
) -> Seq<char>
    decreases n,
{
    if n <= 0 {
        Seq::empty()
    } else {
        spec_palette_sections_over(pairs, n - 1, logo_text) + spec_palette_section(
            n as nat,
            logo_text,
            pairs[n - 1].0,
            pairs[n - 1].1,
        )
    }
}

} // verus!
