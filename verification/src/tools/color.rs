//! Label colours: the week gradient, the HSL to RGB transform behind it, and
//! the random alternative.
//!
//! All colour arithmetic is exact. A hue is a fraction of degrees, saturation
//! and lightness are whole percents, and every channel is the floor of the
//! real-valued formula scaled to `0..=255`.

use vstd::prelude::*;
use crate::tools::random::random_byte;
use crate::tools::text::{digit_char, digit_str};

verus! {

/// Hue of the first week of the gradient, in degrees (yellow).
pub const START_HUE: u32 = 60;

/// Hue of the last week of the gradient, in degrees (purple).
pub const END_HUE: u32 = 270;

/// Saturation of every week colour, in percent.
pub const SATURATION: u32 = 65;

/// Lightness of every week colour, in percent.
pub const LIGHTNESS: u32 = 55;

/// The first week of the gradient.
pub const FIRST_WEEK: u32 = 1;

/// The last week of the gradient.
pub const LAST_WEEK: u32 = 52;

/// Number of steps between the first and the last week; week hues are
/// fractions with this denominator.
pub const WEEK_STEPS: u32 = 51;

/// `week` brought into `FIRST_WEEK..=LAST_WEEK`.
pub open spec fn clamp_week(week: int) -> int {
    if week < FIRST_WEEK {
        FIRST_WEEK as int
    } else if week > LAST_WEEK {
        LAST_WEEK as int
    } else {
        week
    }
}

/// The hue of a week as a numerator over `WEEK_STEPS`, in degrees: the
/// clamped week interpolated linearly from `START_HUE` to `END_HUE`.
pub open spec fn week_hue(week: int) -> int {
    START_HUE * WEEK_STEPS + (END_HUE - START_HUE) * (clamp_week(week) - FIRST_WEEK)
}

/// Absolute value.
pub open spec fn abs(x: int) -> int {
    if x < 0 {
        -x
    } else {
        x
    }
}

/// Chroma in ten-thousandths: `(1 - |2l - 1|) * s` for percents `s` and `l`.
pub open spec fn chroma(saturation: int, lightness: int) -> int {
    (100 - abs(2 * lightness - 100)) * saturation
}

/// The width of one 60 degree sector in units of `1 / hue_den` degrees.
pub open spec fn sector_width(hue_den: int) -> int {
    60 * hue_den
}

/// The weight `1 - |(h' mod 2) - 1|` of the secondary component as a
/// numerator over `sector_width(hue_den)`, where `h' = h / 60`.
pub open spec fn secondary_weight(hue_num: int, hue_den: int) -> int {
    let width = sector_width(hue_den);
    width - abs(hue_num % (2 * width) - width)
}

/// One colour channel: a component of `weight / width` of the chroma, plus
/// the lightness offset `l - c / 2`, scaled to `0..=255` and rounded down.
pub open spec fn channel(weight: int, width: int, saturation: int, lightness: int) -> int {
    let c = chroma(saturation, lightness);
    (255 * (2 * c * weight + (200 * lightness - c) * width)) / (20000 * width)
}

/// Red, green and blue of the colour with hue `hue_num / hue_den` degrees
/// and the given saturation and lightness in percent, by the sector formula.
/// A hue of exactly 360 degrees counts with the last sector; beyond that no
/// sector applies and only the lightness offset remains.
pub open spec fn hsl_to_rgb_spec(hue_num: int, hue_den: int, saturation: int, lightness: int) -> (
    int,
    int,
    int,
) {
    let width = sector_width(hue_den);
    let sector = hue_num / width;
    let c = channel(width, width, saturation, lightness);
    let x = channel(secondary_weight(hue_num, hue_den), width, saturation, lightness);
    let z = channel(0, width, saturation, lightness);
    if sector == 0 {
        (c, x, z)
    } else if sector == 1 {
        (x, c, z)
    } else if sector == 2 {
        (z, c, x)
    } else if sector == 3 {
        (z, x, c)
    } else if sector == 4 {
        (x, z, c)
    } else if sector == 5 || sector == 6 {
        (c, z, x)
    } else {
        (z, z, z)
    }
}

/// Six lowercase hexadecimal digits, two per channel.
pub open spec fn hex_text(r: int, g: int, b: int) -> Seq<char> {
    seq![
        digit_char(r / 16),
        digit_char(r % 16),
        digit_char(g / 16),
        digit_char(g % 16),
        digit_char(b / 16),
        digit_char(b % 16),
    ]
}

/// Whether `c` is a lowercase hexadecimal digit.
pub open spec fn is_hex_digit(c: char) -> bool {
    ('0' <= c <= '9') || ('a' <= c <= 'f')
}

/// Whether `s` is a colour: exactly six lowercase hexadecimal digits.
pub open spec fn is_hex_color(s: Seq<char>) -> bool {
    s.len() == 6 && forall|i: int| 0 <= i < 6 ==> is_hex_digit(#[trigger] s[i])
}

/// The colour of a week: its hue at the fixed saturation and lightness.
pub open spec fn week_rgb(week: int) -> (int, int, int) {
    hsl_to_rgb_spec(week_hue(week), WEEK_STEPS as int, SATURATION as int, LIGHTNESS as int)
}

/// The colour of a week as text.
pub open spec fn week_color_text(week: int) -> Seq<char> {
    let (r, g, b) = week_rgb(week);
    hex_text(r, g, b)
}

/// The chroma never exceeds what the lightness leaves room for, so every
/// channel of a colour lies in `0..=255`.
pub proof fn lemma_channel_range(weight: int, width: int, saturation: int, lightness: int)
    requires
        0 <= weight <= width,
        1 <= width,
        0 <= saturation <= 100,
        0 <= lightness <= 100,
    ensures
        0 <= chroma(saturation, lightness) <= 10000,
        chroma(saturation, lightness) <= 200 * lightness,
        chroma(saturation, lightness) + 200 * lightness <= 20000,
        0 <= 2 * chroma(saturation, lightness) * weight + (200 * lightness - chroma(
            saturation,
            lightness,
        )) * width <= 20000 * width,
        0 <= channel(weight, width, saturation, lightness) <= 255,
{
    let room = 100 - abs(2 * lightness - 100);
    let c = chroma(saturation, lightness);
    assert(0 <= room <= 100);
    assert(0 <= room * saturation <= room * 100) by (nonlinear_arith)
        requires
            0 <= room,
            0 <= saturation <= 100,
    ;
    assert(room * 100 <= 200 * lightness);
    assert(room * 100 + 200 * lightness <= 20000);
    let offset = 200 * lightness - c;
    let total = 2 * c * weight + offset * width;
    assert(0 <= total <= 20000 * width) by (nonlinear_arith)
        requires
            total == 2 * c * weight + offset * width,
            offset == 200 * lightness - c,
            0 <= c,
            0 <= offset,
            c + 200 * lightness <= 20000,
            0 <= weight <= width,
    ;
    assert(0 <= (255 * total) / (20000 * width) <= 255) by (nonlinear_arith)
        requires
            0 <= total <= 20000 * width,
            1 <= width,
    ;
}

/// One channel of a colour, computed without rounding error.
fn channel_value(weight: u64, width: u64, saturation: u32, lightness: u32) -> (v: u8)
    requires
        weight <= width,
        1 <= width <= 60 * u32::MAX,
        saturation <= 100,
        lightness <= 100,
    ensures
        v == channel(weight as int, width as int, saturation as int, lightness as int),
{
    proof {
        lemma_channel_range(weight as int, width as int, saturation as int, lightness as int);
    }
    let twice: u64 = 2 * (lightness as u64);
    let span: u64 = if twice >= 100 {
        twice - 100
    } else {
        100 - twice
    };
    let c: u64 = (100 - span) * (saturation as u64);
    let offset: u64 = 200 * (lightness as u64) - c;
    assert(2 * c * weight <= 20000 * width) by (nonlinear_arith)
        requires
            c <= 10000,
            weight <= width,
    ;
    assert(offset * width <= 20000 * width) by (nonlinear_arith)
        requires
            offset <= 20000,
    ;
    let total: u64 = 2 * c * weight + offset * width;
    let scaled: u64 = (255 * total) / (20000 * width);
    scaled as u8
}

/// Converts a colour from hue, saturation and lightness to red, green and
/// blue. The hue is `hue_num / hue_den` degrees; saturation and lightness are
/// percents.
pub fn hsl_to_rgb(hue_num: u32, hue_den: u32, saturation: u32, lightness: u32) -> (rgb: (
    u8,
    u8,
    u8,
))
    requires
        hue_den >= 1,
        saturation <= 100,
        lightness <= 100,
    ensures
        (rgb.0 as int, rgb.1 as int, rgb.2 as int) == hsl_to_rgb_spec(
            hue_num as int,
            hue_den as int,
            saturation as int,
            lightness as int,
        ),
{
    let width: u64 = 60 * (hue_den as u64);
    let sector: u64 = (hue_num as u64) / width;
    let position: u64 = (hue_num as u64) % (2 * width);
    let weight: u64 = if position >= width {
        width - (position - width)
    } else {
        position
    };
    let c = channel_value(width, width, saturation, lightness);
    let x = channel_value(weight, width, saturation, lightness);
    let z = channel_value(0, width, saturation, lightness);
    if sector == 0 {
        (c, x, z)
    } else if sector == 1 {
        (x, c, z)
    } else if sector == 2 {
        (z, c, x)
    } else if sector == 3 {
        (z, x, c)
    } else if sector == 4 {
        (x, z, c)
    } else if sector == 5 || sector == 6 {
        (c, z, x)
    } else {
        (z, z, z)
    }
}

/// Every text that `hex_text` gives for three bytes is a colour.
pub proof fn lemma_hex_text_is_color(r: int, g: int, b: int)
    requires
        0 <= r <= 255,
        0 <= g <= 255,
        0 <= b <= 255,
    ensures
        is_hex_color(hex_text(r, g, b)),
{
}

/// Renders three channels as six lowercase hexadecimal digits.
pub fn hex_color(r: u8, g: u8, b: u8) -> (text: String)
    ensures
        text@ == hex_text(r as int, g as int, b as int),
        is_hex_color(text@),
{
    let mut text = String::new();
    text.append(digit_str(r / 16));
    text.append(digit_str(r % 16));
    text.append(digit_str(g / 16));
    text.append(digit_str(g % 16));
    text.append(digit_str(b / 16));
    text.append(digit_str(b % 16));
    proof {
        assert(text@ =~= hex_text(r as int, g as int, b as int));
        lemma_hex_text_is_color(r as int, g as int, b as int);
    }
    text
}

/// The colour of a week, from yellow in week 1 to purple in week 52. Weeks
/// outside that range take the colour of the nearest end. The result depends
/// on the week alone.
pub fn week_color(week: u32) -> (text: String)
    ensures
        text@ == week_color_text(week as int),
        text@ == week_color_text(clamp_week(week as int)),
        is_hex_color(text@),
{
    let clamped: u32 = if week < FIRST_WEEK {
        FIRST_WEEK
    } else if week > LAST_WEEK {
        LAST_WEEK
    } else {
        week
    };
    let hue: u32 = START_HUE * WEEK_STEPS + (END_HUE - START_HUE) * (clamped - FIRST_WEEK);
    let (r, g, b) = hsl_to_rgb(hue, WEEK_STEPS, SATURATION, LIGHTNESS);
    hex_color(r, g, b)
}

/// The hue of the gradient never decreases from a week to a later one, and
/// rises strictly between two different weeks of the gradient.
pub proof fn lemma_week_hue_monotonic(earlier: int, later: int)
    requires
        earlier <= later,
    ensures
        week_hue(earlier) <= week_hue(later),
        FIRST_WEEK <= earlier < later <= LAST_WEEK ==> week_hue(earlier) < week_hue(later),
{
}

/// The gradient starts at `START_HUE` in the first week and ends at
/// `END_HUE` in the last.
pub proof fn lemma_week_hue_endpoints()
    ensures
        week_hue(FIRST_WEEK as int) == START_HUE * WEEK_STEPS,
        week_hue(LAST_WEEK as int) == END_HUE * WEEK_STEPS,
        forall|week: int| START_HUE * WEEK_STEPS <= #[trigger] week_hue(week) <= END_HUE * WEEK_STEPS,
{
}

/// The two ends of the gradient as colours: week 1 is the yellow `d6d641`,
/// week 52 the purple `8c41d6`.
pub proof fn lemma_week_color_endpoints()
    ensures
        week_rgb(FIRST_WEEK as int) == (214int, 214int, 65int),
        week_rgb(LAST_WEEK as int) == (140int, 65int, 214int),
        week_color_text(FIRST_WEEK as int) == seq!['d', '6', 'd', '6', '4', '1'],
        week_color_text(LAST_WEEK as int) == seq!['8', 'c', '4', '1', 'd', '6'],
{
    assert(chroma(65, 55) == 5850);
    assert(sector_width(51) == 3060);
    assert(20000 * 3060 == 61200000int);
    assert(channel(3060, 3060, 65, 55) == 214) by {
        assert(255 * (2 * 5850 * 3060 + (200 * 55 - 5850) * 3060) == 13148055000int);
        assert(13148055000int / 61200000int == 214);
    }
    assert(channel(0, 3060, 65, 55) == 65) by {
        assert(255 * (2 * 5850 * 0 + (200 * 55 - 5850) * 3060) == 4018545000int);
        assert(4018545000int / 61200000int == 65);
    }
    assert(channel(1530, 3060, 65, 55) == 140) by {
        assert(255 * (2 * 5850 * 1530 + (200 * 55 - 5850) * 3060) == 8583300000int);
        assert(8583300000int / 61200000int == 140);
    }
    assert(week_hue(1) == 3060);
    assert(week_hue(52) == 13770);
    assert(secondary_weight(3060, 51) == 3060) by {
        assert(3060int % 6120int == 3060);
    }
    assert(secondary_weight(13770, 51) == 1530) by {
        assert(13770int % 6120int == 1530);
    }
    assert(3060int / 3060int == 1);
    assert(13770int / 3060int == 4);
    assert(week_rgb(1) == (214int, 214int, 65int));
    assert(week_rgb(52) == (140int, 65int, 214int));
    assert(week_color_text(1) =~= seq!['d', '6', 'd', '6', '4', '1']);
    assert(week_color_text(52) =~= seq!['8', 'c', '4', '1', 'd', '6']);
}

/// A week before the first takes the colour of the first week, and a week
/// after the last takes the colour of the last.
pub proof fn lemma_week_color_clamps(week: int)
    ensures
        week < FIRST_WEEK ==> week_color_text(week) == week_color_text(FIRST_WEEK as int),
        week > LAST_WEEK ==> week_color_text(week) == week_color_text(LAST_WEEK as int),
        FIRST_WEEK <= week <= LAST_WEEK ==> clamp_week(week) == week,
{
}

/// A colour with every channel drawn at random. Unlike `week_color`, two
/// calls may give different colours.
pub fn random_hex_color() -> (text: String)
    ensures
        is_hex_color(text@),
{
    let r = random_byte();
    let g = random_byte();
    let b = random_byte();
    hex_color(r, g, b)
}

} // verus!
