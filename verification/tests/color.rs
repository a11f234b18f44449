use week_labeler::tools::color::{hex_color, hsl_to_rgb, random_hex_color, week_color};

fn is_hex(text: &str) -> bool {
    text.len() == 6 && text.chars().all(|c| matches!(c, '0'..='9' | 'a'..='f'))
}

#[test]
fn week_color_first_week_is_yellow() {
    assert_eq!(week_color(1), "d6d641");
}

#[test]
fn week_color_last_week_is_purple() {
    assert_eq!(week_color(52), "8c41d6");
}

#[test]
fn week_color_exact_values() {
    assert_eq!(week_color(2), "ccd641");
    assert_eq!(week_color(7), "99d641");
    assert_eq!(week_color(8), "8fd641");
    assert_eq!(week_color(9), "84d641");
    assert_eq!(week_color(16), "41d646");
    assert_eq!(week_color(20), "41d66f");
    assert_eq!(week_color(30), "41d6d5");
    assert_eq!(week_color(31), "41ced6");
    assert_eq!(week_color(44), "4148d6");
    assert_eq!(week_color(45), "4441d6");
    assert_eq!(week_color(51), "8241d6");
}

#[test]
fn week_color_is_deterministic() {
    for week in 0..60u32 {
        assert_eq!(week_color(week), week_color(week));
    }
}

#[test]
fn week_color_clamps_out_of_range_weeks() {
    assert_eq!(week_color(0), week_color(1));
    assert_eq!(week_color(53), week_color(52));
    assert_eq!(week_color(99), week_color(52));
    assert_eq!(week_color(u32::MAX), week_color(52));
}

#[test]
fn week_color_is_six_lowercase_hex_digits() {
    for week in 0..60u32 {
        assert!(is_hex(&week_color(week)));
    }
}

#[test]
fn week_colors_differ_from_week_to_week() {
    for week in 1..52u32 {
        assert_ne!(week_color(week), week_color(week + 1));
    }
}

#[test]
fn hsl_to_rgb_primary_colors() {
    assert_eq!(hsl_to_rgb(0, 1, 100, 50), (255, 0, 0));
    assert_eq!(hsl_to_rgb(60, 1, 100, 50), (255, 255, 0));
    assert_eq!(hsl_to_rgb(120, 1, 100, 50), (0, 255, 0));
    assert_eq!(hsl_to_rgb(180, 1, 100, 50), (0, 255, 255));
    assert_eq!(hsl_to_rgb(240, 1, 100, 50), (0, 0, 255));
    assert_eq!(hsl_to_rgb(300, 1, 100, 50), (255, 0, 255));
    assert_eq!(hsl_to_rgb(360, 1, 100, 50), (255, 0, 0));
}

#[test]
fn hsl_to_rgb_greys_and_extremes() {
    assert_eq!(hsl_to_rgb(123, 1, 0, 50), (127, 127, 127));
    assert_eq!(hsl_to_rgb(200, 1, 100, 0), (0, 0, 0));
    assert_eq!(hsl_to_rgb(200, 1, 100, 100), (255, 255, 255));
    assert_eq!(hsl_to_rgb(420, 1, 65, 55), (65, 65, 65));
}

#[test]
fn hsl_to_rgb_fractional_hue() {
    assert_eq!(hsl_to_rgb(3060, 51, 65, 55), (214, 214, 65));
    assert_eq!(hsl_to_rgb(13770, 51, 65, 55), (140, 65, 214));
    assert_eq!(hsl_to_rgb(7050, 51, 65, 55), (65, 214, 111));
    assert_eq!(hsl_to_rgb(u32::MAX, u32::MAX, 65, 55), (214, 68, 65));
}

#[test]
fn hex_color_pads_and_uses_lowercase() {
    assert_eq!(hex_color(0, 0, 0), "000000");
    assert_eq!(hex_color(255, 255, 255), "ffffff");
    assert_eq!(hex_color(1, 10, 171), "010aab");
    assert_eq!(hex_color(0xd6, 0x41, 0x6f), "d6416f");
}

#[test]
fn random_hex_color_is_a_color() {
    for _ in 0..200 {
        assert!(is_hex(&random_hex_color()));
    }
}

#[test]
fn random_hex_color_varies() {
    let first = random_hex_color();
    let mut differs = false;
    for _ in 0..64 {
        if random_hex_color() != first {
            differs = true;
        }
    }
    assert!(differs);
}
