//! Theme rendering: palette mapping, integer colour math, gradients.

use wake::{
    apply_gradient, generate_nice_color, hsl_to_rgb, logo, logo_cyan, random_palette,
    rgb_to_256_color, wake_logo, WAKE_DEEP_BLUE, WAKE_SKY_BLUE,
};

#[test]
fn palette_corners() {
    assert_eq!(rgb_to_256_color(0, 0, 0), 16);
    assert_eq!(rgb_to_256_color(255, 255, 255), 231);
    // (135, 206, 235): indices 3, 4, 5.
    assert_eq!(rgb_to_256_color(135, 206, 235), 16 + 36 * 3 + 6 * 4 + 5);
    assert_eq!(WAKE_SKY_BLUE, (135, 206, 235));
    assert_eq!(WAKE_DEEP_BLUE, (70, 130, 180));
}

#[test]
fn hsl_primaries() {
    assert_eq!(hsl_to_rgb(0, 100, 50), (255, 0, 0));
    assert_eq!(hsl_to_rgb(120, 100, 50), (0, 255, 0));
    assert_eq!(hsl_to_rgb(240, 100, 50), (0, 0, 255));
    // Zero saturation is grey: every channel equals the lightness share.
    let (r, g, b) = hsl_to_rgb(200, 0, 50);
    assert_eq!((r, g, b), (127, 127, 127));
    // Full lightness is white regardless of hue.
    assert_eq!(hsl_to_rgb(300, 100, 100), (255, 255, 255));
}

#[test]
fn gradient_wraps_nonspace_cells() {
    let out = apply_gradient("ab", (0, 0, 0), (255, 255, 255));
    assert_eq!(out, "\x1b[38;5;16ma\x1b[0m\x1b[38;5;231mb\x1b[0m\n");

    let out = apply_gradient("a b", (0, 0, 0), (255, 255, 255));
    assert_eq!(out, "\x1b[38;5;16ma\x1b[0m \x1b[38;5;231mb\x1b[0m\n");

    // A single column never interpolates.
    let out = apply_gradient("x", (255, 0, 0), (0, 0, 255));
    assert_eq!(out, format!("\x1b[38;5;{}mx\x1b[0m\n", rgb_to_256_color(255, 0, 0)));

    assert_eq!(apply_gradient("", (0, 0, 0), (255, 255, 255)), "");
    assert_eq!(apply_gradient("\n\n", (0, 0, 0), (255, 255, 255)), "");
}

#[test]
fn gradient_splits_crlf_lines() {
    // The carriage return of a CRLF ending is stripped, so both lines
    // render the same.
    let unix = apply_gradient("ab\nab", (10, 20, 30), (200, 100, 50));
    let dos = apply_gradient("ab\r\nab", (10, 20, 30), (200, 100, 50));
    assert_eq!(unix, dos);
}

#[test]
fn banner_and_rendered_logos() {
    let banner = wake_logo();
    assert!(banner.contains("Hardware-First Coding Agent by Wind"));
    let rendered = logo();
    assert!(rendered.contains("\x1b[38;5;"));
    assert!(rendered.ends_with('\n'));
    let cyan = logo_cyan();
    assert!(cyan.contains("\x1b[38;5;"));
    assert_ne!(rendered, cyan);
}

#[test]
fn random_colors_stay_in_byte_range() {
    for _ in 0..32 {
        let (_r, _g, _b) = generate_nice_color();
        // The components are bytes by construction; what can be checked is
        // that the call keeps producing values at all.
    }
}

#[test]
fn palette_preview_has_twelve_sections() {
    let preview = random_palette();
    assert_eq!(preview.matches("=== Palette ").count(), 12);
    assert!(preview.contains("=== Palette 1 - RGB("));
    assert!(preview.contains("=== Palette 12 - RGB("));
}
