//! Text, colour and markup rendering on exact expected values.

use cnx::text::trim;
use cnx::text::str_eq;
use cnx::text::Color;
use cnx::pango_markup_render;
use cnx::pango_markup_single_render;
use cnx::u64_to_string;

#[test]
fn colors_render_as_lowercase_hex() {
    assert_eq!(Color::white().to_hex(), "#ffffff");
    assert_eq!(Color::red().to_hex(), "#ff0000");
    assert_eq!(Color::green().to_hex(), "#00ff00");
    assert_eq!(Color::blue().to_hex(), "#0000ff");
    assert_eq!(Color::yellow().to_hex(), "#ffff00");
    assert_eq!(Color::black().to_hex(), "#000000");
    assert_eq!(Color::new(0x1a, 0x2b, 0x3c).to_hex(), "#1a2b3c");
}

#[test]
fn decimal_rendering_is_exact() {
    assert_eq!(u64_to_string(0), "0");
    assert_eq!(u64_to_string(7), "7");
    assert_eq!(u64_to_string(85), "85");
    assert_eq!(u64_to_string(100), "100");
    assert_eq!(u64_to_string(18446744073709551615), "18446744073709551615");
}

#[test]
fn markup_render_wraps_both_parts() {
    let s = pango_markup_render(Color::white(), "Temp:".to_owned(), "21C".to_owned());
    assert_eq!(
        s,
        "<span foreground=\"#808080\">[</span>Temp: <span foreground=\"#ffffff\">21C</span><span foreground=\"#808080\">]</span>"
    );
}

#[test]
fn markup_single_render_wraps_start_alone() {
    let s = pango_markup_single_render(Color::red(), "93%".to_owned());
    assert_eq!(
        s,
        "<span foreground=\"#808080\">[</span>93%<span foreground=\"#ff0000\"></span><span foreground=\"#808080\">]</span>"
    );
}

#[test]
fn trim_strips_surrounding_whitespace_only() {
    assert_eq!(trim("85\n"), "85");
    assert_eq!(trim("  Charging\t\r\n"), "Charging");
    assert_eq!(trim("a b"), "a b");
    assert_eq!(trim(""), "");
    assert_eq!(trim(" \n\t"), "");
    assert_eq!(trim("inner  space  "), "inner  space");
}

#[test]
fn trim_covers_unicode_whitespace() {
    // The no-break space, em space and ideographic space all carry the
    // White_Space property, like the standard trim understands it.
    assert_eq!(trim("\u{a0}85\u{2003}"), "85");
    assert_eq!(trim("\u{3000}x\u{2028}"), "x");
    assert_eq!(trim("\u{85}\u{1680}"), "");
    // A zero-width space is not whitespace and stays.
    assert_eq!(trim("\u{200b}a"), "\u{200b}a");
}

#[test]
fn str_eq_compares_contents() {
    assert!(str_eq("output", "output"));
    assert!(!str_eq("output", "input"));
    assert!(!str_eq("out", "output"));
    assert!(str_eq("", ""));
}
