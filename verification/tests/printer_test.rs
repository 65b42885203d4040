//! Tests for the formatting helpers: measuring, framing, combining,
//! centering and the vendor logos.

use cpufetch::cpu::info::Vendor;
use cpufetch::printer::ascii::combine_horizontal;
use cpufetch::printer::ascii::frame;
use cpufetch::printer::ascii::max_width;
use cpufetch::printer::layout::center_text;
use cpufetch::printer::logo::format_logo;
use cpufetch::printer::logo::get_logo;

#[test]
fn test_max_width() {
    assert_eq!(max_width("ab\ncdef\nc"), 4);
    assert_eq!(max_width(""), 0);
    assert_eq!(max_width("xyz"), 3);
    assert_eq!(max_width("a\n\n"), 1);
}

#[test]
fn test_max_width_counts_bytes() {
    // Widths are measured in bytes of the UTF-8 encoding: a one-character
    // two-byte line has width 2.
    assert_eq!(max_width("\u{e9}"), 2);
    assert_eq!(center_text("\u{e9}", 4), " \u{e9}");
}

#[test]
fn test_frame_exact() {
    assert_eq!(frame("ab", 1), "┌────┐\n│ ab \n└────┘\n");
}

#[test]
fn test_frame_pads_short_lines() {
    // The shorter line is padded out to the widest line's width.
    assert_eq!(frame("ab\ncdef", 0), "┌────┐\n│ab  \n│cdef\n└────┘\n");
}

#[test]
fn test_combine_horizontal() {
    assert_eq!(combine_horizontal("a\nbb", "ccc", 2), "a  ccc\nbb  \n");
}

#[test]
fn test_combine_horizontal_right_taller() {
    assert_eq!(combine_horizontal("a", "x\ny", 1), "a x\n y\n");
}

#[test]
fn test_center_text() {
    assert_eq!(center_text("hi", 10), "    hi");
    assert_eq!(center_text("wide text", 4), "wide text");
}

#[test]
fn test_format_logo_exact() {
    assert_eq!(format_logo("X", "red"), "\u{1b}[1;31mX\u{1b}[0m");
    assert_eq!(format_logo("Y", "blue"), "\u{1b}[1;34mY\u{1b}[0m");
    // An unknown color name renders bold white.
    assert_eq!(format_logo("Z", "purple"), "\u{1b}[1;37mZ\u{1b}[0m");
}

#[test]
fn test_get_logo() {
    let intel = get_logo(&Vendor::Intel);
    assert!(intel.contains("INTEL"));
    assert!(intel.starts_with("\u{1b}[1;34m"));
    let arm = get_logo(&Vendor::ARM);
    assert!(arm.contains("ARM"));
    assert!(arm.starts_with("\u{1b}[1;32m"));
    let unknown = get_logo(&Vendor::Unknown(String::new()));
    assert!(unknown.contains("CPU"));
    assert!(unknown.ends_with("\u{1b}[0m"));
}
