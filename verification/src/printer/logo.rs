//! CPU vendor logo ASCII art, colored with ANSI escape sequences.

use vstd::prelude::*;

use crate::cpu::info::Vendor;
use vstd::string::StringExecFns;

verus! {

/// The ANSI bold-plus-color prefix a color name selects; anything
/// unrecognized renders bold white.
pub open spec fn spec_color_prefix(color: Seq<char>) -> Seq<char> {
    if color == "blue"@ {
        "\u{1b}[1;34m"@
    } else if color == "red"@ {
        "\u{1b}[1;31m"@
    } else if color == "green"@ {
        "\u{1b}[1;32m"@
    } else if color == "yellow"@ {
        "\u{1b}[1;33m"@
    } else {
        "\u{1b}[1;37m"@
    }
}

/// A logo wrapped in its color prefix and the ANSI reset sequence.
pub open spec fn spec_format_logo(logo: Seq<char>, color: Seq<char>) -> Seq<char> {
    spec_color_prefix(color) + logo + "\u{1b}[0m"@
}

/// Formats a logo with the ANSI sequence for the named color, bold, and a
/// trailing reset.
pub fn format_logo(logo: &str, color: &str) -> (r: String)
    ensures
        r@ == spec_format_logo(logo@, color@),
{
    let c = color.to_owned();
    let prefix: &str = if c == "blue".to_owned() {
        "\u{1b}[1;34m"
    } else if c == "red".to_owned() {
        "\u{1b}[1;31m"
    } else if c == "green".to_owned() {
        "\u{1b}[1;32m"
    } else if c == "yellow".to_owned() {
        "\u{1b}[1;33m"
    } else {
        "\u{1b}[1;37m"
    };
    let mut out = prefix.to_owned();
    out.append(logo);
    out.append("\u{1b}[0m");
    out
}

/// The colored logo text of each vendor.
pub open spec fn spec_get_logo(vendor: Vendor) -> Seq<char> {
    match vendor {
        Vendor::Intel => spec_format_logo(
            "\n    ///////////////\n    /////INTEL/////\n    ///////////////\n"@,
            "blue"@,
        ),
        Vendor::AMD => spec_format_logo(
            "\n   ///////////\n  //   AMD  //\n ///////////\n"@,
            "red"@,
        ),
        Vendor::ARM => spec_format_logo(
            "\n  /=======\\\n // ARM   ||\n \\\\      //\n  \\=====/\n"@,
            "green"@,
        ),
        Vendor::Apple => spec_format_logo(
            "\n     .\n    / \\\n   /   \\\n  /     \\\n /  APPLE \\\n/___________\\\n"@,
            "white"@,
        ),
        Vendor::Unknown(_) => spec_format_logo(
            "\n  /---------\\\n |   CPU    |\n  \\---------/\n"@,
            "yellow"@,
        ),
    }
}

/// Returns the ASCII-art logo for a CPU vendor, colored.
pub fn get_logo(vendor: &Vendor) -> (r: String)
    ensures
        r@ == spec_get_logo(*vendor),
{
    match vendor {
        Vendor::Intel => format_logo(
            "\n    ///////////////\n    /////INTEL/////\n    ///////////////\n",
            "blue",
        ),
        Vendor::AMD => format_logo("\n   ///////////\n  //   AMD  //\n ///////////\n", "red"),
        Vendor::ARM => format_logo(
            "\n  /=======\\\n // ARM   ||\n \\\\      //\n  \\=====/\n",
            "green",
        ),
        Vendor::Apple => format_logo(
            "\n     .\n    / \\\n   /   \\\n  /     \\\n /  APPLE \\\n/___________\\\n",
            "white",
        ),
        Vendor::Unknown(_) => format_logo("\n  /---------\\\n |   CPU    |\n  \\---------/\n", "yellow"),
    }
}

} // verus!
