//! Layout helpers for terminal display.

use vstd::prelude::*;

use crate::printer::ascii::{repeat_str, spec_repeat};
use vstd::string::StrSliceExecFns;
use vstd::string::StringExecFns;
use vstd::string::StringSliceAdditionalSpecFns;
use vstd::utf8::encode_utf8;

verus! {

/// The text preceded by the spaces that center it in the given width: half
/// the leftover width, rounded down, or nothing when the text does not
/// fit.  The width of the text is measured in bytes of its UTF-8 encoding.
pub open spec fn spec_center_text(t: Seq<char>, width: int) -> Seq<char> {
    let padding = if encode_utf8(t).len() < width {
        (width - encode_utf8(t).len()) / 2
    } else {
        0
    };
    spec_repeat(" "@, padding) + t
}

/// Pads a string on the left so that it sits centered in the given width.
pub fn center_text(text: &str, width: usize) -> (r: String)
    ensures
        r@ == spec_center_text(text@, width as int),
{
    let len = text.as_bytes().len();
    let padding: usize = if len < width {
        (width - len) / 2
    } else {
        0
    };
    let mut out = repeat_str(" ", padding);
    out.append(text);
    out
}

} // verus!
