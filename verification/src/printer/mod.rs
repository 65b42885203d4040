//! Formatting of CPU information: ASCII-art helpers, layout, vendor logos
//! and the JSON rendering of a snapshot.  Writing the result to a terminal
//! is the program shell's business; everything here only builds strings.

pub mod ascii;
pub mod json;
pub mod layout;
pub mod logo;
