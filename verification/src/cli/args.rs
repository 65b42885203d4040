//! The option set that drives what the presentation layer shows.
//!
//! Parsing command-line text into these options is the program shell's
//! business; the library only defines the model.

use vstd::prelude::*;

verus! {

/// Display options: which optional sections to show and how to render.
#[derive(Clone, Copy, PartialEq, Eq, Structural, Debug)]
pub struct Args {
    /// Show CPU frequency information.
    pub frequency: bool,
    /// Show CPU cache information.
    pub cache: bool,
    /// Show CPU feature flags.
    pub features: bool,
    /// Output in JSON format instead of the terminal layout.
    pub json: bool,
    /// Do not show the vendor logo.
    pub no_logo: bool,
    /// Do not color the output.
    pub no_color: bool,
    /// Show debug information.
    pub debug: bool,
}

impl Default for Args {
    /// Every option off.
    fn default() -> (r: Self)
        ensures
            !r.frequency && !r.cache && !r.features && !r.json && !r.no_logo && !r.no_color
                && !r.debug,
    {
        Args {
            frequency: false,
            cache: false,
            features: false,
            json: false,
            no_logo: false,
            no_color: false,
            debug: false,
        }
    }
}

} // verus!
