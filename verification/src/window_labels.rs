//! Well-known window labels used in the application.

use vstd::prelude::*;

verus! {

/// The splash screen window shown during app startup.
pub const SPLASH: &'static str = "splash";

/// The main application window.
pub const MAIN: &'static str = "main";

} // verus!
