//! Names the tool uses on the system.
use vstd::prelude::*;

verus! {

/// Name of the tool's directory inside the user's cache directory.
pub const APP_DIR: &'static str = "com.github.nozwock.amect";

} // verus!
