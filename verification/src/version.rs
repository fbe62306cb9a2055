//! The server's name and version.
use vstd::prelude::*;

verus! {

/// Package name.
pub const NAME: &'static str = "spironmc";
/// Package version.
pub const VERSION: &'static str = "0.1.0";

/// `"<name> <version>"`.
#[must_use]
pub fn version_string() -> (r: String)
    ensures
        r@ == NAME@ + " "@ + VERSION@,
{
    let mut out = String::from_str(NAME);
    out.append(" ");
    out.append(VERSION);
    out
}

} // verus!
