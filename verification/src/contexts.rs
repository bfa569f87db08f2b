//! The emulator adapters: one module per emulator family.

use vstd::prelude::*;

pub mod bizhawk;
pub mod fceux;
pub mod gens;

pub use bizhawk::BizHawkContext;
pub use fceux::FceuxContext;
pub use gens::GensContext;
pub use gens::GensVersion;

use crate::ErrorV;
use crate::paths::{EmuPath, spec_is_absolute};

verus! {

/// The validation outcome for one optional attachment under the strict rule:
/// the path must name an existing regular file, and must be absolute.
pub open spec fn spec_check_attachment(
    path: Option<EmuPath>,
    is_file: bool,
    missing: spec_fn(Seq<char>) -> ErrorV,
) -> Option<ErrorV> {
    match path {
        Option::Some(p) => if !is_file {
            Option::Some(missing(p@))
        } else if !spec_is_absolute(p@) {
            Option::Some(ErrorV::AbsolutePathFailed)
        } else {
            Option::None
        },
        Option::None => Option::None,
    }
}

/// The earlier of two possible validation failures.
pub open spec fn spec_first_some(a: Option<ErrorV>, b: Option<ErrorV>) -> Option<ErrorV> {
    if a is Some {
        a
    } else {
        b
    }
}

/// Compares a string against a literal, character for character.
pub(crate) fn string_eq_str(a: &String, b: &str) -> (r: bool)
    ensures
        r == (a@ == b@),
{
    let owned = b.to_owned();
    *a == owned
}

} // verus!
