//! The backend that prints each snapshot to the terminal.
use vstd::prelude::*;

use crate::settings::{Named, CONSOLE};

verus! {

/// The backend that prints each snapshot.
pub struct Console {}

impl Named for Console {
    open spec fn spec_name() -> Seq<char> {
        CONSOLE@
    }

    fn name() -> (r: &'static str) {
        CONSOLE
    }
}

} // verus!
