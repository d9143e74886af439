//! The severity levels that the batch's messages carry.

use vstd::prelude::*;

verus! {

/// How serious a logged message is.
#[derive(Copy, Clone, PartialEq, Eq, Structural, Debug)]
pub enum ErrorLevel {
    Log,
    Notice,
    Warning,
    Error,
}

} // verus!
