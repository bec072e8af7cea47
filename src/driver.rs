//! Printer command languages.
use vstd::prelude::*;

pub mod datamax;

verus! {

} // verus!
