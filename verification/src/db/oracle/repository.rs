//! The repository whose scripts the other modules hold.
use vstd::prelude::*;

verus! {

/// The Oracle repository: each of its operations is a script.
#[derive(Clone, Copy, Debug)]
pub struct OracleRepository {}

} // verus!
