//! What only this library can name.

use vstd::prelude::*;

verus! {

/// The key to the payload composition of a writer. Code outside this
/// library cannot name it, and so can neither call nor replace the method
/// that asks for it.
pub struct Token;

} // verus!
