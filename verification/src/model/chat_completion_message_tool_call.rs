//! The function of an assistant's tool call.

use vstd::prelude::*;

verus! {

/// The function called: its name and its arguments as JSON text.
pub struct Function {
    pub arguments: String,
    pub name: String,
}

} // verus!
