use vstd::prelude::*;

verus! {

/// An administrator, as the credential lookup returns one.
#[derive(Debug, Clone, PartialEq, Eq)]
pub struct Admin {
    pub email: String,
}

} // verus!
