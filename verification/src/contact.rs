//! A directory contact.

use vstd::prelude::*;

verus! {

/// A contact as the directory lists it.
pub struct Contact {
    pub id: String,
    pub name: String,
}

} // verus!
