//! What a user can ask of the address book.

use crate::contact::Contact;
use vstd::prelude::*;

verus! {

/// One request to the address book.
#[derive(Debug)]
pub enum Operation {
    /// Store this contact.
    Add(Contact),
    /// Remove the contact with this identifier.
    Delete(i64),
    /// List every contact.
    List,
    /// Find the contacts that hold this needle.
    Search(String),
}

} // verus!
