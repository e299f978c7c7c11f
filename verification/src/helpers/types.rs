//! Shared type aliases.

use vstd::prelude::*;

verus! {

/// Server-assigned identifier of a chat.
pub type ChatId = u32;

/// Server-assigned identifier of a user.
pub type UserId = String;

/// An editable line of input, one element per character.
pub type TextInput = Vec<char>;

} // verus!
