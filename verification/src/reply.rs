//! The shape of the embed replies that the text commands send.

use vstd::prelude::*;

verus! {

/// One embed field with its description line: `name` is the text that was
/// given, `value` what the command made of it, `description` the line that
/// says which transformation was applied.
pub struct EmbedReply {
    pub name: String,
    pub value: String,
    pub description: String,
}

} // verus!
