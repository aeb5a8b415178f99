//! The bot's own housekeeping: who may run the owner commands, what
//! `unregister` answers, and when the bot leaves a voice channel by itself.

use vstd::prelude::*;
use crate::vc::ChannelKind;

verus! {

/// The Discord user id of the bot's owner.
pub const OWNER_ID: u64 = 313142847375278091;

/// The check of the owner commands: the author must be the owner.
pub fn is_owner(author: u64, owner: u64) -> (b: bool)
    ensures
        b == (author == owner),
{
    author == owner
}

/// Where `unregister` removes the commands from.
#[derive(Clone, Copy, Debug, PartialEq, Eq)]
pub enum UnregisterScope {
    /// Everywhere.
    Global,
    /// The guild it was called in.
    Guild,
    /// Nowhere: it was not called in a guild, and gives up.
    NoGuild,
}

/// What `unregister` does, and what it says first.
#[derive(Debug, PartialEq, Eq)]
pub struct UnregisterPlan {
    pub scope: UnregisterScope,
    pub messages: Vec<String>,
}

/// `unregister`: with `global` it says so and clears the global commands;
/// otherwise it clears the guild's, and outside a guild it says that it must
/// be called in one before it gives up.
pub fn unregister(global: bool, in_guild: bool) -> (p: UnregisterPlan)
    ensures
        global ==> p.scope == UnregisterScope::Global && p.messages@.len() == 1
            && p.messages@[0]@ == "Unregistering commands globally"@,
        !global && in_guild ==> p.scope == UnregisterScope::Guild && p.messages@.len() == 1
            && p.messages@[0]@ == "Unregistering commands"@,
        !global && !in_guild ==> p.scope == UnregisterScope::NoGuild && p.messages@.len() == 2
            && p.messages@[0]@ == "Must be called in guild"@
            && p.messages@[1]@ == "Unregistering commands"@,
{
    let mut messages: Vec<String> = Vec::new();
    if global {
        messages.push("Unregistering commands globally".to_owned());
        return UnregisterPlan { scope: UnregisterScope::Global, messages };
    }
    if !in_guild {
        messages.push("Must be called in guild".to_owned());
        messages.push("Unregistering commands".to_owned());
        return UnregisterPlan { scope: UnregisterScope::NoGuild, messages };
    }
    messages.push("Unregistering commands".to_owned());
    UnregisterPlan { scope: UnregisterScope::Guild, messages }
}

/// After a voice state change, the bot looks at its call in the guild only
/// when the change left no channel (someone left voice) and it has a call.
pub fn voice_state_update(new_channel: Option<u64>, has_call: bool) -> (look: bool)
    ensures
        look == (new_channel is None && has_call),
{
    new_channel.is_none() && has_call
}

/// The bot leaves the voice channel of its call if nobody but itself is left
/// in it. `members` counts the members of a voice channel, the bot included
/// (so at least one); for another kind of channel it is not read.
pub fn leave_when_alone(kind: ChannelKind, members: u64) -> (leave: bool)
    requires
        kind == ChannelKind::Voice ==> members >= 1,
    ensures
        leave == (kind == ChannelKind::Voice && members == 1),
{
    match kind {
        ChannelKind::Voice => members - 1 == 0,
        ChannelKind::Other => false,
    }
}

} // verus!
