//! The `/vc` commands: move everyone from one voice channel to another, or
//! disconnect everyone from one.

use vstd::prelude::*;
use crate::text::decimal;
use crate::text::nat_string;
use crate::text::push_str;

verus! {

/// The kind of a guild channel, as far as these commands care.
#[derive(Clone, Copy, Debug, PartialEq, Eq)]
pub enum ChannelKind {
    Voice,
    Other,
}

/// A guild channel: its id and kind.
#[derive(Clone, Copy, Debug, PartialEq, Eq)]
pub struct GuildChannelRef {
    pub id: u64,
    pub kind: ChannelKind,
}

/// What a `/vc` command does.
#[derive(Debug, PartialEq, Eq)]
pub enum VcPlan {
    /// Answer with this text and touch nobody.
    Refuse(String),
    /// Act on the members of the channel.
    Proceed,
}

/// `/vc vcmove`: both channels must be voice channels, and different ones.
pub fn vcmove(old_vc: GuildChannelRef, new_vc: GuildChannelRef) -> (p: VcPlan)
    ensures
        old_vc.kind != ChannelKind::Voice ==> (p matches VcPlan::Refuse(m) && m@ == "Invalid Old Voice Channel"@),
        old_vc.kind == ChannelKind::Voice && new_vc.kind != ChannelKind::Voice
            ==> (p matches VcPlan::Refuse(m) && m@ == "Invalid New Voice Channel"@),
        old_vc.kind == ChannelKind::Voice && new_vc.kind == ChannelKind::Voice && old_vc.id == new_vc.id
            ==> (p matches VcPlan::Refuse(m) && m@ == "Old == New, Cannot move"@),
        p is Proceed <==> (old_vc.kind == ChannelKind::Voice && new_vc.kind == ChannelKind::Voice
            && old_vc.id != new_vc.id),
{
    if !matches!(old_vc.kind, ChannelKind::Voice) {
        return VcPlan::Refuse("Invalid Old Voice Channel".to_owned());
    }
    if !matches!(new_vc.kind, ChannelKind::Voice) {
        return VcPlan::Refuse("Invalid New Voice Channel".to_owned());
    }
    if old_vc.id == new_vc.id {
        return VcPlan::Refuse("Old == New, Cannot move".to_owned());
    }
    VcPlan::Proceed
}

/// The answer of `/vc vcmove` once `count` members were moved.
pub fn moved_reply(count: u64) -> (r: String)
    ensures
        r@ == "Moved "@ + decimal(count as int) + " users"@,
{
    let mut r = "Moved ".to_owned();
    push_str(&mut r, nat_string(count).as_str());
    push_str(&mut r, " users");
    r
}

/// `/vc vcdisconnect`: the channel must be a voice channel.
pub fn vcdisconnect(vc: GuildChannelRef) -> (p: VcPlan)
    ensures
        vc.kind != ChannelKind::Voice ==> (p matches VcPlan::Refuse(m) && m@ == "Invalid Channel"@),
        vc.kind == ChannelKind::Voice ==> p is Proceed,
{
    if !matches!(vc.kind, ChannelKind::Voice) {
        return VcPlan::Refuse("Invalid Channel".to_owned());
    }
    VcPlan::Proceed
}

/// The answer of `/vc vcdisconnect` once `count` members were disconnected.
pub fn disconnected_reply(count: u64) -> (r: String)
    ensures
        r@ == "Disconnected "@ + decimal(count as int) + " users"@,
{
    let mut r = "Disconnected ".to_owned();
    push_str(&mut r, nat_string(count).as_str());
    push_str(&mut r, " users");
    r
}

/// The parent `/vc` command, which asks for a subcommand.
pub fn vc() -> (r: String)
    ensures
        r@ == "please select sub command"@,
{
    "please select sub command".to_owned()
}

} // verus!
