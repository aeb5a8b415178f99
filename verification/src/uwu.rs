//! The UwU commands: a text is run through `owoify_rs` at one of three
//! levels, and shown beside the text it was given, with the level named.

use vstd::prelude::*;
use owoify_rs::Owoifiable;
use owoify_rs::OwoifyLevel;
use crate::reply::EmbedReply;

verus! {

/// The owoness level, from lowest to highest.
#[derive(Clone, Copy, Debug, PartialEq, Eq)]
pub enum UwuLevel {
    Owo,
    Uwu,
    Uvu,
}

/// The number of an owoness level, in `owoify_rs`'s order.
pub open spec fn level_code(level: UwuLevel) -> u8 {
    match level {
        UwuLevel::Owo => 0,
        UwuLevel::Uwu => 1,
        UwuLevel::Uvu => 2,
    }
}

/// `out` is one of the texts that `owoify_rs`'s `Owoifiable::owoify` can
/// give for `text` at the level numbered `level`. That function picks some
/// replacements at random (through `rand::thread_rng`), so this is a
/// relation between the input and a possible output, not a function.
pub uninterp spec fn owoified(text: Seq<char>, level: u8, out: Seq<char>) -> bool;

/// Runs `text` through `owoify_rs`'s `Owoifiable::owoify` for `&str` at the
/// given level. What comes out is stated only as one of the possible outputs
/// for that text and level (the named relation `owoified`).
#[verifier::external_body]
fn owoify_text(text: &str, level: UwuLevel) -> (r: String)
    ensures
        owoified(text@, level_code(level), r@),
{
    let level = match level {
        UwuLevel::Owo => OwoifyLevel::Owo,
        UwuLevel::Uwu => OwoifyLevel::Uwu,
        UwuLevel::Uvu => OwoifyLevel::Uvu,
    };
    text.owoify(level)
}

/// The description line of an UwU reply: `type: ` and the level's name.
pub open spec fn level_description_spec(level: UwuLevel) -> Seq<char> {
    match level {
        UwuLevel::Owo => "type: Owo"@,
        UwuLevel::Uwu => "type: Uwu"@,
        UwuLevel::Uvu => "type: Uvu"@,
    }
}

/// The description line of an UwU reply.
pub fn level_description(level: UwuLevel) -> (d: String)
    ensures
        d@ == level_description_spec(level),
{
    match level {
        UwuLevel::Owo => "type: Owo".to_owned(),
        UwuLevel::Uwu => "type: Uwu".to_owned(),
        UwuLevel::Uvu => "type: Uvu".to_owned(),
    }
}

/// The reply for `text` once it has been owoified into `owoified`.
pub fn uwu_embed(text: &str, owoified: String, level: UwuLevel) -> (r: EmbedReply)
    ensures
        r.name@ == text@,
        r.value@ == owoified@,
        r.description@ == level_description_spec(level),
{
    EmbedReply { name: text.to_owned(), value: owoified, description: level_description(level) }
}

/// Owoifies `text` at `level` and builds the reply. The owoified text is one
/// of the possible outputs for that text and level; the rest of the reply is
/// fixed by the input.
pub fn uwoh(text: &str, level: UwuLevel) -> (r: EmbedReply)
    ensures
        r.name@ == text@,
        owoified(text@, level_code(level), r.value@),
        r.description@ == level_description_spec(level),
{
    let owoified = owoify_text(text, level);
    uwu_embed(text, owoified, level)
}

/// The parent `/uwuify` command, which only answers `hehe`.
pub fn uwuify() -> (r: String)
    ensures
        r@ == "hehe"@,
{
    "hehe".to_owned()
}

/// `/uwuify uwu`: the minimum level of uwuness (`owoify_rs`'s `Owo`).
pub fn uwu(text: &str) -> (r: EmbedReply)
    ensures
        r.name@ == text@,
        owoified(text@, level_code(UwuLevel::Owo), r.value@),
        r.description@ == level_description_spec(UwuLevel::Owo),
{
    uwoh(text, UwuLevel::Owo)
}

/// `/uwuify owo`: the medium level of uwuness (`owoify_rs`'s `Uwu`).
pub fn owo(text: &str) -> (r: EmbedReply)
    ensures
        r.name@ == text@,
        owoified(text@, level_code(UwuLevel::Uwu), r.value@),
        r.description@ == level_description_spec(UwuLevel::Uwu),
{
    uwoh(text, UwuLevel::Uwu)
}

/// `/uwuify uvu`: the maximum level of uwuness (`owoify_rs`'s `Uvu`).
pub fn uvu(text: &str) -> (r: EmbedReply)
    ensures
        r.name@ == text@,
        owoified(text@, level_code(UwuLevel::Uvu), r.value@),
        r.description@ == level_description_spec(UwuLevel::Uvu),
{
    uwoh(text, UwuLevel::Uvu)
}

} // verus!
