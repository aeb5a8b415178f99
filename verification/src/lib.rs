//! The logic of a Discord bot: the replies it builds, the decisions its
//! commands take, and the text transformations it applies, each with a
//! contract that Verus checks. Everything that talks to Discord, to a voice
//! connection or to another process lives outside this crate.

pub mod text;
pub mod reply;
pub mod then;
pub mod uwu;
pub mod music;
pub mod markup;
pub mod code;
pub mod random;
pub mod subject;
pub mod vc;
pub mod bot;
