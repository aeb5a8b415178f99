//! `/subject`: the timetable of a room, with the current subject and when it
//! ends. The timetable itself comes from outside; this builds the answer.

use vstd::prelude::*;
use crate::text::decimal;
use crate::text::int_string;
use crate::text::push_str;
use crate::markup::codeblock_body;
use crate::markup::codeblock_safe;
use crate::markup::safe_text;
use crate::markup::push_safe;

verus! {

/// The room asked for, `312` by default.
pub fn subject_room(room: Option<u16>) -> (r: u16)
    ensures
        r == (match room { Some(x) => x, None => 312u16 }),
{
    match room {
        Some(x) => x,
        None => 312,
    }
}

/// A room's timetable: drawn as text, and the subject now taught, if any.
pub struct Timetable {
    pub ascii: String,
    pub current_subject: Option<String>,
}

/// The answer for a timetable: the weekday and the local time as a Discord
/// timestamp (normalized text), the timetable in a markdown code block, then
/// when the current subject ends.
pub open spec fn subject_reply_spec(
    weekday: Seq<char>,
    local_ts: int,
    ascii: Seq<char>,
    current: Option<Seq<char>>,
    utc_ts: int,
) -> Seq<char> {
    safe_text(weekday + " at <t:"@ + decimal(local_ts) + ":T>\n"@)
        + "```markdown\n"@ + codeblock_body(ascii) + "\n```"@
        + match current {
            Some(name) => name + " ends in: <t:"@ + decimal(utc_ts) + ":R>"@,
            None => Seq::empty(),
        }
}

/// The view of an optional subject name.
pub open spec fn name_view(current: Option<String>) -> Option<Seq<char>> {
    match current {
        Some(n) => Some(n@),
        None => None,
    }
}

/// `/subject`: the answer for what the timetable lookup gave, `weekday` and
/// `local_ts` being the local day and time, `utc_ts` the time in UTC. A
/// failed lookup is answered with `Err : ` and its message.
pub fn subject(lookup: Result<Timetable, String>, weekday: &str, local_ts: i64, utc_ts: i64) -> (r: String)
    ensures
        match lookup {
            Ok(t) => r@ == subject_reply_spec(weekday@, local_ts as int, t.ascii@, name_view(t.current_subject), utc_ts as int),
            Err(why) => r@ == "Err : "@ + why@,
        },
{
    match lookup {
        Ok(t) => {
            let mut head = weekday.to_owned();
            push_str(&mut head, " at <t:");
            push_str(&mut head, int_string(local_ts).as_str());
            push_str(&mut head, ":T>\n");
            let mut r = push_safe(head.as_str());
            let block = codeblock_safe(t.ascii.as_str(), Some("markdown"));
            push_str(&mut r, block.as_str());
            match &t.current_subject {
                Some(name) => {
                    push_str(&mut r, name.as_str());
                    push_str(&mut r, " ends in: <t:");
                    push_str(&mut r, int_string(utc_ts).as_str());
                    push_str(&mut r, ":R>");
                },
                None => {},
            }
            proof {
                reveal_strlit("markdown");
                reveal_strlit("```");
                reveal_strlit("\n");
                reveal_strlit("```markdown\n");
            }
            assert(r@ =~= subject_reply_spec(weekday@, local_ts as int, t.ascii@, name_view(t.current_subject), utc_ts as int));
            r
        },
        Err(why) => {
            let mut r = "Err : ".to_owned();
            push_str(&mut r, why.as_str());
            r
        },
    }
}

} // verus!
