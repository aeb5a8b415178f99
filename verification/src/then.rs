//! The Thai/English keyboard-layout conversion replies: the converted text is
//! shown with Discord's markdown characters escaped so that it reads literally.

use vstd::prelude::*;
use crate::text::push_char;
use crate::text::push_str;
use crate::reply::EmbedReply;
use vstd::std_specs::iter::IteratorSpec;

verus! {

/// The characters that a converted text may not show bare: `@`, `` ` ``, `_`, `*`, `#`.
pub open spec fn is_markdown_special(c: char) -> bool {
    c == '@' || c == '`' || c == '_' || c == '*' || c == '#'
}

/// What one character of the input becomes: a special character gets a
/// backslash in front of it, any other character stays as it is.
pub open spec fn escape_char(c: char) -> Seq<char> {
    if is_markdown_special(c) { seq!['\\', c] } else { seq![c] }
}

/// The whole text with every markdown special character escaped.
pub open spec fn escape_markdown_spec(s: Seq<char>) -> Seq<char>
    decreases s.len(),
{
    if s.len() == 0 {
        seq![]
    } else {
        escape_char(s[0]) + escape_markdown_spec(s.drop_first())
    }
}

/// Reading an escaped text back: a backslash followed by a special character
/// stands for that character; every other character stands for itself.
pub open spec fn unescape_markdown_spec(s: Seq<char>) -> Seq<char>
    decreases s.len(),
{
    if s.len() == 0 {
        seq![]
    } else if s.len() >= 2 && s[0] == '\\' && is_markdown_special(s[1]) {
        seq![s[1]] + unescape_markdown_spec(s.skip(2))
    } else {
        seq![s[0]] + unescape_markdown_spec(s.drop_first())
    }
}

proof fn lemma_escape_concat(a: Seq<char>, b: Seq<char>)
    ensures
        escape_markdown_spec(a + b) == escape_markdown_spec(a) + escape_markdown_spec(b),
    decreases a.len(),
{
    if a.len() == 0 {
        assert(a + b =~= b);
        assert(escape_markdown_spec(a) =~= seq![]);
        assert(escape_markdown_spec(a) + escape_markdown_spec(b) =~= escape_markdown_spec(b));
    } else {
        assert((a + b).drop_first() =~= a.drop_first() + b);
        lemma_escape_concat(a.drop_first(), b);
        assert(escape_markdown_spec(a + b) =~= escape_char(a[0]) + escape_markdown_spec(a.drop_first() + b));
    }
}

proof fn lemma_escape_push(a: Seq<char>, c: char)
    ensures
        escape_markdown_spec(a.push(c)) == escape_markdown_spec(a) + escape_char(c),
{
    lemma_escape_concat(a, seq![c]);
    assert(a.push(c) =~= a + seq![c]);
    assert(seq![c].drop_first() =~= Seq::<char>::empty());
    assert(escape_markdown_spec(seq![c]) =~= escape_char(c) + escape_markdown_spec(Seq::<char>::empty()));
    assert(escape_markdown_spec(seq![c]) =~= escape_char(c));
}

/// Escaping loses nothing: reading the escaped text back, each backslash that
/// stands before a special character dropped, gives the text that was escaped.
pub proof fn escape_markdown_reversible(s: Seq<char>)
    ensures
        unescape_markdown_spec(escape_markdown_spec(s)) == s,
    decreases s.len(),
{
    if s.len() == 0 {
        assert(escape_markdown_spec(s) =~= seq![]);
    } else {
        let rest = s.drop_first();
        let e = escape_markdown_spec(s);
        let er = escape_markdown_spec(rest);
        escape_markdown_reversible(rest);
        assert(e =~= escape_char(s[0]) + er);
        if is_markdown_special(s[0]) {
            assert(e[0] == '\\');
            assert(e[1] == s[0]);
            assert(e.skip(2) =~= er);
            assert(unescape_markdown_spec(e) =~= seq![s[0]] + rest);
        } else {
            assert(e.drop_first() =~= er);
            if s[0] == '\\' && e.len() >= 2 {
                // The character after a bare backslash starts the next block,
                // which is never a special character.
                assert(er.len() > 0);
                let n = rest[0];
                assert(er =~= escape_char(n) + escape_markdown_spec(rest.drop_first()));
                assert(e[1] == er[0]);
                assert(!is_markdown_special(er[0]));
            }
            assert(unescape_markdown_spec(e) =~= seq![s[0]] + rest);
        }
        assert(seq![s[0]] + rest =~= s);
    }
}

/// How many of the characters `@`, `` ` ``, `_`, `*`, `#` a text holds.
pub open spec fn count_at_backtick_underscore_star_hash(s: Seq<char>) -> nat
    decreases s.len(),
{
    if s.len() == 0 {
        0
    } else {
        let c = s[0];
        (if c == '@' || c == '`' || c == '_' || c == '*' || c == '#' { 1nat } else { 0nat })
            + count_at_backtick_underscore_star_hash(s.drop_first())
    }
}

/// A text that holds none of `@`, `` ` ``, `_`, `*`, `#` is shown exactly as
/// it is: no other character is escaped.
pub proof fn escape_keeps_plain_text(s: Seq<char>)
    requires
        forall|i: int| 0 <= i < s.len() ==> {
            let c = #[trigger] s[i];
            c != '@' && c != '`' && c != '_' && c != '*' && c != '#'
        },
    ensures
        escape_markdown_spec(s) == s,
    decreases s.len(),
{
    if s.len() > 0 {
        let rest = s.drop_first();
        assert forall|i: int| 0 <= i < rest.len() implies {
            let c = #[trigger] rest[i];
            c != '@' && c != '`' && c != '_' && c != '*' && c != '#'
        } by {
            assert(rest[i] == s[i + 1]);
        }
        escape_keeps_plain_text(rest);
        let c = s[0];
        assert(c != '@' && c != '`' && c != '_' && c != '*' && c != '#');
        assert(escape_markdown_spec(s) =~= seq![c] + rest);
        assert(seq![c] + rest =~= s);
    }
}

/// Escaping adds exactly one backslash for each `@`, `` ` ``, `_`, `*` and
/// `#` of the text, and nothing else.
pub proof fn escape_adds_one_backslash_per_special(s: Seq<char>)
    ensures
        escape_markdown_spec(s).len() == s.len() + count_at_backtick_underscore_star_hash(s),
    decreases s.len(),
{
    if s.len() > 0 {
        escape_adds_one_backslash_per_special(s.drop_first());
    }
}

/// Escapes the markdown special characters of `text` by putting a backslash
/// in front of each; all other characters are kept in order.
pub fn escape_markdown(text: &str) -> (out: String)
    ensures
        out@ == escape_markdown_spec(text@),
{
    let mut out = String::new();
    let ghost mut done: Seq<char> = Seq::empty();
    let mut chars = text.chars();
    proof {
        assert(chars.remaining() == text@);
        assert(escape_markdown_spec(done) =~= seq![]);
        assert(done + chars.remaining() =~= text@);
    }
    loop
        invariant
            out@ == escape_markdown_spec(done),
            done + chars.remaining() == text@,
            chars.obeys_prophetic_iter_laws(),
        ensures
            out@ == escape_markdown_spec(text@),
        decreases text@.len() - done.len(),
    {
        let ghost before = chars.remaining();
        let next = chars.next();
        match next {
            Some(c) => {
                proof {
                    lemma_escape_push(done, c);
                    assert(done.push(c) + chars.remaining() =~= done + before);
                }
                if c == '@' || c == '`' || c == '_' || c == '*' || c == '#' {
                    push_char(&mut out, '\\');
                }
                push_char(&mut out, c);
                proof {
                    done = done.push(c);
                }
            },
            None => {
                assert(done =~= text@);
                break;
            },
        }
    }
    out
}

} // verus!

verus! {

/// Which way the keyboard-layout conversion went.
#[derive(Clone, Copy, Debug, PartialEq, Eq)]
pub enum ConvertDirection {
    ThToEn,
    EnToTh,
}

/// The description line of a conversion reply: `type: "TH to EN"` or
/// `type: "EN to TH"` (the label is shown with its quotes, as `{:?}` of a
/// string slice writes it).
pub open spec fn then_description_spec(direction: ConvertDirection) -> Seq<char> {
    match direction {
        ConvertDirection::ThToEn => "type: \"TH to EN\""@,
        ConvertDirection::EnToTh => "type: \"EN to TH\""@,
    }
}

/// The description line of a conversion reply.
pub fn then_description(direction: ConvertDirection) -> (d: String)
    ensures
        d@ == then_description_spec(direction),
{
    match direction {
        ConvertDirection::ThToEn => "type: \"TH to EN\"".to_owned(),
        ConvertDirection::EnToTh => "type: \"EN to TH\"".to_owned(),
    }
}

/// The reply to a conversion: the field is named by the text that was given,
/// its value is the converted text with markdown escaped.
pub fn convert_reply(direction: ConvertDirection, source: &str, converted: &str) -> (r: EmbedReply)
    ensures
        r.name@ == source@,
        r.value@ == escape_markdown_spec(converted@),
        r.description@ == then_description_spec(direction),
{
    EmbedReply {
        name: source.to_owned(),
        value: escape_markdown(converted),
        description: then_description(direction),
    }
}

/// Reply of the `/then` command (Thai layout typed as English): `converted`
/// is what the Thai-to-English conversion gave for `source`.
pub fn then_text(source: &str, converted: &str) -> (r: EmbedReply)
    ensures
        r.name@ == source@,
        r.value@ == escape_markdown_spec(converted@),
        r.description@ == then_description_spec(ConvertDirection::ThToEn),
{
    convert_reply(ConvertDirection::ThToEn, source, converted)
}

/// Reply of the `/enth` command (English layout typed as Thai).
pub fn enth_text(source: &str, converted: &str) -> (r: EmbedReply)
    ensures
        r.name@ == source@,
        r.value@ == escape_markdown_spec(converted@),
        r.description@ == then_description_spec(ConvertDirection::EnToTh),
{
    convert_reply(ConvertDirection::EnToTh, source, converted)
}

/// Reply of the "TH to EN" message menu command, for a message's content.
pub fn then_msg(content: &str, converted: &str) -> (r: EmbedReply)
    ensures
        r.name@ == content@,
        r.value@ == escape_markdown_spec(converted@),
        r.description@ == then_description_spec(ConvertDirection::ThToEn),
{
    convert_reply(ConvertDirection::ThToEn, content, converted)
}

/// Reply of the "EN to TH" message menu command, for a message's content.
pub fn enth_msg(content: &str, converted: &str) -> (r: EmbedReply)
    ensures
        r.name@ == content@,
        r.value@ == escape_markdown_spec(converted@),
        r.description@ == then_description_spec(ConvertDirection::EnToTh),
{
    convert_reply(ConvertDirection::EnToTh, content, converted)
}

} // verus!
