//! Discord message markup from serenity's `MessageBuilder`, as re-exported by
//! poise: code blocks and normalized ("safe") text.

use vstd::prelude::*;
use poise::serenity_prelude::MessageBuilder;
use crate::text::occurs_at;
use crate::text::seq_contains;

verus! {

/// Every non-overlapping occurrence of `from` in `s` replaced by `to`,
/// scanning from the left (`str::replace`); `from` is never empty here.
pub open spec fn replace_all(s: Seq<char>, from: Seq<char>, to: Seq<char>) -> Seq<char>
    decreases s.len(),
{
    if from.len() == 0 || s.len() < from.len() {
        s
    } else if s.subrange(0, from.len() as int) == from {
        to + replace_all(s.skip(from.len() as int), from, to)
    } else {
        seq![s[0]] + replace_all(s.drop_first(), from, to)
    }
}

/// The direction-override and zero-width characters that normalization
/// turns into spaces.
pub open spec fn is_invisible_mark(c: char) -> bool {
    c == '\u{202E}' || c == '\u{200F}' || c == '\u{202B}' || c == '\u{200B}'
        || c == '\u{200D}' || c == '\u{200C}'
}

/// Serenity's message normalization (`normalize` in its message builder):
/// invite links and some listing sites get a one-dot leader in place of
/// their dot, the invisible marks become spaces, and `@everyone` and `@here`
/// get a zero-width space after the `@`.
pub open spec fn normalize(text: Seq<char>) -> Seq<char> {
    let t = replace_all(text, "discord.gg"@, "discord\u{2024}gg"@);
    let t = replace_all(t, "discord.me"@, "discord\u{2024}me"@);
    let t = replace_all(t, "discordlist.net"@, "discordlist\u{2024}net"@);
    let t = replace_all(t, "discordservers.com"@, "discordservers\u{2024}com"@);
    let t = replace_all(t, "discord.com/invite"@, "discord\u{2024}com/invite"@);
    let t = replace_all(t, "discordapp.com/invite"@, "discordapp\u{2024}com/invite"@);
    let t = t.map_values(|c: char| if is_invisible_mark(c) { ' ' } else { c });
    let t = replace_all(t, "@everyone"@, "@\u{200B}everyone"@);
    replace_all(t, "@here"@, "@\u{200B}here"@)
}

/// What `MessageBuilder::push_codeblock_safe` puts between the opening and
/// the closing line of the block: the normalized content with every triple
/// backtick replaced by a space.
pub open spec fn codeblock_body(content: Seq<char>) -> Seq<char> {
    replace_all(normalize(content), backtick_fence(), seq![' '])
}

/// Three backticks.
pub open spec fn backtick_fence() -> Seq<char> {
    seq!['`', '`', '`']
}

proof fn lemma_fence_replaced_head(u: Seq<char>)
    ensures
        replace_all(u, backtick_fence(), seq![' ']).len() == 0 <==> u.len() == 0,
        u.len() > 0 ==> replace_all(u, backtick_fence(), seq![' '])[0] == (
            if u.len() >= 3 && u.subrange(0, 3) == backtick_fence() { ' ' } else { u[0] }),
        u.len() < 3 ==> replace_all(u, backtick_fence(), seq![' ']) == u,
{
    let f = backtick_fence();
    let r = replace_all(u, f, seq![' ']);
    if u.len() < 3 {
    } else if u.subrange(0, 3) == f {
        assert(r == seq![' '] + replace_all(u.skip(3), f, seq![' ']));
    } else {
        assert(r == seq![u[0]] + replace_all(u.drop_first(), f, seq![' ']));
    }
}

/// A code block's body never holds three backticks in a row, so the content
/// cannot close the block early.
pub proof fn codeblock_body_holds_no_fence(content: Seq<char>)
    ensures
        !seq_contains(codeblock_body(content), backtick_fence()),
{
    replaced_fences_are_gone(normalize(content));
}

/// After every triple backtick is replaced by a space, none is left.
pub proof fn replaced_fences_are_gone(s: Seq<char>)
    ensures
        !seq_contains(replace_all(s, backtick_fence(), seq![' ']), backtick_fence()),
    decreases s.len(),
{
    let f = backtick_fence();
    let r = replace_all(s, f, seq![' ']);
    if s.len() < 3 {
        assert forall|j: int| !occurs_at(r, f, j) by {}
    } else if s.subrange(0, 3) == f {
        let rest = replace_all(s.skip(3), f, seq![' ']);
        replaced_fences_are_gone(s.skip(3));
        assert(r == seq![' '] + rest);
        assert forall|j: int| !occurs_at(r, f, j) by {
            if occurs_at(r, f, j) {
                if j == 0 {
                    assert(r.subrange(0, 3)[0] == r[0]);
                } else {
                    assert(r.subrange(j, j + 3) =~= rest.subrange(j - 1, j + 2));
                    assert(occurs_at(rest, f, j - 1));
                }
            }
        }
    } else {
        let t = s.drop_first();
        let rest = replace_all(t, f, seq![' ']);
        replaced_fences_are_gone(t);
        assert(r == seq![s[0]] + rest);
        lemma_fence_replaced_head(t);
        assert forall|j: int| !occurs_at(r, f, j) by {
            if occurs_at(r, f, j) {
                if j == 0 {
                    assert(r.subrange(0, 3)[0] == r[0]);
                    assert(r.subrange(0, 3)[1] == r[1]);
                    assert(r.subrange(0, 3)[2] == r[2]);
                    assert(s[0] == '`');
                    assert(rest[0] == '`');
                    assert(rest[1] == '`');
                    assert(t[0] == '`');
                    if t.len() < 3 {
                        assert(t[1] == '`');
                    } else {
                        let u = t.drop_first();
                        lemma_fence_replaced_head(u);
                        assert(rest == seq![t[0]] + replace_all(u, f, seq![' ']));
                        assert(t[1] == u[0]);
                        assert(t[1] == '`');
                    }
                    assert(s.subrange(0, 3) =~= f);
                } else {
                    assert(r.subrange(j, j + 3) =~= rest.subrange(j - 1, j + 2));
                    assert(occurs_at(rest, f, j - 1));
                }
            }
        }
    }
}

/// What `MessageBuilder::push_safe` appends: the normalized content with
/// `*`, `` ` `` and `_` escaped by a backslash, in that order.
pub open spec fn safe_text(content: Seq<char>) -> Seq<char> {
    let t = replace_all(normalize(content), "*"@, "\\*"@);
    let t = replace_all(t, "`"@, "\\`"@);
    replace_all(t, "_"@, "\\_"@)
}

/// The language tag of a code block, empty when there is none.
pub open spec fn language_tag(language: Option<&str>) -> Seq<char> {
    match language {
        Some(l) => l@,
        None => Seq::empty(),
    }
}

/// A code block as `MessageBuilder::new().push_codeblock_safe(content,
/// language).build()` writes it: three backticks and the language tag, a
/// newline, the body (`codeblock_body`), a newline and three backticks.
#[verifier::external_body]
pub(crate) fn codeblock_safe(content: &str, language: Option<&str>) -> (r: String)
    ensures
        r@ == "```"@ + language_tag(language) + "\n"@ + codeblock_body(content@) + "\n```"@,
{
    MessageBuilder::new().push_codeblock_safe(content, language).build()
}

/// Normalized text as `MessageBuilder::new().push_safe(content).build()`
/// writes it (`safe_text`).
#[verifier::external_body]
pub(crate) fn push_safe(content: &str) -> (r: String)
    ensures
        r@ == safe_text(content@),
{
    MessageBuilder::new().push_safe(content).build()
}

} // verus!
