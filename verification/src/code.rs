//! The "Check python code" message command: the code between the first
//! fenced block's opening line and the next fence is handed to a formatter
//! and a linter, and their outputs are shown in code blocks.

use vstd::prelude::*;
use crate::text::occurs_at;
use crate::text::seq_contains;
use crate::text::is_first_occurrence;
use crate::text::first_occurrence;
use crate::text::find_from;
use crate::text::lemma_first_unique;
use vstd::utf8::encode_utf8;
use vstd::string::StringSliceAdditionalSpecFns;
use crate::markup::codeblock_body;
use crate::markup::codeblock_safe;

verus! {

/// The bytes of a code fence.
pub open spec fn fence() -> Seq<u8> {
    seq![96u8, 96u8, 96u8]
}

/// Why no code could be taken from a message.
#[derive(Clone, Copy, Debug, PartialEq, Eq)]
pub enum CodeBlockError {
    /// The message holds no code fence.
    NoOpeningFence,
    /// No line ends after the first fence.
    NoNewline,
    /// No fence follows the start position.
    NoClosingFence,
}

/// The code taken from a message's bytes: the first fence is found, then
/// the end of its opening line; the code runs from that line end up to the
/// next fence.
pub open spec fn check_code_spec(b: Seq<u8>) -> Result<Seq<u8>, CodeBlockError> {
    match first_occurrence(b, fence()) {
        None => Err(CodeBlockError::NoOpeningFence),
        Some(fc) => match first_occurrence(b.skip(fc), seq![10u8]) {
            None => Err(CodeBlockError::NoNewline),
            Some(fl) => match first_occurrence(b.skip(fc + fl), fence()) {
                None => Err(CodeBlockError::NoClosingFence),
                Some(sc) => Ok(b.subrange(fc + fl, fc + fl + sc)),
            },
        },
    }
}

/// The code of a message, or why there is none: see `check_code_spec`.
fn extract_code(content: &str) -> (r: Result<String, CodeBlockError>)
    ensures
        match check_code_spec(content.spec_bytes()) {
            Ok(bytes) => r matches Ok(code) && encode_utf8(code@) == bytes,
            Err(e) => r == Err::<String, CodeBlockError>(e),
        },
{
    let b = content.as_bytes();
    let fence_bytes: Vec<u8> = vec![96u8, 96u8, 96u8];
    let nl: Vec<u8> = vec![10u8];
    proof {
        assert(fence_bytes@ =~= fence());
        assert(nl@ =~= seq![10u8]);
        assert(b@.skip(0) =~= b@);
    }
    let fc = match find_from(b, 0, fence_bytes.as_slice()) {
        Some(fc) => fc,
        None => return Err(CodeBlockError::NoOpeningFence),
    };
    proof {
        let w = choose|i: int| is_first_occurrence(b@, fence(), i);
        assert(is_first_occurrence(b@, fence(), w));
        assert(fc + 3 <= b@.len());
    }
    let fl = match find_from(b, fc, nl.as_slice()) {
        Some(fl) => fl,
        None => return Err(CodeBlockError::NoNewline),
    };
    proof {
        let t = b@.skip(fc as int);
        let w = choose|i: int| is_first_occurrence(t, seq![10u8], i);
        assert(is_first_occurrence(t, seq![10u8], w));
        assert(w == fl);
        assert(fl + 1 <= t.len());
    }
    let n = b.len();
    assert(fc + fl < n);
    let start = fc + fl;
    proof {
        let t = b@.skip(fc as int);
        assert(t.subrange(fl as int, fl + 1) == seq![10u8]);
        assert(b@[start as int] == t[fl as int]);
        assert(b@[start as int] == 10u8);
        vstd::utf8::encode_utf8_valid_utf8(content@);
        vstd::utf8::is_char_boundary_iff_not_is_continuation_byte(b@, start as int);
    }
    let (_, rest) = content.split_at(start);
    let rb = rest.as_bytes();
    proof {
        assert(rb@ =~= b@.skip(start as int));
        assert(rb@.skip(0) =~= rb@);
    }
    let sc = match find_from(rb, 0, fence_bytes.as_slice()) {
        Some(sc) => sc,
        None => return Err(CodeBlockError::NoClosingFence),
    };
    proof {
        let w = choose|i: int| is_first_occurrence(rb@, fence(), i);
        assert(is_first_occurrence(rb@, fence(), w));
        assert(sc < rb@.len());
        assert(rb@.subrange(sc as int, sc + 3) == fence());
        assert(rb@[sc as int] == rb@.subrange(sc as int, sc + 3)[0]);
        vstd::utf8::encode_utf8_valid_utf8(rest@);
        vstd::utf8::is_char_boundary_iff_not_is_continuation_byte(rb@, sc as int);
    }
    let (code, _) = rest.split_at(sc);
    proof {
        assert(code.spec_bytes() =~= b@.subrange(start as int, start + sc));
    }
    Ok(code.to_owned())
}

/// Why no code can be taken from a message (`None` where it can). A message
/// that gives an error here cannot be checked.
pub fn code_block_error(content: &str) -> (r: Option<CodeBlockError>)
    ensures
        r == (match check_code_spec(content.spec_bytes()) {
            Ok(_) => None,
            Err(e) => Some(e),
        }),
{
    match extract_code(content) {
        Ok(_) => None,
        Err(e) => Some(e),
    }
}

/// The code of a message that holds a fenced block: from the end of the
/// first fence's opening line up to the next fence. Its UTF-8 bytes are the
/// ones `check_code_spec` selects. The message must hold such a block.
pub fn check_code(content: &str) -> (code: String)
    requires
        check_code_spec(content.spec_bytes()) is Ok,
    ensures
        check_code_spec(content.spec_bytes()) == Ok::<Seq<u8>, CodeBlockError>(encode_utf8(code@)),
{
    match extract_code(content) {
        Ok(code) => code,
        Err(_) => {
            assert(false);
            String::new()
        },
    }
}

/// The code handed to the formatter never holds a fence: it stops at the
/// first fence after its start.
pub proof fn check_code_holds_no_fence(b: Seq<u8>)
    ensures
        check_code_spec(b) matches Ok(code) ==> !seq_contains(code, fence()),
{
    if let Some(fc) = first_occurrence(b, fence()) {
        if let Some(fl) = first_occurrence(b.skip(fc), seq![10u8]) {
            if let Some(sc) = first_occurrence(b.skip(fc + fl), fence()) {
                let t = b.skip(fc + fl);
                let code = b.subrange(fc + fl, fc + fl + sc);
                let w = choose|i: int| is_first_occurrence(t, fence(), i);
                assert(is_first_occurrence(t, fence(), w));
                assert(w == sc);
                assert forall|j: int| !occurs_at(code, fence(), j) by {
                    if occurs_at(code, fence(), j) {
                        assert(code.subrange(j, j + 3) =~= t.subrange(j, j + 3));
                        assert(occurs_at(t, fence(), j));
                    }
                }
            }
        }
    }
}

proof fn lemma_fence_first_at_start(rest: Seq<u8>)
    ensures
        first_occurrence(seq![96u8, 96u8, 96u8] + rest, fence()) == Some(0int),
{
    let b = seq![96u8, 96u8, 96u8] + rest;
    assert(b.subrange(0, 3) =~= fence());
    assert(is_first_occurrence(b, fence(), 0int));
    lemma_first_unique(b, fence(), 0int);
}

proof fn lemma_line_end_after_tag(tag: Seq<u8>, rest: Seq<u8>)
    requires
        !seq_contains(tag, seq![10u8]),
    ensures
        first_occurrence(seq![96u8, 96u8, 96u8] + tag + seq![10u8] + rest, seq![10u8]) == Some(3 + tag.len() as int),
{
    let nl = seq![10u8];
    let b = seq![96u8, 96u8, 96u8] + tag + nl + rest;
    let fl: int = 3 + tag.len() as int;
    assert(b.subrange(fl, fl + 1) =~= nl);
    assert forall|j: int| 0 <= j < fl implies !occurs_at(b, nl, j) by {
        assert(b.subrange(j, j + 1)[0] == b[j]);
        if j >= 3 {
            assert(b[j] == tag[j - 3]);
            assert(!occurs_at(tag, nl, j - 3));
            assert(tag.subrange(j - 3, j - 2)[0] == tag[j - 3]);
            if tag[j - 3] == 10u8 {
                assert(tag.subrange(j - 3, j - 2) =~= nl);
            }
        }
    }
    assert(is_first_occurrence(b, nl, fl));
    lemma_first_unique(b, nl, fl);
}

proof fn lemma_closing_fence_after_body(body: Seq<u8>, rest: Seq<u8>)
    requires
        !seq_contains(body, seq![96u8, 96u8, 96u8]),
        body.len() == 0 || body.last() != 96u8,
    ensures
        first_occurrence(seq![10u8] + body + seq![96u8, 96u8, 96u8] + rest, fence()) == Some(body.len() as int + 1),
{
    let f = seq![96u8, 96u8, 96u8];
    let t = seq![10u8] + body + f + rest;
    let n = body.len() as int;
    let sc = n + 1;
    assert(f =~= fence());
    assert(t.subrange(sc, sc + 3) =~= f);
    assert forall|j: int| 0 <= j < sc implies !occurs_at(t, fence(), j) by {
        if occurs_at(t, fence(), j) {
            assert(t.subrange(j, j + 3)[0] == t[j]);
            assert(t.subrange(j, j + 3)[1] == t[j + 1]);
            if j == 0 {
                assert(t[0] == 10u8);
            } else {
                let k = j - 1;
                if k + 3 <= n {
                    assert(body.subrange(k, k + 3) =~= t.subrange(j, j + 3));
                    assert(occurs_at(body, f, k));
                } else if k == n - 1 {
                    assert(t[j] == body.last());
                } else {
                    assert(t[j + 1] == body.last());
                }
            }
        }
    }
    assert(is_first_occurrence(t, fence(), sc));
    lemma_first_unique(t, fence(), sc);
}

/// The code of a message made of a fence, a language tag, a newline, a body
/// and a closing fence (and anything after it) is the newline and the whole
/// body, whatever lines, blank or not, the body holds. The tag must hold no
/// newline, and the body no fence and no backtick at its end (which would
/// run into the closing fence).
pub proof fn code_is_the_whole_fenced_body(tag: Seq<u8>, body: Seq<u8>, after: Seq<u8>)
    requires
        !seq_contains(tag, seq![10u8]),
        !seq_contains(body, seq![96u8, 96u8, 96u8]),
        body.len() == 0 || body.last() != 96u8,
    ensures
        check_code_spec(seq![96u8, 96u8, 96u8] + tag + seq![10u8] + body + seq![96u8, 96u8, 96u8] + after)
            == Ok::<Seq<u8>, CodeBlockError>(seq![10u8] + body),
{
    let f = seq![96u8, 96u8, 96u8];
    let nl = seq![10u8];
    let b = f + tag + nl + body + f + after;
    let tail = body + f + after;
    let fl: int = 3 + tag.len() as int;
    let sc: int = body.len() as int + 1;
    assert(first_occurrence(b, fence()) == Some(0int)) by {
        assert(b =~= f + (tag + nl + tail));
        lemma_fence_first_at_start(tag + nl + tail);
    }
    assert(first_occurrence(b.skip(0), seq![10u8]) == Some(fl)) by {
        assert(b.skip(0) =~= f + tag + nl + tail);
        lemma_line_end_after_tag(tag, tail);
    }
    assert(first_occurrence(b.skip(0 + fl), fence()) == Some(sc)) by {
        assert(b.skip(0 + fl) =~= nl + body + f + after);
        lemma_closing_fence_after_body(body, after);
    }
    assert(b.subrange(0 + fl, 0 + fl + sc) =~= nl + body);
}

/// The reply that shows the formatter's output, as a Python code block.
pub fn formatted_reply(formatted: &str) -> (r: String)
    ensures
        r@ == "```Python\n"@ + codeblock_body(formatted@) + "\n```"@,
{
    let r = codeblock_safe(formatted, Some("Python"));
    proof {
        reveal_strlit("Python");
        reveal_strlit("```");
        reveal_strlit("\n");
        reveal_strlit("```Python\n");
    }
    assert(r@ =~= "```Python\n"@ + codeblock_body(formatted@) + "\n```"@);
    r
}

/// The reply that shows the linter's output, as a shell code block.
pub fn lint_reply(output: &str) -> (r: String)
    ensures
        r@ == "```bash\n"@ + codeblock_body(output@) + "\n```"@,
{
    let r = codeblock_safe(output, Some("bash"));
    proof {
        reveal_strlit("bash");
        reveal_strlit("```");
        reveal_strlit("\n");
        reveal_strlit("```bash\n");
    }
    assert(r@ =~= "```bash\n"@ + codeblock_body(output@) + "\n```"@);
    r
}

} // verus!
