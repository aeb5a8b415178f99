//! Text building blocks: decimal rendering of integers, appending to strings,
//! substring search, equality and joining.

use vstd::prelude::*;
use vstd::std_specs::iter::IteratorSpec;
use vstd::string::StringSliceAdditionalSpecFns;

verus! {

/// The character of a decimal digit `d` (`0 <= d < 10`).
pub open spec fn digit_char(d: nat) -> char {
    if d == 0 { '0' }
    else if d == 1 { '1' }
    else if d == 2 { '2' }
    else if d == 3 { '3' }
    else if d == 4 { '4' }
    else if d == 5 { '5' }
    else if d == 6 { '6' }
    else if d == 7 { '7' }
    else if d == 8 { '8' }
    else { '9' }
}

/// The decimal digits of `n`, most significant first, without leading zeros
/// (`0` is written as a single `0`).
pub open spec fn nat_digits(n: nat) -> Seq<char>
    decreases n,
{
    if n < 10 {
        seq![digit_char(n)]
    } else {
        nat_digits(n / 10).push(digit_char(n % 10))
    }
}

/// The decimal rendering of an integer, as Rust's `Display` writes it:
/// a `-` in front of negative numbers, then the digits of the magnitude.
pub open spec fn decimal(n: int) -> Seq<char> {
    if n < 0 {
        seq!['-'] + nat_digits((-n) as nat)
    } else {
        nat_digits(n as nat)
    }
}

/// Appends one character to a string (`String::push`).
#[verifier::external_body]
pub(crate) fn push_char(s: &mut String, c: char)
    ensures
        final(s)@ == old(s)@.push(c),
{
    s.push(c);
}

/// Appends a string slice to a string.
pub fn push_str(s: &mut String, t: &str)
    ensures
        final(s)@ == old(s)@ + t@,
{
    s.append(t);
}

fn digit(d: u64) -> (c: char)
    requires
        d < 10,
    ensures
        c == digit_char(d as nat),
{
    if d == 0 { '0' }
    else if d == 1 { '1' }
    else if d == 2 { '2' }
    else if d == 3 { '3' }
    else if d == 4 { '4' }
    else if d == 5 { '5' }
    else if d == 6 { '6' }
    else if d == 7 { '7' }
    else if d == 8 { '8' }
    else { '9' }
}

/// Appends the decimal digits of `m` to `s`.
pub fn push_nat(s: &mut String, m: u64)
    ensures
        final(s)@ == old(s)@ + nat_digits(m as nat),
    decreases m,
{
    if m >= 10 {
        push_nat(s, m / 10);
    }
    push_char(s, digit(m % 10));
    proof {
        if m >= 10 {
            assert(old(s)@ + nat_digits(m as nat) =~= old(s)@ + nat_digits((m / 10) as nat) + seq![digit_char((m % 10) as nat)]);
        } else {
            assert(old(s)@ + nat_digits(m as nat) =~= old(s)@.push(digit_char((m % 10) as nat)));
        }
    }
}

/// Appends the decimal rendering of `n` to `s`.
pub fn push_int(s: &mut String, n: i64)
    ensures
        final(s)@ == old(s)@ + decimal(n as int),
{
    if n < 0 {
        push_char(s, '-');
        let m: u64 = if n == i64::MIN { 9223372036854775808u64 } else { (-n) as u64 };
        push_nat(s, m);
        assert(old(s)@ + decimal(n as int) =~= old(s)@.push('-') + nat_digits(m as nat));
    } else {
        push_nat(s, n as u64);
    }
}

/// The decimal rendering of a signed integer, as `n.to_string()` gives it.
pub fn int_string(n: i64) -> (s: String)
    ensures
        s@ == decimal(n as int),
{
    let mut s = String::new();
    push_int(&mut s, n);
    assert(s@ =~= decimal(n as int));
    s
}

/// The decimal rendering of an unsigned integer, as `m.to_string()` gives it.
pub fn nat_string(m: u64) -> (s: String)
    ensures
        s@ == decimal(m as int),
{
    let mut s = String::new();
    push_nat(&mut s, m);
    assert(s@ =~= nat_digits(m as nat));
    s
}


/// The characters of a string slice, in order.
pub fn chars_of(text: &str) -> (v: Vec<char>)
    ensures
        v@ == text@,
{
    let mut v: Vec<char> = Vec::new();
    let mut chars = text.chars();
    proof {
        assert(v@ + chars.remaining() =~= text@);
    }
    loop
        invariant
            v@ + chars.remaining() == text@,
            chars.obeys_prophetic_iter_laws(),
        ensures
            v@ == text@,
        decreases text@.len() - v@.len(),
    {
        match chars.next() {
            Some(c) => {
                v.push(c);
                assert(v@ + chars.remaining() =~= text@);
            },
            None => {
                assert(v@ =~= text@);
                break;
            },
        }
    }
    v
}

/// `pat` occurs in `s` starting at position `i`.
pub open spec fn occurs_at<T>(s: Seq<T>, pat: Seq<T>, i: int) -> bool {
    0 <= i && i + pat.len() <= s.len() && s.subrange(i, i + pat.len()) == pat
}

/// `pat` occurs somewhere in `s` (as `str::contains` tests).
pub open spec fn seq_contains<T>(s: Seq<T>, pat: Seq<T>) -> bool {
    exists|i: int| occurs_at(s, pat, i)
}

/// `pat` occurs in `s` at `i` and nowhere before.
pub open spec fn is_first_occurrence(s: Seq<u8>, pat: Seq<u8>, i: int) -> bool {
    occurs_at(s, pat, i) && forall|j: int| 0 <= j < i ==> !occurs_at(s, pat, j)
}

/// The position of the first occurrence of `pat` in `s` (`str::find`).
pub open spec fn first_occurrence(s: Seq<u8>, pat: Seq<u8>) -> Option<int> {
    if exists|i: int| is_first_occurrence(s, pat, i) {
        Some(choose|i: int| is_first_occurrence(s, pat, i))
    } else {
        None
    }
}

/// The first occurrence is the only one with nothing before it.
pub proof fn lemma_first_unique(s: Seq<u8>, pat: Seq<u8>, i: int)
    requires
        is_first_occurrence(s, pat, i),
    ensures
        first_occurrence(s, pat) == Some(i),
{
    let k = choose|k: int| is_first_occurrence(s, pat, k);
    assert(is_first_occurrence(s, pat, k));
    if k < i {
        assert(!occurs_at(s, pat, k));
    } else if i < k {
        assert(!occurs_at(s, pat, i));
    }
}

fn matches_at(s: &[u8], pat: &[u8], i: usize) -> (b: bool)
    requires
        i + pat@.len() <= s@.len(),
    ensures
        b == occurs_at(s@, pat@, i as int),
{
    let n = s.len();
    let mut k: usize = 0;
    while k < pat.len()
        invariant
            k <= pat@.len(),
            i + pat@.len() <= n,
            n == s@.len(),
            forall|j: int| 0 <= j < k ==> s@[i + j] == pat@[j],
        decreases pat@.len() - k,
    {
        if s[i + k] != pat[k] {
            assert(s@.subrange(i as int, i + pat@.len())[k as int] != pat@[k as int]);
            return false;
        }
        k += 1;
    }
    assert(s@.subrange(i as int, i + pat@.len()) =~= pat@);
    true
}

/// The offset, from `from`, of the first occurrence of `pat` in `s[from..]`.
pub fn find_from(s: &[u8], from: usize, pat: &[u8]) -> (r: Option<usize>)
    requires
        from <= s@.len(),
    ensures
        match r {
            Some(k) => first_occurrence(s@.skip(from as int), pat@) == Some(k as int),
            None => first_occurrence(s@.skip(from as int), pat@) is None,
        },
        r is Some <==> seq_contains(s@.skip(from as int), pat@),
{
    let ghost t = s@.skip(from as int);
    let n = s.len();
    if pat.len() > n - from {
        assert forall|i: int| !is_first_occurrence(t, pat@, i) by {}
        assert forall|i: int| !occurs_at(t, pat@, i) by {}
        return None;
    }
    let last = n - from - pat.len();
    let mut k: usize = 0;
    loop
        invariant
            k <= last,
            last + pat@.len() + from == s@.len(),
            n == s@.len(),
            t == s@.skip(from as int),
            forall|j: int| 0 <= j < k ==> !occurs_at(t, pat@, j),
        ensures
            forall|j: int| 0 <= j <= last ==> !occurs_at(t, pat@, j),
        decreases last - k,
    {
        if matches_at(s, pat, from + k) {
            proof {
                assert(t.subrange(k as int, k + pat@.len()) =~= s@.subrange(from + k, from + k + pat@.len()));
                assert(is_first_occurrence(t, pat@, k as int));
                lemma_first_unique(t, pat@, k as int);
            }
            return Some(k);
        }
        proof {
            assert(t.subrange(k as int, k + pat@.len()) =~= s@.subrange(from + k, from + k + pat@.len()));
        }
        if k == last {
            break;
        }
        k += 1;
    }
    assert forall|i: int| !occurs_at(t, pat@, i) by {
        if occurs_at(t, pat@, i) {
            assert(i <= last);
        }
    }
    assert forall|i: int| !is_first_occurrence(t, pat@, i) by {}
    None
}

/// Whether `text` contains `pat` (`str::contains`, which compares the
/// UTF-8 bytes of the two).
pub fn str_contains(text: &str, pat: &str) -> (b: bool)
    ensures
        b == seq_contains(text.spec_bytes(), pat.spec_bytes()),
{
    let t = text.as_bytes();
    let p = pat.as_bytes();
    assert(t@.skip(0) =~= t@);
    find_from(t, 0, p).is_some()
}

/// Whether two string slices hold the same characters.
pub fn str_eq(a: &str, b: &str) -> (r: bool)
    ensures
        r == (a@ == b@),
{
    let x = chars_of(a);
    let y = chars_of(b);
    if x.len() != y.len() {
        assert(x@.len() != y@.len());
        return false;
    }
    let mut i: usize = 0;
    while i < x.len()
        invariant
            x@ == a@,
            y@ == b@,
            x@.len() == y@.len(),
            forall|j: int| 0 <= j < i ==> x@[j] == y@[j],
        decreases x@.len() - i,
    {
        if x[i] != y[i] {
            assert(x@[i as int] != y@[i as int]);
            return false;
        }
        i += 1;
    }
    assert(x@ =~= y@);
    true
}

/// The pieces of `list` joined, with `sep` between two neighbours (as
/// `[..].join(sep)` writes them).
pub open spec fn seq_join(list: Seq<Seq<char>>, sep: Seq<char>) -> Seq<char>
    decreases list.len(),
{
    if list.len() == 0 {
        seq![]
    } else if list.len() == 1 {
        list[0]
    } else {
        seq_join(list.drop_last(), sep) + sep + list.last()
    }
}

/// The views of a list of strings.
pub open spec fn views(list: Seq<String>) -> Seq<Seq<char>> {
    list.map_values(|s: String| s@)
}

/// Joins the strings of `list` with `sep` between neighbours.
pub fn join_strings(list: &Vec<String>, sep: &str) -> (r: String)
    ensures
        r@ == seq_join(views(list@), sep@),
{
    let mut r = String::new();
    let ghost all = views(list@);
    let mut i: usize = 0;
    proof {
        assert(all.take(0) =~= Seq::<Seq<char>>::empty());
    }
    while i < list.len()
        invariant
            i <= list@.len(),
            all == views(list@),
            r@ == seq_join(all.take(i as int), sep@),
        decreases list@.len() - i,
    {
        if i != 0 {
            push_str(&mut r, sep);
        }
        push_str(&mut r, list[i].as_str());
        proof {
            assert(all.take(i + 1).drop_last() =~= all.take(i as int));
            assert(all.take(i + 1).last() == list@[i as int]@);
            if i == 0 {
                assert(all.take(1).len() == 1);
                assert(r@ =~= all.take(1)[0]);
            }
        }
        i += 1;
    }
    assert(all.take(list@.len() as int) =~= all);
    r
}

} // verus!
