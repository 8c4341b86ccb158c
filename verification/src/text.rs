//! Text over `Seq<char>`: the character classes, trims, decimal spellings and
//! searches the rest of the crate states its sentences with.

use vstd::prelude::*;
use vstd::std_specs::iter::IteratorSpec;

verus! {

broadcast use vstd::string::group_string_axioms;

/// Unicode's `White_Space` property, the set `char::is_whitespace` answers for.
pub open spec fn is_white(c: char) -> bool {
    let u = c as u32;
    ||| 0x09 <= u <= 0x0d
    ||| u == 0x20
    ||| u == 0x85
    ||| u == 0xa0
    ||| u == 0x1680
    ||| 0x2000 <= u <= 0x200a
    ||| u == 0x2028
    ||| u == 0x2029
    ||| u == 0x202f
    ||| u == 0x205f
    ||| u == 0x3000
}

pub open spec fn trim_end(s: Seq<char>) -> Seq<char>
    decreases s.len(),
{
    if s.len() > 0 && is_white(s.last()) {
        trim_end(s.drop_last())
    } else {
        s
    }
}

pub open spec fn trim_start(s: Seq<char>) -> Seq<char>
    decreases s.len(),
{
    if s.len() > 0 && is_white(s[0]) {
        trim_start(s.drop_first())
    } else {
        s
    }
}

pub open spec fn trim(s: Seq<char>) -> Seq<char> {
    trim_start(trim_end(s))
}

pub open spec fn is_blank(s: Seq<char>) -> bool {
    forall|i: int| 0 <= i < s.len() ==> is_white(#[trigger] s[i])
}

pub open spec fn ends_with(s: Seq<char>, t: Seq<char>) -> bool {
    t.len() <= s.len() && s.subrange(s.len() - t.len(), s.len() as int) == t
}

pub open spec fn starts_with(s: Seq<char>, t: Seq<char>) -> bool {
    t.len() <= s.len() && s.subrange(0, t.len() as int) == t
}

pub open spec fn digit(d: nat) -> char {
    if d == 0 { '0' } else if d == 1 { '1' } else if d == 2 { '2' } else if d == 3 { '3' }
    else if d == 4 { '4' } else if d == 5 { '5' } else if d == 6 { '6' } else if d == 7 { '7' }
    else if d == 8 { '8' } else { '9' }
}

/// How `Display` spells a non-negative integer.
pub open spec fn decimal(n: nat) -> Seq<char>
    decreases n,
{
    if n < 10 {
        seq![digit(n)]
    } else {
        decimal(n / 10).push(digit(n % 10))
    }
}

/// What `str::to_lowercase` gives back; Unicode's full lowercase mapping is too long to state.
pub uninterp spec fn lowercase(s: Seq<char>) -> Seq<char>;

/// `str::to_lowercase`: the result is the name above applied to the text.
#[verifier::external_body]
pub(crate) fn lowercased(s: &str) -> (r: String)
    ensures
        r@ == lowercase(s@),
{
    s.to_lowercase()
}

/// `String::push`: appends one character.
#[verifier::external_body]
pub(crate) fn push_char(s: &mut String, c: char)
    ensures
        final(s)@ == old(s)@.push(c),
{
    s.push(c);
}

pub fn is_whitespace(c: char) -> (r: bool)
    ensures
        r == is_white(c),
{
    let u = c as u32;
    (0x09 <= u && u <= 0x0d) || u == 0x20 || u == 0x85 || u == 0xa0 || u == 0x1680 || (0x2000 <= u
        && u <= 0x200a) || u == 0x2028 || u == 0x2029 || u == 0x202f || u == 0x205f || u == 0x3000
}

pub fn chars_of(s: &str) -> (r: Vec<char>)
    ensures
        r@ == s@,
{
    let mut out: Vec<char> = Vec::new();
    let mut it = s.chars();
    loop
        invariant
            it.remaining() == s@.skip(out@.len() as int),
            out@ == s@.take(out@.len() as int),
            out@.len() <= s@.len(),
        ensures
            out@ == s@,
        decreases s@.len() - out@.len(),
    {
        match it.next() {
            Some(c) => {
                out.push(c);
            },
            None => {
                assert(out@ =~= s@);
                break ;
            },
        }
    }
    out
}

pub fn push_chars(s: &mut String, v: &[char], from: usize, to: usize)
    requires
        from <= to <= v@.len(),
    ensures
        final(s)@ == old(s)@ + v@.subrange(from as int, to as int),
{
    let mut i = from;
    while i < to
        invariant
            from <= i <= to <= v@.len(),
            s@ == old(s)@ + v@.subrange(from as int, i as int),
        decreases to - i,
    {
        push_char(s, v[i]);
        assert(v@.subrange(from as int, i + 1) =~= v@.subrange(from as int, i as int).push(
            v@[i as int],
        ));
        i += 1;
    }
}

pub fn string_of(v: &[char]) -> (r: String)
    ensures
        r@ == v@,
{
    let mut s = String::new();
    push_chars(&mut s, v, 0, v.len());
    assert(v@.subrange(0, v@.len() as int) =~= v@);
    s
}

/// `format!("{a}{b}")`.
pub fn concat(a: &str, b: &str) -> (r: String)
    ensures
        r@ == a@ + b@,
{
    let mut s = a.to_owned();
    s.append(b);
    s
}

pub fn copied(s: &str) -> (r: String)
    ensures
        r@ == s@,
{
    s.to_owned()
}

/// Where the trailing whitespace of `v` begins.
pub fn trim_end_at(v: &[char]) -> (n: usize)
    ensures
        n <= v@.len(),
        trim_end(v@) == v@.take(n as int),
{
    let mut n = v.len();
    assert(v@.take(n as int) =~= v@);
    while n > 0 && is_whitespace(v[n - 1])
        invariant
            n <= v@.len(),
            trim_end(v@) == trim_end(v@.take(n as int)),
        decreases n,
    {
        assert(v@.take(n as int).drop_last() =~= v@.take(n - 1));
        n -= 1;
    }
    n
}

/// Where the leading whitespace of `v` ends.
pub fn trim_start_at(v: &[char], end: usize) -> (n: usize)
    requires
        end <= v@.len(),
    ensures
        n <= end,
        trim_start(v@.take(end as int)) == v@.subrange(n as int, end as int),
{
    let mut n: usize = 0;
    assert(v@.subrange(0, end as int) =~= v@.take(end as int));
    while n < end && is_whitespace(v[n])
        invariant
            n <= end <= v@.len(),
            trim_start(v@.take(end as int)) == trim_start(v@.subrange(n as int, end as int)),
        decreases end - n,
    {
        assert(v@.subrange(n as int, end as int).drop_first() =~= v@.subrange(n + 1, end as int));
        n += 1;
    }
    n
}

pub fn trimmed(s: &str) -> (r: String)
    ensures
        r@ == trim(s@),
{
    let v = chars_of(s);
    let end = trim_end_at(v.as_slice());
    let start = trim_start_at(v.as_slice(), end);
    let mut out = String::new();
    push_chars(&mut out, v.as_slice(), start, end);
    out
}

pub fn trimmed_end(s: &str) -> (r: String)
    ensures
        r@ == trim_end(s@),
{
    let v = chars_of(s);
    let end = trim_end_at(v.as_slice());
    let mut out = String::new();
    push_chars(&mut out, v.as_slice(), 0, end);
    assert(v@.subrange(0, end as int) =~= v@.take(end as int));
    out
}

pub proof fn lemma_trim_end_blank(s: Seq<char>)
    ensures
        (trim_end(s).len() == 0) == is_blank(s),
    decreases s.len(),
{
    if s.len() > 0 && is_white(s.last()) {
        lemma_trim_end_blank(s.drop_last());
        if is_blank(s.drop_last()) {
            assert forall|i: int| 0 <= i < s.len() implies is_white(#[trigger] s[i]) by {
                if i < s.len() - 1 {
                    assert(s[i] == s.drop_last()[i]);
                }
            }
        } else {
            let j = choose|j: int| 0 <= j < s.drop_last().len() && !is_white(s.drop_last()[j]);
            assert(!is_white(s[j]));
        }
    } else if s.len() > 0 {
        assert(!is_white(s[s.len() - 1]));
    }
}

pub proof fn lemma_trim_end_is_prefix(s: Seq<char>)
    ensures
        trim_end(s).len() <= s.len(),
        trim_end(s) == s.take(trim_end(s).len() as int),
    decreases s.len(),
{
    if s.len() > 0 && is_white(s.last()) {
        lemma_trim_end_is_prefix(s.drop_last());
        assert(s.drop_last().take(trim_end(s).len() as int) =~= s.take(trim_end(s).len() as int));
    } else {
        assert(s.take(s.len() as int) =~= s);
    }
}

pub proof fn lemma_trim_start_nonempty(t: Seq<char>)
    requires
        t.len() > 0,
        !is_white(t.last()),
    ensures
        trim_start(t).len() > 0,
    decreases t.len(),
{
    if is_white(t[0]) {
        assert(t.len() > 1);
        assert(t.drop_first().last() == t.last());
        lemma_trim_start_nonempty(t.drop_first());
    }
}

pub proof fn lemma_trim_blank(s: Seq<char>)
    ensures
        (trim(s).len() == 0) == is_blank(s),
{
    lemma_trim_end_blank(s);
    lemma_trim_end_is_prefix(s);
    lemma_trim_end_last(s);
    if trim_end(s).len() > 0 {
        lemma_trim_start_nonempty(trim_end(s));
    }
}

pub proof fn lemma_trim_end_last(s: Seq<char>)
    ensures
        trim_end(s).len() > 0 ==> !is_white(trim_end(s).last()),
    decreases s.len(),
{
    if s.len() > 0 && is_white(s.last()) {
        lemma_trim_end_last(s.drop_last());
    }
}

pub proof fn lemma_trim_end_twice(s: Seq<char>)
    ensures
        trim_end(trim_end(s)) == trim_end(s),
{
    lemma_trim_end_last(s);
}

/// Whether the whole of `s` is whitespace, as `str::trim().is_empty()` asks.
pub fn blank(s: &str) -> (r: bool)
    ensures
        r == is_blank(s@),
        r == (trim(s@).len() == 0),
{
    proof {
        lemma_trim_blank(s@);
    }
    let v = chars_of(s);
    assert(v@ == s@);
    let mut i: usize = 0;
    while i < v.len()
        invariant
            i <= v@.len(),
            v@ == s@,
            forall|j: int| 0 <= j < i ==> is_white(#[trigger] v@[j]),
        decreases v.len() - i,
    {
        if !is_whitespace(v[i]) {
            assert(!is_white(s@[i as int]));
            assert(!is_blank(s@));
            proof {
                lemma_trim_blank(s@);
            }
            return false;
        }
        i += 1;
    }
    true
}

pub fn same_text(a: &str, b: &str) -> (r: bool)
    ensures
        r == (a@ == b@),
{
    let x = chars_of(a);
    let y = chars_of(b);
    if x.len() != y.len() {
        return false;
    }
    let mut i: usize = 0;
    while i < x.len()
        invariant
            i <= x@.len(),
            x@.len() == y@.len(),
            x@ == a@,
            y@ == b@,
            forall|j: int| 0 <= j < i ==> x@[j] == y@[j],
        decreases x.len() - i,
    {
        if x[i] != y[i] {
            return false;
        }
        i += 1;
    }
    assert(x@ =~= y@);
    true
}

pub fn digit_char(d: u64) -> (c: char)
    requires
        d < 10,
    ensures
        c == digit(d as nat),
{
    if d == 0 { '0' } else if d == 1 { '1' } else if d == 2 { '2' } else if d == 3 { '3' }
    else if d == 4 { '4' } else if d == 5 { '5' } else if d == 6 { '6' } else if d == 7 { '7' }
    else if d == 8 { '8' } else { '9' }
}

pub fn push_decimal(s: &mut String, n: u64)
    ensures
        final(s)@ == old(s)@ + decimal(n as nat),
    decreases n,
{
    if n >= 10 {
        push_decimal(s, n / 10);
    }
    push_char(s, digit_char(n % 10));
}

pub fn ends_with_chars(s: &[char], t: &[char]) -> (r: bool)
    ensures
        r == ends_with(s@, t@),
{
    if t.len() > s.len() {
        return false;
    }
    let off = s.len() - t.len();
    let mut i: usize = 0;
    while i < t.len()
        invariant
            i <= t@.len(),
            off + t@.len() == s@.len(),
            s@.len() <= usize::MAX,
            forall|j: int| 0 <= j < i ==> s@[off + j] == t@[j],
        decreases t.len() - i,
    {
        if s[off + i] != t[i] {
            assert(s@.subrange(off as int, s@.len() as int)[i as int] != t@[i as int]);
            return false;
        }
        i += 1;
    }
    assert(s@.subrange(off as int, s@.len() as int) =~= t@);
    true
}

} // verus!
