//! Texts: trimming, splitting, and prefixes.

use vstd::prelude::*;

verus! {

/// Code points with the Unicode property `White_Space`.
pub open spec fn is_white_space(c: char) -> bool {
    let u = c as u32;
    ||| 0x09 <= u <= 0x0D
    ||| u == 0x20
    ||| u == 0x85
    ||| u == 0xA0
    ||| u == 0x1680
    ||| 0x2000 <= u <= 0x200A
    ||| u == 0x2028
    ||| u == 0x2029
    ||| u == 0x202F
    ||| u == 0x205F
    ||| u == 0x3000
}

/// Number of white-space characters at the front of `s`.
pub open spec fn leading_white_space(s: Seq<char>) -> nat
    decreases s.len(),
{
    if s.len() > 0 && is_white_space(s.first()) {
        1 + leading_white_space(s.drop_first())
    } else {
        0
    }
}

/// Number of white-space characters at the back of `s`.
pub open spec fn trailing_white_space(s: Seq<char>) -> nat
    decreases s.len(),
{
    if s.len() > 0 && is_white_space(s.last()) {
        1 + trailing_white_space(s.drop_last())
    } else {
        0
    }
}

/// `s` without the white space at its front and at its back.
pub open spec fn trimmed(s: Seq<char>) -> Seq<char> {
    let rest = s.skip(leading_white_space(s) as int);
    rest.take(rest.len() - trailing_white_space(rest))
}

/// Index of the first `sep` in `s`, or `s.len()` where there is none.
pub open spec fn first_index_of(s: Seq<char>, sep: char) -> nat
    decreases s.len(),
{
    if s.len() == 0 || s.first() == sep {
        0
    } else {
        1 + first_index_of(s.drop_first(), sep)
    }
}

/// The pieces of `s` between occurrences of `sep`: always at least one piece, and one more
/// than there are separators. None of the pieces holds a separator.
pub open spec fn fields(s: Seq<char>, sep: char) -> Seq<Seq<char>>
    decreases s.len(),
{
    let i = first_index_of(s, sep) as int;
    if i >= s.len() {
        seq![s]
    } else {
        seq![s.take(i)] + fields(s.skip(i + 1), sep)
    }
}

/// `s` without `prefix` at its front; `s` itself where it does not start with `prefix`.
pub open spec fn without_prefix(s: Seq<char>, prefix: Seq<char>) -> Seq<char> {
    if prefix.is_prefix_of(s) {
        s.skip(prefix.len() as int)
    } else {
        s
    }
}

/// `s` without its first `n` characters; empty where it has fewer.
pub open spec fn after(s: Seq<char>, n: nat) -> Seq<char> {
    if n <= s.len() {
        s.skip(n as int)
    } else {
        Seq::empty()
    }
}

/// The views of a sequence of strings.
pub open spec fn views(v: Seq<String>) -> Seq<Seq<char>> {
    Seq::new(v.len(), |i: int| v[i]@)
}

/// Whether `c` is white space.
pub fn white_space(c: char) -> (yes: bool)
    ensures
        yes == is_white_space(c),
{
    let u: u32 = c as u32;
    (0x09 <= u && u <= 0x0D) || u == 0x20 || u == 0x85 || u == 0xA0 || u == 0x1680 || (0x2000 <= u
        && u <= 0x200A) || u == 0x2028 || u == 0x2029 || u == 0x202F || u == 0x205F || u == 0x3000
}

/// The characters of `s`.
pub fn characters(s: &str) -> (chars: Vec<char>)
    ensures
        chars@ == s@,
{
    let mut chars: Vec<char> = Vec::new();
    for c in it: s.chars()
        invariant
            chars@ == it.seq().take(it.index() as int),
            it.seq() == s@,
    {
        chars.push(c);
    }
    chars
}

/// Where no character before `i` is `sep`, and `i` is the end of `s` or holds `sep`, `i` is
/// the first index of `sep`.
pub proof fn lemma_first_index_of(s: Seq<char>, sep: char, i: int)
    requires
        0 <= i <= s.len(),
        forall|k: int| 0 <= k < i ==> s[k] != sep,
        i < s.len() ==> s[i] == sep,
    ensures
        first_index_of(s, sep) == i,
    decreases s.len(),
{
    if i > 0 {
        let rest = s.drop_first();
        assert forall|k: int| 0 <= k < i - 1 implies rest[k] != sep by {
            assert(rest[k] == s[k + 1]);
        }
        lemma_first_index_of(rest, sep, i - 1);
    }
}

/// A text without separator is its own single field.
pub proof fn lemma_fields_single(s: Seq<char>, sep: char)
    requires
        !s.contains(sep),
    ensures
        fields(s, sep) == seq![s],
{
    lemma_first_index_of(s, sep, s.len() as int);
}

/// The first field of a text ends at its first separator.
pub proof fn lemma_fields_split(head: Seq<char>, tail: Seq<char>, sep: char)
    requires
        !head.contains(sep),
    ensures
        fields(head + seq![sep] + tail, sep) == seq![head] + fields(tail, sep),
{
    let s = head + seq![sep] + tail;
    lemma_first_index_of(s, sep, head.len() as int);
    assert(s.take(head.len() as int) == head);
    assert(s.skip(head.len() as int + 1) == tail);
}

/// `s` without the white space at its front and at its back.
pub fn trim(s: &str) -> (slice: &str)
    ensures
        slice@ == trimmed(s@),
{
    let chars = characters(s);
    let n: usize = chars.len();
    let mut a: usize = 0;
    proof {
        assert(s@.skip(0) == s@);
    }
    while a < n && white_space(chars[a])
        invariant
            chars@ == s@,
            n == chars.len(),
            a <= n,
            leading_white_space(s@) == a + leading_white_space(s@.skip(a as int)),
        decreases n - a,
    {
        proof {
            assert(s@.skip(a as int).drop_first() == s@.skip(a + 1));
        }
        a += 1;
    }
    let ghost rest = s@.skip(a as int);
    let mut b: usize = n;
    proof {
        assert(rest.take(n - a) == rest);
    }
    while b > a && white_space(chars[b - 1])
        invariant
            chars@ == s@,
            n == chars.len(),
            a <= b <= n,
            rest == s@.skip(a as int),
            trailing_white_space(rest) == (n - b) + trailing_white_space(rest.take(b - a)),
        decreases b,
    {
        proof {
            assert(rest.take(b - a).drop_last() == rest.take(b - a - 1));
        }
        b -= 1;
    }
    proof {
        assert(s@.subrange(a as int, b as int) == rest.take(b - a));
    }
    s.substring_char(a, b)
}

/// The pieces of `s` between occurrences of `sep`.
pub fn split(s: &str, sep: char) -> (pieces: Vec<String>)
    ensures
        views(pieces@) == fields(s@, sep),
{
    let chars = characters(s);
    let n: usize = chars.len();
    let mut pieces: Vec<String> = Vec::new();
    let mut start: usize = 0;
    let mut i: usize = 0;
    proof {
        assert(s@.skip(0) == s@);
        assert(views(pieces@) + fields(s@, sep) == fields(s@, sep));
    }
    while i < n
        invariant
            chars@ == s@,
            n == chars.len(),
            start <= i <= n,
            forall|k: int| start <= k < i ==> s@[k] != sep,
            fields(s@, sep) == views(pieces@) + fields(s@.skip(start as int), sep),
        decreases n - i,
    {
        if chars[i] == sep {
            let piece = s.substring_char(start, i).to_owned();
            proof {
                let rest = s@.skip(start as int);
                lemma_first_index_of(rest, sep, i - start);
                assert(rest.take(i - start) == s@.subrange(start as int, i as int));
                assert(rest.skip(i - start + 1) == s@.skip(i + 1));
                assert(views(pieces@.push(piece)) == views(pieces@) + seq![piece@]);
            }
            pieces.push(piece);
            start = i + 1;
        }
        i += 1;
    }
    let piece = s.substring_char(start, n).to_owned();
    proof {
        let rest = s@.skip(start as int);
        lemma_first_index_of(rest, sep, n - start);
        assert(rest == s@.subrange(start as int, n as int));
        assert(views(pieces@.push(piece)) == views(pieces@) + seq![piece@]);
    }
    pieces.push(piece);
    pieces
}

/// `s` without its first `n` characters; empty where it has fewer.
pub fn drop_front(s: &str, n: usize) -> (rest: &str)
    ensures
        rest@ == after(s@, n as nat),
{
    let len: usize = s.unicode_len();
    if n <= len {
        s.substring_char(n, len)
    } else {
        s.substring_char(len, len)
    }
}

/// `s` without `prefix` at its front; `s` itself where it does not start with `prefix`.
pub fn strip_prefix<'a>(s: &'a str, prefix: &str) -> (rest: &'a str)
    ensures
        rest@ == without_prefix(s@, prefix@),
{
    let chars = characters(s);
    let head = characters(prefix);
    if head.len() > chars.len() {
        return s;
    }
    let mut k: usize = 0;
    while k < head.len()
        invariant
            chars@ == s@,
            head@ == prefix@,
            head.len() <= chars.len(),
            k <= head.len(),
            forall|j: int| 0 <= j < k ==> s@[j] == prefix@[j],
        decreases head.len() - k,
    {
        if chars[k] != head[k] {
            proof {
                assert(s@.subrange(0, prefix@.len() as int)[k as int] == s@[k as int]);
            }
            return s;
        }
        k += 1;
    }
    proof {
        assert(s@.subrange(0, prefix@.len() as int) == prefix@);
    }
    s.substring_char(head.len(), chars.len())
}

} // verus!
