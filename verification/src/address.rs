//! Reading the host's public address out of the resolver's response.

use vstd::prelude::*;
use vstd::string::*;

verus! {

/// Whether `c` is white space, that is, has the Unicode property
/// `White_Space`.
pub open spec fn is_white_space(c: char) -> bool {
    let n = c as u32;
    ||| 0x09 <= n <= 0x0d
    ||| n == 0x20
    ||| n == 0x85
    ||| n == 0xa0
    ||| n == 0x1680
    ||| 0x2000 <= n <= 0x200a
    ||| n == 0x2028
    ||| n == 0x2029
    ||| n == 0x202f
    ||| n == 0x205f
    ||| n == 0x3000
}

/// The number of white-space characters at the start of `s`.
pub open spec fn leading_white_space(s: Seq<char>) -> nat
    decreases s.len(),
{
    if s.len() > 0 && is_white_space(s.first()) {
        1 + leading_white_space(s.drop_first())
    } else {
        0
    }
}

/// The number of white-space characters at the end of `s`.
pub open spec fn trailing_white_space(s: Seq<char>) -> nat
    decreases s.len(),
{
    if s.len() > 0 && is_white_space(s.last()) {
        1 + trailing_white_space(s.drop_last())
    } else {
        0
    }
}

/// `s` without the white space that surrounds it.
pub open spec fn trimmed(s: Seq<char>) -> Seq<char> {
    let start = leading_white_space(s);
    if start == s.len() {
        Seq::empty()
    } else {
        s.subrange(start as int, s.len() - trailing_white_space(s))
    }
}

/// Whether `c` is white space.
pub fn is_whitespace(c: char) -> (b: bool)
    ensures
        b == is_white_space(c),
{
    let n: u32 = c as u32;
    (0x09 <= n && n <= 0x0d) || n == 0x20 || n == 0x85 || n == 0xa0 || n == 0x1680 || (0x2000 <= n
        && n <= 0x200a) || n == 0x2028 || n == 0x2029 || n == 0x202f || n == 0x205f || n == 0x3000
}

/// If the first `k` characters of `s` are white space and the next one, if
/// there is one, is not, then `s` starts with exactly `k` white-space
/// characters.
pub proof fn lemma_leading_white_space(s: Seq<char>, k: int)
    requires
        0 <= k <= s.len(),
        forall|i: int| 0 <= i < k ==> is_white_space(#[trigger] s[i]),
        k < s.len() ==> !is_white_space(s[k]),
    ensures
        leading_white_space(s) == k,
    decreases k,
{
    if k > 0 {
        let rest = s.drop_first();
        assert forall|i: int| 0 <= i < k - 1 implies is_white_space(#[trigger] rest[i]) by {
            assert(rest[i] == s[i + 1]);
        }
        lemma_leading_white_space(rest, k - 1);
    }
}

/// If the last `k` characters of `s` are white space and the one before
/// them, if there is one, is not, then `s` ends with exactly `k` white-space
/// characters.
pub proof fn lemma_trailing_white_space(s: Seq<char>, k: int)
    requires
        0 <= k <= s.len(),
        forall|i: int| s.len() - k <= i < s.len() ==> is_white_space(#[trigger] s[i]),
        k < s.len() ==> !is_white_space(s[s.len() - k - 1]),
    ensures
        trailing_white_space(s) == k,
    decreases k,
{
    if k > 0 {
        let rest = s.drop_last();
        assert forall|i: int| rest.len() - (k - 1) <= i < rest.len() implies is_white_space(
            #[trigger] rest[i],
        ) by {
            assert(rest[i] == s[i]);
        }
        lemma_trailing_white_space(rest, k - 1);
    }
}

/// The address that the resolver's response body holds: the body without
/// the white space around it. Nothing checks that what is left is an
/// address.
pub fn address_from_response(body: &str) -> (ip: String)
    ensures
        ip@ == trimmed(body@),
{
    let len = body.unicode_len();
    // `start` is the index of the first character that is not white space,
    // `end` the index after the last one; both stay 0 while there is none.
    let mut start: usize = 0;
    let mut end: usize = 0;
    let mut at: usize = 0;
    for c in it: body.chars()
        invariant
            len == body@.len(),
            it.seq() == body@,
            at == it.index(),
            start <= end <= at,
            end == 0 ==> forall|i: int| 0 <= i < at ==> is_white_space(#[trigger] body@[i]),
            end > 0 ==> {
                &&& start < end
                &&& !is_white_space(body@[start as int])
                &&& !is_white_space(body@[end - 1])
                &&& forall|i: int| 0 <= i < start ==> is_white_space(#[trigger] body@[i])
                &&& forall|i: int| end <= i < at ==> is_white_space(#[trigger] body@[i])
            },
    {
        if !is_whitespace(c) {
            if end == 0 {
                start = at;
            }
            end = at + 1;
        }
        at = at + 1;
    }
    proof {
        if end == 0 {
            lemma_leading_white_space(body@, len as int);
        } else {
            lemma_leading_white_space(body@, start as int);
            lemma_trailing_white_space(body@, len - end);
        }
    }
    String::from_str(body.substring_char(start, end))
}

} // verus!
