//! White space, as Unicode defines it, and text that holds nothing else.

use vstd::prelude::*;

verus! {

/// Whether `c` carries the Unicode property `White_Space`.
pub open spec fn is_space(c: char) -> bool {
    let n = c as u32;
    ||| 0x09 <= n <= 0x0D
    ||| n == 0x20
    ||| n == 0x85
    ||| n == 0xA0
    ||| n == 0x1680
    ||| 0x2000 <= n <= 0x200A
    ||| n == 0x2028
    ||| n == 0x2029
    ||| n == 0x202F
    ||| n == 0x205F
    ||| n == 0x3000
}

/// Whether every character of `s` is white space. The empty text is blank.
pub open spec fn is_blank(s: Seq<char>) -> bool {
    forall|i: int| 0 <= i < s.len() ==> is_space(#[trigger] s[i])
}

/// Tests one character for white space.
pub fn is_whitespace(c: char) -> (r: bool)
    ensures
        r == is_space(c),
{
    let n: u32 = c as u32;
    (0x09 <= n && n <= 0x0D) || n == 0x20 || n == 0x85 || n == 0xA0 || n == 0x1680 || (0x2000 <= n
        && n <= 0x200A) || n == 0x2028 || n == 0x2029 || n == 0x202F || n == 0x205F || n == 0x3000
}

/// Tests whether a text holds white space only.
pub fn blank(s: &str) -> (r: bool)
    ensures
        r == is_blank(s@),
{
    let mut all_space = true;
    for c in it: s.chars()
        invariant
            it.seq() == s@,
            all_space == is_blank(s@.take(it.index() as int)),
    {
        proof {
            let k = it.index() as int;
            assert(c == s@[k]);
            if is_blank(s@.take(k)) && is_space(c) {
                assert forall|i: int| 0 <= i < k + 1 implies is_space(
                    #[trigger] s@.take(k + 1)[i],
                ) by {
                    if i < k {
                        assert(s@.take(k + 1)[i] == s@.take(k)[i]);
                    }
                }
            }
            if is_blank(s@.take(k + 1)) {
                assert forall|i: int| 0 <= i < k implies is_space(#[trigger] s@.take(k)[i]) by {
                    assert(s@.take(k)[i] == s@.take(k + 1)[i]);
                }
                assert(is_space(s@.take(k + 1)[k]));
            }
        }
        all_space = all_space && is_whitespace(c);
    }
    assert(s@.take(s@.len() as int) == s@);
    all_space
}

} // verus!
