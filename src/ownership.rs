//! Strings moved, borrowed and edited, and the first word of a text.
use vstd::prelude::*;
use vstd::string::*;

verus! {

/// Appends ", World!" to `s`.
pub fn edit_borrowed_variable(s: &mut String)
    ensures
        final(s)@ == old(s)@ + ", World!"@,
{
    s.append(", World!");
}

pub fn gives_ownership() -> (r: String)
    ensures
        r@ == "hello"@,
{
    String::from_str("hello")
}

pub fn takes_and_gives_back(a_string: String) -> (r: String)
    ensures
        r@ == a_string@,
{
    a_string
}

/// The string back, with its length in bytes.
pub fn calc_length(s: String) -> (r: (String, usize))
    ensures
        r.0@ == s@,
        r.1 == vstd::utf8::encode_utf8(s@).len() as usize,
{
    let len = s.as_str().len();
    (s, len)
}

/// The length of `s` in bytes.
pub fn calc_length_v2(s: &String) -> (r: usize)
    ensures
        r == vstd::utf8::encode_utf8(s@).len() as usize,
{
    s.as_str().len()
}

/// The index of the first space in `s`, or its length if there is none.
pub open spec fn first_space(s: Seq<char>) -> int
    decreases s.len(),
{
    if s.len() == 0 {
        0
    } else if s[0] == ' ' {
        0
    } else {
        1 + first_space(s.drop_first())
    }
}

proof fn lemma_first_space(s: Seq<char>, k: int)
    requires
        0 <= k <= s.len(),
        forall|i: int| 0 <= i < k ==> s[i] != ' ',
    ensures
        k == s.len() ==> first_space(s) == s.len(),
        k < s.len() && s[k] == ' ' ==> first_space(s) == k,
    decreases k,
{
    if k > 0 {
        lemma_first_space(s.drop_first(), k - 1);
    } else if s.len() > 0 {
    }
}

/// The text of `s` before its first space; all of `s` if it has none.
pub fn find_first_word(s: &str) -> (r: &str)
    ensures
        r@ == s@.subrange(0, first_space(s@)),
{
    let n = s.unicode_len();
    let mut i: usize = 0;
    while i < n
        invariant
            i <= n,
            n == s@.len(),
            forall|k: int| 0 <= k < i ==> s@[k] != ' ',
        decreases n - i,
    {
        if s.get_char(i) == ' ' {
            proof {
                lemma_first_space(s@, i as int);
            }
            return s.substring_char(0, i);
        }
        i = i + 1;
    }
    proof {
        lemma_first_space(s@, i as int);
    }
    s.substring_char(0, n)
}

} // verus!
