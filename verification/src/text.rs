//! Character-level helpers over `&str`: whitespace classification and
//! first-occurrence searches, each with an exact specification.

use vstd::prelude::*;

verus! {

/// The characters with the Unicode `White_Space` property, the set that
/// `str::split_whitespace` splits on.
pub open spec fn is_space(c: char) -> bool {
    let u = c as u32;
    (9 <= u && u <= 13) || u == 32 || u == 0x85 || u == 0xA0 || u == 0x1680 || (0x2000 <= u
        && u <= 0x200A) || u == 0x2028 || u == 0x2029 || u == 0x202F || u == 0x205F || u == 0x3000
}

pub fn space(c: char) -> (r: bool)
    ensures
        r == is_space(c),
{
    let u = c as u32;
    (9 <= u && u <= 13) || u == 32 || u == 0x85 || u == 0xA0 || u == 0x1680 || (0x2000 <= u
        && u <= 0x200A) || u == 0x2028 || u == 0x2029 || u == 0x202F || u == 0x205F || u == 0x3000
}

/// Index of the first occurrence of `c` at or after `from`; the length of the
/// sequence when there is none.
pub open spec fn spec_find_char(s: Seq<char>, c: char, from: int) -> int
    decreases s.len() - from,
{
    if from < 0 || from >= s.len() {
        s.len() as int
    } else if s[from] == c {
        from
    } else {
        spec_find_char(s, c, from + 1)
    }
}

proof fn lemma_find_char_at(s: Seq<char>, c: char, from: int, i: int)
    requires
        0 <= from <= i <= s.len(),
        forall|j: int| from <= j < i ==> s[j] != c,
        i == s.len() || s[i] == c,
    ensures
        spec_find_char(s, c, from) == i,
    decreases i - from,
{
    if from < i {
        lemma_find_char_at(s, c, from + 1, i);
    }
}

pub fn find_char(s: &str, c: char, from: usize) -> (r: usize)
    requires
        from <= s@.len(),
    ensures
        r == spec_find_char(s@, c, from as int),
        from <= r <= s@.len(),
        r < s@.len() ==> s@[r as int] == c,
        forall|j: int| from <= j < r ==> s@[j] != c,
{
    let n = s.unicode_len();
    let mut i = from;
    while i < n
        invariant
            from <= i <= n,
            n == s@.len(),
            forall|j: int| from <= j < i ==> s@[j] != c,
        decreases n - i,
    {
        if s.get_char(i) == c {
            proof {
                lemma_find_char_at(s@, c, from as int, i as int);
            }
            return i;
        }
        i += 1;
    }
    proof {
        lemma_find_char_at(s@, c, from as int, i as int);
    }
    i
}

/// Index of the first whitespace character at or after `from`; the length of
/// the sequence when there is none.
pub open spec fn spec_find_space(s: Seq<char>, from: int) -> int
    decreases s.len() - from,
{
    if from < 0 || from >= s.len() {
        s.len() as int
    } else if is_space(s[from]) {
        from
    } else {
        spec_find_space(s, from + 1)
    }
}

proof fn lemma_find_space_at(s: Seq<char>, from: int, i: int)
    requires
        0 <= from <= i <= s.len(),
        forall|j: int| from <= j < i ==> !is_space(s[j]),
        i == s.len() || is_space(s[i]),
    ensures
        spec_find_space(s, from) == i,
    decreases i - from,
{
    if from < i {
        lemma_find_space_at(s, from + 1, i);
    }
}

pub fn find_space(s: &str, from: usize) -> (r: usize)
    requires
        from <= s@.len(),
    ensures
        r == spec_find_space(s@, from as int),
        from <= r <= s@.len(),
{
    let n = s.unicode_len();
    let mut i = from;
    while i < n
        invariant
            from <= i <= n,
            n == s@.len(),
            forall|j: int| from <= j < i ==> !is_space(s@[j]),
        decreases n - i,
    {
        if space(s.get_char(i)) {
            proof {
                lemma_find_space_at(s@, from as int, i as int);
            }
            return i;
        }
        i += 1;
    }
    proof {
        lemma_find_space_at(s@, from as int, i as int);
    }
    i
}

} // verus!
