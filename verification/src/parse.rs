//! Hand-rolled request parsing: the id segment of the path, the body after
//! the header block, and decimal ids.

use vstd::prelude::*;
use crate::text::{find_char, find_space, spec_find_char, spec_find_space};

verus! {

/// `s` truncated at its first whitespace character: empty when `s` starts
/// with whitespace, all of `s` when it holds none.
pub open spec fn spec_token(s: Seq<char>) -> Seq<char> {
    s.subrange(0, spec_find_space(s, 0))
}

/// The id segment of a `/users/<id>` path: the text between the second and
/// third `/` of the request (to the end when there is no third), truncated
/// at its first whitespace so the trailing protocol version falls away;
/// empty text when the request has fewer than two `/`.
pub open spec fn spec_get_id(s: Seq<char>) -> Seq<char> {
    let i1 = spec_find_char(s, '/', 0);
    if i1 == s.len() {
        Seq::empty()
    } else {
        let i2 = spec_find_char(s, '/', i1 + 1);
        if i2 == s.len() {
            Seq::empty()
        } else {
            let i3 = spec_find_char(s, '/', i2 + 1);
            spec_token(s.subrange(i2 + 1, i3))
        }
    }
}

/// Whether the four-character header/body separator `\r\n\r\n` stands at
/// index `i` of `s`.
pub open spec fn sep_at(s: Seq<char>, i: int) -> bool {
    &&& 0 <= i
    &&& i + 4 <= s.len()
    &&& s[i] == '\r'
    &&& s[i + 1] == '\n'
    &&& s[i + 2] == '\r'
    &&& s[i + 3] == '\n'
}

/// Index of the first separator at or after `from`; the length of the
/// sequence when there is none.
pub open spec fn spec_find_sep(s: Seq<char>, from: int) -> int
    decreases s.len() - from,
{
    if from < 0 || from + 4 > s.len() {
        s.len() as int
    } else if sep_at(s, from) {
        from
    } else {
        spec_find_sep(s, from + 1)
    }
}

proof fn lemma_find_sep_bounds(s: Seq<char>, from: int)
    requires
        0 <= from,
    ensures
        spec_find_sep(s, from) == s.len() || (from <= spec_find_sep(s, from) && sep_at(
            s,
            spec_find_sep(s, from),
        )),
    decreases s.len() - from,
{
    if !(from + 4 > s.len()) && !sep_at(s, from) {
        lemma_find_sep_bounds(s, from + 1);
    }
}

/// Start index of the last separator-delimited segment of `s`, with segment
/// boundaries found left to right (matches of the separator do not overlap);
/// `from` is where the current segment starts.
pub open spec fn spec_seg_start(s: Seq<char>, from: int) -> int
    decreases s.len() - from,
    via spec_seg_start_decreases
{
    if from < 0 {
        0
    } else {
        let q = spec_find_sep(s, from);
        if q == s.len() {
            from
        } else {
            spec_seg_start(s, q + 4)
        }
    }
}

#[via_fn]
proof fn spec_seg_start_decreases(s: Seq<char>, from: int) {
    if from >= 0 {
        lemma_find_sep_bounds(s, from);
    }
}

/// The body of a request: everything after the last header/body separator,
/// or the whole text when no separator occurs (the last segment that
/// splitting on the separator yields).
pub open spec fn spec_body(s: Seq<char>) -> Seq<char> {
    s.subrange(spec_seg_start(s, 0), s.len() as int)
}

proof fn lemma_find_sep_at(s: Seq<char>, from: int, i: int)
    requires
        0 <= from <= i,
        i + 4 <= s.len(),
        forall|j: int| from <= j < i ==> !sep_at(s, j),
        sep_at(s, i),
    ensures
        spec_find_sep(s, from) == i,
    decreases i - from,
{
    if from < i {
        lemma_find_sep_at(s, from + 1, i);
    }
}

proof fn lemma_find_sep_none(s: Seq<char>, from: int)
    requires
        0 <= from,
        forall|j: int| from <= j ==> !sep_at(s, j),
    ensures
        spec_find_sep(s, from) == s.len(),
    decreases s.len() - from,
{
    if !(from + 4 > s.len()) {
        lemma_find_sep_none(s, from + 1);
    }
}

pub fn get_body<'a>(request: &'a str) -> (r: &'a str)
    ensures
        r@ == spec_body(request@),
{
    let n = request.unicode_len();
    let mut start: usize = 0;
    let mut i: usize = 0;
    while i < n && n - i >= 4
        invariant
            start <= i <= n,
            n == request@.len(),
            spec_seg_start(request@, 0) == spec_seg_start(request@, start as int),
            forall|j: int| start <= j < i ==> !sep_at(request@, j),
        decreases n - i,
    {
        let found = request.get_char(i) == '\r' && request.get_char(i + 1) == '\n'
            && request.get_char(i + 2) == '\r' && request.get_char(i + 3) == '\n';
        if found {
            proof {
                lemma_find_sep_at(request@, start as int, i as int);
            }
            start = i + 4;
            i = i + 4;
        } else {
            proof {
                assert(!sep_at(request@, i as int));
            }
            i = i + 1;
        }
    }
    proof {
        assert forall|j: int| start <= j implies !sep_at(request@, j) by {
            if j < i {
            } else {
                assert(j + 4 > n);
            }
        }
        lemma_find_sep_none(request@, start as int);
        assert(spec_seg_start(request@, start as int) == start);
    }
    request.substring_char(start, n)
}

/// Whether `c` is an ASCII decimal digit.
pub open spec fn is_digit(c: char) -> bool {
    48 <= c as u32 && c as u32 <= 57
}

pub open spec fn digit_val(c: char) -> int {
    c as u32 - 48
}

pub open spec fn all_digits(s: Seq<char>) -> bool {
    forall|i: int| 0 <= i < s.len() ==> is_digit(s[i])
}

/// The value of a sequence of decimal digits, most significant first.
pub open spec fn digits_val(s: Seq<char>) -> int
    decreases s.len(),
{
    if s.len() == 0 {
        0
    } else {
        digits_val(s.drop_last()) * 10 + digit_val(s.last())
    }
}

/// What `str::parse::<i32>` accepts: an optional sign followed by one or
/// more ASCII digits, the value within the range of `i32`.
pub open spec fn spec_parse_i32(s: Seq<char>) -> Option<int> {
    if s.len() == 0 {
        None
    } else {
        let negative = s[0] == '-';
        let digits = if s[0] == '-' || s[0] == '+' {
            s.subrange(1, s.len() as int)
        } else {
            s
        };
        if digits.len() == 0 || !all_digits(digits) {
            None
        } else {
            let v = digits_val(digits);
            if negative {
                if v <= 0x8000_0000 {
                    Some(-v)
                } else {
                    None
                }
            } else {
                if v <= 0x7FFF_FFFF {
                    Some(v)
                } else {
                    None
                }
            }
        }
    }
}

fn digit(c: char) -> (r: bool)
    ensures
        r == is_digit(c),
{
    let u = c as u32;
    48 <= u && u <= 57
}

pub fn parse_i32(s: &str) -> (r: Option<i32>)
    ensures
        r matches Some(v) ==> spec_parse_i32(s@) == Some(v as int),
        r is None ==> spec_parse_i32(s@) is None,
{
    let n = s.unicode_len();
    if n == 0 {
        return None;
    }
    let c0 = s.get_char(0);
    let negative = c0 == '-';
    let start: usize = if c0 == '-' || c0 == '+' {
        1
    } else {
        0
    };
    if start == n {
        return None;
    }
    let ghost digits: Seq<char> = if start == 1 {
        s@.subrange(1, n as int)
    } else {
        s@
    };
    let mut i = start;
    let mut acc: i64 = 0;
    let mut over = false;
    while i < n
        invariant
            start <= i <= n,
            start <= 1,
            start < n,
            n == s@.len(),
            negative == (s@[0] == '-'),
            start == 1 <==> (s@[0] == '-' || s@[0] == '+'),
            digits == (if start == 1 {
                s@.subrange(1, n as int)
            } else {
                s@
            }),
            forall|j: int| start <= j < i ==> is_digit(s@[j]),
            !over ==> 0 <= acc <= 0x8000_0000 && acc == digits_val(
                s@.subrange(start as int, i as int),
            ),
            over ==> digits_val(s@.subrange(start as int, i as int)) > 0x8000_0000,
        decreases n - i,
    {
        let c = s.get_char(i);
        if !digit(c) {
            proof {
                assert(!all_digits(digits)) by {
                    assert(digits[i - start] == s@[i as int]);
                }
            }
            return None;
        }
        let d: i64 = (c as u32 - 48) as i64;
        proof {
            assert(s@.subrange(start as int, i + 1 as int).drop_last() =~= s@.subrange(
                start as int,
                i as int,
            ));
            assert(s@.subrange(start as int, i + 1 as int).last() == s@[i as int]);
        }
        if !over {
            acc = acc * 10 + d;
            if acc > 0x8000_0000 {
                over = true;
            }
        } else {
            proof {
                let prev = digits_val(s@.subrange(start as int, i as int));
                assert(digits_val(s@.subrange(start as int, i + 1 as int)) == prev * 10 + digit_val(
                    s@[i as int],
                ));
                assert(prev * 10 >= prev + prev) by (nonlinear_arith)
                    requires
                        prev >= 0,
                ;
            }
        }
        i += 1;
    }
    proof {
        assert(s@.subrange(start as int, n as int) =~= digits);
        assert(all_digits(digits));
    }
    if over {
        return None;
    }
    if negative {
        proof {
            assert(-0x8000_0000 <= -acc <= 0);
        }
        Some((-acc) as i32)
    } else {
        if acc > 0x7FFF_FFFF {
            return None;
        }
        Some(acc as i32)
    }
}

pub fn get_id<'a>(request: &'a str) -> (r: &'a str)
    ensures
        r@ == spec_get_id(request@),
{
    let n = request.unicode_len();
    let i1 = find_char(request, '/', 0);
    if i1 == n {
        let empty = request.substring_char(0, 0);
        proof {
            assert(empty@ =~= spec_get_id(request@));
        }
        return empty;
    }
    let i2 = find_char(request, '/', i1 + 1);
    if i2 == n {
        let empty = request.substring_char(0, 0);
        proof {
            assert(empty@ =~= spec_get_id(request@));
        }
        return empty;
    }
    let i3 = find_char(request, '/', i2 + 1);
    let seg = request.substring_char(i2 + 1, i3);
    let b = find_space(seg, 0);
    let tok = seg.substring_char(0, b);
    proof {
        assert(tok@ =~= spec_get_id(request@));
    }
    tok
}

} // verus!
