use vstd::prelude::*;

use crate::error::PostError;

verus! {

pub open spec fn is_digit(c: char) -> bool {
    '0' <= c && c <= '9'
}

pub open spec fn digit_value(c: char) -> nat {
    (c as int - '0' as int) as nat
}

pub open spec fn all_digits(s: Seq<char>) -> bool {
    forall|i: int| 0 <= i < s.len() ==> is_digit(#[trigger] s[i])
}

/// The number that the decimal digits `s` spell out.
pub open spec fn digits_value(s: Seq<char>) -> nat
    decreases s.len(),
{
    if s.len() == 0 {
        0
    } else {
        digits_value(s.drop_last()) * 10 + digit_value(s.last())
    }
}

/// `s` without one leading plus sign.
pub open spec fn unsigned_part(s: Seq<char>) -> Seq<char> {
    if s.len() > 0 && s[0] == '+' {
        s.drop_first()
    } else {
        s
    }
}

/// `s` is an optional `+` followed by at least one decimal digit, and the
/// number fits in a `usize`.
pub open spec fn is_id_numeral(s: Seq<char>) -> bool {
    let d = unsigned_part(s);
    &&& d.len() > 0
    &&& all_digits(d)
    &&& digits_value(d) <= usize::MAX
}

/// The id that the numeral `s` spells out.
pub open spec fn numeral_value(s: Seq<char>) -> nat {
    digits_value(unsigned_part(s))
}

/// A prefix of a run of digits is worth no more than the whole run.
pub proof fn lemma_prefix_value_le(s: Seq<char>, k: int)
    requires
        0 <= k <= s.len(),
    ensures
        digits_value(s.subrange(0, k)) <= digits_value(s),
    decreases s.len(),
{
    if k < s.len() {
        assert(s.drop_last().subrange(0, k) =~= s.subrange(0, k));
        lemma_prefix_value_le(s.drop_last(), k);
    } else {
        assert(s.subrange(0, k) =~= s);
    }
}

/// The id that the route parameter `raw` names, if it names one.
pub open spec fn param_id(raw: Option<&str>) -> Option<usize> {
    match raw {
        None => None,
        Some(s) => if is_id_numeral(s@) {
            Some(numeral_value(s@) as usize)
        } else {
            None
        },
    }
}

/// The parameters of a post page: the id of the post.
#[derive(Copy, Clone, Debug, PartialEq, Eq, Structural)]
pub struct PostParams {
    pub id: usize,
}

impl PostParams {
    /// Reads the post id out of the route parameter `raw`; a missing or
    /// malformed parameter is `InvalidId`.
    pub fn from_param(raw: Option<&str>) -> (r: Result<PostParams, PostError>)
        ensures
            r == match param_id(raw) {
                Some(id) => Ok::<PostParams, PostError>(PostParams { id }),
                None => Err::<PostParams, PostError>(PostError::InvalidId),
            },
    {
        let s = match raw {
            None => return Err(PostError::InvalidId),
            Some(s) => s,
        };
        let n = s.unicode_len();
        let start: usize = if n > 0 && s.get_char(0) == '+' { 1 } else { 0 };
        let ghost d = unsigned_part(s@);
        assert(d =~= s@.subrange(start as int, n as int));
        if start == n {
            return Err(PostError::InvalidId);
        }
        let mut acc: usize = 0;
        let mut i: usize = start;
        while i < n
            invariant
                raw == Some(s),
                n == s@.len(),
                start <= i <= n,
                d == s@.subrange(start as int, n as int),
                d == unsigned_part(s@),
                all_digits(d.subrange(0, i - start)),
                acc == digits_value(d.subrange(0, i - start)),
            decreases n - i,
        {
            let c = s.get_char(i);
            let ghost k = i - start;
            assert(d[k] == c);
            if !('0' <= c && c <= '9') {
                assert(!all_digits(d));
                return Err(PostError::InvalidId);
            }
            let v: usize = (c as u32 - 48) as usize;
            let ghost next = d.subrange(0, k + 1);
            assert(next.drop_last() =~= d.subrange(0, k));
            assert(digits_value(next) == acc * 10 + v);
            let bad = match acc.checked_mul(10) {
                None => true,
                Some(m) => match m.checked_add(v) {
                    None => true,
                    Some(t) => {
                        acc = t;
                        false
                    },
                },
            };
            if bad {
                proof {
                    if all_digits(d) {
                        lemma_prefix_value_le(d, k + 1);
                    }
                }
                return Err(PostError::InvalidId);
            }
            i += 1;
        }
        assert(d.subrange(0, n - start) =~= d);
        Ok(PostParams { id: acc })
    }
}

} // verus!
