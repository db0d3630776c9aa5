//! Parsing of the per-CPU topology attribute.
//!
//! The operating system exposes each CPU's physical package id as a small
//! text file holding the id as ASCII decimal, possibly NUL-padded and
//! whitespace-padded. The parser takes the raw bytes the caller read and
//! yields the package id, or `InvalidPackage` when the content is not a
//! clean integer after trimming trailing NUL padding and surrounding
//! whitespace.

use crate::error::Error;
use vstd::prelude::*;

verus! {

/// An ASCII whitespace byte, as trimming understands it.
pub open spec fn is_ascii_ws(b: u8) -> bool {
    b == 0x20 || (0x09 <= b && b <= 0x0D)
}

/// The sequence with its trailing NUL padding removed.
pub open spec fn strip_trailing_nuls(s: Seq<u8>) -> Seq<u8>
    decreases s.len(),
{
    if s.len() > 0 && s[s.len() - 1] == 0 {
        strip_trailing_nuls(s.drop_last())
    } else {
        s
    }
}

/// The sequence with its trailing whitespace removed.
pub open spec fn strip_trailing_ws(s: Seq<u8>) -> Seq<u8>
    decreases s.len(),
{
    if s.len() > 0 && is_ascii_ws(s[s.len() - 1]) {
        strip_trailing_ws(s.drop_last())
    } else {
        s
    }
}

/// The sequence with its leading whitespace removed.
pub open spec fn strip_leading_ws(s: Seq<u8>) -> Seq<u8>
    decreases s.len(),
{
    if s.len() > 0 && is_ascii_ws(s[0]) {
        strip_leading_ws(s.subrange(1, s.len() as int))
    } else {
        s
    }
}

/// The attribute text after removing trailing NUL padding first, then the
/// whitespace around what is left.
pub open spec fn trimmed(s: Seq<u8>) -> Seq<u8> {
    strip_leading_ws(strip_trailing_ws(strip_trailing_nuls(s)))
}

/// An ASCII decimal digit byte.
pub open spec fn is_digit(b: u8) -> bool {
    0x30 <= b && b <= 0x39
}

/// Whether every byte of the sequence is a decimal digit.
pub open spec fn all_digits(s: Seq<u8>) -> bool {
    forall|i: int| 0 <= i < s.len() ==> is_digit(#[trigger] s[i])
}

/// The value of a sequence of decimal digit bytes, most significant
/// first.
pub open spec fn digits_value(s: Seq<u8>) -> int
    decreases s.len(),
{
    if s.len() == 0 {
        0
    } else {
        digits_value(s.drop_last()) * 10 + (s[s.len() - 1] - 0x30)
    }
}

/// The digit part of a trimmed integer: a written integer may carry one
/// leading plus sign.
pub open spec fn digit_part(s: Seq<u8>) -> Seq<u8> {
    if s.len() > 0 && s[0] == 0x2B {
        s.subrange(1, s.len() as int)
    } else {
        s
    }
}

/// What the topology attribute parses to: the package id, when the
/// attribute holds a clean unsigned decimal integer — at least one digit,
/// nothing but digits after an optional sign, value within `u32` — after
/// trimming; nothing otherwise.
pub open spec fn spec_parse_package(s: Seq<u8>) -> Option<u32> {
    let d = digit_part(trimmed(s));
    if d.len() > 0 && all_digits(d) && digits_value(d) <= u32::MAX {
        Some(digits_value(d) as u32)
    } else {
        None
    }
}

/// The value of a digit sequence is never negative.
proof fn lemma_digits_value_nonneg(s: Seq<u8>)
    requires
        all_digits(s),
    ensures
        digits_value(s) >= 0,
    decreases s.len(),
{
    if s.len() > 0 {
        lemma_digits_value_nonneg(s.drop_last());
    }
}

/// A prefix of a digit sequence never has a larger value than the whole.
proof fn lemma_digits_value_prefix_le(s: Seq<u8>, k: int)
    requires
        all_digits(s),
        0 <= k <= s.len(),
    ensures
        digits_value(s.take(k)) <= digits_value(s),
    decreases s.len() - k,
{
    if k == s.len() {
        assert(s.take(k) =~= s);
    } else {
        assert(s.take(k + 1).drop_last() =~= s.take(k));
        assert(all_digits(s.take(k)));
        lemma_digits_value_nonneg(s.take(k));
        assert(digits_value(s.take(k + 1)) == digits_value(s.take(k)) * 10 + (s[k] - 0x30));
        lemma_digits_value_prefix_le(s, k + 1);
    }
}

/// Parse the raw bytes of a topology attribute into a package id.
///
/// Succeeds exactly on content that is a clean unsigned decimal integer
/// after trimming trailing NUL padding and surrounding whitespace; any
/// other content fails with `InvalidPackage`.
pub fn parse_package_id(data: &[u8]) -> (r: Result<u32, Error>)
    ensures
        match r {
            Ok(p) => spec_parse_package(data@) == Some(p),
            Err(e) => spec_parse_package(data@) is None && e is InvalidPackage,
        },
{
    let len: usize = data.len();
    let mut end: usize = len;
    proof {
        assert(data@.take(len as int) =~= data@);
    }
    while end > 0 && data[end - 1] == 0
        invariant
            end <= len,
            len == data@.len(),
            strip_trailing_nuls(data@) == strip_trailing_nuls(data@.take(end as int)),
        decreases end,
    {
        proof {
            assert(data@.take(end as int).drop_last() =~= data@.take(end as int - 1));
        }
        end = end - 1;
    }
    proof {
        assert(data@.take(len as int) =~= data@);
        assert(strip_trailing_nuls(data@) == data@.take(end as int));
    }
    let ghost nul_stripped = data@.take(end as int);

    while end > 0 && is_ws_byte(data[end - 1])
        invariant
            end <= len,
            len == data@.len(),
            data@.take(end as int).len() <= nul_stripped.len(),
            data@.take(end as int) =~= nul_stripped.take(end as int),
            strip_trailing_ws(nul_stripped) == strip_trailing_ws(data@.take(end as int)),
        decreases end,
    {
        proof {
            assert(data@.take(end as int).drop_last() =~= data@.take(end as int - 1));
        }
        end = end - 1;
    }
    proof {
        assert(strip_trailing_ws(nul_stripped) == data@.take(end as int));
    }
    let ghost ws_stripped = data@.take(end as int);

    let mut start: usize = 0;
    while start < end && is_ws_byte(data[start])
        invariant
            start <= end <= len,
            len == data@.len(),
            ws_stripped == data@.take(end as int),
            strip_leading_ws(ws_stripped) == strip_leading_ws(
                data@.subrange(start as int, end as int),
            ),
        decreases end - start,
    {
        proof {
            assert(data@.subrange(start as int, end as int).subrange(
                1,
                data@.subrange(start as int, end as int).len() as int,
            ) =~= data@.subrange(start as int + 1, end as int));
        }
        start = start + 1;
    }
    proof {
        assert(ws_stripped.take(0) =~= data@.subrange(0, 0));
        assert(strip_leading_ws(ws_stripped) == data@.subrange(start as int, end as int));
        assert(trimmed(data@) == data@.subrange(start as int, end as int));
    }
    let ghost t = data@.subrange(start as int, end as int);

    if start < end && data[start] == 0x2B {
        start = start + 1;
        proof {
            assert(digit_part(t) =~= data@.subrange(start as int, end as int));
        }
    }
    let ghost d = data@.subrange(start as int, end as int);
    proof {
        assert(digit_part(t) =~= d);
    }

    if start == end {
        return Err(Error::InvalidPackage);
    }

    let mut acc: u64 = 0;
    let mut i: usize = start;
    while i < end
        invariant
            start <= i <= end <= len,
            len == data@.len(),
            d == data@.subrange(start as int, end as int),
            d == digit_part(trimmed(data@)),
            d.len() > 0,
            all_digits(data@.subrange(start as int, i as int)),
            acc == digits_value(data@.subrange(start as int, i as int)),
            acc <= u32::MAX,
        decreases end - i,
    {
        let b = data[i];
        if b < 0x30 || b > 0x39 {
            proof {
                assert(d[i as int - start as int] == b);
                assert(!all_digits(d));
            }
            return Err(Error::InvalidPackage);
        }
        proof {
            assert(data@.subrange(start as int, i as int + 1).drop_last() =~= data@.subrange(
                start as int,
                i as int,
            ));
        }
        acc = acc * 10 + ((b - 0x30) as u64);
        i = i + 1;
        if acc > 0xFFFF_FFFF {
            proof {
                assert(data@.subrange(start as int, i as int) =~= d.take(i as int - start as int));
                if all_digits(d) {
                    lemma_digits_value_prefix_le(d, i as int - start as int);
                }
            }
            return Err(Error::InvalidPackage);
        }
    }
    proof {
        assert(data@.subrange(start as int, i as int) =~= d);
    }
    Ok(acc as u32)
}

/// Whether a byte is ASCII whitespace.
fn is_ws_byte(b: u8) -> (r: bool)
    ensures
        r == is_ascii_ws(b),
{
    b == 0x20 || (0x09 <= b && b <= 0x0D)
}

} // verus!
