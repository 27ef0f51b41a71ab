//! The partial order on scalar values.
//!
//! Same-kind values compare by their kind's natural total order; null
//! compares equal to null, below every non-null value; decimals compare by
//! their unscaled integers only when precision and scale agree; every other
//! pairing is incomparable. Incomparable pairs yield `None`, which every
//! consumer treats as "no match".
use vstd::prelude::*;

use crate::scalar::{ScalarValue, ScalarView};
use core::cmp::Ordering;

verus! {

/// The total order on mathematical integers, as an `Ordering`.
pub open spec fn num_cmp(x: int, y: int) -> Ordering {
    if x < y {
        Ordering::Less
    } else if x == y {
        Ordering::Equal
    } else {
        Ordering::Greater
    }
}

/// Lexicographic order on character sequences, by code point.
pub open spec fn char_seq_cmp(a: Seq<char>, b: Seq<char>) -> Ordering
    decreases a.len(),
{
    if a.len() == 0 && b.len() == 0 {
        Ordering::Equal
    } else if a.len() == 0 {
        Ordering::Less
    } else if b.len() == 0 {
        Ordering::Greater
    } else if a[0] != b[0] {
        num_cmp(a[0] as int, b[0] as int)
    } else {
        char_seq_cmp(a.skip(1), b.skip(1))
    }
}

/// Lexicographic order on byte sequences.
pub open spec fn byte_seq_cmp(a: Seq<u8>, b: Seq<u8>) -> Ordering
    decreases a.len(),
{
    if a.len() == 0 && b.len() == 0 {
        Ordering::Equal
    } else if a.len() == 0 {
        Ordering::Less
    } else if b.len() == 0 {
        Ordering::Greater
    } else if a[0] != b[0] {
        num_cmp(a[0] as int, b[0] as int)
    } else {
        byte_seq_cmp(a.skip(1), b.skip(1))
    }
}

/// True on the bit patterns that IEEE 754 reads as a 32-bit NaN.
pub open spec fn f32_is_nan(bits: u32) -> bool {
    bits & 0x7f80_0000 == 0x7f80_0000 && bits & 0x007f_ffff != 0
}

/// The sign-magnitude key under which 32-bit IEEE 754 values (NaN aside)
/// order exactly as the floats they encode; both zeros map to key 0.
pub open spec fn f32_key(bits: u32) -> int {
    if bits >> 31 == 0 {
        (bits & 0x7fff_ffff) as int
    } else {
        -((bits & 0x7fff_ffff) as int)
    }
}

/// The IEEE 754 partial order on 32-bit float bit patterns.
pub open spec fn float32_cmp(a: u32, b: u32) -> Option<Ordering> {
    if f32_is_nan(a) || f32_is_nan(b) {
        None
    } else {
        Some(num_cmp(f32_key(a), f32_key(b)))
    }
}

/// True on the bit patterns that IEEE 754 reads as a 64-bit NaN.
pub open spec fn f64_is_nan(bits: u64) -> bool {
    bits & 0x7ff0_0000_0000_0000 == 0x7ff0_0000_0000_0000
        && bits & 0x000f_ffff_ffff_ffff != 0
}

/// The sign-magnitude key for 64-bit IEEE 754 values; see [`f32_key`].
pub open spec fn f64_key(bits: u64) -> int {
    if bits >> 63 == 0 {
        (bits & 0x7fff_ffff_ffff_ffff) as int
    } else {
        -((bits & 0x7fff_ffff_ffff_ffff) as int)
    }
}

/// The IEEE 754 partial order on 64-bit float bit patterns.
pub open spec fn float64_cmp(a: u64, b: u64) -> Option<Ordering> {
    if f64_is_nan(a) || f64_is_nan(b) {
        None
    } else {
        Some(num_cmp(f64_key(a), f64_key(b)))
    }
}

/// The partial order on scalar values.
pub open spec fn scalar_cmp(a: ScalarView, b: ScalarView) -> Option<Ordering> {
    match (a, b) {
        (ScalarView::Null(_), ScalarView::Null(_)) => Some(Ordering::Equal),
        (ScalarView::Boolean(x), ScalarView::Boolean(y)) => Some(
            num_cmp(x as int, y as int),
        ),
        (ScalarView::Byte(x), ScalarView::Byte(y)) => Some(num_cmp(x as int, y as int)),
        (ScalarView::Short(x), ScalarView::Short(y)) => Some(num_cmp(x as int, y as int)),
        (ScalarView::Integer(x), ScalarView::Integer(y)) => Some(
            num_cmp(x as int, y as int),
        ),
        (ScalarView::Long(x), ScalarView::Long(y)) => Some(num_cmp(x as int, y as int)),
        (
            ScalarView::Float { bits: x, .. },
            ScalarView::Float { bits: y, .. },
        ) => float32_cmp(x, y),
        (
            ScalarView::Double { bits: x, .. },
            ScalarView::Double { bits: y, .. },
        ) => float64_cmp(x, y),
        (ScalarView::String(x), ScalarView::String(y)) => Some(char_seq_cmp(x, y)),
        (ScalarView::Binary(x), ScalarView::Binary(y)) => Some(byte_seq_cmp(x, y)),
        (ScalarView::Date(x), ScalarView::Date(y)) => Some(num_cmp(x as int, y as int)),
        (ScalarView::Timestamp(x), ScalarView::Timestamp(y)) => Some(
            num_cmp(x as int, y as int),
        ),
        (ScalarView::TimestampNtz(x), ScalarView::TimestampNtz(y)) => Some(
            num_cmp(x as int, y as int),
        ),
        (
            ScalarView::Decimal { bits: x, precision: p1, scale: s1 },
            ScalarView::Decimal { bits: y, precision: p2, scale: s2 },
        ) => if p1 == p2 && s1 == s2 {
            Some(num_cmp(x as int, y as int))
        } else {
            None
        },
        (ScalarView::Null(_), _) => Some(Ordering::Less),
        (_, ScalarView::Null(_)) => Some(Ordering::Greater),
        _ => None,
    }
}

/// Decimals whose precision or scale differ are incomparable, whatever
/// their unscaled integers: the order never rescales one operand to the
/// other's type.
pub proof fn lemma_decimal_mismatch_incomparable(
    x: i128,
    p1: u8,
    s1: u8,
    y: i128,
    p2: u8,
    s2: u8,
)
    requires
        p1 != p2 || s1 != s2,
    ensures
        scalar_cmp(
            ScalarView::Decimal { bits: x, precision: p1, scale: s1 },
            ScalarView::Decimal { bits: y, precision: p2, scale: s2 },
        ) is None,
{
}

fn cmp_i128(x: i128, y: i128) -> (r: Ordering)
    ensures
        r == num_cmp(x as int, y as int),
{
    if x < y {
        Ordering::Less
    } else if x == y {
        Ordering::Equal
    } else {
        Ordering::Greater
    }
}

fn cmp_f32_bits(a: u32, b: u32) -> (r: Option<Ordering>)
    ensures
        r == float32_cmp(a, b),
{
    let a_nan = a & 0x7f80_0000 == 0x7f80_0000 && a & 0x007f_ffff != 0;
    let b_nan = b & 0x7f80_0000 == 0x7f80_0000 && b & 0x007f_ffff != 0;
    if a_nan || b_nan {
        None
    } else {
        assert(a & 0x7fff_ffff <= 0x7fff_ffff && b & 0x7fff_ffff <= 0x7fff_ffff)
            by (bit_vector);
        let ka: i128 = if a >> 31 == 0 {
            (a & 0x7fff_ffff) as i128
        } else {
            -((a & 0x7fff_ffff) as i128)
        };
        let kb: i128 = if b >> 31 == 0 {
            (b & 0x7fff_ffff) as i128
        } else {
            -((b & 0x7fff_ffff) as i128)
        };
        Some(cmp_i128(ka, kb))
    }
}

fn cmp_f64_bits(a: u64, b: u64) -> (r: Option<Ordering>)
    ensures
        r == float64_cmp(a, b),
{
    let a_nan = a & 0x7ff0_0000_0000_0000 == 0x7ff0_0000_0000_0000
        && a & 0x000f_ffff_ffff_ffff != 0;
    let b_nan = b & 0x7ff0_0000_0000_0000 == 0x7ff0_0000_0000_0000
        && b & 0x000f_ffff_ffff_ffff != 0;
    if a_nan || b_nan {
        None
    } else {
        assert(a & 0x7fff_ffff_ffff_ffff <= 0x7fff_ffff_ffff_ffff
            && b & 0x7fff_ffff_ffff_ffff <= 0x7fff_ffff_ffff_ffff) by (bit_vector);
        let ka: i128 = if a >> 63 == 0 {
            (a & 0x7fff_ffff_ffff_ffff) as i128
        } else {
            -((a & 0x7fff_ffff_ffff_ffff) as i128)
        };
        let kb: i128 = if b >> 63 == 0 {
            (b & 0x7fff_ffff_ffff_ffff) as i128
        } else {
            -((b & 0x7fff_ffff_ffff_ffff) as i128)
        };
        Some(cmp_i128(ka, kb))
    }
}

/// Compares two strings lexicographically by code point.
fn cmp_str(a: &str, b: &str) -> (r: Ordering)
    ensures
        r == char_seq_cmp(a@, b@),
{
    let a_len = a.unicode_len();
    let b_len = b.unicode_len();
    let mut i: usize = 0;
    proof {
        assert(a@.skip(0) =~= a@);
        assert(b@.skip(0) =~= b@);
    }
    loop
        invariant
            i <= a_len,
            i <= b_len,
            a_len == a@.len(),
            b_len == b@.len(),
            char_seq_cmp(a@, b@) == char_seq_cmp(a@.skip(i as int), b@.skip(i as int)),
        decreases a_len - i,
    {
        if i == a_len && i == b_len {
            return Ordering::Equal;
        }
        if i == a_len {
            return Ordering::Less;
        }
        if i == b_len {
            return Ordering::Greater;
        }
        let ca = a.get_char(i);
        let cb = b.get_char(i);
        if ca != cb {
            let r = if (ca as u32) < (cb as u32) {
                Ordering::Less
            } else {
                Ordering::Greater
            };
            return r;
        }
        proof {
            assert(a@.skip(i as int).skip(1) =~= a@.skip(i + 1));
            assert(b@.skip(i as int).skip(1) =~= b@.skip(i + 1));
        }
        i = i + 1;
    }
}

/// Compares two byte strings lexicographically.
fn cmp_bytes(a: &Vec<u8>, b: &Vec<u8>) -> (r: Ordering)
    ensures
        r == byte_seq_cmp(a@, b@),
{
    let a_len = a.len();
    let b_len = b.len();
    let mut i: usize = 0;
    proof {
        assert(a@.skip(0) =~= a@);
        assert(b@.skip(0) =~= b@);
    }
    loop
        invariant
            i <= a_len,
            i <= b_len,
            a_len == a@.len(),
            b_len == b@.len(),
            byte_seq_cmp(a@, b@) == byte_seq_cmp(a@.skip(i as int), b@.skip(i as int)),
        decreases a_len - i,
    {
        if i == a_len && i == b_len {
            return Ordering::Equal;
        }
        if i == a_len {
            return Ordering::Less;
        }
        if i == b_len {
            return Ordering::Greater;
        }
        let ca = a[i];
        let cb = b[i];
        if ca != cb {
            let r = if ca < cb {
                Ordering::Less
            } else {
                Ordering::Greater
            };
            return r;
        }
        proof {
            assert(a@.skip(i as int).skip(1) =~= a@.skip(i + 1));
            assert(b@.skip(i as int).skip(1) =~= b@.skip(i + 1));
        }
        i = i + 1;
    }
}

impl ScalarValue {
    /// Applies the scalar domain's partial order to `self` and `other`;
    /// `None` marks an incomparable pair.
    pub fn partial_compare(&self, other: &Self) -> (r: Option<Ordering>)
        ensures
            r == scalar_cmp(self@, other@),
    {
        match (self, other) {
            (ScalarValue::Null(_), ScalarValue::Null(_)) => Some(Ordering::Equal),
            (ScalarValue::Boolean(x), ScalarValue::Boolean(y)) => {
                let r = if x == y {
                    Ordering::Equal
                } else if !*x {
                    Ordering::Less
                } else {
                    Ordering::Greater
                };
                Some(r)
            },
            (ScalarValue::Byte(x), ScalarValue::Byte(y)) => Some(
                cmp_i128(*x as i128, *y as i128),
            ),
            (ScalarValue::Short(x), ScalarValue::Short(y)) => Some(
                cmp_i128(*x as i128, *y as i128),
            ),
            (ScalarValue::Integer(x), ScalarValue::Integer(y)) => Some(
                cmp_i128(*x as i128, *y as i128),
            ),
            (ScalarValue::Long(x), ScalarValue::Long(y)) => Some(
                cmp_i128(*x as i128, *y as i128),
            ),
            (
                ScalarValue::Float { bits: x, .. },
                ScalarValue::Float { bits: y, .. },
            ) => cmp_f32_bits(*x, *y),
            (
                ScalarValue::Double { bits: x, .. },
                ScalarValue::Double { bits: y, .. },
            ) => cmp_f64_bits(*x, *y),
            (ScalarValue::String(x), ScalarValue::String(y)) => Some(
                cmp_str(x.as_str(), y.as_str()),
            ),
            (ScalarValue::Binary(x), ScalarValue::Binary(y)) => Some(cmp_bytes(x, y)),
            (ScalarValue::Date(x), ScalarValue::Date(y)) => Some(
                cmp_i128(*x as i128, *y as i128),
            ),
            (ScalarValue::Timestamp(x), ScalarValue::Timestamp(y)) => Some(
                cmp_i128(*x as i128, *y as i128),
            ),
            (ScalarValue::TimestampNtz(x), ScalarValue::TimestampNtz(y)) => Some(
                cmp_i128(*x as i128, *y as i128),
            ),
            (
                ScalarValue::Decimal { bits: x, precision: p1, scale: s1 },
                ScalarValue::Decimal { bits: y, precision: p2, scale: s2 },
            ) => {
                if p1 == p2 && s1 == s2 {
                    Some(cmp_i128(*x, *y))
                } else {
                    None
                }
            },
            (ScalarValue::Null(_), _) => Some(Ordering::Less),
            (_, ScalarValue::Null(_)) => Some(Ordering::Greater),
            _ => None,
        }
    }
}

} // verus!
