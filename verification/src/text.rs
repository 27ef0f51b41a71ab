//! Canonical text for scalar values.
//!
//! The matcher's equality and list operators compare a partition's value by
//! this text (see [`crate::matcher`]). Strings render as themselves; null as
//! `null`; booleans as `true`/`false`; integers, dates (days since epoch)
//! and timestamps (microseconds since epoch) as plain decimal numbers, the
//! way the kernel itself renders them; decimals with the scale's decimal
//! point inserted; binary as a bracketed byte list; floats as the decimal
//! rendering captured when the value was parsed.
use vstd::prelude::*;

use crate::scalar::{ScalarValue, ScalarView};

verus! {

/// The character for one decimal digit value.
pub open spec fn digit_char(d: int) -> char {
    ((d + 48) as u8) as char
}

/// The decimal digits of a natural number, most significant first.
pub open spec fn dec_digits(n: nat) -> Seq<char>
    decreases n,
{
    if n < 10 {
        seq![digit_char(n as int)]
    } else {
        dec_digits(n / 10).push(digit_char((n % 10) as int))
    }
}

/// The magnitude of an integer.
pub open spec fn int_abs(i: int) -> nat {
    if i < 0 {
        (-i) as nat
    } else {
        i as nat
    }
}

/// The decimal text of an integer, with a leading `-` when negative.
pub open spec fn int_text(i: int) -> Seq<char> {
    if i < 0 {
        seq!['-'] + dec_digits(int_abs(i))
    } else {
        dec_digits(int_abs(i))
    }
}

/// A run of `n` zero characters.
pub open spec fn zeros(n: nat) -> Seq<char> {
    Seq::new(n, |i: int| '0')
}

/// The text of a decimal value: the unscaled integer's digits with a
/// decimal point inserted `scale` places from the right, zero-padded when
/// the digits do not reach that far.
pub open spec fn decimal_text(bits: i128, scale: u8) -> Seq<char> {
    let ds = dec_digits(int_abs(bits as int));
    let sign = if bits < 0 {
        seq!['-']
    } else {
        Seq::<char>::empty()
    };
    if scale == 0 {
        int_text(bits as int)
    } else if ds.len() <= scale {
        sign + seq!['0', '.'] + zeros((scale - ds.len()) as nat) + ds
    } else {
        sign + ds.take(ds.len() - scale) + seq!['.'] + ds.skip(ds.len() - scale)
    }
}

/// The comma-separated decimal renderings of a byte sequence.
pub open spec fn bytes_joined(b: Seq<u8>) -> Seq<char>
    decreases b.len(),
{
    if b.len() == 0 {
        Seq::<char>::empty()
    } else if b.len() == 1 {
        dec_digits(b[0] as nat)
    } else {
        bytes_joined(b.drop_last()) + seq![',', ' '] + dec_digits(b.last() as nat)
    }
}

/// The text of a binary value: its bytes as a bracketed list.
pub open spec fn bytes_text(b: Seq<u8>) -> Seq<char> {
    seq!['['] + bytes_joined(b) + seq![']']
}

/// The canonical text of a scalar value.
pub open spec fn scalar_text(v: ScalarView) -> Seq<char> {
    match v {
        ScalarView::Null(_) => "null"@,
        ScalarView::Boolean(b) => if b {
            "true"@
        } else {
            "false"@
        },
        ScalarView::Byte(x) => int_text(x as int),
        ScalarView::Short(x) => int_text(x as int),
        ScalarView::Integer(x) => int_text(x as int),
        ScalarView::Long(x) => int_text(x as int),
        ScalarView::Float { text, .. } => text,
        ScalarView::Double { text, .. } => text,
        ScalarView::String(s) => s,
        ScalarView::Binary(b) => bytes_text(b),
        ScalarView::Date(x) => int_text(x as int),
        ScalarView::Timestamp(x) => int_text(x as int),
        ScalarView::TimestampNtz(x) => int_text(x as int),
        ScalarView::Decimal { bits, scale, .. } => decimal_text(bits, scale),
    }
}

fn digit_str(d: u8) -> (r: &'static str)
    requires
        d < 10,
    ensures
        r@ == seq![digit_char(d as int)],
{
    proof {
        reveal_strlit("0");
        reveal_strlit("1");
        reveal_strlit("2");
        reveal_strlit("3");
        reveal_strlit("4");
        reveal_strlit("5");
        reveal_strlit("6");
        reveal_strlit("7");
        reveal_strlit("8");
        reveal_strlit("9");
    }
    let r = match d {
        0 => "0",
        1 => "1",
        2 => "2",
        3 => "3",
        4 => "4",
        5 => "5",
        6 => "6",
        7 => "7",
        8 => "8",
        _ => "9",
    };
    proof {
        assert(r@ =~= seq![digit_char(d as int)]);
    }
    r
}

fn u128_text(n: u128) -> (r: String)
    ensures
        r@ == dec_digits(n as nat),
    decreases n,
{
    if n < 10 {
        digit_str(n as u8).to_owned()
    } else {
        let mut s = u128_text(n / 10);
        s.append(digit_str((n % 10) as u8));
        proof {
            assert(dec_digits((n / 10) as nat).push(digit_char((n % 10) as int)) =~=
                dec_digits((n / 10) as nat) + seq![digit_char((n % 10) as int)]);
        }
        s
    }
}

/// The magnitude of `i`, computed without overflowing on the smallest value.
fn i128_abs(i: i128) -> (r: u128)
    ensures
        r as nat == int_abs(i as int),
{
    if i < 0 {
        ((-(i + 1)) as u128) + 1
    } else {
        i as u128
    }
}

fn i128_text(i: i128) -> (r: String)
    ensures
        r@ == int_text(i as int),
{
    let mag = i128_abs(i);
    if i < 0 {
        let mut s = String::from_str("-");
        let ds = u128_text(mag);
        s.append(ds.as_str());
        proof {
            reveal_strlit("-");
            assert("-"@ + dec_digits(int_abs(i as int)) =~= seq!['-'] + dec_digits(
                int_abs(i as int),
            ));
        }
        s
    } else {
        u128_text(mag)
    }
}

/// Appends `k` zero characters to `s`.
fn push_zeros(s: &mut String, k: usize)
    ensures
        final(s)@ == old(s)@ + zeros(k as nat),
{
    let mut i: usize = 0;
    proof {
        assert(old(s)@ + zeros(0) =~= old(s)@);
    }
    while i < k
        invariant
            i <= k,
            s@ == old(s)@ + zeros(i as nat),
        decreases k - i,
    {
        s.append("0");
        proof {
            reveal_strlit("0");
            assert((old(s)@ + zeros(i as nat)) + "0"@ =~= old(s)@ + zeros(
                (i + 1) as nat,
            ));
        }
        i = i + 1;
    }
}

fn decimal_value_text(bits: i128, scale: u8) -> (r: String)
    ensures
        r@ == decimal_text(bits, scale),
{
    if scale == 0 {
        return i128_text(bits);
    }
    let mag = i128_abs(bits);
    let ds = u128_text(mag);
    let l = ds.unicode_len();
    let mut s = if bits < 0 {
        String::from_str("-")
    } else {
        String::new()
    };
    proof {
        reveal_strlit("-");
        assert("-"@ =~= seq!['-']);
    }
    if l <= scale as usize {
        s.append("0.");
        push_zeros(&mut s, scale as usize - l);
        s.append(ds.as_str());
        proof {
            reveal_strlit("0.");
            assert("0."@ =~= seq!['0', '.']);
            assert(s@ =~= decimal_text(bits, scale));
        }
    } else {
        let split = l - scale as usize;
        let head = ds.as_str().substring_char(0, split);
        let tail = ds.as_str().substring_char(split, l);
        s.append(head);
        s.append(".");
        s.append(tail);
        proof {
            reveal_strlit(".");
            assert("."@ =~= seq!['.']);
            assert(ds@.subrange(0, split as int) =~= ds@.take(split as int));
            assert(ds@.subrange(split as int, l as int) =~= ds@.skip(split as int));
            assert(s@ =~= decimal_text(bits, scale));
        }
    }
    s
}

fn binary_value_text(b: &Vec<u8>) -> (r: String)
    ensures
        r@ == bytes_text(b@),
{
    let mut s = String::from_str("[");
    proof {
        reveal_strlit("[");
        reveal_strlit("]");
        reveal_strlit(", ");
        assert(b@.take(0) =~= Seq::<u8>::empty());
        assert(s@ =~= seq!['['] + bytes_joined(b@.take(0)));
    }
    let mut i: usize = 0;
    while i < b.len()
        invariant
            i <= b@.len(),
            s@ == seq!['['] + bytes_joined(b@.take(i as int)),
        decreases b@.len() - i,
    {
        if i > 0 {
            s.append(", ");
        }
        let ds = u128_text(b[i] as u128);
        s.append(ds.as_str());
        proof {
            reveal_strlit(", ");
            assert(", "@ =~= seq![',', ' ']);
            assert(b@.take(i + 1).drop_last() =~= b@.take(i as int));
            assert(b@.take(i + 1).last() == b@[i as int]);
            if i == 0 {
                assert(b@.take(1).len() == 1);
                assert(s@ =~= seq!['['] + bytes_joined(b@.take(1)));
            } else {
                assert(s@ =~= seq!['['] + bytes_joined(b@.take(i + 1)));
            }
        }
        i = i + 1;
    }
    s.append("]");
    proof {
        assert(b@.take(b@.len() as int) =~= b@);
        assert(s@ =~= bytes_text(b@));
    }
    s
}

impl ScalarValue {
    /// Renders this scalar as its canonical text.
    pub fn serialize(&self) -> (r: String)
        ensures
            r@ == scalar_text(self@),
    {
        match self {
            ScalarValue::Null(_) => String::from_str("null"),
            ScalarValue::Boolean(b) => {
                if *b {
                    String::from_str("true")
                } else {
                    String::from_str("false")
                }
            },
            ScalarValue::Byte(x) => i128_text(*x as i128),
            ScalarValue::Short(x) => i128_text(*x as i128),
            ScalarValue::Integer(x) => i128_text(*x as i128),
            ScalarValue::Long(x) => i128_text(*x as i128),
            ScalarValue::Float { text, .. } => text.clone(),
            ScalarValue::Double { text, .. } => text.clone(),
            ScalarValue::String(s) => s.clone(),
            ScalarValue::Binary(b) => binary_value_text(b),
            ScalarValue::Date(x) => i128_text(*x as i128),
            ScalarValue::Timestamp(x) => i128_text(*x as i128),
            ScalarValue::TimestampNtz(x) => i128_text(*x as i128),
            ScalarValue::Decimal { bits, scale, .. } => decimal_value_text(*bits, *scale),
        }
    }
}

} // verus!
