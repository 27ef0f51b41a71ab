//! The scalar value domain of partition columns: a tagged union of primitive
//! values with a partial order (see [`crate::ord`]).
use vstd::prelude::*;

verus! {

/// The primitive column types that partition values can take.
///
/// A decimal type carries the precision and scale that its values are
/// declared with.
#[derive(Clone, Copy, Debug, PartialEq, Eq, Structural)]
pub enum PrimitiveKind {
    Boolean,
    Byte,
    Short,
    Integer,
    Long,
    Float,
    Double,
    String,
    Binary,
    Date,
    Timestamp,
    TimestampNtz,
    Decimal { precision: u8, scale: u8 },
}

/// A column's declared type: a primitive type, or any nested (struct, array,
/// map) type, which never participates in partition comparisons.
#[derive(Clone, Copy, Debug, PartialEq, Eq, Structural)]
pub enum DataType {
    Primitive(PrimitiveKind),
    Complex,
}

/// A typed partition value.
///
/// Integral, boolean, string, binary, date and timestamp values are held as
/// plain values (dates as days since the Unix epoch, timestamps as
/// microseconds since the Unix epoch). A decimal is held as its unscaled
/// integer together with its precision and scale. A floating-point value is
/// held as the engine's scalar (`raw`, carried through for predicate
/// hand-off), its IEEE 754 bit pattern (`bits`, which the partial order
/// reads), and its decimal rendering (`text`, which serialization reads).
#[derive(Clone, Debug, PartialEq)]
pub enum ScalarValue {
    Null(DataType),
    Boolean(bool),
    Byte(i8),
    Short(i16),
    Integer(i32),
    Long(i64),
    Float { raw: delta_kernel::expressions::Scalar, bits: u32, text: String },
    Double { raw: delta_kernel::expressions::Scalar, bits: u64, text: String },
    String(String),
    Binary(Vec<u8>),
    Date(i32),
    Timestamp(i64),
    TimestampNtz(i64),
    Decimal { bits: i128, precision: u8, scale: u8 },
}

/// The mathematical value of a [`ScalarValue`]: text as character sequences,
/// binary as a byte sequence, everything else as in the scalar itself.
pub enum ScalarView {
    Null(DataType),
    Boolean(bool),
    Byte(i8),
    Short(i16),
    Integer(i32),
    Long(i64),
    Float { raw: delta_kernel::expressions::Scalar, bits: u32, text: Seq<char> },
    Double { raw: delta_kernel::expressions::Scalar, bits: u64, text: Seq<char> },
    String(Seq<char>),
    Binary(Seq<u8>),
    Date(i32),
    Timestamp(i64),
    TimestampNtz(i64),
    Decimal { bits: i128, precision: u8, scale: u8 },
}

impl View for ScalarValue {
    type V = ScalarView;

    open spec fn view(&self) -> ScalarView {
        match self {
            ScalarValue::Null(dt) => ScalarView::Null(*dt),
            ScalarValue::Boolean(b) => ScalarView::Boolean(*b),
            ScalarValue::Byte(v) => ScalarView::Byte(*v),
            ScalarValue::Short(v) => ScalarView::Short(*v),
            ScalarValue::Integer(v) => ScalarView::Integer(*v),
            ScalarValue::Long(v) => ScalarView::Long(*v),
            ScalarValue::Float { raw, bits, text } => ScalarView::Float {
                raw: *raw,
                bits: *bits,
                text: text@,
            },
            ScalarValue::Double { raw, bits, text } => ScalarView::Double {
                raw: *raw,
                bits: *bits,
                text: text@,
            },
            ScalarValue::String(s) => ScalarView::String(s@),
            ScalarValue::Binary(b) => ScalarView::Binary(b@),
            ScalarValue::Date(d) => ScalarView::Date(*d),
            ScalarValue::Timestamp(t) => ScalarView::Timestamp(*t),
            ScalarValue::TimestampNtz(t) => ScalarView::TimestampNtz(*t),
            ScalarValue::Decimal { bits, precision, scale } => ScalarView::Decimal {
                bits: *bits,
                precision: *precision,
                scale: *scale,
            },
        }
    }
}

fn dup_bytes(b: &Vec<u8>) -> (r: Vec<u8>)
    ensures
        r@ == b@,
{
    let mut out: Vec<u8> = Vec::new();
    let mut i: usize = 0;
    while i < b.len()
        invariant
            i <= b@.len(),
            out@ == b@.take(i as int),
        decreases b@.len() - i,
    {
        out.push(b[i]);
        proof {
            assert(out@ =~= b@.take(i + 1));
        }
        i = i + 1;
    }
    proof {
        assert(b@.take(b@.len() as int) =~= b@);
    }
    out
}

impl ScalarValue {
    /// True on the null scalar of any declared type.
    pub fn is_null(&self) -> (r: bool)
        ensures
            r == self@ is Null,
    {
        matches!(self, ScalarValue::Null(_))
    }

    /// Copies this scalar; the copy carries the same mathematical value.
    pub fn dup(&self) -> (r: Self)
        ensures
            r@ == self@,
    {
        match self {
            ScalarValue::Null(dt) => ScalarValue::Null(*dt),
            ScalarValue::Boolean(b) => ScalarValue::Boolean(*b),
            ScalarValue::Byte(v) => ScalarValue::Byte(*v),
            ScalarValue::Short(v) => ScalarValue::Short(*v),
            ScalarValue::Integer(v) => ScalarValue::Integer(*v),
            ScalarValue::Long(v) => ScalarValue::Long(*v),
            ScalarValue::Float { raw, bits, text } => ScalarValue::Float {
                raw: raw.clone(),
                bits: *bits,
                text: text.clone(),
            },
            ScalarValue::Double { raw, bits, text } => ScalarValue::Double {
                raw: raw.clone(),
                bits: *bits,
                text: text.clone(),
            },
            ScalarValue::String(s) => ScalarValue::String(s.clone()),
            ScalarValue::Binary(b) => ScalarValue::Binary(dup_bytes(b)),
            ScalarValue::Date(d) => ScalarValue::Date(*d),
            ScalarValue::Timestamp(t) => ScalarValue::Timestamp(*t),
            ScalarValue::TimestampNtz(t) => ScalarValue::TimestampNtz(*t),
            ScalarValue::Decimal { bits, precision, scale } => ScalarValue::Decimal {
                bits: *bits,
                precision: *precision,
                scale: *scale,
            },
        }
    }
}

} // verus!
