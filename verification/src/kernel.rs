//! The boundary to the `delta_kernel` crate: type declarations and the
//! trusted wrappers through which the library reaches the kernel's scalar
//! parser, its schema catalog and its predicate builder.
use vstd::prelude::*;

use crate::predicate::{CompareOp, JunctionOp};
use crate::scalar::{DataType, PrimitiveKind, ScalarValue, ScalarView};
use delta_kernel::expressions::Expression as KernelExpression;
use delta_kernel::expressions::JunctionPredicateOp as KernelJunctionOp;
use delta_kernel::expressions::Scalar as KernelScalarValue;
use delta_kernel::schema::DataType as KernelDataType;
use delta_kernel::schema::PrimitiveType as KernelPrimitive;

verus! {

#[verifier::external_type_specification]
#[verifier::external_body]
pub struct ExKernelScalar(delta_kernel::expressions::Scalar);

/// Relies on the kernel scalar's derived `Clone`, which copies the value
/// field for field.
pub assume_specification[ <delta_kernel::expressions::Scalar as Clone>::clone ](
    s: &delta_kernel::expressions::Scalar,
) -> (r: delta_kernel::expressions::Scalar)
    ensures
        r == *s,
;

#[verifier::external_type_specification]
#[verifier::external_body]
pub struct ExKernelPredicate(delta_kernel::expressions::Predicate);

#[verifier::external_type_specification]
#[verifier::external_body]
pub struct ExKernelPrimitiveType(delta_kernel::schema::PrimitiveType);

#[verifier::external_type_specification]
#[verifier::external_body]
pub struct ExStructType(delta_kernel::schema::StructType);

/// What the kernel's scalar parser returns for the given primitive kind
/// and operand text, as a value of the library's scalar model; `None`
/// where it fails. The parse depends on its two arguments alone.
pub uninterp spec fn parsed_scalar(kind: PrimitiveKind, text: Seq<char>) -> Option<
    ScalarView,
>;

/// True when the scalar is a value of the given primitive kind, or the
/// null scalar declared at that kind: the only shapes the parser returns
/// for that kind.
pub open spec fn scalar_fits_kind(s: ScalarView, k: PrimitiveKind) -> bool {
    match s {
        ScalarView::Null(dt) => dt == DataType::Primitive(k),
        ScalarView::Boolean(_) => k is Boolean,
        ScalarView::Byte(_) => k is Byte,
        ScalarView::Short(_) => k is Short,
        ScalarView::Integer(_) => k is Integer,
        ScalarView::Long(_) => k is Long,
        ScalarView::Float { .. } => k is Float,
        ScalarView::Double { .. } => k is Double,
        ScalarView::String(_) => k is String,
        ScalarView::Binary(_) => k is Binary,
        ScalarView::Date(_) => k is Date,
        ScalarView::Timestamp(_) => k is Timestamp,
        ScalarView::TimestampNtz(_) => k is TimestampNtz,
        ScalarView::Decimal { precision, scale, .. } => k == (PrimitiveKind::Decimal {
            precision,
            scale,
        }),
    }
}

/// Converts one of the library's primitive kinds to the kernel's. Relies
/// on DecimalType::try_new: a decimal kind whose precision is outside
/// 1..=38 or whose scale exceeds its precision has no kernel counterpart
/// and yields `None`.
#[verifier::external_body]
fn kernel_primitive_of(kind: &PrimitiveKind) -> Option<delta_kernel::schema::PrimitiveType> {
    Some(match kind {
        PrimitiveKind::Boolean => KernelPrimitive::Boolean, PrimitiveKind::Byte => KernelPrimitive::Byte,
        PrimitiveKind::Short => KernelPrimitive::Short, PrimitiveKind::Integer => KernelPrimitive::Integer,
        PrimitiveKind::Long => KernelPrimitive::Long, PrimitiveKind::Float => KernelPrimitive::Float,
        PrimitiveKind::Double => KernelPrimitive::Double, PrimitiveKind::String => KernelPrimitive::String,
        PrimitiveKind::Binary => KernelPrimitive::Binary, PrimitiveKind::Date => KernelPrimitive::Date,
        PrimitiveKind::Timestamp => KernelPrimitive::Timestamp,
        PrimitiveKind::TimestampNtz => KernelPrimitive::TimestampNtz,
        PrimitiveKind::Decimal { precision, scale } => KernelPrimitive::Decimal(
            delta_kernel::schema::DecimalType::try_new(*precision, *scale).ok()?,
        ),
    })
}

/// Converts a kernel primitive type to the library's kind; kinds outside
/// the library's scalar domain (void, the interval kinds) yield `None`.
#[verifier::external_body]
fn kind_of_kernel(p: &delta_kernel::schema::PrimitiveType) -> Option<PrimitiveKind> {
    Some(match p {
        KernelPrimitive::Boolean => PrimitiveKind::Boolean, KernelPrimitive::Byte => PrimitiveKind::Byte,
        KernelPrimitive::Short => PrimitiveKind::Short, KernelPrimitive::Integer => PrimitiveKind::Integer,
        KernelPrimitive::Long => PrimitiveKind::Long, KernelPrimitive::Float => PrimitiveKind::Float,
        KernelPrimitive::Double => PrimitiveKind::Double, KernelPrimitive::String => PrimitiveKind::String,
        KernelPrimitive::Binary => PrimitiveKind::Binary, KernelPrimitive::Date => PrimitiveKind::Date,
        KernelPrimitive::Timestamp => PrimitiveKind::Timestamp,
        KernelPrimitive::TimestampNtz => PrimitiveKind::TimestampNtz,
        KernelPrimitive::Decimal(d) => PrimitiveKind::Decimal { precision: d.precision(), scale: d.scale() },
        _ => { return None; },
    })
}

/// Converts a kernel scalar holding a plain value to the library's model;
/// the richer shapes go through [`rich_scalar_of_kernel`].
#[verifier::external_body]
fn scalar_value_of_kernel(s: delta_kernel::expressions::Scalar) -> Option<ScalarValue> {
    Some(match s {
        KernelScalarValue::Integer(v) => ScalarValue::Integer(v),
        KernelScalarValue::Long(v) => ScalarValue::Long(v),
        KernelScalarValue::Short(v) => ScalarValue::Short(v),
        KernelScalarValue::Byte(v) => ScalarValue::Byte(v),
        KernelScalarValue::String(v) => ScalarValue::String(v),
        KernelScalarValue::Boolean(v) => ScalarValue::Boolean(v),
        KernelScalarValue::Timestamp(v) => ScalarValue::Timestamp(v),
        KernelScalarValue::TimestampNtz(v) => ScalarValue::TimestampNtz(v),
        KernelScalarValue::Date(v) => ScalarValue::Date(v),
        KernelScalarValue::Binary(v) => ScalarValue::Binary(v),
        other => { return rich_scalar_of_kernel(other); },
    })
}

/// Converts the kernel scalars that carry more than a plain value: a float
/// or double keeps the kernel scalar, its bit pattern and its decimal
/// rendering; a decimal moves its parts; a null converts its declared
/// type. Struct, array, map and interval scalars, which never stand as
/// partition values, yield `None`.
#[verifier::external_body]
fn rich_scalar_of_kernel(s: delta_kernel::expressions::Scalar) -> Option<ScalarValue> {
    Some(match s {
        KernelScalarValue::Float(v) => ScalarValue::Float { raw: KernelScalarValue::Float(v), bits: v.to_bits(), text: format!("{v}") },
        KernelScalarValue::Double(v) => ScalarValue::Double { raw: KernelScalarValue::Double(v), bits: v.to_bits(), text: format!("{v}") },
        KernelScalarValue::Decimal(d) => ScalarValue::Decimal { bits: d.bits(), precision: d.precision(), scale: d.scale() },
        KernelScalarValue::Null(dt) => ScalarValue::Null(match dt.as_primitive_opt().and_then(kind_of_kernel) {
            Some(k) => DataType::Primitive(k),
            None => DataType::Complex,
        }),
        _ => { return None; },
    })
}

/// Relies on PrimitiveType::parse_scalar of the kernel: parses the operand
/// text as a value of the given primitive kind, handing back the parser's
/// own message on failure. The kernel's source shows: empty text parses as
/// the null scalar of the kind; for the string kind the parse always
/// succeeds, and non-empty text becomes a string scalar holding the text
/// itself; every parsed value is of the requested kind or null at it.
#[verifier::external_body]
pub(crate) fn parse_primitive_scalar(kind: &PrimitiveKind, text: &str) -> (r: Result<
    ScalarValue,
    String,
>)
    ensures
        r matches Ok(s) ==> parsed_scalar(*kind, text@) == Some(s@),
        r is Err ==> parsed_scalar(*kind, text@) is None,
        r matches Ok(s) ==> scalar_fits_kind(s@, *kind),
        r matches Ok(s) ==> text@.len() == 0 ==> s@ == ScalarView::Null(
            DataType::Primitive(*kind),
        ),
        r matches Ok(s) ==> *kind == PrimitiveKind::String && text@.len() > 0 ==> s@
            == ScalarView::String(text@),
        *kind == PrimitiveKind::String ==> r is Ok,
{
    let Some(kp) = kernel_primitive_of(kind) else {
        return Err(String::from("no kernel counterpart for the decimal kind"));
    };
    match kp.parse_scalar(text) {
        Ok(s) => scalar_value_of_kernel(s)
            .ok_or_else(|| String::from("scalar kind outside the partition domain")),
        Err(e) => Err(format!("{e}")),
    }
}

/// What the kernel schema's root fields declare: each root field's name
/// mapped to its type, in the library's model.
pub uninterp spec fn schema_fields(s: delta_kernel::schema::StructType) -> Map<
    Seq<char>,
    DataType,
>;

/// Relies on StructType::field of the kernel, a root-field lookup by name,
/// and on DataType::as_primitive_opt: yields the named root field's
/// declared type, `None` where the schema has no such field.
#[verifier::external_body]
pub(crate) fn schema_field_type(
    schema: &delta_kernel::schema::StructType,
    name: &str,
) -> (r: Option<DataType>)
    ensures
        r matches Some(dt) ==> schema_fields(*schema).contains_key(name@)
            && schema_fields(*schema)[name@] == dt,
        r is None ==> !schema_fields(*schema).contains_key(name@),
{
    let field = schema.field(name)?;
    Some(match field.data_type().as_primitive_opt().and_then(kind_of_kernel) {
        Some(k) => DataType::Primitive(k),
        None => DataType::Complex,
    })
}

/// Converts a library scalar holding a plain value back to the kernel's
/// for predicate hand-off; the richer shapes go through
/// [`rich_kernel_scalar_of`].
#[verifier::external_body]
fn kernel_scalar_of(v: &ScalarValue) -> delta_kernel::expressions::Scalar {
    match v {
        ScalarValue::Boolean(b) => KernelScalarValue::Boolean(*b),
        ScalarValue::Byte(x) => KernelScalarValue::Byte(*x),
        ScalarValue::Short(x) => KernelScalarValue::Short(*x),
        ScalarValue::Integer(x) => KernelScalarValue::Integer(*x),
        ScalarValue::Long(x) => KernelScalarValue::Long(*x),
        ScalarValue::String(s) => KernelScalarValue::String(s.clone()),
        ScalarValue::Binary(b) => KernelScalarValue::Binary(b.clone()),
        ScalarValue::Date(d) => KernelScalarValue::Date(*d),
        ScalarValue::Timestamp(t) => KernelScalarValue::Timestamp(*t),
        ScalarValue::TimestampNtz(t) => KernelScalarValue::TimestampNtz(*t),
        other => rich_kernel_scalar_of(other),
    }
}

/// Converts the library's richer scalar shapes back to the kernel's. A
/// float or double hands back the kernel scalar it carries. Relies on
/// Scalar::decimal of the kernel; a decimal or null shape with no kernel
/// counterpart, which the compiler never produces, falls back to a null
/// string scalar.
#[verifier::external_body]
fn rich_kernel_scalar_of(v: &ScalarValue) -> delta_kernel::expressions::Scalar {
    match v {
        ScalarValue::Null(DataType::Primitive(k)) => match kernel_primitive_of(k) {
            Some(kp) => KernelScalarValue::Null(KernelDataType::Primitive(kp)),
            None => KernelScalarValue::Null(KernelDataType::STRING),
        },
        ScalarValue::Float { raw, .. } => raw.clone(),
        ScalarValue::Double { raw, .. } => raw.clone(),
        ScalarValue::Decimal { bits, precision, scale } => KernelScalarValue::decimal(*bits, *precision, *scale)
            .unwrap_or(KernelScalarValue::Null(KernelDataType::STRING)),
        _ => KernelScalarValue::Null(KernelDataType::STRING),
    }
}

/// What the kernel's leaf builders return for a comparison of the named
/// column against a literal: Expression::column applied to the name, then
/// the eq/ne/lt/le/gt/ge builder the operator picks. The result depends on
/// the three arguments alone.
pub uninterp spec fn kernel_leaf_of(
    op: CompareOp,
    column: Seq<char>,
    literal: ScalarView,
) -> delta_kernel::expressions::Predicate;

/// What Predicate::junction of the kernel returns for the operator and the
/// given predicates, a function of the two arguments alone.
pub uninterp spec fn kernel_junction_of(
    op: JunctionOp,
    preds: Seq<delta_kernel::expressions::Predicate>,
) -> delta_kernel::expressions::Predicate;

/// Relies on Expression::column and the kernel's eq/ne/lt/le/gt/ge leaf
/// builders: builds the comparison predicate of the column against the
/// literal.
#[verifier::external_body]
pub(crate) fn kernel_comparison(
    op: &CompareOp,
    column: &str,
    literal: &ScalarValue,
) -> (r: delta_kernel::expressions::Predicate)
    ensures
        r == kernel_leaf_of(*op, column@, literal@),
{
    let col = KernelExpression::column([column]);
    let v = kernel_scalar_of(literal);
    match op {
        CompareOp::Eq => col.eq(v),
        CompareOp::Ne => col.ne(v),
        CompareOp::Lt => col.lt(v),
        CompareOp::Le => col.le(v),
        CompareOp::Gt => col.gt(v),
        CompareOp::Ge => col.ge(v),
    }
}

/// Relies on Predicate::junction of the kernel: builds the AND/OR junction
/// of the given predicates. The kernel normalizes the empty junction to
/// its identity truth value and unwraps a junction of one.
#[verifier::external_body]
pub(crate) fn kernel_junction(
    op: &JunctionOp,
    preds: Vec<delta_kernel::expressions::Predicate>,
) -> (r: delta_kernel::expressions::Predicate)
    ensures
        r == kernel_junction_of(*op, preds@),
{
    let kop = match op {
        JunctionOp::And => KernelJunctionOp::And,
        JunctionOp::Or => KernelJunctionOp::Or,
    };
    delta_kernel::expressions::Predicate::junction(kop, preds)
}

} // verus!
