//! Partition filters: an operator with raw text operands, keyed by a
//! partition column, together with construction from raw tuples and the
//! canonical text rendering.
use vstd::prelude::*;

use crate::error::DeltaTableError;

verus! {

/// A filter's operator together with its raw text operand(s). Operands stay
/// raw until they are compared against a concrete primitive type, so the
/// same filter works before a schema is known.
#[derive(Clone, Debug, PartialEq, Eq)]
pub enum PartitionValue {
    Equal(String),
    NotEqual(String),
    GreaterThan(String),
    GreaterThanOrEqual(String),
    LessThan(String),
    LessThanOrEqual(String),
    In(Vec<String>),
    NotIn(Vec<String>),
}

/// The mathematical value of a [`PartitionValue`].
pub enum PartitionValueView {
    Equal(Seq<char>),
    NotEqual(Seq<char>),
    GreaterThan(Seq<char>),
    GreaterThanOrEqual(Seq<char>),
    LessThan(Seq<char>),
    LessThanOrEqual(Seq<char>),
    In(Seq<Seq<char>>),
    NotIn(Seq<Seq<char>>),
}

impl View for PartitionValue {
    type V = PartitionValueView;

    open spec fn view(&self) -> PartitionValueView {
        match self {
            PartitionValue::Equal(v) => PartitionValueView::Equal(v@),
            PartitionValue::NotEqual(v) => PartitionValueView::NotEqual(v@),
            PartitionValue::GreaterThan(v) => PartitionValueView::GreaterThan(v@),
            PartitionValue::GreaterThanOrEqual(v) => PartitionValueView::GreaterThanOrEqual(
                v@,
            ),
            PartitionValue::LessThan(v) => PartitionValueView::LessThan(v@),
            PartitionValue::LessThanOrEqual(v) => PartitionValueView::LessThanOrEqual(v@),
            PartitionValue::In(vs) => PartitionValueView::In(vs.deep_view()),
            PartitionValue::NotIn(vs) => PartitionValueView::NotIn(vs.deep_view()),
        }
    }
}

/// A filter over a single partition column: a non-empty key and an operator
/// with its operand(s).
#[derive(Clone, Debug, PartialEq, Eq)]
pub struct PartitionFilter {
    pub key: String,
    pub value: PartitionValue,
}

/// The mathematical value of a [`PartitionFilter`].
pub struct FilterView {
    pub key: Seq<char>,
    pub value: PartitionValueView,
}

impl View for PartitionFilter {
    type V = FilterView;

    open spec fn view(&self) -> FilterView {
        FilterView { key: self.key@, value: self.value@ }
    }
}

/// The operand shape that a simple (non-list) operator string denotes, or
/// `None` on an unrecognized operator.
pub open spec fn simple_op_value(op: Seq<char>, v: Seq<char>) -> Option<PartitionValueView> {
    if op == "="@ {
        Some(PartitionValueView::Equal(v))
    } else if op == "!="@ {
        Some(PartitionValueView::NotEqual(v))
    } else if op == ">"@ {
        Some(PartitionValueView::GreaterThan(v))
    } else if op == ">="@ {
        Some(PartitionValueView::GreaterThanOrEqual(v))
    } else if op == "<"@ {
        Some(PartitionValueView::LessThan(v))
    } else if op == "<="@ {
        Some(PartitionValueView::LessThanOrEqual(v))
    } else {
        None
    }
}

/// The operand shape that a list operator string denotes, or `None` on an
/// unrecognized operator. Only the lowercase `in` and `not in` are
/// recognized.
pub open spec fn list_op_value(op: Seq<char>, vs: Seq<Seq<char>>) -> Option<
    PartitionValueView,
> {
    if op == "in"@ {
        Some(PartitionValueView::In(vs))
    } else if op == "not in"@ {
        Some(PartitionValueView::NotIn(vs))
    } else {
        None
    }
}

/// The diagnostic rendering of a rejected `(key, operator, value)` triple.
pub open spec fn triple_diag(key: Seq<char>, op: Seq<char>, value: Seq<char>) -> Seq<
    char,
> {
    "(\""@ + key + "\", \""@ + op + "\", \""@ + value + "\")"@
}

/// The elements of `vs`, each wrapped in `quote`, joined with `, `.
pub open spec fn joined_with(vs: Seq<Seq<char>>, quote: Seq<char>) -> Seq<char>
    decreases vs.len(),
{
    if vs.len() == 0 {
        Seq::<char>::empty()
    } else if vs.len() == 1 {
        quote + vs[0] + quote
    } else {
        joined_with(vs.drop_last(), quote) + ", "@ + quote + vs.last() + quote
    }
}

/// The diagnostic rendering of a rejected `(key, operator, values)` list
/// tuple.
pub open spec fn list_diag(key: Seq<char>, op: Seq<char>, vs: Seq<Seq<char>>) -> Seq<
    char,
> {
    "(\""@ + key + "\", \""@ + op + "\", ["@ + joined_with(vs, "\""@) + "])"@
}

/// The canonical text of a filter: `key <op> '<value>'` for the simple
/// operators, `key IN (...)` / `key NOT IN (...)` with each element
/// single-quoted and in input order for the list operators. Embedded quote
/// characters are not escaped.
pub open spec fn filter_text(f: FilterView) -> Seq<char> {
    match f.value {
        PartitionValueView::Equal(v) => f.key + " = '"@ + v + "'"@,
        PartitionValueView::NotEqual(v) => f.key + " != '"@ + v + "'"@,
        PartitionValueView::GreaterThan(v) => f.key + " > '"@ + v + "'"@,
        PartitionValueView::GreaterThanOrEqual(v) => f.key + " >= '"@ + v + "'"@,
        PartitionValueView::LessThan(v) => f.key + " < '"@ + v + "'"@,
        PartitionValueView::LessThanOrEqual(v) => f.key + " <= '"@ + v + "'"@,
        PartitionValueView::In(vs) => f.key + " IN ("@ + joined_with(vs, "'"@) + ")"@,
        PartitionValueView::NotIn(vs) => f.key + " NOT IN ("@ + joined_with(vs, "'"@)
            + ")"@,
    }
}

/// Compares two strings by their character sequences.
pub fn str_eq(a: &str, b: &str) -> (r: bool)
    ensures
        r == (a@ == b@),
{
    a.to_owned() == b.to_owned()
}

fn invalid_triple_error(key: &str, op: &str, value: &str) -> (e: DeltaTableError)
    ensures
        e matches DeltaTableError::InvalidPartitionFilter { partition_filter }
            && partition_filter@ == triple_diag(key@, op@, value@),
{
    let mut s = String::from_str("(\"");
    s.append(key);
    s.append("\", \"");
    s.append(op);
    s.append("\", \"");
    s.append(value);
    s.append("\")");
    proof {
        assert(s@ =~= triple_diag(key@, op@, value@));
    }
    DeltaTableError::InvalidPartitionFilter { partition_filter: s }
}

/// Appends the elements of `vs`, each wrapped in `quote` and joined with
/// `, `, to a fresh string.
fn join_quoted(vs: &Vec<String>, quote: &str) -> (r: String)
    ensures
        r@ == joined_with(vs.deep_view(), quote@),
{
    let ghost dv = vs.deep_view();
    let mut s = String::new();
    proof {
        assert(dv.take(0) =~= Seq::<Seq<char>>::empty());
        assert(s@ =~= joined_with(dv.take(0), quote@));
    }
    let mut i: usize = 0;
    while i < vs.len()
        invariant
            i <= vs@.len(),
            dv == vs.deep_view(),
            dv.len() == vs@.len(),
            s@ == joined_with(dv.take(i as int), quote@),
        decreases vs@.len() - i,
    {
        if i > 0 {
            s.append(", ");
        }
        s.append(quote);
        s.append(vs[i].as_str());
        s.append(quote);
        proof {
            reveal_strlit(", ");
            assert(dv.take(i + 1).drop_last() =~= dv.take(i as int));
            assert(dv.take(i + 1).last() == vs@[i as int]@);
            if i == 0 {
                assert(s@ =~= joined_with(dv.take(1), quote@));
            } else {
                assert(s@ =~= joined_with(dv.take(i + 1), quote@));
            }
        }
        i = i + 1;
    }
    proof {
        assert(dv.take(vs@.len() as int) =~= dv);
    }
    s
}

impl PartitionFilter {
    /// Builds a filter from a `(key, operator, value)` triple. The
    /// recognized operators are exactly `=`, `!=`, `>`, `>=`, `<` and `<=`;
    /// any other operator, or an empty key, is rejected with
    /// [`DeltaTableError::InvalidPartitionFilter`] carrying the rendered
    /// triple.
    pub fn try_from_triple(key: &str, op: &str, value: &str) -> (r: Result<
        Self,
        DeltaTableError,
    >)
        ensures
            r is Ok <==> key@.len() > 0 && simple_op_value(op@, value@) is Some,
            r matches Ok(f) ==> f@ == (FilterView {
                key: key@,
                value: simple_op_value(op@, value@).unwrap(),
            }),
            r matches Err(e) ==> e matches DeltaTableError::InvalidPartitionFilter {
                partition_filter,
            } && partition_filter@ == triple_diag(key@, op@, value@),
    {
        if key.is_empty() {
            return Err(invalid_triple_error(key, op, value));
        }
        if str_eq(op, "=") {
            Ok(PartitionFilter {
                key: key.to_owned(),
                value: PartitionValue::Equal(value.to_owned()),
            })
        } else if str_eq(op, "!=") {
            Ok(PartitionFilter {
                key: key.to_owned(),
                value: PartitionValue::NotEqual(value.to_owned()),
            })
        } else if str_eq(op, ">") {
            Ok(PartitionFilter {
                key: key.to_owned(),
                value: PartitionValue::GreaterThan(value.to_owned()),
            })
        } else if str_eq(op, ">=") {
            Ok(PartitionFilter {
                key: key.to_owned(),
                value: PartitionValue::GreaterThanOrEqual(value.to_owned()),
            })
        } else if str_eq(op, "<") {
            Ok(PartitionFilter {
                key: key.to_owned(),
                value: PartitionValue::LessThan(value.to_owned()),
            })
        } else if str_eq(op, "<=") {
            Ok(PartitionFilter {
                key: key.to_owned(),
                value: PartitionValue::LessThanOrEqual(value.to_owned()),
            })
        } else {
            Err(invalid_triple_error(key, op, value))
        }
    }

    /// Builds a filter from a `(key, operator, values)` list tuple. The
    /// recognized operators are exactly the lowercase `in` and `not in`;
    /// any other operator, or an empty key, is rejected with
    /// [`DeltaTableError::InvalidPartitionFilter`] carrying the rendered
    /// tuple.
    pub fn try_from_list(key: &str, op: &str, values: &[&str]) -> (r: Result<
        Self,
        DeltaTableError,
    >)
        ensures
            r is Ok <==> key@.len() > 0 && list_op_value(op@, values.deep_view()) is Some,
            r matches Ok(f) ==> f@ == (FilterView {
                key: key@,
                value: list_op_value(op@, values.deep_view()).unwrap(),
            }),
            r matches Err(e) ==> e matches DeltaTableError::InvalidPartitionFilter {
                partition_filter,
            } && partition_filter@ == list_diag(key@, op@, values.deep_view()),
    {
        let ghost dv = values.deep_view();
        let mut owned: Vec<String> = Vec::new();
        let mut i: usize = 0;
        proof {
            assert(owned.deep_view() =~~= dv.take(0));
        }
        while i < values.len()
            invariant
                i <= values@.len(),
                dv == values.deep_view(),
                dv.len() == values@.len(),
                owned@.len() == i,
                owned.deep_view() == dv.take(i as int),
            decreases values@.len() - i,
        {
            let element: &str = values[i];
            owned.push(element.to_owned());
            proof {
                assert(owned.deep_view()[i as int] == values@[i as int]@);
                assert(owned.deep_view() =~= dv.take(i + 1));
            }
            i = i + 1;
        }
        proof {
            assert(dv.take(values@.len() as int) =~= dv);
        }
        let in_op = str_eq(op, "in");
        let not_in_op = str_eq(op, "not in");
        if key.is_empty() || (!in_op && !not_in_op) {
            let mut s = String::from_str("(\"");
            s.append(key);
            s.append("\", \"");
            s.append(op);
            s.append("\", [");
            let joined = join_quoted(&owned, "\"");
            s.append(joined.as_str());
            s.append("])");
            proof {
                assert(s@ =~= list_diag(key@, op@, dv));
            }
            Err(DeltaTableError::InvalidPartitionFilter { partition_filter: s })
        } else if in_op {
            Ok(PartitionFilter { key: key.to_owned(), value: PartitionValue::In(owned) })
        } else {
            Ok(PartitionFilter {
                key: key.to_owned(),
                value: PartitionValue::NotIn(owned),
            })
        }
    }

    /// Renders this filter in its canonical text form; see [`filter_text`].
    pub fn serialize(&self) -> (r: String)
        ensures
            r@ == filter_text(self@),
    {
        let mut s = String::from_str(self.key.as_str());
        match &self.value {
            PartitionValue::Equal(v) => {
                s.append(" = '");
                s.append(v.as_str());
                s.append("'");
            },
            PartitionValue::NotEqual(v) => {
                s.append(" != '");
                s.append(v.as_str());
                s.append("'");
            },
            PartitionValue::GreaterThan(v) => {
                s.append(" > '");
                s.append(v.as_str());
                s.append("'");
            },
            PartitionValue::GreaterThanOrEqual(v) => {
                s.append(" >= '");
                s.append(v.as_str());
                s.append("'");
            },
            PartitionValue::LessThan(v) => {
                s.append(" < '");
                s.append(v.as_str());
                s.append("'");
            },
            PartitionValue::LessThanOrEqual(v) => {
                s.append(" <= '");
                s.append(v.as_str());
                s.append("'");
            },
            PartitionValue::In(vs) => {
                s.append(" IN (");
                let joined = join_quoted(vs, "'");
                s.append(joined.as_str());
                s.append(")");
            },
            PartitionValue::NotIn(vs) => {
                s.append(" NOT IN (");
                let joined = join_quoted(vs, "'");
                s.append(joined.as_str());
                s.append(")");
            },
        }
        proof {
            assert(s@ =~= filter_text(self@));
        }
        s
    }
}

/// Law: a filter built from a recognized simple operator triple serializes
/// to `key <op> '<value>'`, the operator written exactly as it was given.
pub proof fn lemma_triple_serialize_round_trip(
    key: Seq<char>,
    op: Seq<char>,
    value: Seq<char>,
)
    requires
        key.len() > 0,
        simple_op_value(op, value) is Some,
    ensures
        filter_text(FilterView { key, value: simple_op_value(op, value).unwrap() })
            == key + " "@ + op + " '"@ + value + "'"@,
{
    reveal_strlit("=");
    reveal_strlit("!=");
    reveal_strlit(">");
    reveal_strlit(">=");
    reveal_strlit("<");
    reveal_strlit("<=");
    reveal_strlit(" ");
    reveal_strlit(" '");
    reveal_strlit("'");
    reveal_strlit(" = '");
    reveal_strlit(" != '");
    reveal_strlit(" > '");
    reveal_strlit(" >= '");
    reveal_strlit(" < '");
    reveal_strlit(" <= '");
    assert(filter_text(FilterView { key, value: simple_op_value(op, value).unwrap() })
        =~= key + " "@ + op + " '"@ + value + "'"@);
}

/// Law: a filter built from a recognized list operator serializes to
/// `key IN (...)` or `key NOT IN (...)`, with each element single-quoted in
/// input order.
pub proof fn lemma_list_serialize_round_trip(
    key: Seq<char>,
    op: Seq<char>,
    vs: Seq<Seq<char>>,
)
    requires
        key.len() > 0,
        list_op_value(op, vs) is Some,
    ensures
        op == "in"@ ==> filter_text(FilterView { key, value: list_op_value(op, vs).unwrap() })
            == key + " IN ("@ + joined_with(vs, "'"@) + ")"@,
        op == "not in"@ ==> filter_text(
            FilterView { key, value: list_op_value(op, vs).unwrap() },
        ) == key + " NOT IN ("@ + joined_with(vs, "'"@) + ")"@,
{
    reveal_strlit("in");
    reveal_strlit("not in");
    assert("in"@.len() == 2 && "not in"@.len() == 6);
}

/// The operator text of a simple (non-list) operand shape.
pub open spec fn simple_op_text(v: PartitionValueView) -> Seq<char> {
    match v {
        PartitionValueView::Equal(_) => "="@,
        PartitionValueView::NotEqual(_) => "!="@,
        PartitionValueView::GreaterThan(_) => ">"@,
        PartitionValueView::GreaterThanOrEqual(_) => ">="@,
        PartitionValueView::LessThan(_) => "<"@,
        PartitionValueView::LessThanOrEqual(_) => "<="@,
        _ => Seq::<char>::empty(),
    }
}

/// The raw operand of a simple (non-list) operand shape.
pub open spec fn simple_operand(v: PartitionValueView) -> Seq<char> {
    match v {
        PartitionValueView::Equal(t) => t,
        PartitionValueView::NotEqual(t) => t,
        PartitionValueView::GreaterThan(t) => t,
        PartitionValueView::GreaterThanOrEqual(t) => t,
        PartitionValueView::LessThan(t) => t,
        PartitionValueView::LessThanOrEqual(t) => t,
        _ => Seq::<char>::empty(),
    }
}

/// True on the simple (non-list) operand shapes.
pub open spec fn is_simple(v: PartitionValueView) -> bool {
    !(v is In || v is NotIn)
}

/// Law: a simple filter's canonical text decomposes into its key, its
/// operator text and its single-quoted operand, and feeding those parts
/// back through the construction path reconstructs the filter exactly:
/// construction is idempotent over a filter's own canonical serialization.
pub proof fn lemma_simple_reconstruction(f: FilterView)
    requires
        f.key.len() > 0,
        is_simple(f.value),
    ensures
        filter_text(f) == f.key + " "@ + simple_op_text(f.value) + " '"@ + simple_operand(
            f.value,
        ) + "'"@,
        simple_op_value(simple_op_text(f.value), simple_operand(f.value)) == Some(f.value),
{
    reveal_strlit("=");
    reveal_strlit("!=");
    reveal_strlit(">");
    reveal_strlit(">=");
    reveal_strlit("<");
    reveal_strlit("<=");
    assert("="@.len() == 1 && "!="@.len() == 2 && ">"@.len() == 1 && ">="@.len() == 2
        && "<"@.len() == 1 && "<="@.len() == 2);
    assert("="@[0] == '=' && "!="@[0] == '!' && ">"@[0] == '>' && ">="@[0] == '>'
        && "<"@[0] == '<' && "<="@[0] == '<');
    assert(">"@ != "="@);
    assert("<"@ != "="@);
    assert("<"@ != ">"@);
    assert(">="@ != "!="@);
    assert("<="@ != "!="@);
    assert("<="@ != ">="@);
    lemma_triple_serialize_round_trip(f.key, simple_op_text(f.value), simple_operand(f.value));
}

} // verus!
