//! Compiling partition filters into push-down predicates.
//!
//! A filter compiles against a table schema: its key must name a root
//! field of primitive type, and each raw operand must parse at that type.
//! A simple operator becomes one comparison leaf; `In` becomes an
//! OR-junction of equality leaves, `NotIn` an AND-junction of inequality
//! leaves, each in input order and possibly empty. Unlike the matcher,
//! compilation always resolves operands through the typed parser and fails
//! loudly on a parse error: a malformed push-down predicate is worse than
//! no push-down.
use vstd::prelude::*;

use crate::error::DeltaTableError;
use crate::filter::{FilterView, PartitionFilter, PartitionValue, PartitionValueView};
use crate::kernel::{
    kernel_comparison, kernel_junction, kernel_junction_of, kernel_leaf_of,
    parse_primitive_scalar, parsed_scalar, schema_field_type, schema_fields,
};
use crate::scalar::{DataType, PrimitiveKind, ScalarValue, ScalarView};
use delta_kernel::expressions::Predicate as KernelPredicate;
use delta_kernel::schema::StructType as KernelSchema;

verus! {

/// A comparison operator of a predicate leaf.
#[derive(Clone, Copy, Debug, PartialEq, Eq, Structural)]
pub enum CompareOp {
    Eq,
    Ne,
    Lt,
    Le,
    Gt,
    Ge,
}

/// The operator of an N-ary junction.
#[derive(Clone, Copy, Debug, PartialEq, Eq, Structural)]
pub enum JunctionOp {
    And,
    Or,
}

/// A predicate leaf: a column compared against a literal scalar.
#[derive(Clone, Debug, PartialEq)]
pub struct PredicateLeaf {
    pub op: CompareOp,
    pub column: String,
    pub literal: ScalarValue,
}

/// The mathematical value of a [`PredicateLeaf`].
pub struct LeafView {
    pub op: CompareOp,
    pub column: Seq<char>,
    pub literal: ScalarView,
}

impl View for PredicateLeaf {
    type V = LeafView;

    open spec fn view(&self) -> LeafView {
        LeafView { op: self.op, column: self.column@, literal: self.literal@ }
    }
}

impl DeepView for PredicateLeaf {
    type V = LeafView;

    open spec fn deep_view(&self) -> LeafView {
        self.view()
    }
}

/// What one filter compiles to: a single comparison leaf, or a junction of
/// leaves for the list operators.
#[derive(Clone, Debug, PartialEq)]
pub enum FilterPredicate {
    Comparison(PredicateLeaf),
    Junction { op: JunctionOp, preds: Vec<PredicateLeaf> },
}

/// The mathematical value of a [`FilterPredicate`].
pub enum FilterPredicateView {
    Comparison(LeafView),
    Junction { op: JunctionOp, preds: Seq<LeafView> },
}

impl View for FilterPredicate {
    type V = FilterPredicateView;

    open spec fn view(&self) -> FilterPredicateView {
        match self {
            FilterPredicate::Comparison(leaf) => FilterPredicateView::Comparison(leaf@),
            FilterPredicate::Junction { op, preds } => FilterPredicateView::Junction {
                op: *op,
                preds: preds.deep_view(),
            },
        }
    }
}

/// Why a filter failed to compile: its key names no root field, the field
/// is not primitive, or an operand (the leftmost bad one) failed to parse.
pub enum CompileFailure {
    UnknownField,
    NotPrimitive,
    Operand(Seq<char>),
}

/// The leaf that one raw operand compiles to at the given kind, or the
/// operand itself as the failure.
pub open spec fn leaf_spec(
    op: CompareOp,
    column: Seq<char>,
    kind: PrimitiveKind,
    v: Seq<char>,
) -> Result<LeafView, CompileFailure> {
    match parsed_scalar(kind, v) {
        Some(s) => Ok(LeafView { op, column, literal: s }),
        None => Err(CompileFailure::Operand(v)),
    }
}

/// The leaves that a list of raw operands compiles to, in input order; the
/// leftmost unparseable operand is the failure.
pub open spec fn leaves_spec(
    op: CompareOp,
    column: Seq<char>,
    kind: PrimitiveKind,
    vs: Seq<Seq<char>>,
) -> Result<Seq<LeafView>, CompileFailure>
    decreases vs.len(),
{
    if vs.len() == 0 {
        Ok(Seq::<LeafView>::empty())
    } else {
        match leaves_spec(op, column, kind, vs.drop_last()) {
            Err(e) => Err(e),
            Ok(rest) => match parsed_scalar(kind, vs.last()) {
                Some(s) => Ok(rest.push(LeafView { op, column, literal: s })),
                None => Err(CompileFailure::Operand(vs.last())),
            },
        }
    }
}

/// What a filter compiles to against a schema, or why it fails; see the
/// module doc.
pub open spec fn filter_predicate_spec(f: FilterView, schema: KernelSchema) -> Result<
    FilterPredicateView,
    CompileFailure,
> {
    if !schema_fields(schema).contains_key(f.key) {
        Err(CompileFailure::UnknownField)
    } else {
        match schema_fields(schema)[f.key] {
            DataType::Complex => Err(CompileFailure::NotPrimitive),
            DataType::Primitive(kind) => match f.value {
                PartitionValueView::Equal(v) => match leaf_spec(CompareOp::Eq, f.key, kind, v) {
                    Ok(leaf) => Ok(FilterPredicateView::Comparison(leaf)),
                    Err(e) => Err(e),
                },
                PartitionValueView::NotEqual(v) => match leaf_spec(
                    CompareOp::Ne,
                    f.key,
                    kind,
                    v,
                ) {
                    Ok(leaf) => Ok(FilterPredicateView::Comparison(leaf)),
                    Err(e) => Err(e),
                },
                PartitionValueView::LessThan(v) => match leaf_spec(
                    CompareOp::Lt,
                    f.key,
                    kind,
                    v,
                ) {
                    Ok(leaf) => Ok(FilterPredicateView::Comparison(leaf)),
                    Err(e) => Err(e),
                },
                PartitionValueView::LessThanOrEqual(v) => match leaf_spec(
                    CompareOp::Le,
                    f.key,
                    kind,
                    v,
                ) {
                    Ok(leaf) => Ok(FilterPredicateView::Comparison(leaf)),
                    Err(e) => Err(e),
                },
                PartitionValueView::GreaterThan(v) => match leaf_spec(
                    CompareOp::Gt,
                    f.key,
                    kind,
                    v,
                ) {
                    Ok(leaf) => Ok(FilterPredicateView::Comparison(leaf)),
                    Err(e) => Err(e),
                },
                PartitionValueView::GreaterThanOrEqual(v) => match leaf_spec(
                    CompareOp::Ge,
                    f.key,
                    kind,
                    v,
                ) {
                    Ok(leaf) => Ok(FilterPredicateView::Comparison(leaf)),
                    Err(e) => Err(e),
                },
                PartitionValueView::In(vs) => match leaves_spec(CompareOp::Eq, f.key, kind, vs) {
                    Ok(leaves) => Ok(FilterPredicateView::Junction {
                        op: JunctionOp::Or,
                        preds: leaves,
                    }),
                    Err(e) => Err(e),
                },
                PartitionValueView::NotIn(vs) => match leaves_spec(
                    CompareOp::Ne,
                    f.key,
                    kind,
                    vs,
                ) {
                    Ok(leaves) => Ok(FilterPredicateView::Junction {
                        op: JunctionOp::And,
                        preds: leaves,
                    }),
                    Err(e) => Err(e),
                },
            },
        }
    }
}

/// The message of the error naming a field absent from the schema's root.
pub open spec fn unknown_field_msg(key: Seq<char>) -> Seq<char> {
    "Field '"@ + key + "' is not a root table field."@
}

/// The message of the error naming a field of non-primitive type.
pub open spec fn not_primitive_msg(key: Seq<char>) -> Seq<char> {
    "Field '"@ + key + "' is not a primitive type"@
}

/// How a compilation failure surfaces as the library's error: a schema
/// failure carries the message naming the field; an operand failure
/// carries the parser's own message.
pub open spec fn compile_error_matches(
    fail: CompileFailure,
    key: Seq<char>,
    e: DeltaTableError,
) -> bool {
    match fail {
        CompileFailure::UnknownField => e matches DeltaTableError::SchemaMismatch { msg }
            && msg@ == unknown_field_msg(key),
        CompileFailure::NotPrimitive => e matches DeltaTableError::SchemaMismatch { msg }
            && msg@ == not_primitive_msg(key),
        CompileFailure::Operand(_) => e is Kernel,
    }
}

fn schema_mismatch_error(key: &str, unknown: bool) -> (e: DeltaTableError)
    ensures
        unknown ==> (e matches DeltaTableError::SchemaMismatch { msg } && msg@
            == unknown_field_msg(key@)),
        !unknown ==> (e matches DeltaTableError::SchemaMismatch { msg } && msg@
            == not_primitive_msg(key@)),
{
    let mut msg = String::from_str("Field '");
    msg.append(key);
    if unknown {
        msg.append("' is not a root table field.");
    } else {
        msg.append("' is not a primitive type");
    }
    DeltaTableError::SchemaMismatch { msg }
}

fn build_leaf(op: CompareOp, column: &String, kind: &PrimitiveKind, v: &String) -> (r:
    Result<PredicateLeaf, DeltaTableError>)
    ensures
        r matches Ok(leaf) ==> leaf_spec(op, column@, *kind, v@) == Ok::<
            LeafView,
            CompileFailure,
        >(leaf@),
        r is Err <==> leaf_spec(op, column@, *kind, v@) is Err,
        r is Err ==> r.unwrap_err() is Kernel,
{
    match parse_primitive_scalar(kind, v.as_str()) {
        Ok(s) => Ok(PredicateLeaf { op, column: column.clone(), literal: s }),
        Err(msg) => Err(DeltaTableError::Kernel { msg }),
    }
}

proof fn lemma_leaves_spec_error(
    op: CompareOp,
    column: Seq<char>,
    kind: PrimitiveKind,
    vs: Seq<Seq<char>>,
    i: int,
)
    requires
        0 <= i < vs.len(),
        leaves_spec(op, column, kind, vs.take(i)) is Ok,
        parsed_scalar(kind, vs[i]) is None,
    ensures
        leaves_spec(op, column, kind, vs) == Err::<Seq<LeafView>, CompileFailure>(
            CompileFailure::Operand(vs[i]),
        ),
    decreases vs.len(),
{
    if i == vs.len() - 1 {
        assert(vs.drop_last() =~= vs.take(i));
        assert(vs.last() == vs[i]);
    } else {
        assert(vs.drop_last().take(i) =~= vs.take(i));
        assert(vs.drop_last()[i] == vs[i]);
        lemma_leaves_spec_error(op, column, kind, vs.drop_last(), i);
    }
}

proof fn lemma_leaves_spec_err_is_operand(
    op: CompareOp,
    column: Seq<char>,
    kind: PrimitiveKind,
    vs: Seq<Seq<char>>,
)
    requires
        leaves_spec(op, column, kind, vs) is Err,
    ensures
        leaves_spec(op, column, kind, vs)->Err_0 is Operand,
    decreases vs.len(),
{
    if vs.len() > 0 && leaves_spec(op, column, kind, vs.drop_last()) is Err {
        lemma_leaves_spec_err_is_operand(op, column, kind, vs.drop_last());
    }
}

fn build_leaves(
    op: CompareOp,
    column: &String,
    kind: &PrimitiveKind,
    vs: &Vec<String>,
) -> (r: Result<Vec<PredicateLeaf>, DeltaTableError>)
    ensures
        r matches Ok(leaves) ==> leaves_spec(op, column@, *kind, vs.deep_view()) == Ok::<
            Seq<LeafView>,
            CompileFailure,
        >(leaves.deep_view()),
        r is Err <==> leaves_spec(op, column@, *kind, vs.deep_view()) is Err,
        r is Err ==> r.unwrap_err() is Kernel,
{
    let ghost dv = vs.deep_view();
    let mut out: Vec<PredicateLeaf> = Vec::new();
    let mut i: usize = 0;
    proof {
        assert(dv.take(0) =~= Seq::<Seq<char>>::empty());
        assert(out.deep_view() =~= Seq::<LeafView>::empty());
    }
    while i < vs.len()
        invariant
            i <= vs@.len(),
            dv == vs.deep_view(),
            dv.len() == vs@.len(),
            out@.len() == i,
            leaves_spec(op, column@, *kind, dv.take(i as int)) == Ok::<
                Seq<LeafView>,
                CompileFailure,
            >(out.deep_view()),
        decreases vs@.len() - i,
    {
        let ghost prev = out.deep_view();
        match build_leaf(op, column, kind, &vs[i]) {
            Ok(leaf) => {
                out.push(leaf);
                proof {
                    assert(dv.take(i + 1).drop_last() =~= dv.take(i as int));
                    assert(dv.take(i + 1).last() == dv[i as int]);
                    assert forall|j: int| 0 <= j <= i implies out.deep_view()[j]
                        == prev.push(leaf@)[j] by {
                        if j < i {
                            assert(out.deep_view()[j] == prev[j]);
                        }
                    };
                    assert(out.deep_view() =~= prev.push(leaf@));
                }
            },
            Err(e) => {
                proof {
                    lemma_leaves_spec_error(op, column@, *kind, dv, i as int);
                }
                return Err(e);
            },
        }
        i = i + 1;
    }
    proof {
        assert(dv.take(vs@.len() as int) =~= dv);
    }
    Ok(out)
}

/// Compiles one filter against the schema's root fields into the model of
/// its push-down predicate; see [`filter_predicate_spec`].
pub fn filter_to_predicate(filter: &PartitionFilter, table_schema: &KernelSchema) -> (r:
    Result<FilterPredicate, DeltaTableError>)
    ensures
        r matches Ok(p) ==> filter_predicate_spec(filter@, *table_schema) == Ok::<
            FilterPredicateView,
            CompileFailure,
        >(p@),
        r is Ok <==> filter_predicate_spec(filter@, *table_schema) is Ok,
        r matches Err(e) ==> compile_error_matches(
            filter_predicate_spec(filter@, *table_schema)->Err_0,
            filter@.key,
            e,
        ),
{
    let dt = match schema_field_type(table_schema, self_key(filter)) {
        Some(dt) => dt,
        None => {
            return Err(schema_mismatch_error(self_key(filter), true));
        },
    };
    let kind = match dt {
        DataType::Primitive(kind) => kind,
        DataType::Complex => {
            return Err(schema_mismatch_error(self_key(filter), false));
        },
    };
    match &filter.value {
        PartitionValue::Equal(v) => match build_leaf(CompareOp::Eq, &filter.key, &kind, v) {
            Ok(leaf) => Ok(FilterPredicate::Comparison(leaf)),
            Err(e) => Err(e),
        },
        PartitionValue::NotEqual(v) => match build_leaf(CompareOp::Ne, &filter.key, &kind, v) {
            Ok(leaf) => Ok(FilterPredicate::Comparison(leaf)),
            Err(e) => Err(e),
        },
        PartitionValue::LessThan(v) => match build_leaf(CompareOp::Lt, &filter.key, &kind, v) {
            Ok(leaf) => Ok(FilterPredicate::Comparison(leaf)),
            Err(e) => Err(e),
        },
        PartitionValue::LessThanOrEqual(v) => match build_leaf(
            CompareOp::Le,
            &filter.key,
            &kind,
            v,
        ) {
            Ok(leaf) => Ok(FilterPredicate::Comparison(leaf)),
            Err(e) => Err(e),
        },
        PartitionValue::GreaterThan(v) => match build_leaf(
            CompareOp::Gt,
            &filter.key,
            &kind,
            v,
        ) {
            Ok(leaf) => Ok(FilterPredicate::Comparison(leaf)),
            Err(e) => Err(e),
        },
        PartitionValue::GreaterThanOrEqual(v) => match build_leaf(
            CompareOp::Ge,
            &filter.key,
            &kind,
            v,
        ) {
            Ok(leaf) => Ok(FilterPredicate::Comparison(leaf)),
            Err(e) => Err(e),
        },
        PartitionValue::In(vs) => match build_leaves(CompareOp::Eq, &filter.key, &kind, vs) {
            Ok(leaves) => Ok(FilterPredicate::Junction { op: JunctionOp::Or, preds: leaves }),
            Err(e) => {
                proof {
                    lemma_leaves_spec_err_is_operand(
                        CompareOp::Eq,
                        filter@.key,
                        kind,
                        vs.deep_view(),
                    );
                }
                Err(e)
            },
        },
        PartitionValue::NotIn(vs) => match build_leaves(CompareOp::Ne, &filter.key, &kind, vs) {
            Ok(leaves) => Ok(FilterPredicate::Junction { op: JunctionOp::And, preds: leaves }),
            Err(e) => {
                proof {
                    lemma_leaves_spec_err_is_operand(
                        CompareOp::Ne,
                        filter@.key,
                        kind,
                        vs.deep_view(),
                    );
                }
                Err(e)
            },
        },
    }
}

fn self_key(filter: &PartitionFilter) -> (r: &str)
    ensures
        r@ == filter@.key,
{
    filter.key.as_str()
}

/// The kernel predicate that a model predicate denotes: its leaves through
/// the kernel's leaf builders, a junction through the kernel's junction
/// builder over those leaves.
pub open spec fn kernel_tree_of(p: FilterPredicateView) -> KernelPredicate {
    match p {
        FilterPredicateView::Comparison(leaf) => kernel_leaf_of(
            leaf.op,
            leaf.column,
            leaf.literal,
        ),
        FilterPredicateView::Junction { op, preds } => kernel_junction_of(
            op,
            Seq::new(
                preds.len(),
                |i: int| kernel_leaf_of(preds[i].op, preds[i].column, preds[i].literal),
            ),
        ),
    }
}

/// Builds the kernel predicate that one model predicate denotes.
fn build_kernel_predicate(p: &FilterPredicate) -> (r: KernelPredicate)
    ensures
        r == kernel_tree_of(p@),
{
    match p {
        FilterPredicate::Comparison(leaf) => kernel_comparison(
            &leaf.op,
            leaf.column.as_str(),
            &leaf.literal,
        ),
        FilterPredicate::Junction { op, preds } => {
            let ghost dv = preds.deep_view();
            let ghost leaves = Seq::new(
                dv.len(),
                |i: int| kernel_leaf_of(dv[i].op, dv[i].column, dv[i].literal),
            );
            let mut out: Vec<KernelPredicate> = Vec::new();
            let mut i: usize = 0;
            while i < preds.len()
                invariant
                    i <= preds@.len(),
                    dv == preds.deep_view(),
                    dv.len() == preds@.len(),
                    leaves == Seq::new(
                        dv.len(),
                        |j: int| kernel_leaf_of(dv[j].op, dv[j].column, dv[j].literal),
                    ),
                    out@ == leaves.take(i as int),
                decreases preds@.len() - i,
            {
                out.push(
                    kernel_comparison(
                        &preds[i].op,
                        preds[i].column.as_str(),
                        &preds[i].literal,
                    ),
                );
                proof {
                    assert(dv[i as int] == preds@[i as int]@);
                    assert(out@ =~= leaves.take(i + 1));
                }
                i = i + 1;
            }
            proof {
                assert(leaves.take(dv.len() as int) =~= leaves);
            }
            kernel_junction(op, out)
        },
    }
}

/// Compiles one filter against the schema into the kernel's predicate: the
/// kernel tree that the compiled model denotes, succeeding and failing
/// exactly as [`filter_to_predicate`] does.
pub fn filter_to_kernel_predicate(
    filter: &PartitionFilter,
    table_schema: &KernelSchema,
) -> (r: Result<KernelPredicate, DeltaTableError>)
    ensures
        r is Ok <==> filter_predicate_spec(filter@, *table_schema) is Ok,
        r matches Ok(kp) ==> kp == kernel_tree_of(
            filter_predicate_spec(filter@, *table_schema)->Ok_0,
        ),
        r matches Err(e) ==> compile_error_matches(
            filter_predicate_spec(filter@, *table_schema)->Err_0,
            filter@.key,
            e,
        ),
{
    match filter_to_predicate(filter, table_schema) {
        Ok(p) => Ok(build_kernel_predicate(&p)),
        Err(e) => Err(e),
    }
}

/// True when every one of the first `n` filters compiles against the
/// schema.
pub open spec fn filters_compile_up_to(
    filters: Seq<PartitionFilter>,
    schema: KernelSchema,
    n: int,
) -> bool {
    forall|j: int|
        0 <= j < n ==> filter_predicate_spec(#[trigger] filters[j]@, schema) is Ok
}

/// Compiles every filter against the schema, in order; the first filter
/// that fails decides the error.
pub fn to_predicates(filters: &[PartitionFilter], table_schema: &KernelSchema) -> (r:
    Result<Vec<FilterPredicate>, DeltaTableError>)
    ensures
        r is Ok <==> filters_compile_up_to(filters@, *table_schema, filters@.len() as int),
        r matches Ok(ps) ==> ps@.len() == filters@.len() && (forall|i: int|
            0 <= i < filters@.len() ==> filter_predicate_spec(
                #[trigger] filters@[i]@,
                *table_schema,
            ) == Ok::<FilterPredicateView, CompileFailure>(ps@[i]@)),
        r matches Err(e) ==> exists|i: int|
            0 <= i < filters@.len() && filters_compile_up_to(filters@, *table_schema, i)
                && (filter_predicate_spec(
                #[trigger] filters@[i]@,
                *table_schema,
            ) matches Err(fail) && compile_error_matches(fail, filters@[i]@.key, e)),
{
    let mut out: Vec<FilterPredicate> = Vec::new();
    let mut i: usize = 0;
    while i < filters.len()
        invariant
            i <= filters@.len(),
            out@.len() == i,
            forall|j: int|
                0 <= j < i ==> filter_predicate_spec(#[trigger] filters@[j]@, *table_schema)
                    == Ok::<FilterPredicateView, CompileFailure>(out@[j]@),
        decreases filters@.len() - i,
    {
        match filter_to_predicate(&filters[i], table_schema) {
            Ok(p) => {
                out.push(p);
            },
            Err(e) => {
                return Err(e);
            },
        }
        i = i + 1;
    }
    Ok(out)
}

/// The kernel trees of every filter's compiled model, in input order, on
/// schemas against which they all compile.
pub open spec fn kernel_trees_of(
    filters: Seq<PartitionFilter>,
    schema: KernelSchema,
) -> Seq<KernelPredicate> {
    Seq::new(
        filters.len(),
        |i: int| kernel_tree_of(filter_predicate_spec(filters[i]@, schema)->Ok_0),
    )
}

/// Compiles the given filters against the schema and ANDs their kernel
/// predicates, in input order, into one push-down predicate; it succeeds
/// exactly when every filter compiles, and the first filter that fails
/// decides the error.
pub fn to_kernel_predicate(filters: &[PartitionFilter], table_schema: &KernelSchema) -> (r:
    Result<KernelPredicate, DeltaTableError>)
    ensures
        r is Ok <==> filters_compile_up_to(filters@, *table_schema, filters@.len() as int),
        r matches Ok(kp) ==> kp == kernel_junction_of(
            JunctionOp::And,
            kernel_trees_of(filters@, *table_schema),
        ),
        r matches Err(e) ==> exists|i: int|
            0 <= i < filters@.len() && filters_compile_up_to(filters@, *table_schema, i)
                && (filter_predicate_spec(
                #[trigger] filters@[i]@,
                *table_schema,
            ) matches Err(fail) && compile_error_matches(fail, filters@[i]@.key, e)),
{
    let ghost trees = kernel_trees_of(filters@, *table_schema);
    let preds = match to_predicates(filters, table_schema) {
        Ok(ps) => ps,
        Err(e) => {
            return Err(e);
        },
    };
    let mut out: Vec<KernelPredicate> = Vec::new();
    let mut i: usize = 0;
    while i < preds.len()
        invariant
            i <= preds@.len(),
            preds@.len() == filters@.len(),
            trees == kernel_trees_of(filters@, *table_schema),
            trees.len() == filters@.len(),
            forall|j: int|
                0 <= j < preds@.len() ==> filter_predicate_spec(
                    #[trigger] filters@[j]@,
                    *table_schema,
                ) == Ok::<FilterPredicateView, CompileFailure>(preds@[j]@),
            out@ == trees.take(i as int),
        decreases preds@.len() - i,
    {
        out.push(build_kernel_predicate(&preds[i]));
        proof {
            assert(kernel_tree_of(preds@[i as int]@) == trees[i as int]);
            assert(out@ =~= trees.take(i + 1));
        }
        i = i + 1;
    }
    proof {
        assert(trees.take(filters@.len() as int) =~= trees);
    }
    Ok(kernel_junction(&JunctionOp::And, out))
}

} // verus!
