//! The predicate argument mapper. Composite object arguments fold field by
//! field into conjunctions; an operator-style argument folds its named
//! operator fields into conjunctions; a leaf produces a single equality; an
//! absent optional field contributes `True`, the no-op filter. Variable
//! references are substituted from the request's bound variables before
//! mapping.

use vstd::prelude::*;

use crate::error::{ExecutionError, ExecutionErrorView};
use crate::graphql::{
    gql_fields_view, gql_obj_get, gql_seq_view, gql_to_json, gql_to_json_spec, lookup_named,
    GraphQLValue, GraphQLValueView,
};
use crate::predicate::{AbstractPredicate, ColumnPath, ColumnPathView, PredicateView};
use crate::schema::{ColumnId, ColumnPathLink};
use crate::solver::{literal_ok, literal_path_spec, rel_node, RelationalKind};
use crate::text::str_eq;

verus! {

/// Model of one predicate parameter.
pub struct PredicateParameterView {
    pub name: Seq<char>,
    pub type_id: int,
    pub column_id: Option<ColumnId>,
}

/// One predicate parameter: its argument field name, the id of its parameter
/// type, and the physical column it filters, if it filters one directly.
#[derive(Debug, PartialEq)]
pub struct PredicateParameter {
    pub name: String,
    pub type_id: usize,
    pub column_id: Option<ColumnId>,
}

impl View for PredicateParameter {
    type V = PredicateParameterView;

    open spec fn view(&self) -> PredicateParameterView {
        PredicateParameterView {
            name: self.name@,
            type_id: self.type_id as int,
            column_id: self.column_id,
        }
    }
}

/// The element-wise view of a parameter list.
pub open spec fn predicate_params_view(s: Seq<PredicateParameter>) -> Seq<
    PredicateParameterView,
> {
    Seq::new(s.len(), |i: int| if 0 <= i < s.len() {
        s[i]@
    } else {
        PredicateParameterView { name: Seq::empty(), type_id: 0, column_id: None }
    })
}

/// Model of a predicate parameter type's shape.
pub enum PredicateTypeKindView {
    ImplicitEqual,
    Operator(Seq<PredicateParameterView>),
    Composite(Seq<PredicateParameterView>),
}

/// The shape of a predicate parameter type: a leaf whose bare value means
/// equality, an operator set such as `{gt: 5, lt: 10}`, or a composite with
/// one parameter per filterable field.
#[derive(Debug, PartialEq)]
pub enum PredicateParameterTypeKind {
    ImplicitEqual,
    Operator(Vec<PredicateParameter>),
    Composite(Vec<PredicateParameter>),
}

impl View for PredicateParameterTypeKind {
    type V = PredicateTypeKindView;

    open spec fn view(&self) -> PredicateTypeKindView {
        match self {
            PredicateParameterTypeKind::ImplicitEqual => PredicateTypeKindView::ImplicitEqual,
            PredicateParameterTypeKind::Operator(params) => PredicateTypeKindView::Operator(
                predicate_params_view(params@),
            ),
            PredicateParameterTypeKind::Composite(params) => PredicateTypeKindView::Composite(
                predicate_params_view(params@),
            ),
        }
    }
}

/// Model of a predicate parameter type.
pub struct PredicateParameterTypeView {
    pub name: Seq<char>,
    pub kind: PredicateTypeKindView,
}

/// A predicate parameter type in the catalog.
#[derive(Debug, PartialEq)]
pub struct PredicateParameterType {
    pub name: String,
    pub kind: PredicateParameterTypeKind,
}

impl View for PredicateParameterType {
    type V = PredicateParameterTypeView;

    open spec fn view(&self) -> PredicateParameterTypeView {
        PredicateParameterTypeView { name: self.name@, kind: self.kind@ }
    }
}

/// The element-wise view of the predicate type catalog.
pub open spec fn predicate_types_view(s: Seq<PredicateParameterType>) -> Seq<
    PredicateParameterTypeView,
> {
    Seq::new(s.len(), |i: int| if 0 <= i < s.len() {
        s[i]@
    } else {
        PredicateParameterTypeView {
            name: Seq::empty(),
            kind: PredicateTypeKindView::ImplicitEqual,
        }
    })
}

/// Whether every bound variable holds a constant (variable-free) value.
pub open spec fn variables_wf(vars: Seq<(Seq<char>, GraphQLValueView)>) -> bool
    decreases vars.len(),
{
    if vars.len() == 0 {
        true
    } else {
        gql_to_json_spec(vars.first().1) is Some && variables_wf(vars.drop_first())
    }
}

/// A binding found among well-formed variables is variable-free.
pub proof fn lemma_variables_wf_get(vars: Seq<(Seq<char>, GraphQLValueView)>, name: Seq<char>)
    requires
        variables_wf(vars),
    ensures
        gql_obj_get(vars, name) matches Some(v) ==> gql_to_json_spec(v) is Some,
    decreases vars.len(),
{
    if vars.len() > 0 && vars.first().0 != name {
        lemma_variables_wf_get(vars.drop_first(), name);
    }
}

/// What substituting the request's bound variables yields: each variable
/// reference is replaced by its binding, and a reference with no binding
/// fails the whole substitution.
pub open spec fn resolve_variables_spec(
    arg: GraphQLValueView,
    vars: Seq<(Seq<char>, GraphQLValueView)>,
) -> Result<GraphQLValueView, ExecutionErrorView>
    decreases arg,
{
    match arg {
        GraphQLValueView::Variable(name) => match gql_obj_get(vars, name) {
            Some(v) => Ok(v),
            None => Err(ExecutionErrorView::UnresolvedVariable(name)),
        },
        GraphQLValueView::List(vs) => match resolve_variables_list_spec(vs, vars) {
            Ok(rs) => Ok(GraphQLValueView::List(rs)),
            Err(e) => Err(e),
        },
        GraphQLValueView::Object(fs) => match resolve_variables_fields_spec(fs, vars) {
            Ok(rs) => Ok(GraphQLValueView::Object(rs)),
            Err(e) => Err(e),
        },
        _ => Ok(arg),
    }
}

/// The element-wise substitution of a value list.
pub open spec fn resolve_variables_list_spec(
    vs: Seq<GraphQLValueView>,
    vars: Seq<(Seq<char>, GraphQLValueView)>,
) -> Result<Seq<GraphQLValueView>, ExecutionErrorView>
    decreases vs,
{
    if vs.len() == 0 {
        Ok(Seq::empty())
    } else {
        match (resolve_variables_spec(vs.first(), vars), resolve_variables_list_spec(
            vs.drop_first(),
            vars,
        )) {
            (Ok(h), Ok(t)) => Ok(seq![h] + t),
            (Err(e), _) => Err(e),
            (_, Err(e)) => Err(e),
        }
    }
}

/// The element-wise substitution of named values.
pub open spec fn resolve_variables_fields_spec(
    fs: Seq<(Seq<char>, GraphQLValueView)>,
    vars: Seq<(Seq<char>, GraphQLValueView)>,
) -> Result<Seq<(Seq<char>, GraphQLValueView)>, ExecutionErrorView>
    decreases fs,
{
    if fs.len() == 0 {
        Ok(Seq::empty())
    } else {
        match (resolve_variables_spec(fs.first().1, vars), resolve_variables_fields_spec(
            fs.drop_first(),
            vars,
        )) {
            (Ok(h), Ok(t)) => Ok(seq![(fs.first().0, h)] + t),
            (Err(e), _) => Err(e),
            (_, Err(e)) => Err(e),
        }
    }
}

/// The operator a named operator field denotes.
pub open spec fn operator_kind(name: Seq<char>) -> Option<RelationalKind> {
    if name == "eq"@ {
        Some(RelationalKind::Eq)
    } else if name == "neq"@ {
        Some(RelationalKind::Neq)
    } else if name == "lt"@ {
        Some(RelationalKind::Lt)
    } else if name == "lte"@ {
        Some(RelationalKind::Lte)
    } else if name == "gt"@ {
        Some(RelationalKind::Gt)
    } else if name == "gte"@ {
        Some(RelationalKind::Gte)
    } else if name == "in"@ {
        Some(RelationalKind::In)
    } else {
        None
    }
}

/// The two operands of a leaf comparison: the parameter's physical column on
/// the left, the argument value as a literal leaf on the right. A parameter
/// without a column, a value holding a variable, and an object-valued
/// literal are each rejected.
pub open spec fn operands_spec(p: PredicateParameterView, v: GraphQLValueView) -> Result<
    (ColumnPathView, ColumnPathView),
    ExecutionErrorView,
> {
    match p.column_id {
        Some(cid) => match gql_to_json_spec(v) {
            Some(j) => {
                if literal_ok(j) {
                    Ok(
                        (
                            ColumnPathView::Physical(
                                seq![
                                    ColumnPathLink { self_column_id: cid, linked_column_id: None },
                                ],
                            ),
                            literal_path_spec(j),
                        ),
                    )
                } else {
                    Err(ExecutionErrorView::InvalidLiteral)
                }
            },
            None => Err(ExecutionErrorView::InvalidLiteral),
        },
        None => Err(ExecutionErrorView::MissingColumn(p.name)),
    }
}

/// One operator field's contribution: the comparison node for the operator
/// over the parameter's column and the field's value.
pub open spec fn operator_predicate_spec(
    p: PredicateParameterView,
    op_name: Seq<char>,
    v: GraphQLValueView,
) -> Result<PredicateView, ExecutionErrorView> {
    match operator_kind(op_name) {
        Some(kind) => match operands_spec(p, v) {
            Ok(ops) => Ok(rel_node(kind, ops.0, ops.1)),
            Err(e) => Err(e),
        },
        None => Err(ExecutionErrorView::UnknownOperator(op_name)),
    }
}

/// The first parameter with the given argument field name, if any.
pub open spec fn find_predicate_parameter(
    params: Seq<PredicateParameterView>,
    name: Seq<char>,
) -> Option<PredicateParameterView>
    decreases params.len(),
{
    if params.len() == 0 {
        None
    } else if params.first().name == name {
        Some(params.first())
    } else {
        find_predicate_parameter(params.drop_first(), name)
    }
}

/// What mapping a (variable-free) predicate argument yields for the
/// parameter. A leaf means equality on the parameter's column; an
/// operator-style object folds its operator fields; a composite object
/// folds its named fields through their own parameters. The folds run left
/// to right over the argument's fields, combining with the simplifying
/// conjunction, so an absent optional field contributes nothing, and a
/// field naming nothing in the schema is rejected.
pub open spec fn map_predicate_spec(
    p: PredicateParameterView,
    arg: GraphQLValueView,
    types: Seq<PredicateParameterTypeView>,
) -> Result<PredicateView, ExecutionErrorView>
    decreases arg,
{
    if p.type_id < 0 || p.type_id >= types.len() {
        Err(ExecutionErrorView::UnknownParameterType)
    } else {
        match types[p.type_id].kind {
            PredicateTypeKindView::ImplicitEqual => match operands_spec(p, arg) {
                Ok(ops) => Ok(PredicateView::Eq(ops.0, ops.1)),
                Err(e) => Err(e),
            },
            PredicateTypeKindView::Operator(parameters) => match arg {
                GraphQLValueView::Object(fs) => fold_operator_fields_spec(
                    p,
                    parameters,
                    fs,
                    PredicateView::True,
                ),
                _ => Err(ExecutionErrorView::InvalidLiteral),
            },
            PredicateTypeKindView::Composite(parameters) => match arg {
                GraphQLValueView::Object(fs) => fold_composite_fields_spec(
                    parameters,
                    fs,
                    PredicateView::True,
                    types,
                ),
                _ => Err(ExecutionErrorView::InvalidLiteral),
            },
        }
    }
}

/// The left-to-right fold of an operator-style argument's fields: each field
/// must name an operator the type offers, and conjoins its comparison.
pub open spec fn fold_operator_fields_spec(
    p: PredicateParameterView,
    parameters: Seq<PredicateParameterView>,
    fs: Seq<(Seq<char>, GraphQLValueView)>,
    acc: PredicateView,
) -> Result<PredicateView, ExecutionErrorView>
    decreases fs,
{
    if fs.len() == 0 {
        Ok(acc)
    } else if find_predicate_parameter(parameters, fs.first().0) is None {
        Err(ExecutionErrorView::UnknownOperator(fs.first().0))
    } else {
        match operator_predicate_spec(p, fs.first().0, fs.first().1) {
            Ok(c) => fold_operator_fields_spec(
                p,
                parameters,
                fs.drop_first(),
                PredicateView::and(acc, c),
            ),
            Err(e) => Err(e),
        }
    }
}

/// The left-to-right fold of a composite argument's fields: each field maps
/// through its own parameter and conjoins; a field naming no parameter is
/// rejected.
pub open spec fn fold_composite_fields_spec(
    parameters: Seq<PredicateParameterView>,
    fs: Seq<(Seq<char>, GraphQLValueView)>,
    acc: PredicateView,
    types: Seq<PredicateParameterTypeView>,
) -> Result<PredicateView, ExecutionErrorView>
    decreases fs,
{
    if fs.len() == 0 {
        Ok(acc)
    } else {
        match find_predicate_parameter(parameters, fs.first().0) {
            Some(param) => match map_predicate_spec(param, fs.first().1, types) {
                Ok(c) => fold_composite_fields_spec(
                    parameters,
                    fs.drop_first(),
                    PredicateView::and(acc, c),
                    types,
                ),
                Err(e) => Err(e),
            },
            None => Err(ExecutionErrorView::UnknownField(fs.first().0)),
        }
    }
}

/// Substitutes the request's bound variables through an argument value.
#[verifier::loop_isolation(false)]
pub fn resolve_variables(
    arg: &GraphQLValue,
    variables: &Vec<(String, GraphQLValue)>,
) -> (r: Result<GraphQLValue, ExecutionError>)
    ensures
        match r {
            Ok(v) => resolve_variables_spec(arg@, gql_fields_view(variables@)) == Ok::<
                _,
                ExecutionErrorView,
            >(v@),
            Err(e) => resolve_variables_spec(arg@, gql_fields_view(variables@)) == Err::<
                GraphQLValueView,
                _,
            >(e@),
        },
    decreases arg,
{
    let ghost vars = gql_fields_view(variables@);
    match arg {
        GraphQLValue::Variable(name) => match lookup_named(variables, name.as_str()) {
            Some(v) => Ok(v.duplicate()),
            None => Err(ExecutionError::UnresolvedVariable(name.clone())),
        },
        GraphQLValue::List(vs) => {
            let ghost s = gql_seq_view(vs@);
            let mut out: Vec<GraphQLValue> = Vec::new();
            let mut i: usize = 0;
            proof {
                assert(s.skip(0) =~= s);
            }
            while i < vs.len()
                invariant
                    i <= vs.len(),
                    s == gql_seq_view(vs@),
                    gql_seq_view(out@).len() == i,
                    match resolve_variables_list_spec(s.skip(i as int), vars) {
                        Ok(t) => resolve_variables_list_spec(s, vars) == Ok::<
                            _,
                            ExecutionErrorView,
                        >(gql_seq_view(out@) + t),
                        Err(e) => resolve_variables_list_spec(s, vars) == Err::<
                            Seq<GraphQLValueView>,
                            _,
                        >(e),
                    },
                decreases vs.len() - i,
            {
                proof {
                    assert(s.skip(i as int).first() == s[i as int]);
                    assert(s.skip(i as int).drop_first() =~= s.skip(i + 1));
                }
                match resolve_variables(&vs[i], variables) {
                    Ok(v) => {
                        let ghost out0 = gql_seq_view(out@);
                        let ghost vv = v@;
                        out.push(v);
                        proof {
                            assert(gql_seq_view(out@) =~= out0.push(vv));
                            match resolve_variables_list_spec(s.skip(i + 1), vars) {
                                Ok(t) => {
                                    assert((out0 + (seq![vv] + t)) =~= (out0.push(vv) + t));
                                },
                                Err(_) => {},
                            }
                        }
                        i = i + 1;
                    },
                    Err(e) => {
                        return Err(e);
                    },
                }
            }
            proof {
                assert(s.skip(vs@.len() as int) =~= Seq::<GraphQLValueView>::empty());
                assert(gql_seq_view(out@) + Seq::<GraphQLValueView>::empty() =~= gql_seq_view(
                    out@,
                ));
            }
            Ok(GraphQLValue::List(out))
        },
        GraphQLValue::Object(fs) => {
            let ghost s = gql_fields_view(fs@);
            let mut out: Vec<(String, GraphQLValue)> = Vec::new();
            let mut i: usize = 0;
            proof {
                assert(s.skip(0) =~= s);
            }
            while i < fs.len()
                invariant
                    i <= fs.len(),
                    s == gql_fields_view(fs@),
                    gql_fields_view(out@).len() == i,
                    match resolve_variables_fields_spec(s.skip(i as int), vars) {
                        Ok(t) => resolve_variables_fields_spec(s, vars) == Ok::<
                            _,
                            ExecutionErrorView,
                        >(gql_fields_view(out@) + t),
                        Err(e) => resolve_variables_fields_spec(s, vars) == Err::<
                            Seq<(Seq<char>, GraphQLValueView)>,
                            _,
                        >(e),
                    },
                decreases fs.len() - i,
            {
                proof {
                    assert(s.skip(i as int).first() == s[i as int]);
                    assert(s.skip(i as int).drop_first() =~= s.skip(i + 1));
                }
                match resolve_variables(&fs[i].1, variables) {
                    Ok(v) => {
                        let ghost out0 = gql_fields_view(out@);
                        let ghost entry = (fs@[i as int].0@, v@);
                        out.push((fs[i].0.clone(), v));
                        proof {
                            assert(gql_fields_view(out@) =~= out0.push(entry));
                            match resolve_variables_fields_spec(s.skip(i + 1), vars) {
                                Ok(t) => {
                                    assert((out0 + (seq![entry] + t)) =~= (out0.push(entry) + t));
                                },
                                Err(_) => {},
                            }
                        }
                        i = i + 1;
                    },
                    Err(e) => {
                        return Err(e);
                    },
                }
            }
            proof {
                assert(s.skip(fs@.len() as int) =~= Seq::<(Seq<char>, GraphQLValueView)>::empty());
                assert(gql_fields_view(out@) + Seq::<(Seq<char>, GraphQLValueView)>::empty()
                    =~= gql_fields_view(out@));
            }
            Ok(GraphQLValue::Object(out))
        },
        other => Ok(other.duplicate()),
    }
}

/// Finds the parameter with the given argument field name.
#[verifier::loop_isolation(false)]
fn find_parameter<'a>(params: &'a Vec<PredicateParameter>, name: &str) -> (r: Option<
    &'a PredicateParameter,
>)
    ensures
        match r {
            Some(p) => find_predicate_parameter(predicate_params_view(params@), name@) == Some(
                p@,
            ),
            None => find_predicate_parameter(predicate_params_view(params@), name@) is None,
        },
{
    let ghost ps = predicate_params_view(params@);
    let mut i: usize = 0;
    proof {
        assert(ps.skip(0) =~= ps);
    }
    while i < params.len()
        invariant
            i <= params.len(),
            ps == predicate_params_view(params@),
            find_predicate_parameter(ps, name@) == find_predicate_parameter(
                ps.skip(i as int),
                name@,
            ),
        decreases params.len() - i,
    {
        proof {
            assert(ps.skip(i as int).first() == ps[i as int]);
        }
        if str_eq(params[i].name.as_str(), name) {
            return Some(&params[i]);
        }
        proof {
            assert(ps.skip(i as int).drop_first() =~= ps.skip(i + 1));
        }
        i = i + 1;
    }
    proof {
        assert(ps.skip(params@.len() as int) =~= Seq::<PredicateParameterView>::empty());
    }
    None
}

/// Maps an operator field name to its operator.
fn operator_of(name: &str) -> (r: Option<RelationalKind>)
    ensures
        r == operator_kind(name@),
{
    if str_eq(name, "eq") {
        Some(RelationalKind::Eq)
    } else if str_eq(name, "neq") {
        Some(RelationalKind::Neq)
    } else if str_eq(name, "lt") {
        Some(RelationalKind::Lt)
    } else if str_eq(name, "lte") {
        Some(RelationalKind::Lte)
    } else if str_eq(name, "gt") {
        Some(RelationalKind::Gt)
    } else if str_eq(name, "gte") {
        Some(RelationalKind::Gte)
    } else if str_eq(name, "in") {
        Some(RelationalKind::In)
    } else {
        None
    }
}

/// Builds the two operands of a leaf comparison.
fn operands(p: &PredicateParameter, v: &GraphQLValue) -> (r: Result<
    (ColumnPath, ColumnPath),
    ExecutionError,
>)
    ensures
        match r {
            Ok(ops) => operands_spec(p@, v@) == Ok::<_, ExecutionErrorView>((ops.0@, ops.1@)),
            Err(e) => operands_spec(p@, v@) == Err::<(ColumnPathView, ColumnPathView), _>(e@),
        },
{
    match p.column_id {
        Some(cid) => match gql_to_json(v) {
            Ok(j) => match j {
                crate::json::JsonValue::Obj(_) => Err(ExecutionError::InvalidLiteral),
                crate::json::JsonValue::Null => {
                    let links = vec![
                        ColumnPathLink { self_column_id: cid, linked_column_id: None },
                    ];
                    proof {
                        assert(links@ =~= seq![
                            ColumnPathLink { self_column_id: cid, linked_column_id: None },
                        ]);
                    }
                    Ok((ColumnPath::Physical(links), ColumnPath::Null))
                },
                other => {
                    let links = vec![
                        ColumnPathLink { self_column_id: cid, linked_column_id: None },
                    ];
                    proof {
                        assert(links@ =~= seq![
                            ColumnPathLink { self_column_id: cid, linked_column_id: None },
                        ]);
                    }
                    Ok((ColumnPath::Physical(links), ColumnPath::Literal(other)))
                },
            },
            Err(e) => Err(e),
        },
        None => Err(ExecutionError::MissingColumn(p.name.clone())),
    }
}

/// Maps a variable-free predicate argument for the parameter.
#[verifier::loop_isolation(false)]
fn map_predicate_inner(
    p: &PredicateParameter,
    arg: &GraphQLValue,
    types: &Vec<PredicateParameterType>,
) -> (r: Result<AbstractPredicate, ExecutionError>)
    ensures
        match r {
            Ok(pred) => map_predicate_spec(p@, arg@, predicate_types_view(types@)) == Ok::<
                _,
                ExecutionErrorView,
            >(pred@),
            Err(e) => map_predicate_spec(p@, arg@, predicate_types_view(types@)) == Err::<
                PredicateView,
                _,
            >(e@),
        },
    decreases arg,
{
    let ghost tys = predicate_types_view(types@);
    if p.type_id >= types.len() {
        return Err(ExecutionError::UnknownParameterType);
    }
    proof {
        assert(tys[p@.type_id] == types@[p@.type_id]@);
    }
    match &types[p.type_id].kind {
        PredicateParameterTypeKind::ImplicitEqual => match operands(p, arg) {
            Ok(ops) => Ok(AbstractPredicate::Eq(ops.0, ops.1)),
            Err(e) => Err(e),
        },
        PredicateParameterTypeKind::Operator(parameters) => match arg {
            GraphQLValue::Object(fields) => {
                let ghost params = predicate_params_view(parameters@);
                let ghost fs = gql_fields_view(fields@);
                let mut acc = AbstractPredicate::True;
                let mut i: usize = 0;
                proof {
                    assert(fs.skip(0) =~= fs);
                }
                while i < fields.len()
                    invariant
                        i <= fields.len(),
                        fs == gql_fields_view(fields@),
                        params == predicate_params_view(parameters@),
                        fold_operator_fields_spec(p@, params, fs, PredicateView::True)
                            == fold_operator_fields_spec(p@, params, fs.skip(i as int), acc@),
                    decreases fields.len() - i,
                {
                    proof {
                        assert(fs.skip(i as int).first() == fs[i as int]);
                        assert(fs.skip(i as int).drop_first() =~= fs.skip(i + 1));
                        assert(fs[i as int] == (fields@[i as int].0@, fields@[i as int].1@));
                    }
                    match find_parameter(parameters, fields[i].0.as_str()) {
                        Some(_) => {},
                        None => {
                            return Err(
                                ExecutionError::UnknownOperator(fields[i].0.clone()),
                            );
                        },
                    }
                    match operator_of(fields[i].0.as_str()) {
                        Some(kind) => match operands(p, &fields[i].1) {
                            Ok(ops) => {
                                let node = crate::solver::relational_node(kind, ops.0, ops.1);
                                acc = AbstractPredicate::and(acc, node);
                            },
                            Err(e) => {
                                return Err(e);
                            },
                        },
                        None => {
                            return Err(
                                ExecutionError::UnknownOperator(fields[i].0.clone()),
                            );
                        },
                    }
                    i = i + 1;
                }
                proof {
                    assert(fs.skip(fields@.len() as int) =~= Seq::<
                        (Seq<char>, GraphQLValueView),
                    >::empty());
                }
                Ok(acc)
            },
            _ => Err(ExecutionError::InvalidLiteral),
        },
        PredicateParameterTypeKind::Composite(parameters) => match arg {
            GraphQLValue::Object(fields) => {
                let ghost params = predicate_params_view(parameters@);
                let ghost fs = gql_fields_view(fields@);
                let mut acc = AbstractPredicate::True;
                let mut i: usize = 0;
                proof {
                    assert(fs.skip(0) =~= fs);
                }
                while i < fields.len()
                    invariant
                        i <= fields.len(),
                        fs == gql_fields_view(fields@),
                        params == predicate_params_view(parameters@),
                        fold_composite_fields_spec(params, fs, PredicateView::True, tys)
                            == fold_composite_fields_spec(params, fs.skip(i as int), acc@, tys),
                    decreases fields.len() - i,
                {
                    proof {
                        assert(fs.skip(i as int).first() == fs[i as int]);
                        assert(fs.skip(i as int).drop_first() =~= fs.skip(i + 1));
                        assert(fs[i as int] == (fields@[i as int].0@, fields@[i as int].1@));
                    }
                    match find_parameter(parameters, fields[i].0.as_str()) {
                        Some(parameter) => match map_predicate_inner(
                            parameter,
                            &fields[i].1,
                            types,
                        ) {
                            Ok(contribution) => {
                                acc = AbstractPredicate::and(acc, contribution);
                            },
                            Err(e) => {
                                return Err(e);
                            },
                        },
                        None => {
                            return Err(ExecutionError::UnknownField(fields[i].0.clone()));
                        },
                    }
                    i = i + 1;
                }
                proof {
                    assert(fs.skip(fields@.len() as int) =~= Seq::<
                        (Seq<char>, GraphQLValueView),
                    >::empty());
                }
                Ok(acc)
            },
            _ => Err(ExecutionError::InvalidLiteral),
        },
    }
}

impl PredicateParameter {
    /// Maps a predicate argument: bound variables are substituted first, and
    /// the substituted argument is mapped exactly as the model says.
    pub fn map_to_sql(
        &self,
        argument_value: &GraphQLValue,
        variables: &Vec<(String, GraphQLValue)>,
        types: &Vec<PredicateParameterType>,
    ) -> (r: Result<AbstractPredicate, ExecutionError>)
        ensures
            match resolve_variables_spec(argument_value@, gql_fields_view(variables@)) {
                Ok(a) => match r {
                    Ok(pred) => map_predicate_spec(self@, a, predicate_types_view(types@)) == Ok::<
                        _,
                        ExecutionErrorView,
                    >(pred@),
                    Err(e) => map_predicate_spec(self@, a, predicate_types_view(types@)) == Err::<
                        PredicateView,
                        _,
                    >(e@),
                },
                Err(e) => r matches Err(re) && re@ == e,
            },
    {
        match resolve_variables(argument_value, variables) {
            Ok(resolved) => map_predicate_inner(self, &resolved, types),
            Err(e) => Err(e),
        }
    }
}

} // verus!
