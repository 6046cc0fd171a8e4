//! The order-by argument mapper. An object argument names one sortable field
//! per key; a list argument denotes several ordering clauses in list order;
//! a leaf maps the token `ASC` or `DESC` to a direction and rejects any
//! other token; composite fields recurse with an extended column path.

use vstd::prelude::*;

use crate::error::{ExecutionError, ExecutionErrorView};
use crate::graphql::{gql_fields_view, gql_seq_view, GraphQLValue, GraphQLValueView};
use crate::schema::{ColumnIdPath, ColumnPathLink};
use crate::sql_ast::{AbstractOrderBy, Ordering};
use crate::text::str_eq;

verus! {

/// Model of one sortable parameter.
pub struct OrderByParameterView {
    pub name: Seq<char>,
    pub param_type_name: Seq<char>,
    pub type_id: int,
    pub column_path_link: Option<ColumnPathLink>,
}

/// One sortable parameter of an order-by type: its field name, the name and
/// id of its parameter type, and the column hop it contributes to the path.
#[derive(Debug, PartialEq)]
pub struct OrderByParameter {
    pub name: String,
    pub param_type_name: String,
    pub type_id: usize,
    pub column_path_link: Option<ColumnPathLink>,
}

impl View for OrderByParameter {
    type V = OrderByParameterView;

    open spec fn view(&self) -> OrderByParameterView {
        OrderByParameterView {
            name: self.name@,
            param_type_name: self.param_type_name@,
            type_id: self.type_id as int,
            column_path_link: self.column_path_link,
        }
    }
}

/// The element-wise view of a parameter list.
pub open spec fn order_params_view(s: Seq<OrderByParameter>) -> Seq<OrderByParameterView> {
    Seq::new(s.len(), |i: int| if 0 <= i < s.len() {
        s[i]@
    } else {
        OrderByParameterView {
            name: Seq::empty(),
            param_type_name: Seq::empty(),
            type_id: 0,
            column_path_link: None,
        }
    })
}

/// Model of an order-by parameter type's shape.
pub enum OrderByTypeKindView {
    Primitive,
    Composite { parameters: Seq<OrderByParameterView> },
}

/// The shape of an order-by parameter type: a primitive leaf, or a composite
/// with one parameter per sortable field.
#[derive(Debug, PartialEq)]
pub enum OrderByParameterTypeKind {
    Primitive,
    Composite { parameters: Vec<OrderByParameter> },
}

impl View for OrderByParameterTypeKind {
    type V = OrderByTypeKindView;

    open spec fn view(&self) -> OrderByTypeKindView {
        match self {
            OrderByParameterTypeKind::Primitive => OrderByTypeKindView::Primitive,
            OrderByParameterTypeKind::Composite { parameters } => OrderByTypeKindView::Composite {
                parameters: order_params_view(parameters@),
            },
        }
    }
}

/// Model of an order-by parameter type.
pub struct OrderByParameterTypeView {
    pub name: Seq<char>,
    pub kind: OrderByTypeKindView,
}

/// An order-by parameter type in the catalog.
#[derive(Debug, PartialEq)]
pub struct OrderByParameterType {
    pub name: String,
    pub kind: OrderByParameterTypeKind,
}

impl View for OrderByParameterType {
    type V = OrderByParameterTypeView;

    open spec fn view(&self) -> OrderByParameterTypeView {
        OrderByParameterTypeView { name: self.name@, kind: self.kind@ }
    }
}

/// The element-wise view of the order-by type catalog.
pub open spec fn order_types_view(s: Seq<OrderByParameterType>) -> Seq<OrderByParameterTypeView> {
    Seq::new(s.len(), |i: int| if 0 <= i < s.len() {
        s[i]@
    } else {
        OrderByParameterTypeView { name: Seq::empty(), kind: OrderByTypeKindView::Primitive }
    })
}

/// Every parameter in the list points into the catalog.
pub open spec fn order_params_wf(
    params: Seq<OrderByParameterView>,
    n_types: int,
) -> bool
    decreases params.len(),
{
    if params.len() == 0 {
        true
    } else {
        0 <= params.first().type_id < n_types && order_params_wf(params.drop_first(), n_types)
    }
}

/// The composite parameters of every type point into the catalog.
pub open spec fn order_types_wf_from(
    types: Seq<OrderByParameterTypeView>,
    i: int,
) -> bool
    decreases types.len() - i,
{
    if i < 0 || i >= types.len() {
        true
    } else {
        &&& match types[i].kind {
            OrderByTypeKindView::Primitive => true,
            OrderByTypeKindView::Composite { parameters } => order_params_wf(
                parameters,
                types.len() as int,
            ),
        }
        &&& order_types_wf_from(types, i + 1)
    }
}

/// Whether the order-by type catalog is internally consistent: every
/// composite parameter's type id points back into the catalog.
pub open spec fn order_types_wf(types: Seq<OrderByParameterTypeView>) -> bool {
    order_types_wf_from(types, 0)
}

/// In a well-formed catalog, every type's composite parameters are
/// well-formed.
pub proof fn lemma_order_types_wf_index(types: Seq<OrderByParameterTypeView>, i: int)
    requires
        order_types_wf(types),
        0 <= i < types.len(),
    ensures
        types[i].kind matches OrderByTypeKindView::Composite { parameters } ==> order_params_wf(
            parameters,
            types.len() as int,
        ),
{
    lemma_order_types_wf_step(types, 0, i);
}

proof fn lemma_order_types_wf_step(types: Seq<OrderByParameterTypeView>, j: int, i: int)
    requires
        order_types_wf_from(types, j),
        0 <= j <= i < types.len(),
    ensures
        types[i].kind matches OrderByTypeKindView::Composite { parameters } ==> order_params_wf(
            parameters,
            types.len() as int,
        ),
    decreases i - j,
{
    if j < i {
        lemma_order_types_wf_step(types, j + 1, i);
    }
}

/// The column path extended by one optional hop.
pub open spec fn extend_path(
    parent: Seq<ColumnPathLink>,
    link: Option<ColumnPathLink>,
) -> Seq<ColumnPathLink> {
    match link {
        Some(l) => parent.push(l),
        None => parent,
    }
}

/// The direction an ordering token denotes: exactly `ASC` or `DESC`,
/// case-sensitively; any other token is rejected.
pub open spec fn token_ordering_spec(tok: Seq<char>) -> Result<Ordering, ExecutionErrorView> {
    if tok == "ASC"@ {
        Ok(Ordering::Asc)
    } else if tok == "DESC"@ {
        Ok(Ordering::Desc)
    } else {
        Err(ExecutionErrorView::InvalidOrderingToken(tok))
    }
}

/// The direction an ordering argument denotes. Enum and string arguments
/// carry the token (strings appear when the value came through a bound
/// variable); anything else is rejected.
pub open spec fn ordering_spec(arg: GraphQLValueView) -> Result<Ordering, ExecutionErrorView> {
    match arg {
        GraphQLValueView::Enum(tok) => token_ordering_spec(tok),
        GraphQLValueView::Str(tok) => token_ordering_spec(tok),
        _ => Err(ExecutionErrorView::InvalidOrderingArgument),
    }
}

/// The first parameter with the given field name, if any.
pub open spec fn find_order_parameter(
    params: Seq<OrderByParameterView>,
    name: Seq<char>,
) -> Option<OrderByParameterView>
    decreases params.len(),
{
    if params.len() == 0 {
        None
    } else if params.first().name == name {
        Some(params.first())
    } else {
        find_order_parameter(params.drop_first(), name)
    }
}

/// What mapping an order-by argument yields: an object maps each named field
/// through its parameter; a list maps each element in order; the resulting
/// clause lists concatenate left to right; any other argument is rejected.
pub open spec fn map_order_by_spec(
    type_id: int,
    arg: GraphQLValueView,
    parent: Seq<ColumnPathLink>,
    types: Seq<OrderByParameterTypeView>,
) -> Result<Seq<(Seq<ColumnPathLink>, Ordering)>, ExecutionErrorView>
    decreases arg, 0int,
{
    match arg {
        GraphQLValueView::Object(fields) => map_order_fields_spec(
            types[type_id],
            fields,
            parent,
            types,
        ),
        GraphQLValueView::List(elems) => map_order_list_spec(type_id, elems, parent, types),
        _ => Err(ExecutionErrorView::InvalidOrderingArgument),
    }
}

/// The field-by-field mapping of an object argument, clauses concatenated.
pub open spec fn map_order_fields_spec(
    t: OrderByParameterTypeView,
    fields: Seq<(Seq<char>, GraphQLValueView)>,
    parent: Seq<ColumnPathLink>,
    types: Seq<OrderByParameterTypeView>,
) -> Result<Seq<(Seq<ColumnPathLink>, Ordering)>, ExecutionErrorView>
    decreases fields, 1int,
{
    if fields.len() == 0 {
        Ok(Seq::empty())
    } else {
        match order_by_pair_spec(t, fields.first().0, fields.first().1, parent, types) {
            Ok(head) => match map_order_fields_spec(t, fields.drop_first(), parent, types) {
                Ok(tail) => Ok(head + tail),
                Err(e) => Err(e),
            },
            Err(e) => Err(e),
        }
    }
}

/// The element-by-element mapping of a list argument, clauses concatenated.
pub open spec fn map_order_list_spec(
    type_id: int,
    elems: Seq<GraphQLValueView>,
    parent: Seq<ColumnPathLink>,
    types: Seq<OrderByParameterTypeView>,
) -> Result<Seq<(Seq<ColumnPathLink>, Ordering)>, ExecutionErrorView>
    decreases elems, 1int,
{
    if elems.len() == 0 {
        Ok(Seq::empty())
    } else {
        match map_order_by_spec(type_id, elems.first(), parent, types) {
            Ok(head) => match map_order_list_spec(type_id, elems.drop_first(), parent, types) {
                Ok(tail) => Ok(head + tail),
                Err(e) => Err(e),
            },
            Err(e) => Err(e),
        }
    }
}

/// One named field of an object argument: the field must name a parameter of
/// the composite type; a leaf (of the `Ordering` parameter type) yields one
/// clause on the extended path, and a composite field recurses.
pub open spec fn order_by_pair_spec(
    t: OrderByParameterTypeView,
    parameter_name: Seq<char>,
    parameter_value: GraphQLValueView,
    parent: Seq<ColumnPathLink>,
    types: Seq<OrderByParameterTypeView>,
) -> Result<Seq<(Seq<ColumnPathLink>, Ordering)>, ExecutionErrorView>
    decreases parameter_value, 2int,
{
    match t.kind {
        OrderByTypeKindView::Composite { parameters } => match find_order_parameter(
            parameters,
            parameter_name,
        ) {
            Some(parameter) => {
                if parameter.param_type_name == "Ordering"@ {
                    match ordering_spec(parameter_value) {
                        Ok(ord) => Ok(
                            seq![(extend_path(parent, parameter.column_path_link), ord)],
                        ),
                        Err(e) => Err(e),
                    }
                } else {
                    map_order_by_spec(
                        parameter.type_id,
                        parameter_value,
                        extend_path(parent, parameter.column_path_link),
                        types,
                    )
                }
            },
            None => Err(ExecutionErrorView::InvalidOrderByParameter(parameter_name)),
        },
        OrderByTypeKindView::Primitive => Err(
            ExecutionErrorView::InvalidPrimitiveOrderByParameter,
        ),
    }
}

/// The element-wise view of accumulated ordering clauses.
pub open spec fn order_pairs_view(s: Seq<(ColumnIdPath, Ordering)>) -> Seq<
    (Seq<ColumnPathLink>, Ordering),
> {
    Seq::new(s.len(), |i: int| if 0 <= i < s.len() {
        (s[i].0@, s[i].1)
    } else {
        (Seq::empty(), Ordering::Asc)
    })
}

/// Maps an ordering token.
fn ordering(argument: &GraphQLValue) -> (r: Result<Ordering, ExecutionError>)
    ensures
        match r {
            Ok(ord) => ordering_spec(argument@) == Ok::<Ordering, ExecutionErrorView>(ord),
            Err(e) => ordering_spec(argument@) == Err::<Ordering, ExecutionErrorView>(e@),
        },
{
    match argument {
        GraphQLValue::Enum(tok) => str_ordering(tok.as_str()),
        GraphQLValue::Str(tok) => str_ordering(tok.as_str()),
        _ => Err(ExecutionError::InvalidOrderingArgument),
    }
}

/// Maps a bare token to a direction.
fn str_ordering(value: &str) -> (r: Result<Ordering, ExecutionError>)
    ensures
        match r {
            Ok(ord) => token_ordering_spec(value@) == Ok::<Ordering, ExecutionErrorView>(ord),
            Err(e) => token_ordering_spec(value@) == Err::<Ordering, ExecutionErrorView>(e@),
        },
{
    if str_eq(value, "ASC") {
        Ok(Ordering::Asc)
    } else if str_eq(value, "DESC") {
        Ok(Ordering::Desc)
    } else {
        Err(ExecutionError::InvalidOrderingToken(value.to_owned()))
    }
}

/// Extends a column path by one optional hop.
fn extended_path(parent: &ColumnIdPath, link: &Option<ColumnPathLink>) -> (r: ColumnIdPath)
    ensures
        r@ == extend_path(parent@, *link),
{
    let mut out = parent.duplicate();
    match link {
        Some(l) => {
            out.path.push(*l);
        },
        None => {},
    }
    out
}

/// Finds the parameter with the given field name.
#[verifier::loop_isolation(false)]
fn find_parameter<'a>(params: &'a Vec<OrderByParameter>, name: &str) -> (r: Option<
    &'a OrderByParameter,
>)
    ensures
        match r {
            Some(p) => find_order_parameter(order_params_view(params@), name@) == Some(p@),
            None => find_order_parameter(order_params_view(params@), name@) is None,
        },
{
    let ghost ps = order_params_view(params@);
    let mut i: usize = 0;
    proof {
        assert(ps.skip(0) =~= ps);
    }
    while i < params.len()
        invariant
            i <= params.len(),
            ps == order_params_view(params@),
            find_order_parameter(ps, name@) == find_order_parameter(ps.skip(i as int), name@),
        decreases params.len() - i,
    {
        proof {
            assert(ps.skip(i as int).first() == ps[i as int]);
        }
        if str_eq(params[i].name.as_str(), name) {
            return Some(&params[i]);
        }
        proof {
            assert(ps.skip(i as int).drop_first() =~= ps.skip(i + 1));
        }
        i = i + 1;
    }
    proof {
        assert(ps.skip(params@.len() as int) =~= Seq::<OrderByParameterView>::empty());
    }
    None
}

/// Maps an order-by argument for the type with the given id.
#[verifier::loop_isolation(false)]
fn map_order_by_inner(
    type_id: usize,
    argument: &GraphQLValue,
    parent: &ColumnIdPath,
    types: &Vec<OrderByParameterType>,
) -> (r: Result<Vec<(ColumnIdPath, Ordering)>, ExecutionError>)
    requires
        order_types_wf(order_types_view(types@)),
        type_id < types@.len(),
    ensures
        match r {
            Ok(pairs) => map_order_by_spec(
                type_id as int,
                argument@,
                parent@,
                order_types_view(types@),
            ) == Ok::<_, ExecutionErrorView>(order_pairs_view(pairs@)),
            Err(e) => map_order_by_spec(
                type_id as int,
                argument@,
                parent@,
                order_types_view(types@),
            ) == Err::<Seq<(Seq<ColumnPathLink>, Ordering)>, _>(e@),
        },
    decreases argument, 0int,
{
    let ghost tys = order_types_view(types@);
    match argument {
        GraphQLValue::Object(fields) => {
            proof {
                assert(tys[type_id as int] == types@[type_id as int]@);
            }
            let typ = &types[type_id];
            let ghost fs = gql_fields_view(fields@);
            let mut acc: Vec<(ColumnIdPath, Ordering)> = Vec::new();
            let mut i: usize = 0;
            proof {
                assert(fs.skip(0) =~= fs);
                assert(order_pairs_view(acc@) =~= Seq::<(Seq<ColumnPathLink>, Ordering)>::empty());
            }
            while i < fields.len()
                invariant
                    i <= fields.len(),
                    fs == gql_fields_view(fields@),
                    typ@ == tys[type_id as int],
                    match map_order_fields_spec(typ@, fs.skip(i as int), parent@, tys) {
                        Ok(t) => map_order_fields_spec(typ@, fs, parent@, tys) == Ok::<
                            _,
                            ExecutionErrorView,
                        >(order_pairs_view(acc@) + t),
                        Err(e) => map_order_fields_spec(typ@, fs, parent@, tys) == Err::<
                            Seq<(Seq<ColumnPathLink>, Ordering)>,
                            _,
                        >(e),
                    },
                decreases fields.len() - i,
            {
                proof {
                    assert(fs.skip(i as int).first() == fs[i as int]);
                    assert(fs.skip(i as int).drop_first() =~= fs.skip(i + 1));
                    assert(fs[i as int] == (fields@[i as int].0@, fields@[i as int].1@));
                }
                match order_by_pair(typ, fields[i].0.as_str(), &fields[i].1, parent, types) {
                    Ok(mut head) => {
                        let ghost acc0 = order_pairs_view(acc@);
                        let ghost head_v = order_pairs_view(head@);
                        acc.append(&mut head);
                        proof {
                            assert(order_pairs_view(acc@) =~= acc0 + head_v);
                            match map_order_fields_spec(typ@, fs.skip(i + 1), parent@, tys) {
                                Ok(t) => {
                                    assert((acc0 + (head_v + t)) =~= ((acc0 + head_v) + t));
                                },
                                Err(_) => {},
                            }
                        }
                        i = i + 1;
                    },
                    Err(e) => {
                        return Err(e);
                    },
                }
            }
            proof {
                assert(fs.skip(fields@.len() as int) =~= Seq::<
                    (Seq<char>, GraphQLValueView),
                >::empty());
                assert(order_pairs_view(acc@) + Seq::<(Seq<ColumnPathLink>, Ordering)>::empty()
                    =~= order_pairs_view(acc@));
            }
            Ok(acc)
        },
        GraphQLValue::List(elems) => {
            let ghost es = gql_seq_view(elems@);
            let mut acc: Vec<(ColumnIdPath, Ordering)> = Vec::new();
            let mut i: usize = 0;
            proof {
                assert(es.skip(0) =~= es);
                assert(order_pairs_view(acc@) =~= Seq::<(Seq<ColumnPathLink>, Ordering)>::empty());
            }
            while i < elems.len()
                invariant
                    i <= elems.len(),
                    es == gql_seq_view(elems@),
                    match map_order_list_spec(type_id as int, es.skip(i as int), parent@, tys) {
                        Ok(t) => map_order_list_spec(type_id as int, es, parent@, tys) == Ok::<
                            _,
                            ExecutionErrorView,
                        >(order_pairs_view(acc@) + t),
                        Err(e) => map_order_list_spec(type_id as int, es, parent@, tys) == Err::<
                            Seq<(Seq<ColumnPathLink>, Ordering)>,
                            _,
                        >(e),
                    },
                decreases elems.len() - i,
            {
                proof {
                    assert(es.skip(i as int).first() == es[i as int]);
                    assert(es.skip(i as int).drop_first() =~= es.skip(i + 1));
                    assert(es[i as int] == elems@[i as int]@);
                }
                match map_order_by_inner(type_id, &elems[i], parent, types) {
                    Ok(mut head) => {
                        let ghost acc0 = order_pairs_view(acc@);
                        let ghost head_v = order_pairs_view(head@);
                        acc.append(&mut head);
                        proof {
                            assert(order_pairs_view(acc@) =~= acc0 + head_v);
                            match map_order_list_spec(type_id as int, es.skip(i + 1), parent@, tys) {
                                Ok(t) => {
                                    assert((acc0 + (head_v + t)) =~= ((acc0 + head_v) + t));
                                },
                                Err(_) => {},
                            }
                        }
                        i = i + 1;
                    },
                    Err(e) => {
                        return Err(e);
                    },
                }
            }
            proof {
                assert(es.skip(elems@.len() as int) =~= Seq::<GraphQLValueView>::empty());
                assert(order_pairs_view(acc@) + Seq::<(Seq<ColumnPathLink>, Ordering)>::empty()
                    =~= order_pairs_view(acc@));
            }
            Ok(acc)
        },
        _ => Err(ExecutionError::InvalidOrderingArgument),
    }
}

/// Maps one named field of an object argument.
fn order_by_pair(
    typ: &OrderByParameterType,
    parameter_name: &str,
    parameter_value: &GraphQLValue,
    parent: &ColumnIdPath,
    types: &Vec<OrderByParameterType>,
) -> (r: Result<Vec<(ColumnIdPath, Ordering)>, ExecutionError>)
    requires
        order_types_wf(order_types_view(types@)),
        exists|i: int|
            0 <= i < order_types_view(types@).len() && order_types_view(types@)[i] == typ@,
    ensures
        match r {
            Ok(pairs) => order_by_pair_spec(
                typ@,
                parameter_name@,
                parameter_value@,
                parent@,
                order_types_view(types@),
            ) == Ok::<_, ExecutionErrorView>(order_pairs_view(pairs@)),
            Err(e) => order_by_pair_spec(
                typ@,
                parameter_name@,
                parameter_value@,
                parent@,
                order_types_view(types@),
            ) == Err::<Seq<(Seq<ColumnPathLink>, Ordering)>, _>(e@),
        },
    decreases parameter_value, 2int,
{
    let ghost tys = order_types_view(types@);
    match &typ.kind {
        OrderByParameterTypeKind::Composite { parameters } => {
            proof {
                let i = choose|i: int| 0 <= i < tys.len() && tys[i] == typ@;
                lemma_order_types_wf_index(tys, i);
            }
            match find_parameter(parameters, parameter_name) {
                Some(parameter) => {
                    proof {
                        lemma_find_order_parameter_wf(
                            order_params_view(parameters@),
                            parameter_name@,
                            tys.len() as int,
                        );
                    }
                    if str_eq(parameter.param_type_name.as_str(), "Ordering") {
                        match ordering(parameter_value) {
                            Ok(ord) => {
                                let path = extended_path(parent, &parameter.column_path_link);
                                let pairs = vec![(path, ord)];
                                proof {
                                    assert(order_pairs_view(pairs@) =~= seq![
                                        (
                                            extend_path(parent@, parameter@.column_path_link),
                                            ord,
                                        ),
                                    ]);
                                }
                                Ok(pairs)
                            },
                            Err(e) => Err(e),
                        }
                    } else {
                        let new_parent = extended_path(parent, &parameter.column_path_link);
                        map_order_by_inner(parameter.type_id, parameter_value, &new_parent, types)
                    }
                },
                None => Err(ExecutionError::InvalidOrderByParameter(parameter_name.to_owned())),
            }
        },
        OrderByParameterTypeKind::Primitive => Err(
            ExecutionError::InvalidPrimitiveOrderByParameter,
        ),
    }
}

/// A parameter found in a well-formed list points into the catalog.
proof fn lemma_find_order_parameter_wf(
    params: Seq<OrderByParameterView>,
    name: Seq<char>,
    n_types: int,
)
    requires
        order_params_wf(params, n_types),
    ensures
        find_order_parameter(params, name) matches Some(p) ==> 0 <= p.type_id < n_types,
    decreases params.len(),
{
    if params.len() > 0 && params.first().name != name {
        lemma_find_order_parameter_wf(params.drop_first(), name, n_types);
    }
}

impl OrderByParameter {
    /// Maps an order-by argument into ordering clauses, in the declared
    /// left-to-right order.
    pub fn map_to_order_by(
        &self,
        argument: &GraphQLValue,
        parent_column_path: &ColumnIdPath,
        types: &Vec<OrderByParameterType>,
    ) -> (r: Result<AbstractOrderBy, ExecutionError>)
        requires
            order_types_wf(order_types_view(types@)),
            self@.type_id < types@.len(),
        ensures
            match r {
                Ok(ob) => map_order_by_spec(
                    self@.type_id,
                    argument@,
                    parent_column_path@,
                    order_types_view(types@),
                ) == Ok::<_, ExecutionErrorView>(ob@),
                Err(e) => map_order_by_spec(
                    self@.type_id,
                    argument@,
                    parent_column_path@,
                    order_types_view(types@),
                ) == Err::<Seq<(Seq<ColumnPathLink>, Ordering)>, _>(e@),
            },
    {
        match map_order_by_inner(self.type_id, argument, parent_column_path, types) {
            Ok(pairs) => {
                let ob = AbstractOrderBy(pairs);
                proof {
                    assert(ob@ =~= order_pairs_view(ob.0@));
                }
                Ok(ob)
            },
            Err(e) => Err(e),
        }
    }
}

} // verus!
