//! The aggregate selection mapper: a validated aggregate field becomes an
//! abstract select producing one JSON object. Each subfield projects
//! aggregate functions over a scalar or primary-key column; `__typename` is
//! a synthesized constant; aggregating a composite relation is rejected.
//! The user's filter argument and the entity's access policy always combine
//! by conjunction, so authorization is enforced even with no filter given.

use vstd::prelude::*;

use crate::error::{ExecutionError, ExecutionErrorView};
use crate::graphql::{gql_fields_view, GraphQLValue, GraphQLValueView};
use crate::json::JsonValue;
use crate::predicate::{AbstractPredicate, PredicateView};
use crate::graphql::gql_obj_get;
use crate::predicate_mapper::{
    map_predicate_spec, predicate_types_view, resolve_variables_spec, PredicateParameter,
    PredicateParameterType, PredicateParameterView,
};
use crate::schema::ColumnId;
use crate::solver::{solve_access, solve_spec, PredicateExprView, AccessPredicateExpression};
use crate::sql_ast::{
    selections_view, AbstractSelect, SelectView, Column, ColumnExprView, ColumnSelection, Selection,
    SelectionCardinality, SelectionView,
};
use crate::text::str_eq;

verus! {

/// Model of a validated field.
pub struct ValidatedFieldView {
    pub name: Seq<char>,
    pub alias: Option<Seq<char>>,
    pub arguments: Seq<(Seq<char>, GraphQLValueView)>,
    pub subfields: Seq<ValidatedFieldView>,
}

/// A field of the validated operation: its name, its response alias if any,
/// its resolved arguments, and its nested selection.
#[derive(Debug, PartialEq)]
pub struct ValidatedField {
    pub name: String,
    pub alias: Option<String>,
    pub arguments: Vec<(String, GraphQLValue)>,
    pub subfields: Vec<ValidatedField>,
}

/// The element-wise view of a selection set.
pub open spec fn fields_view(s: Seq<ValidatedField>) -> Seq<ValidatedFieldView>
    decreases s,
{
    Seq::new(s.len(), |i: int| if 0 <= i < s.len() {
        s[i]@
    } else {
        ValidatedFieldView {
            name: Seq::empty(),
            alias: None,
            arguments: Seq::empty(),
            subfields: Seq::empty(),
        }
    })
}

impl View for ValidatedField {
    type V = ValidatedFieldView;

    open spec fn view(&self) -> ValidatedFieldView
        decreases self,
    {
        ValidatedFieldView {
            name: self.name@,
            alias: match &self.alias {
                Some(a) => Some(a@),
                None => None,
            },
            arguments: gql_fields_view(self.arguments@),
            subfields: fields_view(self.subfields@),
        }
    }
}

impl ValidatedFieldView {
    /// The name the field's value appears under in the response.
    pub open spec fn output_name(self) -> Seq<char> {
        match self.alias {
            Some(a) => a,
            None => self.name,
        }
    }
}

impl ValidatedField {
    /// The name the field's value appears under in the response.
    pub fn output_name(&self) -> (r: String)
        ensures
            r@ == self@.output_name(),
    {
        match &self.alias {
            Some(a) => a.clone(),
            None => self.name.clone(),
        }
    }
}

/// Model of how an entity field relates to the database.
pub enum EntityRelationView {
    Pk { column_id: ColumnId },
    Scalar { column_id: ColumnId },
    ManyToOne { column_id: ColumnId, other_type_id: int },
    OneToMany { other_column_id: ColumnId, other_type_id: int },
}

/// How an entity field relates to the database: a primary-key or scalar
/// column, or a relation to another entity.
#[derive(Clone, Copy, Debug, PartialEq)]
pub enum EntityRelation {
    Pk { column_id: ColumnId },
    Scalar { column_id: ColumnId },
    ManyToOne { column_id: ColumnId, other_type_id: usize },
    OneToMany { other_column_id: ColumnId, other_type_id: usize },
}

impl View for EntityRelation {
    type V = EntityRelationView;

    open spec fn view(&self) -> EntityRelationView {
        match self {
            EntityRelation::Pk { column_id } => EntityRelationView::Pk { column_id: *column_id },
            EntityRelation::Scalar { column_id } => EntityRelationView::Scalar {
                column_id: *column_id,
            },
            EntityRelation::ManyToOne { column_id, other_type_id } => EntityRelationView::ManyToOne {
                column_id: *column_id,
                other_type_id: *other_type_id as int,
            },
            EntityRelation::OneToMany {
                other_column_id,
                other_type_id,
            } => EntityRelationView::OneToMany {
                other_column_id: *other_column_id,
                other_type_id: *other_type_id as int,
            },
        }
    }
}

/// Model of one entity field.
pub struct EntityFieldView {
    pub name: Seq<char>,
    pub relation: EntityRelationView,
}

/// One field of an entity type.
#[derive(Debug, PartialEq)]
pub struct EntityField {
    pub name: String,
    pub relation: EntityRelation,
}

impl View for EntityField {
    type V = EntityFieldView;

    open spec fn view(&self) -> EntityFieldView {
        EntityFieldView { name: self.name@, relation: self.relation@ }
    }
}

/// The element-wise view of an entity's fields.
pub open spec fn entity_fields_view(s: Seq<EntityField>) -> Seq<EntityFieldView> {
    Seq::new(s.len(), |i: int| if 0 <= i < s.len() {
        s[i]@
    } else {
        EntityFieldView {
            name: Seq::empty(),
            relation: EntityRelationView::Scalar {
                column_id: ColumnId { table_id: 0, column_index: 0 },
            },
        }
    })
}

/// Model of an entity type.
pub struct EntityTypeView {
    pub name: Seq<char>,
    pub table_id: int,
    pub fields: Seq<EntityFieldView>,
    pub access_retrieve: PredicateExprView,
}

/// An entity type: its GraphQL name, its physical table, its fields, and the
/// access policy that guards retrieval.
#[derive(Debug, PartialEq)]
pub struct EntityType {
    pub name: String,
    pub table_id: usize,
    pub fields: Vec<EntityField>,
    pub access_retrieve: AccessPredicateExpression,
}

impl View for EntityType {
    type V = EntityTypeView;

    open spec fn view(&self) -> EntityTypeView {
        EntityTypeView {
            name: self.name@,
            table_id: self.table_id as int,
            fields: entity_fields_view(self.fields@),
            access_retrieve: self.access_retrieve@,
        }
    }
}

/// The element-wise view of the entity type catalog.
pub open spec fn entity_types_view(s: Seq<EntityType>) -> Seq<EntityTypeView> {
    Seq::new(s.len(), |i: int| if 0 <= i < s.len() {
        s[i]@
    } else {
        arbitrary_entity_view()
    })
}

/// The first entity field with the given name, if any.
pub open spec fn find_entity_field(
    fields: Seq<EntityFieldView>,
    name: Seq<char>,
) -> Option<EntityFieldView>
    decreases fields.len(),
{
    if fields.len() == 0 {
        None
    } else if fields.first().name == name {
        Some(fields.first())
    } else {
        find_entity_field(fields.drop_first(), name)
    }
}

/// The function projections a leaf aggregate field selects: one per
/// subfield, applying the subfield's function to the leaf's column.
pub open spec fn function_elements_spec(
    subfields: Seq<ValidatedFieldView>,
    column_id: ColumnId,
) -> Seq<(Seq<char>, ColumnExprView)>
    decreases subfields.len(),
{
    if subfields.len() == 0 {
        Seq::empty()
    } else {
        seq![
            (
                subfields.first().output_name(),
                ColumnExprView::Function { function_name: subfields.first().name, column_id },
            ),
        ] + function_elements_spec(subfields.drop_first(), column_id)
    }
}

/// What mapping one aggregate subfield yields: `__typename` becomes the
/// entity's name as a constant; a primary-key or scalar field becomes a JSON
/// object of function projections over its column; selecting a composite
/// relation inside an aggregate is rejected; so is an unknown field.
pub open spec fn map_field_spec(
    entity: EntityTypeView,
    field: ValidatedFieldView,
) -> Result<(Seq<char>, ColumnExprView), ExecutionErrorView> {
    if field.name == "__typename"@ {
        Ok((field.output_name(), ColumnExprView::Constant(entity.name)))
    } else {
        match find_entity_field(entity.fields, field.name) {
            Some(ef) => match ef.relation {
                EntityRelationView::Pk { column_id } => Ok(
                    (
                        field.output_name(),
                        ColumnExprView::JsonObject(
                            function_elements_spec(field.subfields, column_id),
                        ),
                    ),
                ),
                EntityRelationView::Scalar { column_id } => Ok(
                    (
                        field.output_name(),
                        ColumnExprView::JsonObject(
                            function_elements_spec(field.subfields, column_id),
                        ),
                    ),
                ),
                _ => Err(ExecutionErrorView::InvalidNestedAggregation),
            },
            None => Err(ExecutionErrorView::UnknownField(field.name)),
        }
    }
}

/// The field-by-field mapping of the selection set.
pub open spec fn content_select_spec(
    entity: EntityTypeView,
    fields: Seq<ValidatedFieldView>,
) -> Result<Seq<(Seq<char>, ColumnExprView)>, ExecutionErrorView>
    decreases fields.len(),
{
    if fields.len() == 0 {
        Ok(Seq::empty())
    } else {
        match (map_field_spec(entity, fields.first()), content_select_spec(
            entity,
            fields.drop_first(),
        )) {
            (Ok(h), Ok(t)) => Ok(seq![h] + t),
            (Err(e), _) => Err(e),
            (_, Err(e)) => Err(e),
        }
    }
}

/// Model of an aggregate query's parameters.
pub struct AggregateQueryView {
    pub name: Seq<char>,
    pub return_type_id: int,
    pub predicate_param: Option<PredicateParameterView>,
}

/// An aggregate query: its name, the entity type it aggregates, and its
/// optional filter parameter.
#[derive(Debug, PartialEq)]
pub struct AggregateQuery {
    pub name: String,
    pub return_type_id: usize,
    pub predicate_param: Option<PredicateParameter>,
}

impl View for AggregateQuery {
    type V = AggregateQueryView;

    open spec fn view(&self) -> AggregateQueryView {
        AggregateQueryView {
            name: self.name@,
            return_type_id: self.return_type_id as int,
            predicate_param: match &self.predicate_param {
                Some(p) => Some(p@),
                None => None,
            },
        }
    }
}

/// What the user-supplied filter contributes: the filter parameter's mapping
/// of its argument when both exist, and `True` (no filter) otherwise.
pub open spec fn query_predicate_spec(
    predicate_param: Option<PredicateParameterView>,
    arguments: Seq<(Seq<char>, GraphQLValueView)>,
    vars: Seq<(Seq<char>, GraphQLValueView)>,
    types: Seq<crate::predicate_mapper::PredicateParameterTypeView>,
) -> Result<PredicateView, ExecutionErrorView> {
    match predicate_param {
        Some(p) => match gql_obj_get(arguments, p.name) {
            Some(arg) => match resolve_variables_spec(arg, vars) {
                Ok(a) => map_predicate_spec(p, a, types),
                Err(e) => Err(e),
            },
            None => Ok(PredicateView::True),
        },
        None => Ok(PredicateView::True),
    }
}

/// What resolving an aggregate select yields: the access policy is solved
/// first and a definite denial rejects the request; the user filter and the
/// residual access predicate combine by conjunction; the selection is the
/// JSON object of the mapped subfields, with `One` cardinality.
pub open spec fn resolve_select_spec(
    q: AggregateQueryView,
    field: ValidatedFieldView,
    ctx: crate::json::JsonView,
    entities: Seq<EntityTypeView>,
    vars: Seq<(Seq<char>, GraphQLValueView)>,
    types: Seq<crate::predicate_mapper::PredicateParameterTypeView>,
) -> Result<SelectView, ExecutionErrorView> {
    if q.return_type_id < 0 || q.return_type_id >= entities.len() {
        Err(ExecutionErrorView::UnknownParameterType)
    } else {
        let entity = entities[q.return_type_id];
        match solve_spec(entity.access_retrieve, ctx) {
            Err(e) => Err(ExecutionErrorView::AccessSolver(e)),
            Ok(access) => {
                if access is False {
                    Err(ExecutionErrorView::NotAuthorized)
                } else {
                    match query_predicate_spec(q.predicate_param, field.arguments, vars, types) {
                        Err(e) => Err(e),
                        Ok(query_pred) => match content_select_spec(entity, field.subfields) {
                            Err(e) => Err(e),
                            Ok(content) => Ok(
                                SelectView {
                                    table_id: entity.table_id,
                                    selection: SelectionView::Json(
                                        content,
                                        SelectionCardinality::One,
                                    ),
                                    predicate: PredicateView::and(query_pred, access),
                                    order_by: None,
                                    offset: None,
                                    limit: None,
                                },
                            ),
                        },
                    }
                }
            },
        }
    }
}

/// Finds an entity field by name.
#[verifier::loop_isolation(false)]
fn find_field<'a>(fields: &'a Vec<EntityField>, name: &str) -> (r: Option<&'a EntityField>)
    ensures
        match r {
            Some(f) => find_entity_field(entity_fields_view(fields@), name@) == Some(f@),
            None => find_entity_field(entity_fields_view(fields@), name@) is None,
        },
{
    let ghost fs = entity_fields_view(fields@);
    let mut i: usize = 0;
    proof {
        assert(fs.skip(0) =~= fs);
    }
    while i < fields.len()
        invariant
            i <= fields.len(),
            fs == entity_fields_view(fields@),
            find_entity_field(fs, name@) == find_entity_field(fs.skip(i as int), name@),
        decreases fields.len() - i,
    {
        proof {
            assert(fs.skip(i as int).first() == fs[i as int]);
        }
        if str_eq(fields[i].name.as_str(), name) {
            return Some(&fields[i]);
        }
        proof {
            assert(fs.skip(i as int).drop_first() =~= fs.skip(i + 1));
        }
        i = i + 1;
    }
    proof {
        assert(fs.skip(fields@.len() as int) =~= Seq::<EntityFieldView>::empty());
    }
    None
}

/// Builds the function projections of a leaf aggregate field.
#[verifier::loop_isolation(false)]
fn function_elements(subfields: &Vec<ValidatedField>, column_id: ColumnId) -> (r: Vec<
    (String, Column),
>)
    ensures
        crate::sql_ast::column_fields_view(r@) == function_elements_spec(
            fields_view(subfields@),
            column_id,
        ),
{
    let ghost sf = fields_view(subfields@);
    let mut out: Vec<(String, Column)> = Vec::new();
    let mut i: usize = 0;
    proof {
        assert(sf.skip(0) =~= sf);
        assert(crate::sql_ast::column_fields_view(out@) =~= Seq::<
            (Seq<char>, ColumnExprView),
        >::empty());
    }
    while i < subfields.len()
        invariant
            i <= subfields.len(),
            sf == fields_view(subfields@),
            match function_elements_spec(sf.skip(i as int), column_id) {
                t => function_elements_spec(sf, column_id) == crate::sql_ast::column_fields_view(
                    out@,
                ) + t,
            },
        decreases subfields.len() - i,
    {
        proof {
            assert(sf.skip(i as int).first() == sf[i as int]);
            assert(sf.skip(i as int).drop_first() =~= sf.skip(i + 1));
            assert(sf[i as int] == subfields@[i as int]@);
        }
        let ghost out0 = crate::sql_ast::column_fields_view(out@);
        let ghost entry = (sf[i as int].output_name(), ColumnExprView::Function {
            function_name: sf[i as int].name,
            column_id,
        });
        out.push(
            (
                subfields[i].output_name(),
                Column::Function { function_name: subfields[i].name.clone(), column_id },
            ),
        );
        proof {
            assert(crate::sql_ast::column_fields_view(out@) =~= out0.push(entry));
            let t = function_elements_spec(sf.skip(i + 1), column_id);
            assert((out0 + (seq![entry] + t)) =~= (out0.push(entry) + t));
        }
        i = i + 1;
    }
    proof {
        assert(sf.skip(subfields@.len() as int) =~= Seq::<ValidatedFieldView>::empty());
        assert(crate::sql_ast::column_fields_view(out@) + Seq::<
            (Seq<char>, ColumnExprView),
        >::empty() =~= crate::sql_ast::column_fields_view(out@));
    }
    out
}

/// Maps one aggregate subfield.
fn map_field(entity: &EntityType, field: &ValidatedField) -> (r: Result<
    ColumnSelection,
    ExecutionError,
>)
    ensures
        match r {
            Ok(sel) => map_field_spec(entity@, field@) == Ok::<_, ExecutionErrorView>(sel@),
            Err(e) => map_field_spec(entity@, field@) == Err::<(Seq<char>, ColumnExprView), _>(
                e@,
            ),
        },
{
    if str_eq(field.name.as_str(), "__typename") {
        Ok(ColumnSelection::new(field.output_name(), Column::Constant(entity.name.clone())))
    } else {
        match find_field(&entity.fields, field.name.as_str()) {
            Some(ef) => match ef.relation {
                EntityRelation::Pk { column_id } => Ok(
                    ColumnSelection::new(
                        field.output_name(),
                        Column::JsonObject(function_elements(&field.subfields, column_id)),
                    ),
                ),
                EntityRelation::Scalar { column_id } => Ok(
                    ColumnSelection::new(
                        field.output_name(),
                        Column::JsonObject(function_elements(&field.subfields, column_id)),
                    ),
                ),
                _ => Err(ExecutionError::InvalidNestedAggregation),
            },
            None => Err(ExecutionError::UnknownField(field.name.clone())),
        }
    }
}

/// Maps the whole selection set of an aggregate field.
#[verifier::loop_isolation(false)]
fn content_select(entity: &EntityType, fields: &Vec<ValidatedField>) -> (r: Result<
    Vec<ColumnSelection>,
    ExecutionError,
>)
    ensures
        match r {
            Ok(sels) => content_select_spec(entity@, fields_view(fields@)) == Ok::<
                _,
                ExecutionErrorView,
            >(selections_view(sels@)),
            Err(e) => content_select_spec(entity@, fields_view(fields@)) == Err::<
                Seq<(Seq<char>, ColumnExprView)>,
                _,
            >(e@),
        },
{
    let ghost fs = fields_view(fields@);
    let mut out: Vec<ColumnSelection> = Vec::new();
    let mut i: usize = 0;
    proof {
        assert(fs.skip(0) =~= fs);
        assert(selections_view(out@) =~= Seq::<(Seq<char>, ColumnExprView)>::empty());
    }
    while i < fields.len()
        invariant
            i <= fields.len(),
            fs == fields_view(fields@),
            match content_select_spec(entity@, fs.skip(i as int)) {
                Ok(t) => content_select_spec(entity@, fs) == Ok::<_, ExecutionErrorView>(
                    selections_view(out@) + t,
                ),
                Err(e) => content_select_spec(entity@, fs) == Err::<
                    Seq<(Seq<char>, ColumnExprView)>,
                    _,
                >(e),
            },
        decreases fields.len() - i,
    {
        proof {
            assert(fs.skip(i as int).first() == fs[i as int]);
            assert(fs.skip(i as int).drop_first() =~= fs.skip(i + 1));
            assert(fs[i as int] == fields@[i as int]@);
        }
        match map_field(entity, &fields[i]) {
            Ok(sel) => {
                let ghost out0 = selections_view(out@);
                let ghost sv = sel@;
                out.push(sel);
                proof {
                    assert(selections_view(out@) =~= out0.push(sv));
                    match content_select_spec(entity@, fs.skip(i + 1)) {
                        Ok(t) => {
                            assert((out0 + (seq![sv] + t)) =~= (out0.push(sv) + t));
                        },
                        Err(_) => {},
                    }
                }
                i = i + 1;
            },
            Err(e) => {
                return Err(e);
            },
        }
    }
    proof {
        assert(fs.skip(fields@.len() as int) =~= Seq::<ValidatedFieldView>::empty());
        assert(selections_view(out@) + Seq::<(Seq<char>, ColumnExprView)>::empty()
            =~= selections_view(out@));
    }
    Ok(out)
}

impl AggregateQuery {
    /// Resolves the aggregate field into an abstract select. The access
    /// policy is solved against the request context: a definite denial
    /// rejects the request as not authorized; anything else joins the user's
    /// filter by conjunction, so the policy is enforced even with no filter.
    pub fn resolve_select(
        &self,
        field: &ValidatedField,
        request_context: &JsonValue,
        entities: &Vec<EntityType>,
        variables: &Vec<(String, GraphQLValue)>,
        predicate_types: &Vec<PredicateParameterType>,
    ) -> (r: Result<AbstractSelect, ExecutionError>)
        ensures
            match r {
                Ok(sel) => resolve_select_spec(
                    self@,
                    field@,
                    request_context@,
                    entity_types_view(entities@),
                    gql_fields_view(variables@),
                    predicate_types_view(predicate_types@),
                ) == Ok::<_, ExecutionErrorView>(sel@),
                Err(e) => resolve_select_spec(
                    self@,
                    field@,
                    request_context@,
                    entity_types_view(entities@),
                    gql_fields_view(variables@),
                    predicate_types_view(predicate_types@),
                ) == Err::<SelectView, _>(e@),
            },
    {
        let ghost ents = entity_types_view(entities@);
        if self.return_type_id >= entities.len() {
            return Err(ExecutionError::UnknownParameterType);
        }
        let entity = &entities[self.return_type_id];
        proof {
            assert(ents[self@.return_type_id] == entity@);
        }
        let access = match solve_access(&entity.access_retrieve, request_context) {
            Ok(p) => p,
            Err(e) => {
                return Err(ExecutionError::AccessSolver(e));
            },
        };
        match &access {
            AbstractPredicate::False => {
                return Err(ExecutionError::NotAuthorized);
            },
            _ => {},
        }
        let query_predicate = match &self.predicate_param {
            Some(p) => match crate::graphql::lookup_named(&field.arguments, p.name.as_str()) {
                Some(arg) => match p.map_to_sql(arg, variables, predicate_types) {
                    Ok(pred) => pred,
                    Err(e) => {
                        return Err(e);
                    },
                },
                None => AbstractPredicate::True,
            },
            None => AbstractPredicate::True,
        };
        let content = match content_select(entity, &field.subfields) {
            Ok(c) => c,
            Err(e) => {
                return Err(e);
            },
        };
        Ok(
            AbstractSelect {
                table_id: entity.table_id,
                selection: Selection::Json(content, SelectionCardinality::One),
                predicate: AbstractPredicate::and(query_predicate, access),
                order_by: None,
                offset: None,
                limit: None,
            },
        )
    }
}

/// An entity view standing in for an out-of-range index.
pub open spec fn arbitrary_entity_view() -> EntityTypeView {
    EntityTypeView {
        name: Seq::empty(),
        table_id: 0,
        fields: Seq::empty(),
        access_retrieve: PredicateExprView::BooleanLiteral(false),
    }
}

} // verus!
