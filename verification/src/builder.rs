//! Building the query and mutation catalog from resolved model types: the
//! by-primary-key and collection queries of each composite type, their
//! filter, ordering and windowing parameters, and the delete mutations.
//! Building runs in two passes: a shallow pass registers every operation by
//! name, and an expansion pass fills the parameters in once every type is
//! registered.

use vstd::prelude::*;

use crate::dispatch::{name_listed, names_view};
use crate::error::{ExecutionError, ExecutionErrorView};
use crate::order_by::OrderByParameter;
use crate::predicate_mapper::PredicateParameter;
use crate::schema::ColumnId;
use crate::text::str_eq;

verus! {

/// How many values an operation's type position holds.
#[derive(Clone, Copy, Debug, PartialEq, Eq, Structural)]
pub enum DatabaseTypeModifier {
    Optional,
    NonNull,
    List,
}

/// Model of one field of a composite database type.
pub struct DatabaseFieldView {
    pub name: Seq<char>,
    pub field_type_name: Seq<char>,
    pub self_column_id: Option<ColumnId>,
    pub is_pk: bool,
}

/// One field of a composite database type: its name, its type's name, the
/// physical column it owns if it owns one, and whether it is the primary
/// key.
#[derive(Debug, PartialEq)]
pub struct DatabaseField {
    pub name: String,
    pub field_type_name: String,
    pub self_column_id: Option<ColumnId>,
    pub is_pk: bool,
}

impl View for DatabaseField {
    type V = DatabaseFieldView;

    open spec fn view(&self) -> DatabaseFieldView {
        DatabaseFieldView {
            name: self.name@,
            field_type_name: self.field_type_name@,
            self_column_id: self.self_column_id,
            is_pk: self.is_pk,
        }
    }
}

/// The element-wise view of a field list.
pub open spec fn database_fields_view(s: Seq<DatabaseField>) -> Seq<DatabaseFieldView> {
    Seq::new(s.len(), |i: int| if 0 <= i < s.len() {
        s[i]@
    } else {
        DatabaseFieldView {
            name: Seq::empty(),
            field_type_name: Seq::empty(),
            self_column_id: None,
            is_pk: false,
        }
    })
}

/// The first primary-key field, if any.
pub open spec fn pk_field_of(fields: Seq<DatabaseFieldView>) -> Option<DatabaseFieldView>
    decreases fields.len(),
{
    if fields.len() == 0 {
        None
    } else if fields.first().is_pk {
        Some(fields.first())
    } else {
        pk_field_of(fields.drop_first())
    }
}

/// Whether the by-primary-key filter parameter of a type cannot be built
/// against the given predicate-type names: the type has no primary-key
/// field, or the field's type has no registered predicate type.
pub open spec fn pk_param_blocked(
    t: DatabaseTypeView,
    predicate_type_keys: Seq<Seq<char>>,
) -> bool {
    match pk_field_of(t.fields) {
        Some(pk) => !name_listed(predicate_type_keys, pk.field_type_name),
        None => true,
    }
}

/// Whether a type's delete mutations cannot be expanded: its primary-key
/// parameter is blocked, or its filter type is not registered.
pub open spec fn delete_expansion_blocked(
    t: DatabaseTypeView,
    filter_type_name: Seq<char>,
    predicate_type_keys: Seq<Seq<char>>,
) -> bool {
    pk_param_blocked(t, predicate_type_keys) || !name_listed(
        predicate_type_keys,
        filter_type_name,
    )
}

/// A composite database type: its fields and the names its queries carry.
/// The operation names come precomputed from the naming collaborator.
#[derive(Debug, PartialEq)]
pub struct DatabaseType {
    pub name: String,
    pub fields: Vec<DatabaseField>,
    pub pk_query_name: String,
    pub collection_query_name: String,
    pub pk_delete_name: String,
    pub collection_delete_name: String,
}

/// Model of a composite database type.
pub struct DatabaseTypeView {
    pub name: Seq<char>,
    pub fields: Seq<DatabaseFieldView>,
    pub pk_query_name: Seq<char>,
    pub collection_query_name: Seq<char>,
    pub pk_delete_name: Seq<char>,
    pub collection_delete_name: Seq<char>,
}

impl View for DatabaseType {
    type V = DatabaseTypeView;

    open spec fn view(&self) -> DatabaseTypeView {
        DatabaseTypeView {
            name: self.name@,
            fields: database_fields_view(self.fields@),
            pk_query_name: self.pk_query_name@,
            collection_query_name: self.collection_query_name@,
            pk_delete_name: self.pk_delete_name@,
            collection_delete_name: self.collection_delete_name@,
        }
    }
}

impl DatabaseType {
    /// The first primary-key field, if any.
    #[verifier::loop_isolation(false)]
    pub fn pk_field<'a>(&'a self) -> (r: Option<&'a DatabaseField>)
        ensures
            match r {
                Some(f) => pk_field_of(self@.fields) == Some(f@),
                None => pk_field_of(self@.fields) is None,
            },
    {
        let ghost fs = self@.fields;
        let mut i: usize = 0;
        proof {
            assert(fs.skip(0) =~= fs);
        }
        while i < self.fields.len()
            invariant
                i <= self.fields.len(),
                fs == database_fields_view(self.fields@),
                pk_field_of(fs) == pk_field_of(fs.skip(i as int)),
            decreases self.fields.len() - i,
        {
            proof {
                assert(fs.skip(i as int).first() == fs[i as int]);
                assert(fs.skip(i as int).drop_first() =~= fs.skip(i + 1));
            }
            if self.fields[i].is_pk {
                return Some(&self.fields[i]);
            }
            i = i + 1;
        }
        proof {
            assert(fs.skip(self.fields@.len() as int) =~= Seq::<DatabaseFieldView>::empty());
        }
        None
    }
}

/// A name-indexed arena: items are reached by id, and ids are found by
/// name, first registration first.
#[derive(Debug, PartialEq)]
pub struct MappedArena<T> {
    pub keys: Vec<String>,
    pub values: Vec<T>,
}

impl<T> MappedArena<T> {
    /// Both vectors move in step.
    pub open spec fn wf(&self) -> bool {
        self.keys@.len() == self.values@.len()
    }

    /// An empty arena.
    pub fn new() -> (r: MappedArena<T>)
        ensures
            r.wf(),
            r.keys@.len() == 0,
    {
        MappedArena { keys: Vec::new(), values: Vec::new() }
    }

    /// Registers an item under a name and hands its id back.
    pub fn register(&mut self, name: String, value: T) -> (id: usize)
        requires
            old(self).wf(),
        ensures
            final(self).wf(),
            final(self).keys@ == old(self).keys@.push(name),
            final(self).values@ == old(self).values@.push(value),
            id == old(self).keys@.len(),
    {
        let id = self.keys.len();
        self.keys.push(name);
        self.values.push(value);
        id
    }

    /// The id registered first under the name, if any.
    #[verifier::loop_isolation(false)]
    pub fn get_id(&self, name: &str) -> (r: Option<usize>)
        ensures
            match r {
                Some(id) => id < self.keys@.len() && names_view(self.keys@)[id as int] == name@,
                None => !name_listed(names_view(self.keys@), name@),
            },
    {
        let mut i: usize = 0;
        while i < self.keys.len()
            invariant
                i <= self.keys.len(),
                !name_listed(names_view(self.keys@).take(i as int), name@),
            decreases self.keys.len() - i,
        {
            proof {
                lemma_name_listed_push(names_view(self.keys@).take(i as int), name@, names_view(
                    self.keys@,
                )[i as int]);
                assert(names_view(self.keys@).take(i as int).push(names_view(self.keys@)[i as int])
                    =~= names_view(self.keys@).take(i + 1));
            }
            if str_eq(self.keys[i].as_str(), name) {
                return Some(i);
            }
            i = i + 1;
        }
        proof {
            assert(names_view(self.keys@).take(self.keys@.len() as int) =~= names_view(
                self.keys@,
            ));
        }
        None
    }

    /// The item a valid id points at.
    pub fn get<'a>(&'a self, id: usize) -> (r: &'a T)
        requires
            id < self.values@.len(),
        ensures
            r == self.values@[id as int],
    {
        &self.values[id]
    }
}

/// Appending one name to a list either lists a sought name already listed,
/// or lists exactly the appended name.
proof fn lemma_name_listed_push(names: Seq<Seq<char>>, sought: Seq<char>, appended: Seq<char>)
    ensures
        name_listed(names.push(appended), sought) == (name_listed(names, sought) || appended
            == sought),
    decreases names.len(),
{
    if names.len() > 0 {
        lemma_name_listed_push(names.drop_first(), sought, appended);
        assert(names.push(appended).first() == names.first());
        assert(names.push(appended).drop_first() =~= names.drop_first().push(appended));
    } else {
        assert(names.push(appended).len() == 1);
        assert(names.push(appended).first() == appended);
        assert(names.push(appended).drop_first() =~= Seq::<Seq<char>>::empty());
        assert(!name_listed(Seq::<Seq<char>>::empty(), sought));
        assert(!name_listed(names, sought));
    }
}

/// A parameter holding a windowing value.
#[derive(Debug, PartialEq)]
pub struct LimitParameter {
    pub name: String,
    pub param_type_name: String,
    pub type_id: usize,
    pub type_modifier: DatabaseTypeModifier,
}

/// A parameter holding a windowing offset.
#[derive(Debug, PartialEq)]
pub struct OffsetParameter {
    pub name: String,
    pub param_type_name: String,
    pub type_id: usize,
    pub type_modifier: DatabaseTypeModifier,
}

/// What an operation returns: a type in the catalog and how many of it.
#[derive(Debug, PartialEq)]
pub struct OperationReturnType {
    pub type_id: usize,
    pub is_primitive: bool,
    pub return_type_name: String,
    pub type_modifier: DatabaseTypeModifier,
}

/// The parameters a built query accepts.
#[derive(Debug, PartialEq)]
pub struct DatabaseQueryParameter {
    pub predicate_param: Option<PredicateParameter>,
    pub order_by_param: Option<OrderByParameter>,
    pub limit_param: Option<LimitParameter>,
    pub offset_param: Option<OffsetParameter>,
}

/// A built query.
#[derive(Debug, PartialEq)]
pub struct DatabaseQuery {
    pub name: String,
    pub parameter: DatabaseQueryParameter,
    pub return_type: OperationReturnType,
}

/// What a built mutation does.
#[derive(Debug, PartialEq)]
pub enum DatabaseMutationKind {
    Delete(PredicateParameter),
}

/// A built mutation.
#[derive(Debug, PartialEq)]
pub struct DatabaseMutation {
    pub name: String,
    pub kind: DatabaseMutationKind,
    pub return_type: OperationReturnType,
}

/// The catalog being built: types registered first, then operations.
#[derive(Debug, PartialEq)]
pub struct SystemContextBuilding {
    pub database_types: MappedArena<DatabaseType>,
    pub predicate_types: MappedArena<crate::predicate_mapper::PredicateParameterType>,
    pub queries: MappedArena<DatabaseQuery>,
    pub mutations: MappedArena<DatabaseMutation>,
}

impl SystemContextBuilding {
    /// An empty catalog.
    pub fn new() -> (r: SystemContextBuilding)
        ensures
            r.database_types.wf(),
            r.predicate_types.wf(),
            r.queries.wf(),
            r.mutations.wf(),
            r.database_types.keys@.len() == 0,
            r.queries.keys@.len() == 0,
            r.mutations.keys@.len() == 0,
    {
        SystemContextBuilding {
            database_types: MappedArena::new(),
            predicate_types: MappedArena::new(),
            queries: MappedArena::new(),
            mutations: MappedArena::new(),
        }
    }

    /// The id of the named database type, if registered.
    pub fn get_id(&self, name: &str) -> (r: Option<usize>)
        ensures
            match r {
                Some(id) => id < self.database_types.keys@.len() && names_view(
                    self.database_types.keys@,
                )[id as int] == name@,
                None => !name_listed(names_view(self.database_types.keys@), name@),
            },
    {
        self.database_types.get_id(name)
    }
}

/// The by-primary-key query before expansion: no parameters yet, one
/// non-null object returned.
pub fn shallow_pk_query(model_type_id: usize, typ: &DatabaseType) -> (r: DatabaseQuery)
    ensures
        r.name@ == typ@.pk_query_name,
        r.parameter.predicate_param is None,
        r.parameter.order_by_param is None,
        r.parameter.limit_param is None,
        r.parameter.offset_param is None,
        r.return_type.type_id == model_type_id,
        !r.return_type.is_primitive,
        r.return_type.return_type_name@ == typ@.name,
        r.return_type.type_modifier == DatabaseTypeModifier::NonNull,
{
    DatabaseQuery {
        name: typ.pk_query_name.clone(),
        parameter: DatabaseQueryParameter {
            predicate_param: None,
            order_by_param: None,
            limit_param: None,
            offset_param: None,
        },
        return_type: OperationReturnType {
            type_id: model_type_id,
            is_primitive: false,
            return_type_name: typ.name.clone(),
            type_modifier: DatabaseTypeModifier::NonNull,
        },
    }
}

/// The collection query before expansion: no parameters yet, a list
/// returned.
pub fn shallow_collection_query(model_type_id: usize, typ: &DatabaseType) -> (r: DatabaseQuery)
    ensures
        r.name@ == typ@.collection_query_name,
        r.parameter.predicate_param is None,
        r.parameter.order_by_param is None,
        r.parameter.limit_param is None,
        r.parameter.offset_param is None,
        r.return_type.type_id == model_type_id,
        !r.return_type.is_primitive,
        r.return_type.return_type_name@ == typ@.name,
        r.return_type.type_modifier == DatabaseTypeModifier::List,
{
    DatabaseQuery {
        name: typ.collection_query_name.clone(),
        parameter: DatabaseQueryParameter {
            predicate_param: None,
            order_by_param: None,
            limit_param: None,
            offset_param: None,
        },
        return_type: OperationReturnType {
            type_id: model_type_id,
            is_primitive: false,
            return_type_name: typ.name.clone(),
            type_modifier: DatabaseTypeModifier::List,
        },
    }
}

/// Builds the by-primary-key filter parameter of a type: it carries the
/// primary-key field's name, its predicate type, and its column; a type
/// with no primary key, or whose key's type has no registered predicate
/// type, cannot have one.
pub fn pk_predicate_param(
    model_type: &DatabaseType,
    building: &SystemContextBuilding,
) -> (r: Result<PredicateParameter, ExecutionError>)
    ensures
        match r {
            Ok(p) => {
                &&& pk_field_of(model_type@.fields) matches Some(pk) && p.name@ == pk.name
                    && p.column_id == pk.self_column_id
                &&& p.type_id < building.predicate_types.keys@.len()
                &&& pk_field_of(model_type@.fields) matches Some(pk) ==> names_view(
                    building.predicate_types.keys@,
                )[p.type_id as int] == pk.field_type_name
            },
            Err(e) => {
                &&& (e@ is MissingColumn || e@ is UnknownParameterType)
                &&& e@ is MissingColumn ==> pk_field_of(model_type@.fields) is None
                &&& e@ is UnknownParameterType ==> (pk_field_of(model_type@.fields) matches Some(
                    pk,
                ) && !name_listed(names_view(building.predicate_types.keys@), pk.field_type_name))
            },
        },
{
    let pk_field = match model_type.pk_field() {
        Some(f) => f,
        None => {
            return Err(ExecutionError::MissingColumn(model_type.name.clone()));
        },
    };
    match building.predicate_types.get_id(pk_field.field_type_name.as_str()) {
        Some(type_id) => {
            proof {
                lemma_listed_at_index(
                    names_view(building.predicate_types.keys@),
                    pk_field@.field_type_name,
                    type_id as int,
                );
            }
            Ok(
                PredicateParameter {
                    name: pk_field.name.clone(),
                    type_id,
                    column_id: pk_field.self_column_id,
                },
            )
        },
        None => Err(ExecutionError::UnknownParameterType),
    }
}

/// A name at an index is listed.
proof fn lemma_listed_at_index(names: Seq<Seq<char>>, sought: Seq<char>, i: int)
    requires
        0 <= i < names.len(),
        names[i] == sought,
    ensures
        name_listed(names, sought),
    decreases i,
{
    if i > 0 {
        lemma_listed_at_index(names.drop_first(), sought, i - 1);
    }
}

/// Builds the collection filter parameter of a type: a `where` parameter of
/// the type's own filter type, with no column of its own.
pub fn collection_predicate_param(
    filter_type_name: &str,
    building: &SystemContextBuilding,
) -> (r: Result<PredicateParameter, ExecutionError>)
    ensures
        match r {
            Ok(p) => {
                &&& p.name@ == "where"@
                &&& p.column_id is None
                &&& p.type_id < building.predicate_types.keys@.len()
                &&& names_view(building.predicate_types.keys@)[p.type_id as int]
                    == filter_type_name@
            },
            Err(e) => e@ == ExecutionErrorView::UnknownParameterType && !name_listed(
                names_view(building.predicate_types.keys@),
                filter_type_name@,
            ),
        },
{
    match building.predicate_types.get_id(filter_type_name) {
        Some(type_id) => Ok(
            PredicateParameter { name: "where".to_owned(), type_id, column_id: None },
        ),
        None => Err(ExecutionError::UnknownParameterType),
    }
}

/// Builds the optional `limit` parameter over the integer type.
pub fn limit_param(building: &SystemContextBuilding) -> (r: Result<LimitParameter, ExecutionError>)
    ensures
        match r {
            Ok(p) => {
                &&& p.name@ == "limit"@
                &&& p.param_type_name@ == "Int"@
                &&& p.type_modifier == DatabaseTypeModifier::Optional
                &&& p.type_id < building.database_types.keys@.len()
                &&& names_view(building.database_types.keys@)[p.type_id as int] == "Int"@
            },
            Err(e) => e@ == ExecutionErrorView::UnknownParameterType && !name_listed(
                names_view(building.database_types.keys@),
                "Int"@,
            ),
        },
{
    match building.get_id("Int") {
        Some(type_id) => Ok(
            LimitParameter {
                name: "limit".to_owned(),
                param_type_name: "Int".to_owned(),
                type_id,
                type_modifier: DatabaseTypeModifier::Optional,
            },
        ),
        None => Err(ExecutionError::UnknownParameterType),
    }
}

/// Builds the optional `offset` parameter over the integer type.
pub fn offset_param(building: &SystemContextBuilding) -> (r: Result<
    OffsetParameter,
    ExecutionError,
>)
    ensures
        match r {
            Ok(p) => {
                &&& p.name@ == "offset"@
                &&& p.param_type_name@ == "Int"@
                &&& p.type_modifier == DatabaseTypeModifier::Optional
                &&& p.type_id < building.database_types.keys@.len()
                &&& names_view(building.database_types.keys@)[p.type_id as int] == "Int"@
            },
            Err(e) => e@ == ExecutionErrorView::UnknownParameterType && !name_listed(
                names_view(building.database_types.keys@),
                "Int"@,
            ),
        },
{
    match building.get_id("Int") {
        Some(type_id) => Ok(
            OffsetParameter {
                name: "offset".to_owned(),
                param_type_name: "Int".to_owned(),
                type_id,
                type_modifier: DatabaseTypeModifier::Optional,
            },
        ),
        None => Err(ExecutionError::UnknownParameterType),
    }
}

/// Builds the delete mutations of composite types: the by-primary-key
/// delete filtered by the key parameter, and the collection delete filtered
/// by the type's own filter type.
#[derive(Debug, PartialEq)]
pub struct DeleteMutationBuilder;

impl DeleteMutationBuilder {
    /// Delete mutations need no input types of their own: the primary-key
    /// and filter types suffice.
    pub fn type_names(&self) -> (r: Vec<String>)
        ensures
            r@.len() == 0,
    {
        Vec::new()
    }

    /// The by-primary-key delete's name.
    pub fn single_mutation_name(model_type: &DatabaseType) -> (r: String)
        ensures
            r@ == model_type@.pk_delete_name,
    {
        model_type.pk_delete_name.clone()
    }

    /// The by-primary-key delete's kind: a delete filtered by the
    /// primary-key parameter. It fails exactly when that parameter cannot
    /// be built.
    pub fn single_mutation_kind(
        model_type: &DatabaseType,
        building: &SystemContextBuilding,
    ) -> (r: Result<DatabaseMutationKind, ExecutionError>)
        ensures
            match r {
                Ok(DatabaseMutationKind::Delete(p)) => pk_field_of(model_type@.fields) matches Some(
                    pk,
                ) && p.name@ == pk.name && p.column_id == pk.self_column_id,
                Err(e) => {
                    &&& (e@ is MissingColumn || e@ is UnknownParameterType)
                    &&& pk_param_blocked(
                        model_type@,
                        names_view(building.predicate_types.keys@),
                    )
                },
            },
    {
        match pk_predicate_param(model_type, building) {
            Ok(p) => Ok(DatabaseMutationKind::Delete(p)),
            Err(e) => Err(e),
        }
    }

    /// The collection delete's name.
    pub fn multi_mutation_name(model_type: &DatabaseType) -> (r: String)
        ensures
            r@ == model_type@.collection_delete_name,
    {
        model_type.collection_delete_name.clone()
    }

    /// Registers both delete mutations of every composite type: the
    /// by-primary-key delete and the collection delete, in type order. Each
    /// type's collection filter type is named in step with the type list.
    /// It fails only when some type's expansion is blocked, so with every
    /// primary key present and every type registered it succeeds.
    #[verifier::loop_isolation(false)]
    pub fn build_expanded(
        &self,
        models: &Vec<DatabaseType>,
        filter_type_names: &Vec<String>,
        building: &mut SystemContextBuilding,
    ) -> (r: Result<(), ExecutionError>)
        requires
            old(building).mutations.wf(),
            models@.len() == filter_type_names@.len(),
        ensures
            final(building).database_types == old(building).database_types,
            final(building).predicate_types == old(building).predicate_types,
            final(building).queries == old(building).queries,
            final(building).mutations.wf(),
            r matches Ok(()) ==> final(building).mutations.keys@.len() == old(
                building,
            ).mutations.keys@.len() + 2 * models@.len(),
            r matches Err(_) ==> exists|i: int|
                0 <= i < models@.len() && #[trigger] delete_expansion_blocked(
                    models@[i]@,
                    filter_type_names@[i]@,
                    names_view(old(building).predicate_types.keys@),
                ),
    {
        let mut i: usize = 0;
        while i < models.len()
            invariant
                i <= models.len(),
                models@.len() == filter_type_names@.len(),
                building.mutations.wf(),
                building.database_types == old(building).database_types,
                building.predicate_types == old(building).predicate_types,
                building.queries == old(building).queries,
                building.mutations.keys@.len() == old(building).mutations.keys@.len() + 2 * i,
            decreases models.len() - i,
        {
            let model = &models[i];
            let single_kind = match Self::single_mutation_kind(model, building) {
                Ok(k) => k,
                Err(e) => {
                    proof {
                        assert(delete_expansion_blocked(
                            models@[i as int]@,
                            filter_type_names@[i as int]@,
                            names_view(old(building).predicate_types.keys@),
                        ));
                    }
                    return Err(e);
                },
            };
            let single = DatabaseMutation {
                name: Self::single_mutation_name(model),
                kind: single_kind,
                return_type: OperationReturnType {
                    type_id: i,
                    is_primitive: false,
                    return_type_name: model.name.clone(),
                    type_modifier: DatabaseTypeModifier::NonNull,
                },
            };
            let name = single.name.clone();
            building.mutations.register(name, single);
            let multi_kind = match Self::multi_mutation_kind(
                filter_type_names[i].as_str(),
                building,
            ) {
                Ok(k) => k,
                Err(e) => {
                    proof {
                        assert(delete_expansion_blocked(
                            models@[i as int]@,
                            filter_type_names@[i as int]@,
                            names_view(old(building).predicate_types.keys@),
                        ));
                    }
                    return Err(e);
                },
            };
            let multi = DatabaseMutation {
                name: Self::multi_mutation_name(model),
                kind: multi_kind,
                return_type: OperationReturnType {
                    type_id: i,
                    is_primitive: false,
                    return_type_name: model.name.clone(),
                    type_modifier: DatabaseTypeModifier::List,
                },
            };
            let name = multi.name.clone();
            building.mutations.register(name, multi);
            i = i + 1;
        }
        Ok(())
    }

    /// The collection delete's kind: a delete filtered by the type's own
    /// filter type. It fails exactly when that filter type is not
    /// registered.
    pub fn multi_mutation_kind(
        filter_type_name: &str,
        building: &SystemContextBuilding,
    ) -> (r: Result<DatabaseMutationKind, ExecutionError>)
        ensures
            match r {
                Ok(DatabaseMutationKind::Delete(p)) => p.name@ == "where"@ && p.column_id is None,
                Err(e) => e@ == ExecutionErrorView::UnknownParameterType && !name_listed(
                    names_view(building.predicate_types.keys@),
                    filter_type_name@,
                ),
            },
    {
        match collection_predicate_param(filter_type_name, building) {
            Ok(p) => Ok(DatabaseMutationKind::Delete(p)),
            Err(e) => Err(e),
        }
    }
}

/// Registers the shallow by-primary-key and collection queries of every
/// composite type, in registration order.
#[verifier::loop_isolation(false)]
pub fn build_shallow(models: &Vec<DatabaseType>, building: &mut SystemContextBuilding)
    requires
        old(building).queries.wf(),
    ensures
        final(building).queries.wf(),
        final(building).queries.keys@.len() == old(building).queries.keys@.len() + 2 * models@.len(),
        final(building).database_types == old(building).database_types,
        final(building).predicate_types == old(building).predicate_types,
        final(building).mutations == old(building).mutations,
{
    let mut i: usize = 0;
    while i < models.len()
        invariant
            i <= models.len(),
            building.queries.wf(),
            building.queries.keys@.len() == old(building).queries.keys@.len() + 2 * i,
            building.database_types == old(building).database_types,
            building.predicate_types == old(building).predicate_types,
            building.mutations == old(building).mutations,
        decreases models.len() - i,
    {
        let model = &models[i];
        let pk_query = shallow_pk_query(i, model);
        let name = pk_query.name.clone();
        building.queries.register(name, pk_query);
        let collection_query = shallow_collection_query(i, model);
        let name = collection_query.name.clone();
        building.queries.register(name, collection_query);
        i = i + 1;
    }
}

/// The expanded by-primary-key query: the shallow query with the
/// primary-key filter parameter filled in. It fails exactly when that
/// parameter cannot be built.
pub fn expanded_pk_query(
    model_type_id: usize,
    model_type: &DatabaseType,
    building: &SystemContextBuilding,
) -> (r: Result<DatabaseQuery, ExecutionError>)
    ensures
        match r {
            Ok(q) => {
                &&& q.name@ == model_type@.pk_query_name
                &&& q.parameter.predicate_param matches Some(p) && (pk_field_of(model_type@.fields)
                    matches Some(pk) && p.name@ == pk.name && p.column_id == pk.self_column_id)
                &&& q.parameter.order_by_param is None
                &&& q.parameter.limit_param is None
                &&& q.parameter.offset_param is None
                &&& q.return_type.type_id == model_type_id
                &&& q.return_type.type_modifier == DatabaseTypeModifier::NonNull
            },
            Err(e) => {
                &&& (e@ is MissingColumn || e@ is UnknownParameterType)
                &&& pk_param_blocked(model_type@, names_view(building.predicate_types.keys@))
            },
        },
{
    let pk_param = match pk_predicate_param(model_type, building) {
        Ok(p) => p,
        Err(e) => {
            return Err(e);
        },
    };
    Ok(
        DatabaseQuery {
            name: model_type.pk_query_name.clone(),
            parameter: DatabaseQueryParameter {
                predicate_param: Some(pk_param),
                order_by_param: None,
                limit_param: None,
                offset_param: None,
            },
            return_type: OperationReturnType {
                type_id: model_type_id,
                is_primitive: false,
                return_type_name: model_type.name.clone(),
                type_modifier: DatabaseTypeModifier::NonNull,
            },
        },
    )
}

/// The expanded collection query: the shallow query with the filter,
/// ordering and windowing parameters filled in. It fails exactly when the
/// filter type or the integer type is not registered.
pub fn expanded_collection_query(
    model_type_id: usize,
    model_type: &DatabaseType,
    filter_type_name: &str,
    order_by_param: OrderByParameter,
    building: &SystemContextBuilding,
) -> (r: Result<DatabaseQuery, ExecutionError>)
    ensures
        match r {
            Ok(q) => {
                &&& q.name@ == model_type@.collection_query_name
                &&& q.parameter.predicate_param matches Some(p) && p.name@ == "where"@
                    && p.column_id is None
                &&& q.parameter.order_by_param is Some
                &&& q.parameter.limit_param matches Some(l) && l.name@ == "limit"@
                &&& q.parameter.offset_param matches Some(o) && o.name@ == "offset"@
                &&& q.return_type.type_id == model_type_id
                &&& q.return_type.type_modifier == DatabaseTypeModifier::List
            },
            Err(e) => {
                &&& e@ is UnknownParameterType
                &&& (!name_listed(
                    names_view(building.predicate_types.keys@),
                    filter_type_name@,
                ) || !name_listed(names_view(building.database_types.keys@), "Int"@))
            },
        },
{
    let predicate_param = match collection_predicate_param(filter_type_name, building) {
        Ok(p) => p,
        Err(e) => {
            return Err(e);
        },
    };
    let limit = match limit_param(building) {
        Ok(p) => p,
        Err(e) => {
            return Err(e);
        },
    };
    let offset = match offset_param(building) {
        Ok(p) => p,
        Err(e) => {
            return Err(e);
        },
    };
    Ok(
        DatabaseQuery {
            name: model_type.collection_query_name.clone(),
            parameter: DatabaseQueryParameter {
                predicate_param: Some(predicate_param),
                order_by_param: Some(order_by_param),
                limit_param: Some(limit),
                offset_param: Some(offset),
            },
            return_type: OperationReturnType {
                type_id: model_type_id,
                is_primitive: false,
                return_type_name: model_type.name.clone(),
                type_modifier: DatabaseTypeModifier::List,
            },
        },
    )
}

/// Expands one composite type's queries: the by-primary-key query gains
/// its key filter, and the collection query gains its filter, ordering and
/// windowing parameters. It fails only when the key parameter is blocked or
/// the filter or integer type is not registered, so with all three in place
/// it succeeds.
pub fn build_expanded(
    model_type_id: usize,
    model_type: &DatabaseType,
    filter_type_name: &str,
    order_by_param: OrderByParameter,
    building: &SystemContextBuilding,
) -> (r: Result<(DatabaseQuery, DatabaseQuery), ExecutionError>)
    ensures
        match r {
            Ok(qs) => {
                &&& qs.0.name@ == model_type@.pk_query_name
                &&& qs.0.parameter.predicate_param is Some
                &&& qs.1.name@ == model_type@.collection_query_name
                &&& qs.1.parameter.predicate_param is Some
                &&& qs.1.parameter.order_by_param is Some
                &&& qs.1.parameter.limit_param is Some
                &&& qs.1.parameter.offset_param is Some
            },
            Err(e) => {
                &&& (e@ is MissingColumn || e@ is UnknownParameterType)
                &&& (pk_param_blocked(model_type@, names_view(building.predicate_types.keys@))
                    || !name_listed(
                    names_view(building.predicate_types.keys@),
                    filter_type_name@,
                ) || !name_listed(names_view(building.database_types.keys@), "Int"@))
            },
        },
{
    let pk_query = match expanded_pk_query(model_type_id, model_type, building) {
        Ok(q) => q,
        Err(e) => {
            return Err(e);
        },
    };
    let collection_query = match expanded_collection_query(
        model_type_id,
        model_type,
        filter_type_name,
        order_by_param,
        building,
    ) {
        Ok(q) => q,
        Err(e) => {
            return Err(e);
        },
    };
    Ok((pk_query, collection_query))
}

} // verus!
