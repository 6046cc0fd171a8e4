//! Physical schema metadata: tables, columns, and column paths. The catalog
//! is built once per process and read-only afterwards; everything else in the
//! library refers to it through stable integer ids.

use vstd::prelude::*;

verus! {

/// Identifies a physical column by table id and column index in the catalog.
#[derive(Clone, Copy, Debug, PartialEq, Eq, Structural)]
pub struct ColumnId {
    pub table_id: usize,
    pub column_index: usize,
}

/// One hop of a column path: the column on the near side and, when the hop
/// joins into another table, the linked column there.
#[derive(Clone, Copy, Debug, PartialEq, Eq, Structural)]
pub struct ColumnPathLink {
    pub self_column_id: ColumnId,
    pub linked_column_id: Option<ColumnId>,
}

/// A traversal from a root entity to a leaf scalar, as a sequence of hops.
#[derive(Clone, Debug, PartialEq)]
pub struct ColumnIdPath {
    pub path: Vec<ColumnPathLink>,
}

impl View for ColumnIdPath {
    type V = Seq<ColumnPathLink>;

    open spec fn view(&self) -> Seq<ColumnPathLink> {
        self.path@
    }
}

impl ColumnIdPath {
    /// The documented shape of a column path: at least one hop, and the last
    /// hop stays in its table.
    pub open spec fn wf(self) -> bool {
        self@.len() > 0 && self@.last().linked_column_id is None
    }

    /// A deep copy with the same view.
    pub fn duplicate(&self) -> (r: ColumnIdPath)
        ensures
            r@ == self@,
    {
        let mut out: Vec<ColumnPathLink> = Vec::new();
        let mut i: usize = 0;
        while i < self.path.len()
            invariant
                i <= self.path.len(),
                out@ == self.path@.subrange(0, i as int),
            decreases self.path.len() - i,
        {
            out.push(self.path[i]);
            i = i + 1;
            proof {
                assert(out@ =~= self.path@.subrange(0, i as int));
            }
        }
        proof {
            assert(self.path@.subrange(0, self.path@.len() as int) =~= self.path@);
        }
        ColumnIdPath { path: out }
    }
}

/// The database type of a physical column.
#[derive(Clone, Copy, Debug, PartialEq, Eq, Structural)]
pub enum PhysicalColumnType {
    Boolean,
    Int,
    Text,
    Timestamp,
    Json,
}

/// Model of a physical column's static facts.
pub struct PhysicalColumnView {
    pub table_name: Seq<char>,
    pub column_name: Seq<char>,
    pub typ: PhysicalColumnType,
    pub is_pk: bool,
    pub is_nullable: bool,
}

/// Static facts about one column of a physical table.
#[derive(Clone, Debug, PartialEq)]
pub struct PhysicalColumn {
    pub table_name: String,
    pub column_name: String,
    pub typ: PhysicalColumnType,
    pub is_pk: bool,
    pub is_nullable: bool,
}

impl View for PhysicalColumn {
    type V = PhysicalColumnView;

    open spec fn view(&self) -> PhysicalColumnView {
        PhysicalColumnView {
            table_name: self.table_name@,
            column_name: self.column_name@,
            typ: self.typ,
            is_pk: self.is_pk,
            is_nullable: self.is_nullable,
        }
    }
}

/// Model of a physical table.
pub struct PhysicalTableView {
    pub name: Seq<char>,
    pub columns: Seq<PhysicalColumnView>,
}

/// A physical table: its name and its columns, in declaration order.
#[derive(Clone, Debug, PartialEq)]
pub struct PhysicalTable {
    pub name: String,
    pub columns: Vec<PhysicalColumn>,
}

impl View for PhysicalTable {
    type V = PhysicalTableView;

    open spec fn view(&self) -> PhysicalTableView {
        PhysicalTableView {
            name: self.name@,
            columns: Seq::new(
                self.columns@.len(),
                |i: int|
                    if 0 <= i < self.columns@.len() {
                        self.columns@[i]@
                    } else {
                        PhysicalColumnView {
                            table_name: Seq::empty(),
                            column_name: Seq::empty(),
                            typ: PhysicalColumnType::Boolean,
                            is_pk: false,
                            is_nullable: false,
                        }
                    },
            ),
        }
    }
}

impl PhysicalTable {
    /// The index of the column with the given name, if any; the first
    /// matching column wins.
    #[verifier::loop_isolation(false)]
    pub fn column_index(&self, name: &str) -> (r: Option<usize>)
        ensures
            match r {
                Some(i) => i < self@.columns.len() && self@.columns[i as int].column_name
                    == name@,
                None => forall|i: int|
                    0 <= i < self@.columns.len() ==> self@.columns[i].column_name != name@,
            },
    {
        let mut i: usize = 0;
        while i < self.columns.len()
            invariant
                i <= self.columns.len(),
                forall|j: int| 0 <= j < i ==> self@.columns[j].column_name != name@,
            decreases self.columns.len() - i,
        {
            if crate::text::str_eq(self.columns[i].column_name.as_str(), name) {
                return Some(i);
            }
            i = i + 1;
        }
        None
    }
}

/// Model of the schema catalog.
pub struct ModelSystemView {
    pub tables: Seq<PhysicalTableView>,
}

/// The schema catalog: every physical table, indexed by table id.
#[derive(Clone, Debug, PartialEq)]
pub struct ModelSystem {
    pub tables: Vec<PhysicalTable>,
}

impl View for ModelSystem {
    type V = ModelSystemView;

    open spec fn view(&self) -> ModelSystemView {
        ModelSystemView {
            tables: Seq::new(
                self.tables@.len(),
                |i: int|
                    if 0 <= i < self.tables@.len() {
                        self.tables@[i]@
                    } else {
                        PhysicalTableView { name: Seq::empty(), columns: Seq::empty() }
                    },
            ),
        }
    }
}

impl ModelSystemView {
    /// Whether a column id points into the catalog.
    pub open spec fn valid_column(self, id: ColumnId) -> bool {
        &&& id.table_id < self.tables.len()
        &&& id.column_index < self.tables[id.table_id as int].columns.len()
    }

    /// The column a valid id points at.
    pub open spec fn column_at(self, id: ColumnId) -> PhysicalColumnView {
        self.tables[id.table_id as int].columns[id.column_index as int]
    }
}

impl ModelSystem {
    /// An empty catalog.
    pub fn new() -> (r: ModelSystem)
        ensures
            r@.tables.len() == 0,
    {
        ModelSystem { tables: Vec::new() }
    }

    /// Adds a table and returns its id.
    pub fn insert_table(&mut self, table: PhysicalTable) -> (id: usize)
        ensures
            final(self)@.tables == old(self)@.tables.push(table@),
            id == old(self)@.tables.len(),
    {
        let id = self.tables.len();
        self.tables.push(table);
        proof {
            assert(final(self)@.tables =~= old(self)@.tables.push(self.tables@.last()@));
        }
        id
    }

    /// The column a valid id points at.
    pub fn column_at<'a>(&'a self, id: ColumnId) -> (r: &'a PhysicalColumn)
        requires
            self@.valid_column(id),
        ensures
            r@ == self@.column_at(id),
    {
        &self.tables[id.table_id].columns[id.column_index]
    }
}

} // verus!
