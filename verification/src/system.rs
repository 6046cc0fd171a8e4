//! The serializable shape of a built system: one opaque byte payload per
//! subsystem, plus the interception maps that route operation names to
//! interceptor indexes. Serialization of the whole to bytes lives at the
//! application boundary; this module owns the shape and its lookups.

use vstd::prelude::*;

use crate::text::str_eq;

verus! {

/// Model of one serialized subsystem.
pub struct SerializableSubsystemView {
    pub id: Seq<char>,
    pub subsystem_index: int,
    pub serialized_subsystem: Seq<u8>,
}

/// One subsystem of a built system: its id, its position, and its own
/// serialized payload, opaque to the core.
#[derive(Debug, PartialEq)]
pub struct SerializableSubsystem {
    pub id: String,
    pub subsystem_index: usize,
    pub serialized_subsystem: Vec<u8>,
}

impl View for SerializableSubsystem {
    type V = SerializableSubsystemView;

    open spec fn view(&self) -> SerializableSubsystemView {
        SerializableSubsystemView {
            id: self.id@,
            subsystem_index: self.subsystem_index as int,
            serialized_subsystem: self.serialized_subsystem@,
        }
    }
}

/// The first interceptor list registered for a name, if any.
pub open spec fn interceptors_of(
    entries: Seq<(Seq<char>, Seq<int>)>,
    name: Seq<char>,
) -> Option<Seq<int>>
    decreases entries.len(),
{
    if entries.len() == 0 {
        None
    } else if entries.first().0 == name {
        Some(entries.first().1)
    } else {
        interceptors_of(entries.drop_first(), name)
    }
}

/// The element-wise view of interception entries.
pub open spec fn interception_entries_view(s: Seq<(String, Vec<usize>)>) -> Seq<
    (Seq<char>, Seq<int>),
> {
    Seq::new(
        s.len(),
        |i: int|
            if 0 <= i < s.len() {
                (s[i].0@, Seq::new(s[i].1@.len(), |j: int| if 0 <= j < s[i].1@.len() {
                    s[i].1@[j] as int
                } else {
                    0int
                }))
            } else {
                (Seq::empty(), Seq::empty())
            },
    )
}

/// Routes operation names to the interceptors that apply to them.
#[derive(Debug, PartialEq)]
pub struct InterceptionMap {
    pub entries: Vec<(String, Vec<usize>)>,
}

impl View for InterceptionMap {
    type V = Seq<(Seq<char>, Seq<int>)>;

    open spec fn view(&self) -> Seq<(Seq<char>, Seq<int>)> {
        interception_entries_view(self.entries@)
    }
}

impl InterceptionMap {
    /// The interceptors registered for the named operation, first entry
    /// first.
    #[verifier::loop_isolation(false)]
    pub fn get<'a>(&'a self, operation_name: &str) -> (r: Option<&'a Vec<usize>>)
        ensures
            match r {
                Some(v) => interceptors_of(self@, operation_name@) == Some(
                    Seq::new(v@.len(), |j: int| if 0 <= j < v@.len() {
                        v@[j] as int
                    } else {
                        0int
                    }),
                ),
                None => interceptors_of(self@, operation_name@) is None,
            },
    {
        let ghost es = self@;
        let mut i: usize = 0;
        proof {
            assert(es.skip(0) =~= es);
        }
        while i < self.entries.len()
            invariant
                i <= self.entries.len(),
                es == self@,
                interceptors_of(es, operation_name@) == interceptors_of(
                    es.skip(i as int),
                    operation_name@,
                ),
            decreases self.entries.len() - i,
        {
            proof {
                assert(es.skip(i as int).first() == es[i as int]);
                assert(es.skip(i as int).drop_first() =~= es.skip(i + 1));
            }
            if str_eq(self.entries[i].0.as_str(), operation_name) {
                return Some(&self.entries[i].1);
            }
            i = i + 1;
        }
        proof {
            assert(es.skip(self.entries@.len() as int) =~= Seq::<(Seq<char>, Seq<int>)>::empty());
        }
        None
    }
}

/// Model of a whole serializable system.
pub struct SerializableSystemView {
    pub subsystems: Seq<SerializableSubsystemView>,
    pub query_interception_map: Seq<(Seq<char>, Seq<int>)>,
    pub mutation_interception_map: Seq<(Seq<char>, Seq<int>)>,
}

/// A whole built system in its serializable shape.
#[derive(Debug, PartialEq)]
pub struct SerializableSystem {
    pub subsystems: Vec<SerializableSubsystem>,
    pub query_interception_map: InterceptionMap,
    pub mutation_interception_map: InterceptionMap,
}

impl View for SerializableSystem {
    type V = SerializableSystemView;

    open spec fn view(&self) -> SerializableSystemView {
        SerializableSystemView {
            subsystems: Seq::new(
                self.subsystems@.len(),
                |i: int|
                    if 0 <= i < self.subsystems@.len() {
                        self.subsystems@[i]@
                    } else {
                        SerializableSubsystemView {
                            id: Seq::empty(),
                            subsystem_index: 0,
                            serialized_subsystem: Seq::empty(),
                        }
                    },
            ),
            query_interception_map: self.query_interception_map@,
            mutation_interception_map: self.mutation_interception_map@,
        }
    }
}

} // verus!
