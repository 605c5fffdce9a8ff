//! Opaque host objects: the two declarations that expose a host type, and
//! the table of named entry points that the engine keeps for it.

use vstd::prelude::*;
use vstd::string::*;
use crate::classify::MethodInfo;
use crate::kind::{same_text, Kind};

verus! {

/// One entry of a dispatch table: a name and the calling convention of the
/// trampoline that stands behind it.
#[derive(Clone, Debug, PartialEq, Eq)]
pub struct Method {
    /// The name under which scripts find the entry.
    pub name: String,
    /// The calling convention.
    pub info: MethodInfo,
    /// The conversion protocol of each typed argument, in order.
    pub args: Vec<Kind>,
}

/// What a host type declares to become scriptable.
#[derive(Clone, Debug, PartialEq, Eq)]
pub struct UserData {
    /// The type's name: the key of its dispatch table and its runtime tag.
    pub name: String,
    /// The entries of its dispatch table.
    pub functions: Vec<Method>,
}

/// Hooks by which a host object could take part in the engine's operators and
/// life cycle. They are reserved: each does nothing until a type overrides it.
pub trait MetaTable {
    /// Reading a key that the object does not hold.
    fn index(&mut self) {
    }

    /// Writing a key that the object does not hold.
    fn new_index(&mut self) {
    }

    /// The weakness of the object's keys and values.
    fn mode(&mut self) {
    }

    /// Calling the object.
    fn call(&mut self) {
    }

    /// What asking for the object's metatable shows.
    fn metatable(&mut self) {
    }

    /// Rendering the object as text.
    fn to_string(&mut self) {
    }

    /// The object's collection.
    fn gc(&mut self) {
    }

    /// The object's type name.
    fn name(&mut self) {
    }

    /// Arithmetic negation.
    fn unary_minus(&mut self) {
    }

    /// Addition.
    fn add(&mut self) {
    }

    /// Subtraction.
    fn sub(&mut self) {
    }

    /// Multiplication.
    fn mul(&mut self) {
    }

    /// Division.
    fn div(&mut self) {
    }

    /// Remainder.
    fn modulo(&mut self) {
    }

    /// Exponentiation.
    fn pow(&mut self) {
    }

    /// Concatenation.
    fn concat(&mut self) {
    }

    /// Equality.
    fn eq(&mut self) {
    }

    /// Less than.
    fn lt(&mut self) {
    }

    /// Less than or equal.
    fn le(&mut self) {
    }
}

impl Method {
    /// Whether the argument protocols are as many as the convention asks for.
    pub open spec fn wf(&self) -> bool {
        match self.info.signature {
            Some(s) => self.args@.len() == s.args,
            None => self.args@.len() == 0,
        }
    }

    /// Tells whether the argument protocols are as many as the convention
    /// asks for.
    pub fn check(&self) -> (ok: bool)
        ensures
            ok == self.wf(),
    {
        match self.info.signature {
            Some(s) => self.args.len() == s.args,
            None => self.args.len() == 0,
        }
    }

    /// Makes a dispatch entry by hand. Returns `None` where the argument
    /// protocols are not as many as the convention asks for.
    pub fn new(name: String, info: MethodInfo, args: Vec<Kind>) -> (method: Option<Method>)
        ensures
            match method {
                Some(m) => m.wf() && m.name == name && m.info == info && m.args == args,
                None => !(Method { name, info, args }).wf(),
            },
    {
        let expected: usize = match info.signature {
            Some(s) => s.args,
            None => 0,
        };
        if args.len() == expected {
            Some(Method { name, info, args })
        } else {
            None
        }
    }
}

/// Whether no two entries have the same name.
pub open spec fn distinct_names(entries: Seq<Method>) -> bool {
    forall|a: int, b: int|
        0 <= a < b < entries.len() ==> (#[trigger] entries[a]).name@ != (#[trigger] entries[b]).name@
}

impl UserData {
    /// Whether the dispatch table is well formed: each entry fits its
    /// convention, and no two entries have the same name.
    pub open spec fn wf(&self) -> bool {
        &&& forall|j: int| 0 <= j < self.functions@.len() ==> (#[trigger] self.functions@[j]).wf()
        &&& distinct_names(self.functions@)
    }
}

/// The index of the first entry named `name`, where there is one.
pub open spec fn entry_index(entries: Seq<Method>, name: Seq<char>) -> Option<int> {
    if exists|i: int| 0 <= i < entries.len() && (#[trigger] entries[i]).name@ == name {
        Some(first_named(entries, name, 0))
    } else {
        None
    }
}

/// The least index from `from` on whose entry is named `name`; the length
/// where there is none.
pub open spec fn first_named(entries: Seq<Method>, name: Seq<char>, from: int) -> int
    decreases entries.len() - from,
{
    if from < 0 || from >= entries.len() {
        entries.len() as int
    } else if entries[from].name@ == name {
        from
    } else {
        first_named(entries, name, from + 1)
    }
}

/// The index of the first table for the type `name`, where there is one.
pub open spec fn table_index(registry: Seq<UserData>, name: Seq<char>) -> Option<int> {
    if exists|i: int| 0 <= i < registry.len() && (#[trigger] registry[i]).name@ == name {
        Some(first_table(registry, name, 0))
    } else {
        None
    }
}

/// The least index from `from` on whose table is for the type `name`; the
/// length where there is none.
pub open spec fn first_table(registry: Seq<UserData>, name: Seq<char>, from: int) -> int
    decreases registry.len() - from,
{
    if from < 0 || from >= registry.len() {
        registry.len() as int
    } else if registry[from].name@ == name {
        from
    } else {
        first_table(registry, name, from + 1)
    }
}

/// `first_named` is the least matching index, or the length.
pub proof fn lemma_first_named(entries: Seq<Method>, name: Seq<char>, from: int)
    requires
        0 <= from <= entries.len(),
    ensures
        from <= first_named(entries, name, from) <= entries.len(),
        first_named(entries, name, from) < entries.len() ==> entries[first_named(
            entries,
            name,
            from,
        )].name@ == name,
        forall|j: int|
            from <= j < first_named(entries, name, from) ==> (#[trigger] entries[j]).name@ != name,
    decreases entries.len() - from,
{
    if from < entries.len() && entries[from].name@ != name {
        lemma_first_named(entries, name, from + 1);
    }
}

/// `first_table` is the least matching index, or the length.
pub proof fn lemma_first_table(registry: Seq<UserData>, name: Seq<char>, from: int)
    requires
        0 <= from <= registry.len(),
    ensures
        from <= first_table(registry, name, from) <= registry.len(),
        first_table(registry, name, from) < registry.len() ==> registry[first_table(
            registry,
            name,
            from,
        )].name@ == name,
        forall|j: int|
            from <= j < first_table(registry, name, from) ==> (#[trigger] registry[j]).name@
                != name,
    decreases registry.len() - from,
{
    if from < registry.len() && registry[from].name@ != name {
        lemma_first_table(registry, name, from + 1);
    }
}

/// Finds the first entry named `name`.
pub fn find_entry(entries: &Vec<Method>, name: &str) -> (found: Option<usize>)
    ensures
        match found {
            Some(i) => i < entries@.len() && entries@[i as int].name@ == name@ && entry_index(
                entries@,
                name@,
            ) == Some(i as int),
            None => entry_index(entries@, name@) is None,
        },
{
    let mut i: usize = 0;
    while i < entries.len()
        invariant
            i <= entries@.len(),
            forall|j: int| 0 <= j < i ==> (#[trigger] entries@[j]).name@ != name@,
        decreases entries.len() - i,
    {
        if same_text(entries[i].name.as_str(), name) {
            proof {
                lemma_first_named(entries@, name@, 0);
            }
            return Some(i);
        }
        i += 1;
    }
    None
}

/// Finds the first table for the type `name`.
pub fn find_table(registry: &Vec<UserData>, name: &str) -> (found: Option<usize>)
    ensures
        match found {
            Some(i) => i < registry@.len() && registry@[i as int].name@ == name@ && table_index(
                registry@,
                name@,
            ) == Some(i as int),
            None => table_index(registry@, name@) is None,
        },
{
    let mut i: usize = 0;
    while i < registry.len()
        invariant
            i <= registry@.len(),
            forall|j: int| 0 <= j < i ==> (#[trigger] registry@[j]).name@ != name@,
        decreases registry.len() - i,
    {
        if same_text(registry[i].name.as_str(), name) {
            proof {
                lemma_first_table(registry@, name@, 0);
            }
            return Some(i);
        }
        i += 1;
    }
    None
}

} // verus!
