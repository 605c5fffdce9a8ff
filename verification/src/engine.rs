//! One interpreter instance as data: its value stack, the storage it manages
//! for host objects, its globals, the fields of its tables, and the dispatch
//! tables registered with it.

use vstd::prelude::*;
use vstd::string::*;
use crate::kind::same_text;
use crate::user_data::UserData;
use crate::value::LuaValue;

verus! {

/// The most slots a stack may hold: positions are 32-bit signed integers.
pub const STACK_LIMIT: usize = 0x7fff_ffff;

/// A host object in engine-managed storage.
#[derive(Clone, Debug, PartialEq, Eq)]
pub struct Object {
    /// The name of its host type.
    pub type_tag: String,
    /// The object's bytes, as they were copied in.
    pub bytes: Vec<u8>,
}

/// A global variable.
#[derive(Clone, Debug, PartialEq, Eq)]
pub struct Global {
    /// Its name.
    pub name: String,
    /// Its value.
    pub value: LuaValue,
}

/// A field of a table.
#[derive(Clone, Debug, PartialEq, Eq)]
pub struct Field {
    /// The handle of the table.
    pub table: u64,
    /// The field's name.
    pub name: String,
    /// Its value.
    pub value: LuaValue,
}

/// An interpreter instance.
#[derive(Clone, Debug)]
pub struct Engine {
    /// The value stack, bottom first.
    pub stack: Vec<LuaValue>,
    /// The number of slots, counted from the bottom, that lie below the
    /// frame of the native call that is running; zero outside such a call.
    pub base: usize,
    /// Storage for host objects, in the order of their creation.
    pub objects: Vec<Object>,
    /// Globals in the order in which they were set; a later entry hides an
    /// earlier one of the same name.
    pub globals: Vec<Global>,
    /// Table fields in the order in which they were set; a later entry hides
    /// an earlier one of the same table and name.
    pub fields: Vec<Field>,
    /// The dispatch tables, in the order of their registration.
    pub registry: Vec<UserData>,
}

/// What an interpreter instance holds.
pub struct EngineView {
    /// The slots that positions can name, bottom first: the whole stack, or
    /// inside a native call the frame of that call.
    pub stack: Seq<LuaValue>,
    /// The slots below the frame, bottom first.
    pub below: Seq<LuaValue>,
    /// Storage for host objects.
    pub objects: Seq<Object>,
    /// The globals that are set, by name.
    pub globals: Map<Seq<char>, LuaValue>,
    /// The fields that are set, by table and name.
    pub fields: Map<(u64, Seq<char>), LuaValue>,
    /// The dispatch tables, in the order of their registration.
    pub registry: Seq<UserData>,
}

/// The globals that a list of assignments leaves set.
pub open spec fn globals_of(list: Seq<Global>) -> Map<Seq<char>, LuaValue>
    decreases list.len(),
{
    if list.len() == 0 {
        Map::empty()
    } else {
        globals_of(list.drop_last()).insert(list.last().name@, list.last().value)
    }
}

/// The fields that a list of assignments leaves set.
pub open spec fn fields_of(list: Seq<Field>) -> Map<(u64, Seq<char>), LuaValue>
    decreases list.len(),
{
    if list.len() == 0 {
        Map::empty()
    } else {
        fields_of(list.drop_last()).insert(
            (list.last().table, list.last().name@),
            list.last().value,
        )
    }
}

impl View for Engine {
    type V = EngineView;

    open spec fn view(&self) -> EngineView {
        EngineView {
            stack: self.stack@.skip(self.base as int),
            below: self.stack@.take(self.base as int),
            objects: self.objects@,
            globals: globals_of(self.globals@),
            fields: fields_of(self.fields@),
            registry: self.registry@,
        }
    }
}

/// The absolute position that `idx` names on a stack of `top` slots: itself
/// where it is not negative, else counted down from the top.
pub open spec fn absolute(top: int, idx: int) -> int {
    if idx < 0 {
        top + idx + 1
    } else {
        idx
    }
}

/// The value at position `idx`, where that position holds one.
pub open spec fn slot(stack: Seq<LuaValue>, idx: int) -> Option<LuaValue> {
    let at = absolute(stack.len() as int, idx);
    if 1 <= at <= stack.len() {
        Some(stack[at - 1])
    } else {
        None
    }
}

/// The absolute position that `idx` names on a stack of `top` slots, where it
/// names one of them.
pub open spec fn resolved(top: int, idx: int) -> Option<int> {
    let at = absolute(top, idx);
    if 1 <= at <= top {
        Some(at)
    } else {
        None
    }
}

/// Finds the absolute position that `idx` names on a stack of `top` slots;
/// `None` where it names none of them.
pub fn resolve(top: i32, idx: i32) -> (at: Option<i32>)
    requires
        0 <= top,
    ensures
        match at {
            Some(at) => resolved(top as int, idx as int) == Some(at as int),
            None => resolved(top as int, idx as int) is None,
        },
{
    if idx < 0 {
        if idx >= -top {
            Some(top + idx + 1)
        } else {
            None
        }
    } else if 1 <= idx && idx <= top {
        Some(idx)
    } else {
        None
    }
}

/// The value of a global; `Nil` where it is not set.
pub open spec fn global(globals: Map<Seq<char>, LuaValue>, name: Seq<char>) -> LuaValue {
    if globals.contains_key(name) {
        globals[name]
    } else {
        LuaValue::Nil
    }
}

/// The value of a table's field; `Nil` where it is not set.
pub open spec fn field(
    fields: Map<(u64, Seq<char>), LuaValue>,
    table: u64,
    name: Seq<char>,
) -> LuaValue {
    if fields.contains_key((table, name)) {
        fields[(table, name)]
    } else {
        LuaValue::Nil
    }
}

impl EngineView {
    /// The number of slots in all, within the frame and below it.
    pub open spec fn depth(&self) -> nat {
        self.below.len() + self.stack.len()
    }
}

impl Engine {
    /// Whether the frame lies within the stack and the stack within its
    /// limit.
    pub open spec fn wf(&self) -> bool {
        self.base <= self.stack@.len() <= STACK_LIMIT
    }

    /// Creates an instance that holds nothing.
    pub fn new() -> (engine: Engine)
        ensures
            engine.wf(),
            engine@.stack == Seq::<LuaValue>::empty(),
            engine@.below == Seq::<LuaValue>::empty(),
            engine@.objects == Seq::<Object>::empty(),
            engine@.globals == Map::<Seq<char>, LuaValue>::empty(),
            engine@.fields == Map::<(u64, Seq<char>), LuaValue>::empty(),
            engine@.registry == Seq::<UserData>::empty(),
    {
        Engine {
            stack: Vec::new(),
            base: 0,
            objects: Vec::new(),
            globals: Vec::new(),
            fields: Vec::new(),
            registry: Vec::new(),
        }
    }

    /// Tells whether the frame lies within the stack and the stack within its
    /// limit.
    pub fn check(&self) -> (ok: bool)
        ensures
            ok == self.wf(),
    {
        self.base <= self.stack.len() && self.stack.len() <= STACK_LIMIT
    }

    /// Returns the number of slots that can still be pushed.
    pub fn room(&self) -> (free: usize)
        requires
            self.wf(),
        ensures
            free == STACK_LIMIT - self@.depth(),
    {
        STACK_LIMIT - self.stack.len()
    }

    /// Lends out the host object that `id` names, where storage holds it.
    pub fn object(&self, id: usize) -> (object: Option<&Object>)
        ensures
            match object {
                Some(o) => id < self@.objects.len() && *o == self@.objects[id as int],
                None => id >= self@.objects.len(),
            },
    {
        if id < self.objects.len() {
            Some(&self.objects[id])
        } else {
            None
        }
    }

    /// Overwrites the bytes of the host object that `id` names, as a method
    /// with a mutable receiver does. Tells whether storage holds the object.
    pub fn write_object(&mut self, id: usize, bytes: Vec<u8>) -> (written: bool)
        ensures
            written == (id < old(self)@.objects.len()),
            final(self).wf() == old(self).wf(),
            written ==> final(self)@ == (EngineView {
                objects: old(self)@.objects.update(
                    id as int,
                    Object { type_tag: old(self)@.objects[id as int].type_tag, bytes },
                ),
                ..old(self)@
            }),
            !written ==> final(self)@ == old(self)@,
    {
        if id >= self.objects.len() {
            return false;
        }
        let tag = self.objects[id].type_tag.clone();
        self.objects.set(id, Object { type_tag: tag, bytes });
        true
    }

    /// Reads a global.
    pub fn global(&self, name: &str) -> (value: LuaValue)
        ensures
            value == global(self@.globals, name@),
    {
        let mut i: usize = self.globals.len();
        proof {
            assert(self.globals@.take(i as int) == self.globals@);
        }
        while i > 0
            invariant
                i <= self.globals@.len(),
                global(globals_of(self.globals@), name@) == global(
                    globals_of(self.globals@.take(i as int)),
                    name@,
                ),
            decreases i,
        {
            proof {
                let part = self.globals@.take(i as int);
                assert(part.drop_last() == self.globals@.take(i - 1));
            }
            if same_text(self.globals[i - 1].name.as_str(), name) {
                return self.globals[i - 1].value.clone();
            }
            i -= 1;
        }
        LuaValue::Nil
    }

    /// Reads a field of a table.
    pub fn field(&self, table: u64, name: &str) -> (value: LuaValue)
        ensures
            value == field(self@.fields, table, name@),
    {
        let mut i: usize = self.fields.len();
        proof {
            assert(self.fields@.take(i as int) == self.fields@);
        }
        while i > 0
            invariant
                i <= self.fields@.len(),
                field(fields_of(self.fields@), table, name@) == field(
                    fields_of(self.fields@.take(i as int)),
                    table,
                    name@,
                ),
            decreases i,
        {
            proof {
                let part = self.fields@.take(i as int);
                assert(part.drop_last() == self.fields@.take(i - 1));
            }
            if self.fields[i - 1].table == table && same_text(
                self.fields[i - 1].name.as_str(),
                name,
            ) {
                return self.fields[i - 1].value.clone();
            }
            i -= 1;
        }
        LuaValue::Nil
    }
}

} // verus!
