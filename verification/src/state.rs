//! The stack handle: every operation of host code on one interpreter
//! instance, and who is to tear the instance down.

use vstd::prelude::*;
use vstd::string::*;
use crate::engine::{
    absolute, field, global, slot, Engine, EngineView, Field, Global, Object, STACK_LIMIT,
};
use crate::call::{adjusted, below_call, reads_results, Call, CallOutcome, Frame};
use crate::error::Error;
use crate::from_lua::{decoded, tagged, FromLua};
use crate::is_type::{accepts, has_type, value_is, IsType};
use crate::kind::Kind;
use crate::to_lua::{encoded, is_plain, Item, ToLua};
use crate::tuple::{all_wf, decoded_tuple, encoded_all};
use crate::trampoline::{can_enter, enters, fits, Invocation, Returned};
use crate::user_data::{entry_index, find_entry, find_table, table_index, Method};
use crate::value::{LuaValue, RawFunction};

verus! {

/// A handle on one interpreter instance. The handle that created the instance
/// owns it; a handle made from an instance that exists already borrows it.
pub struct State {
    engine: Engine,
    owned: bool,
}

impl View for State {
    type V = EngineView;

    closed spec fn view(&self) -> EngineView {
        self.engine@
    }
}

/// The entry named `name` in the dispatch table of the object `id`, as a
/// function value; `Nil` where the object, its table or the entry is missing.
pub open spec fn method_of(engine: EngineView, id: usize, name: Seq<char>) -> LuaValue {
    if id < engine.objects.len() {
        match table_index(engine.registry, engine.objects[id as int].type_tag@) {
            Some(table) => match entry_index(engine.registry[table].functions@, name) {
                Some(entry) => LuaValue::Function(
                    RawFunction { table: table as usize, entry: entry as usize },
                ),
                None => LuaValue::Nil,
            },
            None => LuaValue::Nil,
        }
    } else {
        LuaValue::Nil
    }
}

/// What indexing the value at `idx` by `name` gives: a table's field, an
/// opaque object's dispatch entry, `Nil` for anything else.
pub open spec fn indexed(engine: EngineView, idx: int, name: Seq<char>) -> LuaValue {
    match slot(engine.stack, idx) {
        Some(LuaValue::Table(handle)) => field(engine.fields, handle, name),
        Some(LuaValue::UserData(id)) => method_of(engine, id, name),
        _ => LuaValue::Nil,
    }
}

/// The fields after `value` was stored under `name` in what the position
/// `idx` of `stack` holds: changed where that is a table, else as before.
pub open spec fn stored(
    fields: Map<(u64, Seq<char>), LuaValue>,
    stack: Seq<LuaValue>,
    idx: int,
    name: Seq<char>,
    value: LuaValue,
) -> Map<(u64, Seq<char>), LuaValue> {
    match slot(stack, idx) {
        Some(LuaValue::Table(handle)) => fields.insert((handle, name), value),
        _ => fields,
    }
}

impl State {
    /// Whether the stack is within its limit.
    pub closed spec fn wf(&self) -> bool {
        self.engine.wf()
    }

    /// The instance behind the handle.
    pub closed spec fn instance(&self) -> Engine {
        self.engine
    }

    /// A handle is well formed when its instance is, and shows what its
    /// instance holds.
    pub broadcast proof fn lemma_instance(&self)
        ensures
            #[trigger] self.wf() == self.instance().wf(),
            #[trigger] self@ == self.instance()@,
    {
    }

    /// Whether this handle is the one that tears the instance down.
    pub closed spec fn is_owner(&self) -> bool {
        self.owned
    }

    /// The current number of slots.
    pub open spec fn top(&self) -> int {
        self@.stack.len() as int
    }

    /// Creates an instance and the handle that owns it.
    pub fn new() -> (state: State)
        ensures
            state.wf(),
            state.is_owner(),
            state@.stack == Seq::<LuaValue>::empty(),
            state@.below == Seq::<LuaValue>::empty(),
            state@.objects.len() == 0,
            state@.globals == Map::<Seq<char>, LuaValue>::empty(),
            state@.fields == Map::<(u64, Seq<char>), LuaValue>::empty(),
            state@.registry.len() == 0,
    {
        State { engine: Engine::new(), owned: true }
    }

    /// Makes a handle on an instance that exists already. The handle borrows
    /// the instance: giving the handle up leaves the instance alive.
    pub fn from_raw(engine: Engine) -> (state: State)
        ensures
            state.instance() == engine,
            state.wf() == engine.wf(),
            state@ == engine@,
            !state.is_owner(),
    {
        State { engine, owned: false }
    }

    /// Tells whether this handle owns its instance.
    pub fn owned(&self) -> (yes: bool)
        ensures
            yes == self.is_owner(),
    {
        self.owned
    }

    /// Gives the handle up. The instance of an owning handle ends with it;
    /// the instance of a borrowing handle is handed back, alive.
    pub fn close(self) -> (survivor: Option<Engine>)
        ensures
            survivor == if self.is_owner() {
                None
            } else {
                Some(self.instance())
            },
    {
        if self.owned {
            None
        } else {
            Some(self.engine)
        }
    }

    /// Lends the instance out for reading.
    pub fn engine(&self) -> (engine: &Engine)
        ensures
            *engine == self.instance(),
    {
        &self.engine
    }

    /// Tells whether the handle is well formed.
    pub fn check(&self) -> (ok: bool)
        ensures
            ok == self.wf(),
    {
        self.engine.check()
    }

    /// Returns the number of slots that can still be pushed.
    pub fn room(&self) -> (free: usize)
        requires
            self.wf(),
        ensures
            free == STACK_LIMIT - self@.depth(),
    {
        self.engine.room()
    }

    /// Returns the position of the top slot, which is the number of slots.
    pub fn get_top(&self) -> (top: i32)
        requires
            self.wf(),
        ensures
            top == self.top(),
    {
        (self.engine.stack.len() - self.engine.base) as i32
    }

    /// Moves the top to position `idx`: slots above it are dropped, missing
    /// slots below it are filled with `Nil`.
    pub fn set_top(&mut self, idx: i32)
        requires
            old(self).wf(),
            0 <= absolute(old(self).top(), idx as int),
            old(self)@.below.len() + absolute(old(self).top(), idx as int) <= STACK_LIMIT,
        ensures
            final(self).wf(),
            final(self).is_owner() == old(self).is_owner(),
            final(self)@ == (EngineView {
                stack: Seq::new(
                    absolute(old(self).top(), idx as int) as nat,
                    |i: int|
                        if i < old(self).top() {
                            old(self)@.stack[i]
                        } else {
                            LuaValue::Nil
                        },
                ),
                ..old(self)@
            }),
    {
        let base: usize = self.engine.base;
        let top: i64 = (self.engine.stack.len() - base) as i64;
        let target: i64 = if idx < 0 {
            top + idx as i64 + 1
        } else {
            idx as i64
        };
        let target: usize = base + target as usize;
        if target <= self.engine.stack.len() {
            self.engine.stack.truncate(target);
        } else {
            while self.engine.stack.len() < target
                invariant
                    old(self).engine.stack@.len() <= self.engine.stack@.len() <= target
                        <= STACK_LIMIT,
                    self.owned == old(self).owned,
                    self.engine.base == old(self).engine.base,
                    self.engine.objects == old(self).engine.objects,
                    self.engine.globals == old(self).engine.globals,
                    self.engine.fields == old(self).engine.fields,
                    self.engine.registry == old(self).engine.registry,
                    forall|i: int|
                        0 <= i < self.engine.stack@.len() ==> self.engine.stack@[i] == if i < old(
                            self,
                        ).engine.stack@.len() {
                            old(self).engine.stack@[i]
                        } else {
                            LuaValue::Nil
                        },
                decreases target - self.engine.stack.len(),
            {
                self.engine.stack.push(LuaValue::Nil);
            }
        }
        proof {
            assert(self@.below =~= old(self)@.below);
            assert(self@.stack =~= Seq::new(
                absolute(old(self).top(), idx as int) as nat,
                |i: int|
                    if i < old(self).top() {
                        old(self)@.stack[i]
                    } else {
                        LuaValue::Nil
                    },
            ));
        }
    }

    /// Drops the `n` topmost slots.
    pub fn pop(&mut self, n: i32)
        requires
            old(self).wf(),
            0 <= n <= old(self).top(),
        ensures
            final(self).wf(),
            final(self).is_owner() == old(self).is_owner(),
            final(self)@ == (EngineView {
                stack: old(self)@.stack.take(old(self).top() - n),
                ..old(self)@
            }),
    {
        let keep: usize = self.engine.stack.len() - n as usize;
        self.engine.stack.truncate(keep);
        proof {
            assert(self@.stack =~= old(self)@.stack.take(old(self).top() - n));
            assert(self@.below =~= old(self)@.below);
        }
    }

    /// Tells whether position `idx` holds a value of the host type `T`.
    pub fn is<T: IsType>(&self, idx: i32) -> (yes: bool)
        requires
            self.wf(),
        ensures
            yes == has_type(self@.stack, T::kind(), idx as int),
    {
        T::is_type(&self.engine, idx)
    }

    /// Tells whether position `idx` holds a value that can be read as `kind`.
    pub fn is_kind(&self, kind: Kind, idx: i32) -> (yes: bool)
        requires
            self.wf(),
        ensures
            yes == has_type(self@.stack, kind, idx as int),
    {
        self.engine.is_type(kind, idx)
    }

    /// Reads position `idx` as the host type `T`. Returns `None` where the
    /// position holds nothing or a value of another type.
    pub fn cast_to<'a, T: FromLua<'a>>(&'a self, idx: i32) -> (host: Option<T::Output>)
        requires
            self.wf(),
        ensures
            host is Some <==> (decoded(self@.stack, T::kind(), idx as int) matches Some(v)
                && T::readable(v, self@.objects)),
            host matches Some(h) ==> (decoded(self@.stack, T::kind(), idx as int) matches Some(v)
                && T::renders(h, v, self@.objects)),
    {
        T::from_lua(&self.engine, idx)
    }

    /// Reads position `idx` as a host value of type `kind`.
    pub fn decode(&self, kind: Kind, idx: i32) -> (host: Option<LuaValue>)
        requires
            self.wf(),
        ensures
            host == decoded(self@.stack, kind, idx as int),
    {
        self.engine.cast_to(kind, idx)
    }

    /// Reads position `idx` as a host object of the type named `tag`; `None`
    /// for anything else, an object of another type included.
    pub fn cast_to_object(&self, tag: &str, idx: i32) -> (object: Option<&Object>)
        requires
            self.wf(),
        ensures
            match object {
                Some(o) => tagged(self@, tag@, idx as int) == Some(*o),
                None => tagged(self@, tag@, idx as int) is None,
            },
    {
        self.engine.cast_to_object(tag, idx)
    }

    /// Reads a tuple at `idx`, one element per kind.
    pub fn cast_to_tuple(&self, kinds: &Vec<Kind>, idx: i32) -> (values: Option<Vec<LuaValue>>)
        requires
            self.wf(),
        ensures
            match values {
                Some(values) => decoded_tuple(self@.stack, kinds@, idx as int) == Some(values@),
                None => decoded_tuple(self@.stack, kinds@, idx as int) is None,
            },
    {
        self.engine.cast_to_tuple(kinds, idx)
    }

    /// Encodes a host value on top of the stack: the stack grows by the one
    /// slot that the value takes, and what was on it stays in place.
    pub fn push<T: ToLua>(&mut self, value: T)
        requires
            old(self).wf(),
            old(self)@.depth() < STACK_LIMIT,
            old(self)@.objects.len() < usize::MAX,
            value.encodable(),
        ensures
            final(self).wf(),
            final(self).is_owner() == old(self).is_owner(),
            value.pushed(old(self)@, final(self)@),
            final(self).top() == old(self).top() + 1,
            final(self)@.stack.take(old(self).top()) == old(self)@.stack,
            final(self)@.below == old(self)@.below,
    {
        value.to_lua(&mut self.engine)
    }

    /// Encodes a tuple, its elements left to right.
    pub fn push_tuple(&mut self, items: Vec<Item>)
        requires
            old(self).wf(),
            old(self)@.depth() + items@.len() <= STACK_LIMIT,
            old(self)@.objects.len() + items@.len() <= usize::MAX,
            all_wf(items@),
        ensures
            final(self).wf(),
            final(self).is_owner() == old(self).is_owner(),
            final(self)@ == encoded_all(old(self)@, items@),
            final(self).top() == old(self).top() + items@.len(),
    {
        self.engine.push_tuple(items)
    }

    /// Sets the global `name` to the encoded `value`. The stack is left as it
    /// was.
    pub fn set_global(&mut self, name: &str, value: Item)
        requires
            old(self).wf(),
            old(self)@.depth() < STACK_LIMIT,
            old(self)@.objects.len() < usize::MAX,
            value.wf(),
            is_plain(name@),
        ensures
            final(self).wf(),
            final(self).is_owner() == old(self).is_owner(),
            final(self)@ == (EngineView {
                stack: old(self)@.stack,
                globals: old(self)@.globals.insert(name@, encoded(old(self)@, value).stack.last()),
                ..encoded(old(self)@, value)
            }),
    {
        self.engine.push(value);
        let top = self.engine.take();
        let ghost before = self.engine.globals@;
        self.engine.globals.push(Global { name: String::from_str(name), value: top });
        proof {
            assert(self.engine.globals@.drop_last() == before);
            assert(self@.stack =~= old(self)@.stack);
        }
    }

    /// Pushes the value of the global `name` and reads it as `kind`. The
    /// value stays on the stack.
    pub fn get_global(&mut self, name: &str, kind: Kind) -> (host: Option<LuaValue>)
        requires
            old(self).wf(),
            old(self)@.depth() < STACK_LIMIT,
            is_plain(name@),
        ensures
            final(self).wf(),
            final(self).is_owner() == old(self).is_owner(),
            final(self)@ == (EngineView {
                stack: old(self)@.stack.push(global(old(self)@.globals, name@)),
                ..old(self)@
            }),
            host == decoded(final(self)@.stack, kind, -1),
    {
        let value = self.engine.global(name);
        self.engine.put(value);
        self.engine.cast_to(kind, -1)
    }

    /// Stores the encoded `value` under `name` in the table at position
    /// `idx`. The position is resolved at once, against the stack as the
    /// caller sees it, before the value is encoded. The stack is left as it
    /// was; where the position holds no table, nothing is stored.
    pub fn set_field(&mut self, idx: i32, name: &str, value: Item)
        requires
            old(self).wf(),
            old(self)@.depth() < STACK_LIMIT,
            old(self)@.objects.len() < usize::MAX,
            value.wf(),
            is_plain(name@),
        ensures
            final(self).wf(),
            final(self).is_owner() == old(self).is_owner(),
            final(self)@ == (EngineView {
                stack: old(self)@.stack,
                fields: stored(
                    old(self)@.fields,
                    old(self)@.stack,
                    idx as int,
                    name@,
                    encoded(old(self)@, value).stack.last(),
                ),
                ..encoded(old(self)@, value)
            }),
    {
        let target: Option<u64> = match self.engine.slot(idx) {
            Some(LuaValue::Table(handle)) => Some(*handle),
            _ => None,
        };
        self.engine.push(value);
        let top = self.engine.take();
        match target {
            Some(handle) => {
                let ghost before = self.engine.fields@;
                self.engine.fields.push(
                    Field { table: handle, name: String::from_str(name), value: top },
                );
                proof {
                    assert(self.engine.fields@.drop_last() == before);
                }
            },
            None => {},
        }
        proof {
            assert(self@.stack =~= old(self)@.stack);
        }
    }

    /// Looks `name` up in what position `idx` holds, pushes what it finds and
    /// reads that as `kind`. The value stays on the stack.
    pub fn get_field(&mut self, idx: i32, name: &str, kind: Kind) -> (host: Option<LuaValue>)
        requires
            old(self).wf(),
            old(self)@.depth() < STACK_LIMIT,
            is_plain(name@),
        ensures
            final(self).wf(),
            final(self).is_owner() == old(self).is_owner(),
            final(self)@ == (EngineView {
                stack: old(self)@.stack.push(indexed(old(self)@, idx as int, name@)),
                ..old(self)@
            }),
            host == decoded(final(self)@.stack, kind, -1),
    {
        let value = self.lookup(idx, name);
        self.engine.put(value);
        self.engine.cast_to(kind, -1)
    }

    /// Looks `name` up in what position `idx` holds.
    fn lookup(&self, idx: i32, name: &str) -> (value: LuaValue)
        requires
            self.wf(),
        ensures
            value == indexed(self@, idx as int, name@),
    {
        match self.engine.slot(idx) {
            Some(LuaValue::Table(handle)) => self.engine.field(*handle, name),
            Some(LuaValue::UserData(id)) => {
                if *id >= self.engine.objects.len() {
                    return LuaValue::Nil;
                }
                let tag = self.engine.objects[*id].type_tag.as_str();
                match find_table(&self.engine.registry, tag) {
                    Some(table) => match find_entry(&self.engine.registry[table].functions, name) {
                        Some(entry) => LuaValue::Function(RawFunction { table, entry }),
                        None => LuaValue::Nil,
                    },
                    None => LuaValue::Nil,
                }
            },
            _ => LuaValue::Nil,
        }
    }
}

/// What a slot is shown as when the stack is listed.
#[derive(Clone, Copy, Debug, PartialEq, Eq, Structural)]
pub enum SlotLabel {
    /// A number; its value is shown.
    Number,
    /// Text; it is shown.
    Text,
    /// A boolean; its value is shown.
    Boolean,
    /// A function of either language.
    Function,
    /// A table.
    Table,
    /// A function written in the host language.
    NativeFunction,
    /// Foreign data of any type.
    UserData,
    /// A bare host pointer.
    LightUserData,
    /// A coroutine.
    Coroutine,
    /// The engine's "nothing".
    Nil,
}

/// One line of a listing of the stack.
#[derive(Clone, Debug, PartialEq, Eq)]
pub struct StackLine {
    /// The slot's position from the bottom, the lowest being 1.
    pub position: i32,
    /// The slot's distance from the top, the topmost being 1.
    pub from_top: i32,
    /// What the slot is shown as.
    pub label: SlotLabel,
    /// A copy of what the slot holds.
    pub value: LuaValue,
}

/// What a value is shown as: the first of number, text, boolean, function,
/// table, native function, foreign data, bare pointer, coroutine and nothing
/// whose type predicate accepts it.
pub open spec fn label_of(value: LuaValue) -> SlotLabel {
    if accepts(Kind::Float, value) {
        SlotLabel::Number
    } else if accepts(Kind::Text, value) {
        SlotLabel::Text
    } else if accepts(Kind::Boolean, value) {
        SlotLabel::Boolean
    } else if accepts(Kind::LuaFunction, value) {
        SlotLabel::Function
    } else if accepts(Kind::Table, value) {
        SlotLabel::Table
    } else if accepts(Kind::NativeFunction, value) {
        SlotLabel::NativeFunction
    } else if accepts(Kind::AnyUserData, value) {
        SlotLabel::UserData
    } else if accepts(Kind::LightUserData, value) {
        SlotLabel::LightUserData
    } else if accepts(Kind::Coroutine, value) {
        SlotLabel::Coroutine
    } else {
        SlotLabel::Nil
    }
}

/// Picks what a value is shown as.
pub fn describe(value: &LuaValue) -> (label: SlotLabel)
    ensures
        label == label_of(*value),
{
    if value_is(Kind::Float, value) {
        SlotLabel::Number
    } else if value_is(Kind::Text, value) {
        SlotLabel::Text
    } else if value_is(Kind::Boolean, value) {
        SlotLabel::Boolean
    } else if value_is(Kind::LuaFunction, value) {
        SlotLabel::Function
    } else if value_is(Kind::Table, value) {
        SlotLabel::Table
    } else if value_is(Kind::NativeFunction, value) {
        SlotLabel::NativeFunction
    } else if value_is(Kind::AnyUserData, value) {
        SlotLabel::UserData
    } else if value_is(Kind::LightUserData, value) {
        SlotLabel::LightUserData
    } else if value_is(Kind::Coroutine, value) {
        SlotLabel::Coroutine
    } else {
        SlotLabel::Nil
    }
}

/// The dispatch entry that a native function value names, where the
/// registry holds it.
pub open spec fn method_at(engine: EngineView, function: RawFunction) -> Option<Method> {
    if function.table < engine.registry.len() && function.entry
        < engine.registry[function.table as int].functions@.len() {
        Some(engine.registry[function.table as int].functions@[function.entry as int])
    } else {
        None
    }
}

impl State {
    /// Lists the stack from the bottom up: for each slot its position, its
    /// distance from the top, what it is shown as, and its value.
    pub fn dump_stack(&self) -> (lines: Vec<StackLine>)
        requires
            self.wf(),
        ensures
            lines@.len() == self.top(),
            forall|i: int|
                0 <= i < lines@.len() ==> {
                    &&& (#[trigger] lines@[i]).position == i + 1
                    &&& lines@[i].from_top == self.top() - i
                    &&& lines@[i].value == self@.stack[i]
                    &&& lines@[i].label == label_of(self@.stack[i])
                },
    {
        let base: usize = self.engine.base;
        let size: usize = self.engine.stack.len() - base;
        let mut lines: Vec<StackLine> = Vec::new();
        let mut i: usize = 0;
        while i < size
            invariant
                i <= size,
                base == self.engine.base,
                size == self.engine.stack@.len() - base,
                base + size <= STACK_LIMIT,
                lines@.len() == i,
                forall|j: int|
                    0 <= j < i ==> {
                        &&& (#[trigger] lines@[j]).position == j + 1
                        &&& lines@[j].from_top == size - j
                        &&& lines@[j].value == self.engine.stack@[base + j]
                        &&& lines@[j].label == label_of(self.engine.stack@[base + j])
                    },
            decreases size - i,
        {
            let value = &self.engine.stack[base + i];
            lines.push(
                StackLine {
                    position: (i + 1) as i32,
                    from_top: (size - i) as i32,
                    label: describe(value),
                    value: value.clone(),
                },
            );
            i += 1;
        }
        lines
    }

    /// Overwrites the bytes of the host object that `id` names, as a method
    /// with a mutable receiver does. Tells whether storage holds the object.
    pub fn write_object(&mut self, id: usize, bytes: Vec<u8>) -> (written: bool)
        ensures
            written == (id < old(self)@.objects.len()),
            final(self).wf() == old(self).wf(),
            final(self).is_owner() == old(self).is_owner(),
            written ==> final(self)@ == (EngineView {
                objects: old(self)@.objects.update(
                    id as int,
                    Object { type_tag: old(self)@.objects[id as int].type_tag, bytes },
                ),
                ..old(self)@
            }),
            !written ==> final(self)@ == old(self)@,
    {
        self.engine.write_object(id, bytes)
    }

    /// Finds the dispatch entry that a native function value names.
    pub fn method(&self, function: RawFunction) -> (method: Option<&Method>)
        ensures
            match method {
                Some(m) => method_at(self@, function) == Some(*m),
                None => method_at(self@, function) is None,
            },
    {
        if function.table < self.engine.registry.len() {
            let table = &self.engine.registry[function.table];
            if function.entry < table.functions.len() {
                return Some(&table.functions[function.entry]);
            }
        }
        None
    }

    /// Sets a call up: encodes the arguments, left to right, above the callee,
    /// which is the value on top of the stack. Where the top of the stack is
    /// no function, nothing is encoded and the call is refused.
    pub fn prepare_call(&mut self, args: Vec<Item>) -> (call: Result<Call, Error>)
        requires
            old(self).wf(),
            old(self)@.depth() + args@.len() <= STACK_LIMIT,
            old(self)@.objects.len() + args@.len() <= usize::MAX,
            all_wf(args@),
        ensures
            final(self).wf(),
            final(self).is_owner() == old(self).is_owner(),
            match call {
                Ok(call) => {
                    &&& has_type(old(self)@.stack, Kind::LuaFunction, -1)
                    &&& call.nargs == args@.len()
                    &&& final(self)@ == encoded_all(old(self)@, args@)
                    &&& final(self).top() == old(self).top() + args@.len()
                },
                Err(e) => {
                    &&& !has_type(old(self)@.stack, Kind::LuaFunction, -1)
                    &&& e is InvalidFunction
                    &&& final(self)@ == old(self)@
                },
            },
    {
        self.engine.prepare_call(args)
    }

    /// Finishes a call that the engine has run. The callee and its arguments
    /// leave the stack. Where the callee returned, its values, held to one
    /// per kind, take their place and are read as `kinds`; they stay on the
    /// stack. Where the callee raised an error, the error's text is handed
    /// out and nothing takes the place of the call: the stack is one slot
    /// shallower than it was with the callee on top.
    pub fn protected_call(&mut self, call: Call, kinds: &Vec<Kind>, outcome: CallOutcome) -> (result:
        Result<Vec<LuaValue>, Error>)
        requires
            old(self).wf(),
            old(self).top() >= call.nargs + 1,
            old(self)@.depth() - call.nargs - 1 + kinds@.len() <= STACK_LIMIT,
        ensures
            final(self).wf(),
            final(self).is_owner() == old(self).is_owner(),
            match outcome {
                CallOutcome::Returned(values) => {
                    &&& final(self)@ == (EngineView {
                        stack: below_call(old(self)@.stack, call.nargs as nat) + adjusted(
                            values@,
                            kinds@.len(),
                        ),
                        ..old(self)@
                    })
                    &&& reads_results(result, final(self)@.stack, kinds@)
                },
                CallOutcome::Raised(error) => {
                    &&& final(self)@ == (EngineView {
                        stack: below_call(old(self)@.stack, call.nargs as nat),
                        ..old(self)@
                    })
                    &&& final(self).top() == old(self).top() - call.nargs - 1
                    &&& result == Err::<Vec<LuaValue>, Error>(Error::LuaRuntimeError(error))
                },
            },
    {
        self.engine.protected_call(call, kinds, outcome)
    }

    /// Reads the results of a call that has returned off the top of the
    /// stack, one per kind. They stay on the stack.
    pub fn read_results(&self, kinds: &Vec<Kind>) -> (result: Result<Vec<LuaValue>, Error>)
        requires
            self.wf(),
        ensures
            reads_results(result, self@.stack, kinds@),
    {
        self.engine.read_results(kinds)
    }

    /// Finishes the run of a chunk of source text. Where the chunk returned,
    /// every value it returned is left on the stack. Where it raised an
    /// error, the error's text is handed out and the stack is as it was
    /// before the chunk was loaded.
    pub fn do_string(&mut self, outcome: CallOutcome) -> (result: Result<(), Error>)
        requires
            old(self).wf(),
            outcome matches CallOutcome::Returned(values) ==> old(self)@.depth() + values@.len()
                <= STACK_LIMIT,
        ensures
            final(self).wf(),
            final(self).is_owner() == old(self).is_owner(),
            match outcome {
                CallOutcome::Returned(values) => {
                    &&& final(self)@ == (EngineView {
                        stack: old(self)@.stack + values@,
                        ..old(self)@
                    })
                    &&& result is Ok
                },
                CallOutcome::Raised(error) => {
                    &&& final(self)@ == old(self)@
                    &&& result == Err::<(), Error>(Error::LuaRuntimeError(error))
                },
            },
    {
        self.engine.do_string(outcome)
    }

    /// Opens the frame of a native callee: from now on positions name the
    /// arguments of the call alone, the first argument at position 1.
    pub fn open_frame(&mut self, call: &Call) -> (frame: Frame)
        requires
            old(self).wf(),
            call.nargs <= old(self).top(),
        ensures
            final(self).wf(),
            final(self).is_owner() == old(self).is_owner(),
            frame.outer == old(self)@.below.len(),
            final(self)@ == (EngineView {
                stack: old(self)@.stack.skip(old(self).top() - call.nargs),
                below: old(self)@.below + old(self)@.stack.take(old(self).top() - call.nargs),
                ..old(self)@
            }),
    {
        self.engine.open_frame(call)
    }

    /// Closes the frame of a native callee that has left `count` results on
    /// top of its frame. The frame leaves the stack, and positions name the
    /// caller's slots again, the callee topmost with no argument above it.
    /// Hands out the call in that form and its outcome: the results.
    pub fn close_frame(&mut self, frame: Frame, count: i32) -> (done: (Call, CallOutcome))
        requires
            old(self).wf(),
            frame.outer <= old(self)@.below.len(),
            0 <= count <= old(self).top(),
        ensures
            final(self).wf(),
            final(self).is_owner() == old(self).is_owner(),
            done.0.nargs == 0,
            done.1 matches CallOutcome::Returned(values) && values@ == old(self)@.stack.skip(
                old(self).top() - count,
            ),
            final(self)@ == (EngineView {
                stack: old(self)@.below.skip(frame.outer as int),
                below: old(self)@.below.take(frame.outer as int),
                ..old(self)@
            }),
    {
        self.engine.close_frame(frame, count)
    }

    /// Enters a trampoline: reads the receiver and the arguments of `method`
    /// off the stack. Returns `None` where one of them cannot be read.
    pub fn enter(&self, method: &Method) -> (invocation: Option<Invocation>)
        requires
            self.wf(),
            method.wf(),
        ensures
            match invocation {
                Some(invocation) => enters(self@.stack, *method, invocation),
                None => !can_enter(self@.stack, *method),
            },
    {
        method.enter(&self.engine)
    }

    /// Leaves a trampoline: encodes what the method returned and reports the
    /// number of result slots.
    pub fn leave(&mut self, method: &Method, returned: Returned) -> (count: i32)
        requires
            old(self).wf(),
            fits(*method, returned),
            returned matches Returned::Values(values) ==> {
                &&& all_wf(values@)
                &&& old(self)@.depth() + values@.len() <= STACK_LIMIT
                &&& old(self)@.objects.len() + values@.len() <= usize::MAX
            },
        ensures
            final(self).wf(),
            final(self).is_owner() == old(self).is_owner(),
            match returned {
                Returned::Count(n) => count == n && final(self)@ == old(self)@,
                Returned::Values(values) => {
                    &&& count == method.info.spec_result_width()
                    &&& final(self)@ == encoded_all(old(self)@, values@)
                },
            },
    {
        method.leave(&mut self.engine, returned)
    }
}

} // verus!
