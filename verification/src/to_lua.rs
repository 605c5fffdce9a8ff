//! The encoding protocol: writing a host value onto the stack.

use vstd::prelude::*;
use vstd::string::*;
use crate::engine::{slot, Engine, EngineView, Object, STACK_LIMIT};
use crate::from_lua::decoded;
use crate::kind::Kind;
use crate::user_data::{find_table, table_index, UserData};
use crate::value::{LuaValue, RawFunction, Value};

verus! {

/// A reference to a stack position, encoded by copying what the position
/// holds at that moment.
#[derive(Clone, Copy, Debug, PartialEq, Eq, Structural)]
pub struct RelativeValue(pub i32);

/// A host object about to be handed to the engine.
#[derive(Clone, Debug, PartialEq, Eq)]
pub struct Instance {
    /// What its type declares.
    pub class: UserData,
    /// The object's bytes.
    pub bytes: Vec<u8>,
}

/// A host value in the form in which it can be encoded.
#[derive(Clone, Debug, PartialEq, Eq)]
pub enum Item {
    /// A value that is pushed as it stands.
    Value(LuaValue),
    /// A stack position whose value is pushed again.
    Relative(RelativeValue),
    /// A host object that moves into engine-managed storage.
    Object(Instance),
}

impl RelativeValue {
    /// Refers to position `idx`.
    pub fn new(idx: i32) -> (reference: Self)
        ensures
            reference.0 == idx,
    {
        RelativeValue(idx)
    }

    /// Reads position `idx` as a host value of type `kind`: a reference is
    /// read as what it refers to.
    pub fn from_lua(engine: &Engine, kind: Kind, idx: i32) -> (host: Option<LuaValue>)
        requires
            engine.wf(),
        ensures
            host == decoded(engine@.stack, kind, idx as int),
    {
        if engine.is_type(kind, idx) {
            engine.cast_to(kind, idx)
        } else {
            None
        }
    }
}

/// Whether text can be handed to the engine: it holds no NUL character.
pub open spec fn is_plain(text: Seq<char>) -> bool {
    forall|i: int| 0 <= i < text.len() ==> text[i] != '\0'
}

impl Item {
    /// Whether the item can be encoded: text in it holds no NUL character.
    pub open spec fn wf(&self) -> bool {
        match self {
            Item::Value(LuaValue::String(text)) => is_plain(text@),
            Item::Value(LuaValue::NumericString(text, _)) => is_plain(text@),
            _ => true,
        }
    }
}

impl Item {
    /// Tells whether the item can be encoded.
    pub fn check(&self) -> (ok: bool)
        ensures
            ok == self.wf(),
    {
        match self {
            Item::Value(LuaValue::String(text)) => check_plain(text.as_str()),
            Item::Value(LuaValue::NumericString(text, _)) => check_plain(text.as_str()),
            _ => true,
        }
    }
}

/// The registry after the dispatch table of `class` was asked for: unchanged
/// where a table of that name is registered, else longer by `class`.
pub open spec fn registered(registry: Seq<UserData>, class: UserData) -> Seq<UserData> {
    if table_index(registry, class.name@) is Some {
        registry
    } else {
        registry.push(class)
    }
}

/// The instance after `item` was encoded. A plain value is pushed. A relative
/// value pushes a copy of what its position holds, `Nil` where it holds
/// nothing. An object is stored, its dispatch table registered unless one of
/// that name is, and a reference to the stored object pushed.
pub open spec fn encoded(before: EngineView, item: Item) -> EngineView {
    match item {
        Item::Value(value) => EngineView { stack: before.stack.push(value), ..before },
        Item::Relative(reference) => EngineView {
            stack: before.stack.push(
                match slot(before.stack, reference.0 as int) {
                    Some(value) => value,
                    None => LuaValue::Nil,
                },
            ),
            ..before
        },
        Item::Object(instance) => EngineView {
            stack: before.stack.push(LuaValue::UserData(before.objects.len() as usize)),
            objects: before.objects.push(
                Object { type_tag: instance.class.name, bytes: instance.bytes },
            ),
            registry: registered(before.registry, instance.class),
            ..before
        },
    }
}

/// Tells whether text holds no NUL character.
pub fn check_plain(text: &str) -> (plain: bool)
    ensures
        plain == is_plain(text@),
{
    let n: usize = text.unicode_len();
    let mut i: usize = 0;
    while i < n
        invariant
            n == text@.len(),
            i <= n,
            forall|j: int| 0 <= j < i ==> text@[j] != '\0',
        decreases n - i,
    {
        if text.get_char(i) == '\0' {
            return false;
        }
        i += 1;
    }
    true
}

impl Engine {
    /// Registers the dispatch table of `class` unless one of that name is
    /// registered. Tells whether it was registered now.
    pub fn register(&mut self, class: UserData) -> (fresh: bool)
        ensures
            fresh == (table_index(old(self)@.registry, class.name@) is None),
            final(self).wf() == old(self).wf(),
            final(self)@ == (EngineView {
                registry: registered(old(self)@.registry, class),
                ..old(self)@
            }),
    {
        match find_table(&self.registry, class.name.as_str()) {
            Some(_) => false,
            None => {
                self.registry.push(class);
                true
            },
        }
    }

    /// Puts an engine value on top of the stack, as it stands.
    pub fn put(&mut self, value: LuaValue)
        requires
            old(self).wf(),
            old(self)@.depth() < STACK_LIMIT,
        ensures
            final(self).wf(),
            final(self)@ == (EngineView { stack: old(self)@.stack.push(value), ..old(self)@ }),
    {
        self.stack.push(value);
        proof {
            assert(self@.stack =~= old(self)@.stack.push(value));
            assert(self@.below =~= old(self)@.below);
        }
    }

    /// Takes the topmost value off the stack.
    pub fn take(&mut self) -> (value: LuaValue)
        requires
            old(self).wf(),
            old(self)@.stack.len() >= 1,
        ensures
            final(self).wf(),
            value == old(self)@.stack.last(),
            final(self)@ == (EngineView { stack: old(self)@.stack.drop_last(), ..old(self)@ }),
    {
        let value = self.stack.pop().unwrap();
        proof {
            assert(self@.stack =~= old(self)@.stack.drop_last());
            assert(self@.below =~= old(self)@.below);
        }
        value
    }

    /// Encodes `item` on top of the stack.
    pub fn push(&mut self, item: Item)
        requires
            old(self).wf(),
            old(self)@.depth() < STACK_LIMIT,
            old(self)@.objects.len() < usize::MAX,
            item.wf(),
        ensures
            final(self).wf(),
            final(self)@ == encoded(old(self)@, item),
            final(self)@.stack.len() == old(self)@.stack.len() + 1,
            final(self)@.stack.take(old(self)@.stack.len() as int) == old(self)@.stack,
            final(self)@.below == old(self)@.below,
    {
        proof {
            assert(encoded(old(self)@, item).stack.take(old(self)@.stack.len() as int)
                =~= old(self)@.stack);
        }
        match item {
            Item::Value(value) => {
                self.put(value);
            },
            Item::Relative(reference) => {
                let copy = match self.slot(reference.0) {
                    Some(value) => value.clone(),
                    None => LuaValue::Nil,
                };
                self.put(copy);
            },
            Item::Object(instance) => {
                let Instance { class, bytes } = instance;
                let id: usize = self.objects.len();
                self.objects.push(Object { type_tag: class.name.clone(), bytes });
                self.register(class);
                self.put(LuaValue::UserData(id));
            },
        }
    }
}

/// A host type that can be written onto the stack.
pub trait ToLua: Sized {
    /// Whether the value can be encoded.
    spec fn encodable(&self) -> bool;

    /// Whether `after` is the instance `before` with this value encoded on
    /// top of its stack.
    spec fn pushed(&self, before: EngineView, after: EngineView) -> bool;

    /// Encodes the value on top of the stack.
    fn to_lua(self, engine: &mut Engine)
        requires
            old(engine).wf(),
            old(engine)@.depth() < STACK_LIMIT,
            old(engine)@.objects.len() < usize::MAX,
            self.encodable(),
        ensures
            final(engine).wf(),
            self.pushed(old(engine)@, final(engine)@),
            final(engine)@.stack.len() == old(engine)@.stack.len() + 1,
            final(engine)@.stack.take(old(engine)@.stack.len() as int) == old(engine)@.stack,
            final(engine)@.below == old(engine)@.below,
    ;

    /// The number of stack positions that one value of this type takes.
    fn len() -> (n: i32)
        ensures
            n == 1,
    {
        1
    }
}

/// An item is encoded as its form says.
impl ToLua for Item {
    open spec fn encodable(&self) -> bool {
        self.wf()
    }

    open spec fn pushed(&self, before: EngineView, after: EngineView) -> bool {
        after == encoded(before, *self)
    }

    fn to_lua(self, engine: &mut Engine) {
        engine.push(self)
    }
}

/// An engine value is pushed as it stands.
impl ToLua for LuaValue {
    open spec fn encodable(&self) -> bool {
        Item::Value(*self).wf()
    }

    open spec fn pushed(&self, before: EngineView, after: EngineView) -> bool {
        after == encoded(before, Item::Value(*self))
    }

    fn to_lua(self, engine: &mut Engine) {
        engine.push(Item::Value(self))
    }
}

/// A relative value pushes a copy of what its position holds.
impl ToLua for RelativeValue {
    open spec fn encodable(&self) -> bool {
        true
    }

    open spec fn pushed(&self, before: EngineView, after: EngineView) -> bool {
        after == encoded(before, Item::Relative(*self))
    }

    fn to_lua(self, engine: &mut Engine) {
        engine.push(Item::Relative(self))
    }
}

/// An object moves into engine-managed storage.
impl ToLua for Instance {
    open spec fn encodable(&self) -> bool {
        true
    }

    open spec fn pushed(&self, before: EngineView, after: EngineView) -> bool {
        after == encoded(before, Item::Object(*self))
    }

    fn to_lua(self, engine: &mut Engine) {
        engine.push(Item::Object(self))
    }
}

/// An integer is pushed as a number.
impl ToLua for i32 {
    open spec fn encodable(&self) -> bool {
        true
    }

    open spec fn pushed(&self, before: EngineView, after: EngineView) -> bool {
        after == encoded(before, Item::Value(LuaValue::Integer(*self as i64)))
    }

    fn to_lua(self, engine: &mut Engine) {
        engine.push(Item::Value(self.to_lua_value()))
    }
}

/// A long integer is pushed as a number.
impl ToLua for i64 {
    open spec fn encodable(&self) -> bool {
        true
    }

    open spec fn pushed(&self, before: EngineView, after: EngineView) -> bool {
        after == encoded(before, Item::Value(LuaValue::Integer(*self)))
    }

    fn to_lua(self, engine: &mut Engine) {
        engine.push(Item::Value(self.to_lua_value()))
    }
}

/// A boolean is pushed as a boolean.
impl ToLua for bool {
    open spec fn encodable(&self) -> bool {
        true
    }

    open spec fn pushed(&self, before: EngineView, after: EngineView) -> bool {
        after == encoded(before, Item::Value(LuaValue::Bool(*self)))
    }

    fn to_lua(self, engine: &mut Engine) {
        engine.push(Item::Value(self.to_lua_value()))
    }
}

/// A native function is pushed as a function.
impl ToLua for RawFunction {
    open spec fn encodable(&self) -> bool {
        true
    }

    open spec fn pushed(&self, before: EngineView, after: EngineView) -> bool {
        after == encoded(before, Item::Value(LuaValue::Function(*self)))
    }

    fn to_lua(self, engine: &mut Engine) {
        engine.push(Item::Value(self.to_lua_value()))
    }
}

/// Owned text is pushed as text.
impl ToLua for String {
    open spec fn encodable(&self) -> bool {
        is_plain(self@)
    }

    open spec fn pushed(&self, before: EngineView, after: EngineView) -> bool {
        after == encoded(before, Item::Value(LuaValue::String(*self)))
    }

    fn to_lua(self, engine: &mut Engine) {
        engine.push(Item::Value(self.to_lua_value()))
    }
}

/// Borrowed text is pushed as a copy of it.
impl ToLua for &str {
    open spec fn encodable(&self) -> bool {
        is_plain(self@)
    }

    open spec fn pushed(&self, before: EngineView, after: EngineView) -> bool {
        &&& after == (EngineView { stack: before.stack.push(after.stack.last()), ..before })
        &&& match after.stack.last() {
            LuaValue::String(text) => text@ == self@,
            _ => false,
        }
    }

    fn to_lua(self, engine: &mut Engine) {
        engine.push(Item::Value(self.to_lua_value()))
    }
}

} // verus!
