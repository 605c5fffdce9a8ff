//! The type predicate protocol: whether the value at a stack position can be
//! read as a given host type.
//!
//! The predicates answer as the engine does. A number is taken as a number,
//! text as text; a value for which the engine gives both answers, text that
//! spells a number or a number with its rendering, is taken as either.

use vstd::prelude::*;
use vstd::string::*;
use crate::engine::{slot, Engine, Object};
use crate::kind::Kind;
use crate::value::LuaValue;

verus! {

/// Marks a function written in the host language.
#[derive(Clone, Copy, Debug, PartialEq, Eq)]
pub struct NativeFunction;

/// Marks a function of either language.
#[derive(Clone, Copy, Debug, PartialEq, Eq)]
pub struct AnyLuaFunction;

/// Marks foreign data of any type.
#[derive(Clone, Copy, Debug, PartialEq, Eq)]
pub struct AnyUserData;

/// Marks a bare host pointer.
#[derive(Clone, Copy, Debug, PartialEq, Eq)]
pub struct LightUserData;

/// Marks a coroutine.
#[derive(Clone, Copy, Debug, PartialEq, Eq)]
pub struct Coroutine;

/// Marks a table.
#[derive(Clone, Copy, Debug, PartialEq, Eq)]
pub struct Table;

/// Whether the engine takes a value as a number: a number, or text that it
/// reads as one.
pub open spec fn is_number(value: LuaValue) -> bool {
    value is Integer || value is Number || value is NumericString || value is RenderedNumber
}

/// Whether the engine takes a value as text: text, or a number that comes
/// with its rendering.
pub open spec fn is_text(value: LuaValue) -> bool {
    value is String || value is NumericString || value is RenderedNumber
}

/// Whether a value can be read as the host type `kind`.
pub open spec fn accepts(kind: Kind, value: LuaValue) -> bool {
    match kind {
        Kind::Integer | Kind::Float => is_number(value),
        Kind::Boolean => value is Bool,
        Kind::Text => is_text(value),
        Kind::Unit => value is Nil,
        Kind::UserData | Kind::AnyUserData => value is UserData || value is LightUserData,
        Kind::LuaFunction => value is Function || value is Closure,
        Kind::NativeFunction => value is Function,
        Kind::LightUserData => value is LightUserData,
        Kind::Coroutine => value is Coroutine,
        Kind::Table => value is Table,
    }
}

/// Whether position `idx` holds a value that can be read as `kind`.
pub open spec fn has_type(stack: Seq<LuaValue>, kind: Kind, idx: int) -> bool {
    match slot(stack, idx) {
        Some(value) => accepts(kind, value),
        None => false,
    }
}

/// Tells whether a value can be read as the host type `kind`.
pub fn value_is(kind: Kind, value: &LuaValue) -> (yes: bool)
    ensures
        yes == accepts(kind, *value),
{
    match kind {
        Kind::Integer | Kind::Float => matches!(
            value,
            LuaValue::Integer(_) | LuaValue::Number(_) | LuaValue::NumericString(_, _)
                | LuaValue::RenderedNumber(_, _)
        ),
        Kind::Boolean => matches!(value, LuaValue::Bool(_)),
        Kind::Text => matches!(
            value,
            LuaValue::String(_) | LuaValue::NumericString(_, _) | LuaValue::RenderedNumber(_, _)
        ),
        Kind::Unit => matches!(value, LuaValue::Nil),
        Kind::UserData | Kind::AnyUserData => matches!(
            value,
            LuaValue::UserData(_) | LuaValue::LightUserData(_)
        ),
        Kind::LuaFunction => matches!(value, LuaValue::Function(_) | LuaValue::Closure(_)),
        Kind::NativeFunction => matches!(value, LuaValue::Function(_)),
        Kind::LightUserData => matches!(value, LuaValue::LightUserData(_)),
        Kind::Coroutine => matches!(value, LuaValue::Coroutine(_)),
        Kind::Table => matches!(value, LuaValue::Table(_)),
    }
}

impl Engine {
    /// Returns the value at position `idx`: a positive position counts from
    /// the bottom, a negative one from the top; `None` where the position
    /// holds nothing.
    pub fn slot(&self, idx: i32) -> (value: Option<&LuaValue>)
        requires
            self.wf(),
        ensures
            match value {
                Some(v) => slot(self@.stack, idx as int) == Some(*v),
                None => slot(self@.stack, idx as int) is None,
            },
    {
        let top: i64 = (self.stack.len() - self.base) as i64;
        let at: i64 = if idx < 0 {
            top + idx as i64 + 1
        } else {
            idx as i64
        };
        if 1 <= at && at <= top {
            Some(&self.stack[self.base + (at - 1) as usize])
        } else {
            None
        }
    }

    /// Tells whether position `idx` holds a value that can be read as `kind`.
    pub fn is_type(&self, kind: Kind, idx: i32) -> (yes: bool)
        requires
            self.wf(),
        ensures
            yes == has_type(self@.stack, kind, idx as int),
    {
        match self.slot(idx) {
            Some(value) => value_is(kind, value),
            None => false,
        }
    }
}

/// A host type with a type predicate.
pub trait IsType {
    /// The protocol that stands for the type.
    spec fn kind() -> Kind;

    /// Tells whether position `idx` holds a value of this type.
    fn is_type(engine: &Engine, idx: i32) -> (yes: bool)
        requires
            engine.wf(),
        ensures
            yes == has_type(engine@.stack, Self::kind(), idx as int),
    ;
}

/// An integer is read off a number.
impl IsType for i32 {
    open spec fn kind() -> Kind {
        Kind::Integer
    }

    fn is_type(engine: &Engine, idx: i32) -> (yes: bool) {
        engine.is_type(Kind::Integer, idx)
    }
}

/// A boolean is read off a boolean.
impl IsType for bool {
    open spec fn kind() -> Kind {
        Kind::Boolean
    }

    fn is_type(engine: &Engine, idx: i32) -> (yes: bool) {
        engine.is_type(Kind::Boolean, idx)
    }
}

/// Borrowed text is read off text.
impl IsType for &str {
    open spec fn kind() -> Kind {
        Kind::Text
    }

    fn is_type(engine: &Engine, idx: i32) -> (yes: bool) {
        engine.is_type(Kind::Text, idx)
    }
}

/// Owned text is read off text.
impl IsType for String {
    open spec fn kind() -> Kind {
        Kind::Text
    }

    fn is_type(engine: &Engine, idx: i32) -> (yes: bool) {
        engine.is_type(Kind::Text, idx)
    }
}

/// Nothing is read off the engine's `Nil`.
impl IsType for () {
    open spec fn kind() -> Kind {
        Kind::Unit
    }

    fn is_type(engine: &Engine, idx: i32) -> (yes: bool) {
        engine.is_type(Kind::Unit, idx)
    }
}

/// A host object is read off foreign data.
impl IsType for Object {
    open spec fn kind() -> Kind {
        Kind::UserData
    }

    fn is_type(engine: &Engine, idx: i32) -> (yes: bool) {
        engine.is_type(Kind::UserData, idx)
    }
}

impl IsType for NativeFunction {
    open spec fn kind() -> Kind {
        Kind::NativeFunction
    }

    fn is_type(engine: &Engine, idx: i32) -> (yes: bool) {
        engine.is_type(Kind::NativeFunction, idx)
    }
}

impl IsType for AnyLuaFunction {
    open spec fn kind() -> Kind {
        Kind::LuaFunction
    }

    fn is_type(engine: &Engine, idx: i32) -> (yes: bool) {
        engine.is_type(Kind::LuaFunction, idx)
    }
}

impl IsType for AnyUserData {
    open spec fn kind() -> Kind {
        Kind::AnyUserData
    }

    fn is_type(engine: &Engine, idx: i32) -> (yes: bool) {
        engine.is_type(Kind::AnyUserData, idx)
    }
}

impl IsType for LightUserData {
    open spec fn kind() -> Kind {
        Kind::LightUserData
    }

    fn is_type(engine: &Engine, idx: i32) -> (yes: bool) {
        engine.is_type(Kind::LightUserData, idx)
    }
}

impl IsType for Coroutine {
    open spec fn kind() -> Kind {
        Kind::Coroutine
    }

    fn is_type(engine: &Engine, idx: i32) -> (yes: bool) {
        engine.is_type(Kind::Coroutine, idx)
    }
}

impl IsType for Table {
    open spec fn kind() -> Kind {
        Kind::Table
    }

    fn is_type(engine: &Engine, idx: i32) -> (yes: bool) {
        engine.is_type(Kind::Table, idx)
    }
}

} // verus!
