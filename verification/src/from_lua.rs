//! The decoding protocol: reading the value at a stack position as a host
//! value of a given type.

use vstd::prelude::*;
use vstd::string::*;
use crate::engine::{slot, Engine, EngineView, Object};
use crate::is_type::{accepts, value_is};
use crate::kind::{same_text, Kind};
use crate::value::{clamp, clamped, truncate, truncated, LuaValue};

verus! {

/// The double that the engine reads a value as, by its bit pattern, where
/// the value is one that the engine takes in two ways.
pub open spec fn number_of(value: LuaValue) -> Option<u64> {
    match value {
        LuaValue::NumericString(_, bits) => Some(bits),
        LuaValue::RenderedNumber(bits, _) => Some(bits),
        _ => None,
    }
}

/// The text that the engine reads a value as, where the value is one that
/// the engine takes in two ways.
pub open spec fn text_of(value: LuaValue) -> Option<String> {
    match value {
        LuaValue::NumericString(text, _) => Some(text),
        LuaValue::RenderedNumber(_, text) => Some(text),
        _ => None,
    }
}

/// The host value that an accepted engine value is read as. A number read as
/// an integer loses its fraction and is held to 32 bits. A value that the
/// engine takes in two ways is read as the one that is asked for: as a
/// number, or as text. Anything else is read as it stands.
pub open spec fn converted(kind: Kind, value: LuaValue) -> LuaValue {
    match kind {
        Kind::Integer => match value {
            LuaValue::Integer(i) => LuaValue::Integer(clamped(i) as i64),
            LuaValue::Number(bits) => LuaValue::Integer(truncated(bits) as i64),
            _ => match number_of(value) {
                Some(bits) => LuaValue::Integer(truncated(bits) as i64),
                None => value,
            },
        },
        Kind::Float => match number_of(value) {
            Some(bits) => LuaValue::Number(bits),
            None => value,
        },
        Kind::Text => match text_of(value) {
            Some(text) => LuaValue::String(text),
            None => value,
        },
        _ => value,
    }
}

/// What reading position `idx` as `kind` gives: the converted value where the
/// position holds one that `kind` accepts, nothing otherwise.
pub open spec fn decoded(stack: Seq<LuaValue>, kind: Kind, idx: int) -> Option<LuaValue> {
    match slot(stack, idx) {
        Some(value) => if accepts(kind, value) {
            Some(converted(kind, value))
        } else {
            None
        },
        None => None,
    }
}

/// Reads an accepted engine value as a host value of type `kind`.
pub fn convert(kind: Kind, value: &LuaValue) -> (host: LuaValue)
    ensures
        host == converted(kind, *value),
{
    match kind {
        Kind::Integer => match value {
            LuaValue::Integer(i) => LuaValue::Integer(clamp(*i) as i64),
            LuaValue::Number(bits) => LuaValue::Integer(truncate(*bits) as i64),
            LuaValue::NumericString(_, bits) => LuaValue::Integer(truncate(*bits) as i64),
            LuaValue::RenderedNumber(bits, _) => LuaValue::Integer(truncate(*bits) as i64),
            _ => value.clone(),
        },
        Kind::Float => match value {
            LuaValue::NumericString(_, bits) => LuaValue::Number(*bits),
            LuaValue::RenderedNumber(bits, _) => LuaValue::Number(*bits),
            _ => value.clone(),
        },
        Kind::Text => match value {
            LuaValue::NumericString(text, _) => LuaValue::String(text.clone()),
            LuaValue::RenderedNumber(_, text) => LuaValue::String(text.clone()),
            _ => value.clone(),
        },
        _ => value.clone(),
    }
}

/// The host object that position `idx` refers to, where it refers to one
/// whose type is named `tag`.
pub open spec fn tagged(engine: EngineView, tag: Seq<char>, idx: int) -> Option<Object> {
    match slot(engine.stack, idx) {
        Some(LuaValue::UserData(id)) => if id < engine.objects.len()
            && engine.objects[id as int].type_tag@ == tag {
            Some(engine.objects[id as int])
        } else {
            None
        },
        _ => None,
    }
}

impl Engine {
    /// Reads position `idx` as a host object of the type named `tag`. Unlike
    /// the plain read of foreign data, this one looks at the object's tag:
    /// it returns `None` for an object of another type.
    pub fn cast_to_object(&self, tag: &str, idx: i32) -> (object: Option<&Object>)
        requires
            self.wf(),
        ensures
            match object {
                Some(o) => tagged(self@, tag@, idx as int) == Some(*o),
                None => tagged(self@, tag@, idx as int) is None,
            },
    {
        match self.slot(idx) {
            Some(LuaValue::UserData(id)) => {
                if *id < self.objects.len() && same_text(
                    self.objects[*id].type_tag.as_str(),
                    tag,
                ) {
                    Some(&self.objects[*id])
                } else {
                    None
                }
            },
            _ => None,
        }
    }

    /// Reads position `idx` as a host value of type `kind`. Returns `None`
    /// where the position holds nothing or holds a value of another type.
    pub fn cast_to(&self, kind: Kind, idx: i32) -> (host: Option<LuaValue>)
        requires
            self.wf(),
        ensures
            host == decoded(self@.stack, kind, idx as int),
    {
        match self.slot(idx) {
            Some(value) => {
                if value_is(kind, value) {
                    Some(convert(kind, value))
                } else {
                    None
                }
            },
            None => None,
        }
    }
}

/// A host type that can be read off the stack.
pub trait FromLua<'a> {
    /// What a successful read hands out.
    type Output;

    /// The protocol that stands for the type.
    spec fn kind() -> Kind;

    /// Whether the decoded value `value` has a typed form.
    spec fn readable(value: LuaValue, objects: Seq<Object>) -> bool;

    /// Whether `host` is the typed form of the decoded value `value`.
    spec fn renders(host: Self::Output, value: LuaValue, objects: Seq<Object>) -> bool;

    /// Reads position `idx` as this type: succeeds where the position holds
    /// a value of the type's kind that has a typed form, and hands out that
    /// form.
    fn from_lua(engine: &'a Engine, idx: i32) -> (host: Option<Self::Output>)
        requires
            engine.wf(),
        ensures
            host is Some <==> (decoded(engine@.stack, Self::kind(), idx as int) matches Some(v)
                && Self::readable(v, engine@.objects)),
            host matches Some(h) ==> (decoded(engine@.stack, Self::kind(), idx as int) matches Some(
                v,
            ) && Self::renders(h, v, engine@.objects)),
    ;

    /// The number of stack positions that one value of this type takes.
    fn len() -> (n: i32)
        ensures
            n == 1,
    {
        1
    }
}

/// A number is read as an integer without its fraction, held to 32 bits.
impl<'a> FromLua<'a> for i32 {
    type Output = i32;

    open spec fn kind() -> Kind {
        Kind::Integer
    }

    open spec fn readable(value: LuaValue, objects: Seq<Object>) -> bool {
        true
    }

    open spec fn renders(host: i32, value: LuaValue, objects: Seq<Object>) -> bool {
        value == LuaValue::Integer(host as i64)
    }

    fn from_lua(engine: &'a Engine, idx: i32) -> (host: Option<i32>) {
        match engine.slot(idx) {
            Some(LuaValue::Integer(i)) => Some(clamp(*i)),
            Some(LuaValue::Number(bits)) => Some(truncate(*bits)),
            Some(LuaValue::NumericString(_, bits)) => Some(truncate(*bits)),
            Some(LuaValue::RenderedNumber(bits, _)) => Some(truncate(*bits)),
            _ => None,
        }
    }
}

/// A boolean is read as it is.
impl<'a> FromLua<'a> for bool {
    type Output = bool;

    open spec fn kind() -> Kind {
        Kind::Boolean
    }

    open spec fn readable(value: LuaValue, objects: Seq<Object>) -> bool {
        true
    }

    open spec fn renders(host: bool, value: LuaValue, objects: Seq<Object>) -> bool {
        value == LuaValue::Bool(host)
    }

    fn from_lua(engine: &'a Engine, idx: i32) -> (host: Option<bool>) {
        match engine.slot(idx) {
            Some(LuaValue::Bool(b)) => Some(*b),
            _ => None,
        }
    }
}

/// Text is lent out as it lies on the stack.
impl<'a> FromLua<'a> for &str {
    type Output = &'a str;

    open spec fn kind() -> Kind {
        Kind::Text
    }

    open spec fn readable(value: LuaValue, objects: Seq<Object>) -> bool {
        true
    }

    open spec fn renders(host: &'a str, value: LuaValue, objects: Seq<Object>) -> bool {
        match value {
            LuaValue::String(text) => text@ == host@,
            _ => false,
        }
    }

    fn from_lua(engine: &'a Engine, idx: i32) -> (host: Option<&'a str>) {
        match engine.slot(idx) {
            Some(LuaValue::String(text)) => Some(text.as_str()),
            Some(LuaValue::NumericString(text, _)) => Some(text.as_str()),
            Some(LuaValue::RenderedNumber(_, text)) => Some(text.as_str()),
            _ => None,
        }
    }
}

/// Text is copied into an owned string.
impl<'a> FromLua<'a> for String {
    type Output = String;

    open spec fn kind() -> Kind {
        Kind::Text
    }

    open spec fn readable(value: LuaValue, objects: Seq<Object>) -> bool {
        true
    }

    open spec fn renders(host: String, value: LuaValue, objects: Seq<Object>) -> bool {
        value == LuaValue::String(host)
    }

    fn from_lua(engine: &'a Engine, idx: i32) -> (host: Option<String>) {
        match engine.slot(idx) {
            Some(LuaValue::String(text)) => Some(text.clone()),
            Some(LuaValue::NumericString(text, _)) => Some(text.clone()),
            Some(LuaValue::RenderedNumber(_, text)) => Some(text.clone()),
            _ => None,
        }
    }
}

/// The engine's `Nil` is read as nothing.
impl<'a> FromLua<'a> for () {
    type Output = ();

    open spec fn kind() -> Kind {
        Kind::Unit
    }

    open spec fn readable(value: LuaValue, objects: Seq<Object>) -> bool {
        true
    }

    open spec fn renders(host: (), value: LuaValue, objects: Seq<Object>) -> bool {
        value is Nil
    }

    fn from_lua(engine: &'a Engine, idx: i32) -> (host: Option<()>) {
        match engine.slot(idx) {
            Some(LuaValue::Nil) => Some(()),
            _ => None,
        }
    }
}

/// A reference to a host object is read as the object in storage; foreign
/// data without storage behind it has no typed form.
impl<'a> FromLua<'a> for &Object {
    type Output = &'a Object;

    open spec fn kind() -> Kind {
        Kind::UserData
    }

    open spec fn readable(value: LuaValue, objects: Seq<Object>) -> bool {
        match value {
            LuaValue::UserData(id) => id < objects.len(),
            _ => false,
        }
    }

    open spec fn renders(host: &'a Object, value: LuaValue, objects: Seq<Object>) -> bool {
        match value {
            LuaValue::UserData(id) => id < objects.len() && objects[id as int] == *host,
            _ => false,
        }
    }

    fn from_lua(engine: &'a Engine, idx: i32) -> (host: Option<&'a Object>) {
        match engine.slot(idx) {
            Some(LuaValue::UserData(id)) => {
                if *id < engine.objects.len() {
                    Some(&engine.objects[*id])
                } else {
                    None
                }
            },
            _ => None,
        }
    }
}

} // verus!
