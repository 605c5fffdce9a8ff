//! Engine values as plain data.

use vstd::prelude::*;
use vstd::string::*;
use vstd::arithmetic::power2::{
    lemma2_to64, lemma2_to64_rest, lemma_pow2_pos, lemma_pow2_strictly_increases,
    lemma_pow2_unfold, pow2,
};
use vstd::arithmetic::div_mod::lemma_div_is_ordered_by_denominator;

verus! {

/// A native function, named by its place in the dispatch tables of the
/// engine instance that holds it.
#[derive(Clone, Copy, Debug, PartialEq, Eq, Structural)]
pub struct RawFunction {
    /// The index of its dispatch table among those that were registered.
    pub table: usize,
    /// Its index within that table.
    pub entry: usize,
}

/// One value of the engine: what a stack slot, a global or a field holds.
///
/// The engine takes some values in two ways: a number also as the text that
/// it renders it as, and text that spells a number also as that number. What
/// the engine answers for such a value is carried along with it, in
/// [`LuaValue::NumericString`] and [`LuaValue::RenderedNumber`]. A number
/// that comes without its rendering is a number only, and text without a
/// numeric reading is text only.
#[derive(Debug, PartialEq, Eq)]
pub enum LuaValue {
    /// The engine's "nothing".
    Nil,
    /// A number that was given as an integer.
    Integer(i64),
    /// A number that was given as a double, by its bit pattern.
    Number(u64),
    /// A boolean.
    Bool(bool),
    /// Text.
    String(String),
    /// Text that the engine also reads as a number: the text, and the double
    /// that the engine reads it as, by its bit pattern.
    NumericString(String, u64),
    /// A number that the engine also takes as text: the double, by its bit
    /// pattern, and the text that the engine renders it as.
    RenderedNumber(u64, String),
    /// A function written in the host language.
    Function(RawFunction),
    /// A function written in the script language, by the engine's handle.
    Closure(u64),
    /// An opaque host object, by its index in the engine's object store.
    UserData(usize),
    /// A bare host pointer.
    LightUserData(u64),
    /// A table, by the engine's handle.
    Table(u64),
    /// A coroutine, by the engine's handle.
    Coroutine(u64),
}

impl Clone for LuaValue {
    /// Copies a value; text is copied character for character.
    fn clone(&self) -> (copy: Self)
        ensures
            copy == *self,
    {
        match self {
            LuaValue::Nil => LuaValue::Nil,
            LuaValue::Integer(i) => LuaValue::Integer(*i),
            LuaValue::Number(bits) => LuaValue::Number(*bits),
            LuaValue::Bool(b) => LuaValue::Bool(*b),
            LuaValue::String(text) => LuaValue::String(text.clone()),
            LuaValue::NumericString(text, bits) => LuaValue::NumericString(text.clone(), *bits),
            LuaValue::RenderedNumber(bits, text) => LuaValue::RenderedNumber(*bits, text.clone()),
            LuaValue::Function(f) => LuaValue::Function(*f),
            LuaValue::Closure(handle) => LuaValue::Closure(*handle),
            LuaValue::UserData(object) => LuaValue::UserData(*object),
            LuaValue::LightUserData(pointer) => LuaValue::LightUserData(*pointer),
            LuaValue::Table(handle) => LuaValue::Table(*handle),
            LuaValue::Coroutine(handle) => LuaValue::Coroutine(*handle),
        }
    }
}

/// A host type whose values are engine values in another form.
pub trait Value: Sized {
    /// Whether `value` is this host value as the engine holds it.
    spec fn becomes(&self, value: LuaValue) -> bool;

    /// Makes the engine value.
    fn to_lua_value(self) -> (value: LuaValue)
        ensures
            self.becomes(value),
    ;
}

/// An integer is a number.
impl Value for i32 {
    open spec fn becomes(&self, value: LuaValue) -> bool {
        value == LuaValue::Integer(*self as i64)
    }

    fn to_lua_value(self) -> (value: LuaValue) {
        LuaValue::Integer(self as i64)
    }
}

/// A long integer is a number.
impl Value for i64 {
    open spec fn becomes(&self, value: LuaValue) -> bool {
        value == LuaValue::Integer(*self)
    }

    fn to_lua_value(self) -> (value: LuaValue) {
        LuaValue::Integer(self)
    }
}

/// A boolean is a boolean.
impl Value for bool {
    open spec fn becomes(&self, value: LuaValue) -> bool {
        value == LuaValue::Bool(*self)
    }

    fn to_lua_value(self) -> (value: LuaValue) {
        LuaValue::Bool(self)
    }
}

/// Borrowed text is text, copied.
impl Value for &str {
    open spec fn becomes(&self, value: LuaValue) -> bool {
        match value {
            LuaValue::String(text) => text@ == self@,
            _ => false,
        }
    }

    fn to_lua_value(self) -> (value: LuaValue) {
        LuaValue::String(String::from_str(self))
    }
}

/// Owned text is text.
impl Value for String {
    open spec fn becomes(&self, value: LuaValue) -> bool {
        value == LuaValue::String(*self)
    }

    fn to_lua_value(self) -> (value: LuaValue) {
        LuaValue::String(self)
    }
}

/// A native function is a function.
impl Value for RawFunction {
    open spec fn becomes(&self, value: LuaValue) -> bool {
        value == LuaValue::Function(*self)
    }

    fn to_lua_value(self) -> (value: LuaValue) {
        LuaValue::Function(self)
    }
}

/// Two to the power 52: the weight of a double's hidden bit.
pub const HIDDEN_BIT: u64 = 0x10_0000_0000_0000;

/// The exponent field of a double, biased by 1023.
pub open spec fn exponent_of(bits: u64) -> int {
    (bits / HIDDEN_BIT) as int % 0x800
}

/// The fraction field of a double.
pub open spec fn fraction_of(bits: u64) -> int {
    (bits % HIDDEN_BIT) as int
}

/// Whether the sign bit of a double is set.
pub open spec fn is_negative(bits: u64) -> bool {
    bits >= 0x8000_0000_0000_0000
}

/// The integer that a double becomes when its fractional part is dropped and
/// the result is held to the range of `i32`; zero for a value that is not a
/// number.
pub open spec fn truncated(bits: u64) -> int {
    let e = exponent_of(bits);
    let f = fraction_of(bits);
    if e == 0x7ff && f != 0 {
        0
    } else if e < 1023 {
        0
    } else if e >= 1023 + 31 {
        if is_negative(bits) {
            i32::MIN as int
        } else {
            i32::MAX as int
        }
    } else {
        let whole = (HIDDEN_BIT + f) / (pow2((52 - (e - 1023)) as nat) as int);
        if is_negative(bits) {
            -whole
        } else {
            whole
        }
    }
}

/// An integer held to the range of `i32`.
pub open spec fn clamped(i: i64) -> int {
    if i < i32::MIN {
        i32::MIN as int
    } else if i > i32::MAX {
        i32::MAX as int
    } else {
        i as int
    }
}

/// Computes two to the power `e`.
fn power_of_two(e: u64) -> (p: u64)
    requires
        e <= 52,
    ensures
        p == pow2(e as nat),
        p <= HIDDEN_BIT,
{
    let mut p: u64 = 1;
    let mut j: u64 = 0;
    proof {
        lemma2_to64();
        lemma2_to64_rest();
    }
    while j < e
        invariant
            j <= e <= 52,
            p == pow2(j as nat),
            pow2(52) == HIDDEN_BIT,
        decreases e - j,
    {
        proof {
            lemma_pow2_unfold((j + 1) as nat);
            lemma_pow2_strictly_increases(j as nat, 52);
        }
        p = p * 2;
        j += 1;
    }
    proof {
        if e < 52 {
            lemma_pow2_strictly_increases(e as nat, 52);
        }
    }
    p
}

/// Drops the fractional part of a double, given by its bit pattern, and holds
/// the result to the range of `i32`.
pub fn truncate(bits: u64) -> (whole: i32)
    ensures
        whole == truncated(bits),
{
    let e: u64 = (bits / HIDDEN_BIT) % 0x800;
    let f: u64 = bits % HIDDEN_BIT;
    let negative: bool = bits >= 0x8000_0000_0000_0000;
    if e == 0x7ff && f != 0 {
        0
    } else if e < 1023 {
        0
    } else if e >= 1023 + 31 {
        if negative {
            i32::MIN
        } else {
            i32::MAX
        }
    } else {
        let shift: u64 = 52 - (e - 1023);
        let divisor: u64 = power_of_two(shift);
        proof {
            lemma_pow2_pos(shift as nat);
        }
        let magnitude: u64 = (HIDDEN_BIT + f) / divisor;
        proof {
            lemma2_to64();
            if 22 < shift {
                lemma_pow2_strictly_increases(22, shift as nat);
            }
            lemma_div_is_ordered_by_denominator((HIDDEN_BIT + f) as int, 0x40_0000, divisor as int);
            assert((HIDDEN_BIT + f) as int / 0x40_0000 < 0x8000_0000);
        }
        if negative {
            -(magnitude as i32)
        } else {
            magnitude as i32
        }
    }
}

/// Holds an integer to the range of `i32`.
pub fn clamp(i: i64) -> (held: i32)
    ensures
        held == clamped(i),
{
    if i < -2147483648 {
        i32::MIN
    } else if i > 2147483647 {
        i32::MAX
    } else {
        i as i32
    }
}

} // verus!
