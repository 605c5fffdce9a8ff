//! The host types that can cross the boundary, as values.

use vstd::prelude::*;
use vstd::string::*;
use crate::syntax::{match_punct_char, Token};

verus! {

/// A host type with a conversion protocol. Where the host language would pick
/// the protocol by the static type, this library picks it by a `Kind`.
#[derive(Clone, Copy, Debug, PartialEq, Eq, Structural)]
pub enum Kind {
    /// A 32-bit signed integer.
    Integer,
    /// A floating-point number of either width.
    Float,
    /// A boolean.
    Boolean,
    /// Text, owned or borrowed.
    Text,
    /// The absence of a value.
    Unit,
    /// A reference to an opaque host object.
    UserData,
    /// A function written in the script language or in the host language.
    LuaFunction,
    /// A function written in the host language.
    NativeFunction,
    /// Foreign data of any type, full or light.
    AnyUserData,
    /// A bare host pointer.
    LightUserData,
    /// A coroutine.
    Coroutine,
    /// A table.
    Table,
}

/// The protocol that a type's own name selects, where it selects one.
pub open spec fn named_kind(name: Seq<char>) -> Option<Kind> {
    if name == "i32"@ {
        Some(Kind::Integer)
    } else if name == "f32"@ || name == "f64"@ {
        Some(Kind::Float)
    } else if name == "bool"@ {
        Some(Kind::Boolean)
    } else if name == "String"@ {
        Some(Kind::Text)
    } else if name == "NativeFunction"@ {
        Some(Kind::NativeFunction)
    } else if name == "LuaFunction"@ || name == "AnyLuaFunction"@ {
        Some(Kind::LuaFunction)
    } else if name == "AnyUserData"@ {
        Some(Kind::AnyUserData)
    } else if name == "LightUserData"@ {
        Some(Kind::LightUserData)
    } else if name == "Coroutine"@ {
        Some(Kind::Coroutine)
    } else if name == "Table"@ {
        Some(Kind::Table)
    } else {
        None
    }
}

/// The protocol that a generic type's own name selects, whatever its
/// arguments: a callable reference, and a relative value, which is read as
/// the opaque object that it refers to.
pub open spec fn generic_kind(name: Seq<char>) -> Option<Kind> {
    if name == "LuaFunction"@ {
        Some(Kind::LuaFunction)
    } else if name == "RelativeValue"@ {
        Some(Kind::UserData)
    } else {
        None
    }
}

/// Where the last segment of the path written in the tokens from `from` up
/// to `upto` begins: after the last `::` among them, or at `from`.
pub open spec fn segment_start(ty: Seq<Token>, from: int, upto: int) -> int
    decreases upto - from,
{
    if upto < from + 2 {
        from
    } else if ty[upto - 2].is_punct(':') && ty[upto - 1].is_punct(':') {
        upto
    } else {
        segment_start(ty, from, upto - 1)
    }
}

/// Where, in a reference type, the type referred to begins: after the `&`,
/// a lifetime if one is written, and `mut` if it is written.
pub open spec fn referent_start(ty: Seq<Token>) -> int {
    let named = if ty.len() >= 3 && ty[1].is_punct('\'') && ty[2] is Ident {
        3int
    } else {
        1int
    };
    if ty.len() > named && ty[named].is_word("mut"@) {
        named + 1
    } else {
        named
    }
}

/// The protocol that a type expression selects, where it selects one. A path
/// counts by its last segment and a reference by what it refers to, any
/// lifetime left aside: `()` is the unit; a reference to `str` is text and a
/// reference to any other named type an opaque object; a bare name selects
/// by [`named_kind`] and a name with generic arguments by [`generic_kind`].
pub open spec fn kind_of(ty: Seq<Token>) -> Option<Kind> {
    if ty.len() == 2 && ty[0].is_punct('(') && ty[1].is_punct(')') {
        Some(Kind::Unit)
    } else if ty.len() >= 1 && ty[0].is_punct('&') {
        let at = segment_start(ty, referent_start(ty), ty.len() as int);
        if ty.len() - at == 1 {
            match ty[at] {
                Token::Ident(name) => if name@ == "str"@ {
                    Some(Kind::Text)
                } else {
                    Some(Kind::UserData)
                },
                _ => None,
            }
        } else {
            None
        }
    } else {
        let at = segment_start(ty, 0, ty.len() as int);
        if ty.len() - at == 1 {
            match ty[at] {
                Token::Ident(name) => named_kind(name@),
                _ => None,
            }
        } else if ty.len() - at >= 3 && ty[at + 1].is_punct('<') && ty[ty.len() - 1].is_punct(
            '>',
        ) {
            match ty[at] {
                Token::Ident(name) => generic_kind(name@),
                _ => None,
            }
        } else {
            None
        }
    }
}

/// Tells whether two strings hold the same characters.
pub fn same_text(a: &str, b: &str) -> (same: bool)
    ensures
        same == (a@ == b@),
{
    let n: usize = a.unicode_len();
    let m: usize = b.unicode_len();
    if n != m {
        return false;
    }
    let mut k: usize = 0;
    while k < n
        invariant
            n == a@.len(),
            n == b@.len(),
            k <= n,
            forall|j: int| 0 <= j < k ==> a@[j] == b@[j],
        decreases n - k,
    {
        if a.get_char(k) != b.get_char(k) {
            return false;
        }
        k += 1;
    }
    proof {
        assert(a@ =~= b@);
    }
    true
}

/// Finds the protocol that a type's own name selects.
fn kind_by_name(name: &str) -> (kind: Option<Kind>)
    ensures
        kind == named_kind(name@),
{
    if same_text(name, "i32") {
        Some(Kind::Integer)
    } else if same_text(name, "f32") || same_text(name, "f64") {
        Some(Kind::Float)
    } else if same_text(name, "bool") {
        Some(Kind::Boolean)
    } else if same_text(name, "String") {
        Some(Kind::Text)
    } else if same_text(name, "NativeFunction") {
        Some(Kind::NativeFunction)
    } else if same_text(name, "LuaFunction") || same_text(name, "AnyLuaFunction") {
        Some(Kind::LuaFunction)
    } else if same_text(name, "AnyUserData") {
        Some(Kind::AnyUserData)
    } else if same_text(name, "LightUserData") {
        Some(Kind::LightUserData)
    } else if same_text(name, "Coroutine") {
        Some(Kind::Coroutine)
    } else if same_text(name, "Table") {
        Some(Kind::Table)
    } else {
        None
    }
}

/// Finds the protocol that a generic type's own name selects.
fn kind_by_generic_name(name: &str) -> (kind: Option<Kind>)
    ensures
        kind == generic_kind(name@),
{
    if same_text(name, "LuaFunction") {
        Some(Kind::LuaFunction)
    } else if same_text(name, "RelativeValue") {
        Some(Kind::UserData)
    } else {
        None
    }
}

/// Finds where the last segment of the path written from `from` on begins.
fn last_segment(ty: &Vec<Token>, from: usize) -> (at: usize)
    requires
        from <= ty@.len(),
    ensures
        at == segment_start(ty@, from as int, ty@.len() as int),
        from <= at <= ty@.len(),
{
    let mut upto: usize = ty.len();
    while upto >= 2 && upto - 2 >= from
        invariant
            from <= upto <= ty@.len(),
            segment_start(ty@, from as int, ty@.len() as int) == segment_start(
                ty@,
                from as int,
                upto as int,
            ),
        decreases upto,
    {
        if match_punct_char(&ty[upto - 2], ':') && match_punct_char(&ty[upto - 1], ':') {
            return upto;
        }
        upto -= 1;
    }
    from
}

/// Finds where, in a reference type, the type referred to begins.
fn referent(ty: &Vec<Token>) -> (at: usize)
    requires
        ty@.len() >= 1,
    ensures
        at == referent_start(ty@),
        at <= ty@.len(),
{
    let named: usize = if ty.len() >= 3 && match_punct_char(&ty[1], '\'') && matches!(
        &ty[2],
        Token::Ident(_)
    ) {
        3
    } else {
        1
    };
    let marked: bool = ty.len() > named && match &ty[named] {
        Token::Ident(word) => same_text(word.as_str(), "mut"),
        _ => false,
    };
    if marked {
        named + 1
    } else {
        named
    }
}

impl Kind {
    /// Finds the protocol for a parameter or result written as `ty`. A path
    /// counts by its last segment and a reference by what it refers to, any
    /// lifetime left aside. The scalar types, `String` and the marker types
    /// are known by name, as are `()` and `&str`; a callable reference and a
    /// relative value are known by name whatever their arguments; a reference
    /// to any other named type is an opaque object.
    pub fn of_type(ty: &Vec<Token>) -> (kind: Option<Kind>)
        ensures
            kind == kind_of(ty@),
    {
        let n: usize = ty.len();
        if n == 2 && match_punct_char(&ty[0], '(') && match_punct_char(&ty[1], ')') {
            return Some(Kind::Unit);
        }
        if n >= 1 && match_punct_char(&ty[0], '&') {
            let at = last_segment(ty, referent(ty));
            if n - at != 1 {
                return None;
            }
            return match &ty[at] {
                Token::Ident(name) => {
                    if same_text(name.as_str(), "str") {
                        Some(Kind::Text)
                    } else {
                        Some(Kind::UserData)
                    }
                },
                _ => None,
            };
        }
        let at = last_segment(ty, 0);
        if n - at == 1 {
            match &ty[at] {
                Token::Ident(name) => kind_by_name(name.as_str()),
                _ => None,
            }
        } else if n - at >= 3 && match_punct_char(&ty[at + 1], '<') && match_punct_char(
            &ty[n - 1],
            '>',
        ) {
            match &ty[at] {
                Token::Ident(name) => kind_by_generic_name(name.as_str()),
                _ => None,
            }
        } else {
            None
        }
    }
}

} // verus!
