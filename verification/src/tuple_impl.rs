//! The typed tuple protocols, one for each arity from two to twenty-four, as
//! descriptions: which type parameters each has and in which order its
//! elements are written and read.

use vstd::prelude::*;

verus! {

/// The least arity with a tuple protocol.
pub const MIN_ARITY: usize = 2;

/// The greatest arity with a tuple protocol.
pub const MAX_ARITY: usize = 24;

/// One step of reading a tuple: read the next position as the type `ty`
/// into the variable named after `variable`, and give up if that fails.
#[derive(Clone, Copy, Debug, PartialEq, Eq, Structural)]
pub struct Cast {
    /// The lower-case letter that the variable is named after.
    pub variable: char,
    /// The upper-case letter that names the type parameter.
    pub ty: char,
}

/// The decoding protocol of the tuples of one arity.
#[derive(Clone, Debug, PartialEq, Eq)]
pub struct FromLuaTupleImpl {
    /// The number of elements, and of stack positions.
    pub len: usize,
    /// The type parameters, one per element.
    pub type_params: Vec<char>,
    /// The reads, in the order in which they are made.
    pub casts: Vec<Cast>,
    /// The letters that the variables of the result are named after, in the
    /// order of the elements.
    pub return_value: Vec<char>,
}

/// The encoding protocol of the tuples of one arity.
#[derive(Clone, Debug, PartialEq, Eq)]
pub struct ToLuaTupleImpl {
    /// The number of elements, and of stack positions.
    pub len: usize,
    /// The type parameters, one per element.
    pub type_params: Vec<char>,
    /// The fields of the tuple in the order in which they are pushed.
    pub pushes: Vec<usize>,
}

/// The `i`-th upper-case letter, `A` being the first.
pub open spec fn upper(i: int) -> char {
    ('A' as u8 + i) as u8 as char
}

/// The `i`-th lower-case letter, `a` being the first.
pub open spec fn lower(i: int) -> char {
    ('a' as u8 + i) as u8 as char
}

/// The upper-case form of a letter of the basic alphabet; any other
/// character as it is.
pub open spec fn to_upper(letter: char) -> char {
    if 'a' <= letter <= 'z' {
        (letter as u8 - 32) as u8 as char
    } else {
        letter
    }
}

/// The lower-case form of a letter of the basic alphabet; any other
/// character as it is.
pub open spec fn to_lower(letter: char) -> char {
    if 'A' <= letter <= 'Z' {
        (letter as u8 + 32) as u8 as char
    } else {
        letter
    }
}

/// The first `n` upper-case letters.
pub open spec fn uppers(n: nat) -> Seq<char> {
    Seq::new(n, |i: int| upper(i))
}

/// The first `n` lower-case letters.
pub open spec fn lowers(n: nat) -> Seq<char> {
    Seq::new(n, |i: int| lower(i))
}

/// Whether `item` is the decoding protocol of the tuples of arity `n`.
pub open spec fn is_from_lua_impl(item: FromLuaTupleImpl, n: nat) -> bool {
    &&& item.len == n
    &&& item.type_params@ == uppers(n)
    &&& item.casts@ == Seq::new(n, |i: int| Cast { variable: lower(i), ty: upper(i) })
    &&& item.return_value@ == lowers(n)
}

/// Whether `item` is the encoding protocol of the tuples of arity `n`.
pub open spec fn is_to_lua_impl(item: ToLuaTupleImpl, n: nat) -> bool {
    &&& item.len == n
    &&& item.type_params@ == uppers(n)
    &&& item.pushes@ == Seq::new(n, |i: int| i as usize)
}

/// Makes the upper-case form of a letter of the basic alphabet.
fn upper_case(letter: char) -> (up: char)
    ensures
        up == to_upper(letter),
{
    if 'a' <= letter && letter <= 'z' {
        (letter as u8 - 32) as char
    } else {
        letter
    }
}

/// Makes the lower-case form of a letter of the basic alphabet.
fn lower_case(letter: char) -> (low: char)
    ensures
        low == to_lower(letter),
{
    if 'A' <= letter && letter <= 'Z' {
        (letter as u8 + 32) as char
    } else {
        letter
    }
}

/// Makes the `i`-th upper-case letter.
fn letter(i: usize) -> (c: char)
    requires
        i < 26,
    ensures
        c == upper(i as int),
        to_lower(c) == lower(i as int),
        to_upper(c) == c,
{
    (65u8 + i as u8) as char
}

/// Describes the read of one element: the variable is named after the
/// lower-case form of `letter`, the type is its upper-case form.
pub fn gen_cast(letter: char) -> (cast: Cast)
    ensures
        cast.variable == to_lower(letter),
        cast.ty == to_upper(letter),
{
    Cast { variable: lower_case(letter), ty: upper_case(letter) }
}

/// The number of letters from `A` up to `last_letter`; none where
/// `last_letter` comes before `A`.
pub open spec fn letters_up_to(last_letter: char) -> nat {
    if 'A' > last_letter {
        0
    } else {
        (last_letter as u32 - 'A' as u32 + 1) as nat
    }
}

/// Lists the letters that the variables of a result are named after: the
/// lower-case letters from `a` to the lower-case form of `last_letter`; none
/// where `last_letter` comes before `A`.
pub fn gen_return_value(last_letter: char) -> (names: Vec<char>)
    requires
        last_letter <= 'Z',
    ensures
        names@ == lowers(letters_up_to(last_letter)),
{
    let count: usize = if 'A' > last_letter {
        0
    } else {
        (last_letter as u8 - 65u8 + 1) as usize
    };
    let mut names: Vec<char> = Vec::new();
    let mut i: usize = 0;
    while i < count
        invariant
            i <= count <= 26,
            names@ == lowers(i as nat),
        decreases count - i,
    {
        names.push(lower_case(letter(i)));
        proof {
            assert(names@ =~= lowers((i + 1) as nat));
        }
        i += 1;
    }
    names
}

/// Describes the decoding protocol of the tuples of each arity from
/// [`MIN_ARITY`] to [`MAX_ARITY`], the least arity first.
pub fn generate_from_lua_tuple_impl() -> (impls: Vec<FromLuaTupleImpl>)
    ensures
        impls@.len() == MAX_ARITY - MIN_ARITY + 1,
        forall|k: int|
            0 <= k < impls@.len() ==> is_from_lua_impl(#[trigger] impls@[k], (k + MIN_ARITY) as nat),
{
    let mut impls: Vec<FromLuaTupleImpl> = Vec::new();
    let mut n: usize = MIN_ARITY;
    while n <= MAX_ARITY
        invariant
            MIN_ARITY <= n <= MAX_ARITY + 1,
            impls@.len() == n - MIN_ARITY,
            forall|k: int|
                0 <= k < impls@.len() ==> is_from_lua_impl(
                    #[trigger] impls@[k],
                    (k + MIN_ARITY) as nat,
                ),
        decreases MAX_ARITY + 1 - n,
    {
        let mut type_params: Vec<char> = Vec::new();
        let mut casts: Vec<Cast> = Vec::new();
        let mut i: usize = 0;
        while i < n
            invariant
                i <= n <= MAX_ARITY,
                type_params@ == uppers(i as nat),
                casts@ == Seq::new(i as nat, |j: int| Cast { variable: lower(j), ty: upper(j) }),
            decreases n - i,
        {
            let c = letter(i);
            type_params.push(c);
            casts.push(gen_cast(c));
            proof {
                assert(type_params@ =~= uppers((i + 1) as nat));
                assert(casts@ =~= Seq::new(
                    (i + 1) as nat,
                    |j: int| Cast { variable: lower(j), ty: upper(j) },
                ));
            }
            i += 1;
        }
        let return_value = gen_return_value(letter(n - 1));
        impls.push(FromLuaTupleImpl { len: n, type_params, casts, return_value });
        n += 1;
    }
    impls
}

/// Describes the encoding protocol of the tuples of each arity from
/// [`MIN_ARITY`] to [`MAX_ARITY`], the least arity first.
pub fn generate_to_lua_tuple_impl() -> (impls: Vec<ToLuaTupleImpl>)
    ensures
        impls@.len() == MAX_ARITY - MIN_ARITY + 1,
        forall|k: int|
            0 <= k < impls@.len() ==> is_to_lua_impl(#[trigger] impls@[k], (k + MIN_ARITY) as nat),
{
    let mut impls: Vec<ToLuaTupleImpl> = Vec::new();
    let mut n: usize = MIN_ARITY;
    while n <= MAX_ARITY
        invariant
            MIN_ARITY <= n <= MAX_ARITY + 1,
            impls@.len() == n - MIN_ARITY,
            forall|k: int|
                0 <= k < impls@.len() ==> is_to_lua_impl(
                    #[trigger] impls@[k],
                    (k + MIN_ARITY) as nat,
                ),
        decreases MAX_ARITY + 1 - n,
    {
        let mut type_params: Vec<char> = Vec::new();
        let mut pushes: Vec<usize> = Vec::new();
        let mut i: usize = 0;
        while i < n
            invariant
                i <= n <= MAX_ARITY,
                type_params@ == uppers(i as nat),
                pushes@ == Seq::new(i as nat, |j: int| j as usize),
            decreases n - i,
        {
            type_params.push(letter(i));
            pushes.push(i);
            proof {
                assert(type_params@ =~= uppers((i + 1) as nat));
                assert(pushes@ =~= Seq::new((i + 1) as nat, |j: int| j as usize));
            }
            i += 1;
        }
        impls.push(ToLuaTupleImpl { len: n, type_params, pushes });
        n += 1;
    }
    impls
}

} // verus!
