//! Method declarations as plain data: what the classifier reads of an
//! `impl` block, without the token machinery that produced it.

use vstd::prelude::*;
use vstd::string::*;

verus! {

/// One lexical token of a type expression. Brackets of every sort appear as
/// punctuation, in the order in which they are written.
#[derive(Clone, Debug, PartialEq, Eq)]
pub enum Token {
    /// A name: `i32`, `State`, `mut`.
    Ident(String),
    /// One punctuation character: `&`, `*`, `,`, `(`, `)`.
    Punct(char),
    /// A literal, by its text.
    Literal(String),
}

/// One parameter of a method.
#[derive(Clone, Debug, PartialEq, Eq)]
pub enum FnParam {
    /// `self` in one of its forms.
    Receiver {
        /// `&self` or `&mut self`, as opposed to `self` by value.
        by_reference: bool,
        /// `&mut self` or `mut self`.
        mutable: bool,
    },
    /// A named parameter with its type expression.
    Typed {
        /// The tokens of the type, outermost first.
        ty: Vec<Token>,
    },
}

/// One method of an `impl` block.
#[derive(Clone, Debug, PartialEq, Eq)]
pub struct Function {
    /// The method's name.
    pub name: String,
    /// Whether it carries a visibility marker.
    pub public: bool,
    /// Whether it is declared `async`.
    pub asynchronous: bool,
    /// Its parameters, in order.
    pub params: Vec<FnParam>,
    /// The tokens of its return type, where it declares one.
    pub return_ty: Option<Vec<Token>>,
}

/// An inherent `impl` block.
#[derive(Clone, Debug, PartialEq, Eq)]
pub struct Impl {
    /// The name of the type that the block is for.
    pub self_ty: String,
    /// Its methods, in source order.
    pub methods: Vec<Function>,
}

impl Token {
    /// Whether this token is the identifier spelled `word`.
    pub open spec fn is_word(&self, word: Seq<char>) -> bool {
        match self {
            Token::Ident(name) => name@ == word,
            _ => false,
        }
    }

    /// Whether this token is the punctuation character `ch`.
    pub open spec fn is_punct(&self, ch: char) -> bool {
        match self {
            Token::Punct(c) => *c == ch,
            _ => false,
        }
    }
}

impl FnParam {
    /// Whether this parameter is a receiver.
    pub open spec fn is_receiver(&self) -> bool {
        self is Receiver
    }
}

/// Whether `needle` occurs in `hay` as a contiguous run.
pub open spec fn occurs_in(needle: Seq<char>, hay: Seq<char>) -> bool {
    exists|at: int| occurs_at(needle, hay, at)
}

/// Whether `needle` occurs in `hay` starting at offset `at`.
pub open spec fn occurs_at(needle: Seq<char>, hay: Seq<char>, at: int) -> bool {
    &&& 0 <= at
    &&& at + needle.len() <= hay.len()
    &&& hay.subrange(at, at + needle.len()) == needle
}

/// Tells whether two strings agree on `len` characters, the first read from
/// `at`, the second from its start.
fn matches_at(hay: &str, at: usize, needle: &str, len: usize) -> (same: bool)
    requires
        len == needle@.len(),
        at + len <= hay@.len() <= usize::MAX,
    ensures
        same == occurs_at(needle@, hay@, at as int),
{
    let mut k: usize = 0;
    while k < len
        invariant
            len == needle@.len(),
            at + len <= hay@.len() <= usize::MAX,
            k <= len,
            forall|j: int| 0 <= j < k ==> hay@[at + j] == needle@[j],
        decreases len - k,
    {
        if hay.get_char(at + k) != needle.get_char(k) {
            proof {
                let window = hay@.subrange(at as int, at + len);
                assert(window[k as int] == hay@[at + k]);
            }
            return false;
        }
        k += 1;
    }
    proof {
        assert(hay@.subrange(at as int, at + len) =~= needle@);
    }
    true
}

/// Tells whether `needle` occurs anywhere in `hay`.
pub fn contains(hay: &str, needle: &str) -> (found: bool)
    ensures
        found == occurs_in(needle@, hay@),
{
    let n: usize = hay.unicode_len();
    let m: usize = needle.unicode_len();
    if m > n {
        return false;
    }
    let last: usize = n - m;
    let mut at: usize = 0;
    loop
        invariant
            n == hay@.len(),
            m == needle@.len(),
            last == n - m,
            at <= last,
            forall|j: int| 0 <= j < at ==> !occurs_at(needle@, hay@, j),
        decreases last - at,
    {
        if matches_at(hay, at, needle, m) {
            return true;
        }
        if at == last {
            return false;
        }
        at += 1;
    }
}

/// Tells whether `token` is the punctuation character `ch`.
pub fn match_punct_char(token: &Token, ch: char) -> (same: bool)
    ensures
        same == token.is_punct(ch),
{
    match token {
        Token::Punct(c) => *c == ch,
        _ => false,
    }
}

} // verus!
