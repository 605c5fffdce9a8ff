//! Sorting method declarations into calling conventions.
//!
//! A method is read by its parameter list alone. The rules, in order:
//! a lone receiver is an instance method without arguments; a lone parameter
//! of the stack handle type is a raw static function; a receiver followed by
//! the stack handle is a raw instance method; any other list that starts with
//! a receiver is an instance method whose remaining parameters are its
//! arguments; a list without a receiver is a static function.

use vstd::prelude::*;
use vstd::string::*;
use crate::syntax::{contains, match_punct_char, occurs_in, FnParam, Function, Token};

verus! {

/// How many stack slots a type stands for.
#[derive(Clone, Copy, Debug, PartialEq, Eq)]
pub enum ValueKind {
    /// No value at all.
    Nothing,
    /// A tuple of that many elements.
    Multiple(usize),
    /// One value.
    Single,
}

/// The typed part of a calling convention.
#[derive(Clone, Copy, Debug, PartialEq, Eq)]
pub struct Signature {
    /// How many arguments follow the receiver, each one slot wide.
    pub args: usize,
    /// What the method hands back.
    pub result: ValueKind,
}

/// What the classifier learned of one method.
#[derive(Clone, Copy, Debug, PartialEq, Eq)]
pub struct MethodInfo {
    /// For an instance method, whether the receiver is mutable.
    pub receiver: Option<bool>,
    /// The typed arguments and result; absent where the method works on the
    /// stack handle itself.
    pub signature: Option<Signature>,
}

/// The four calling conventions.
#[derive(Clone, Copy, Debug, PartialEq, Eq)]
pub enum FunctionKind {
    /// Receiver and stack handle; returns the result count itself.
    Raw,
    /// Stack handle alone; returns the result count itself.
    StaticRaw,
    /// Receiver, typed arguments, typed result.
    Method,
    /// Typed arguments and typed result, no receiver.
    Static,
}

/// Why a public method cannot be exposed.
#[derive(Clone, Copy, Debug, PartialEq, Eq)]
pub enum ClassifyError {
    /// The method is `async`; a trampoline runs within one frame.
    Asynchronous,
    /// The parameter list fits none of the conventions.
    Shape,
    /// An argument's type has no conversion protocol.
    ArgumentType,
    /// An earlier public method of the block has the same name.
    DuplicateName,
}

impl ValueKind {
    /// The number of slots.
    pub open spec fn arity(&self) -> nat {
        match self {
            ValueKind::Nothing => 0,
            ValueKind::Multiple(n) => *n as nat,
            ValueKind::Single => 1,
        }
    }

    /// Returns the number of slots.
    pub fn len(&self) -> (n: usize)
        ensures
            n == self.arity(),
    {
        match self {
            ValueKind::Nothing => 0,
            ValueKind::Multiple(n) => *n,
            ValueKind::Single => 1,
        }
    }
}

impl MethodInfo {
    /// The convention that this record describes.
    pub open spec fn spec_kind(&self) -> FunctionKind {
        match (self.receiver, self.signature) {
            (Some(_), None) => FunctionKind::Raw,
            (None, None) => FunctionKind::StaticRaw,
            (Some(_), Some(_)) => FunctionKind::Method,
            (None, Some(_)) => FunctionKind::Static,
        }
    }

    /// Names the convention: raw or typed, with or without a receiver.
    pub fn kind(&self) -> (kind: FunctionKind)
        ensures
            kind == self.spec_kind(),
    {
        if self.is_raw() {
            if self.is_method() {
                FunctionKind::Raw
            } else {
                FunctionKind::StaticRaw
            }
        } else if self.is_method() {
            FunctionKind::Method
        } else {
            FunctionKind::Static
        }
    }

    /// Tells whether the receiver is taken mutably; `false` without a receiver.
    pub fn is_mut(&self) -> (yes: bool)
        ensures
            yes == (self.receiver == Some(true)),
    {
        match self.receiver {
            Some(mutable) => mutable,
            None => false,
        }
    }

    /// Tells whether the method works on the stack handle itself.
    pub fn is_raw(&self) -> (yes: bool)
        ensures
            yes == (self.signature is None),
    {
        self.signature.is_none()
    }

    /// Tells whether the method has a receiver.
    pub fn is_method(&self) -> (yes: bool)
        ensures
            yes == (self.receiver is Some),
    {
        self.receiver.is_some()
    }

    /// Tells whether typed arguments are decoded for the method.
    pub fn has_args(&self) -> (yes: bool)
        ensures
            yes == (self.signature matches Some(s) && s.args > 0),
    {
        match self.signature {
            Some(s) => s.args > 0,
            None => false,
        }
    }

    /// Tells whether a result is encoded after the method returns.
    pub fn has_return_value(&self) -> (yes: bool)
        ensures
            yes == (self.signature matches Some(s) && s.result.arity() > 0),
    {
        match self.signature {
            Some(s) => s.result.len() > 0,
            None => false,
        }
    }

    /// The number of stack slots the trampoline reads: the arguments, and one
    /// more for a receiver. A raw method reads by itself, through the handle.
    pub open spec fn spec_frame_width(&self) -> nat {
        match self.signature {
            Some(s) => s.args as nat + if self.receiver is Some { 1nat } else { 0nat },
            None => 0,
        }
    }

    /// The number of result slots that the trampoline itself encodes.
    pub open spec fn spec_result_width(&self) -> nat {
        match self.signature {
            Some(s) => s.result.arity(),
            None => 0,
        }
    }
}

/// Whether a type is written as a reference to something named `State`, alone or within a longer name.
pub open spec fn names_state(ty: Seq<Token>) -> bool {
    &&& ty.len() >= 2
    &&& ty[0].is_punct('&')
    &&& match ty[1] {
        Token::Ident(name) => occurs_in("State"@, name@),
        _ => false,
    }
}

/// Whether a type is written as a raw pointer.
pub open spec fn is_pointer(ty: Seq<Token>) -> bool {
    ty.len() >= 1 && ty[0].is_punct('*')
}

/// Whether a type is the stack handle, by its name or by its shape.
pub open spec fn is_handle(ty: Seq<Token>) -> bool {
    names_state(ty) || is_pointer(ty)
}

/// Whether a parameter is typed and its type is the stack handle.
pub open spec fn takes_handle(param: FnParam) -> bool {
    match param {
        FnParam::Typed { ty } => is_handle(ty@),
        FnParam::Receiver { .. } => false,
    }
}

/// For a receiver taken by reference, whether it is mutable.
pub open spec fn self_param(param: FnParam) -> Option<bool> {
    match param {
        FnParam::Receiver { by_reference, mutable } => if by_reference {
            Some(mutable)
        } else {
            None
        },
        FnParam::Typed { .. } => None,
    }
}

/// Whether no parameter after the first is a receiver.
pub open spec fn tail_is_typed(params: Seq<FnParam>) -> bool {
    forall|i: int| 1 <= i < params.len() ==> !(#[trigger] params[i]).is_receiver()
}

/// The number of opening brackets among the first `upto` tokens.
pub open spec fn opened(ty: Seq<Token>, upto: int) -> nat
    decreases upto,
{
    if upto <= 0 {
        0
    } else {
        opened(ty, upto - 1) + if opens(ty[upto - 1]) { 1nat } else { 0nat }
    }
}

/// The number of closing brackets among the first `upto` tokens.
pub open spec fn closed(ty: Seq<Token>, upto: int) -> nat
    decreases upto,
{
    if upto <= 0 {
        0
    } else {
        closed(ty, upto - 1) + if closes(ty, upto - 1) { 1nat } else { 0nat }
    }
}

/// Whether a token opens a bracket.
pub open spec fn opens(token: Token) -> bool {
    token.is_punct('(') || token.is_punct('[') || token.is_punct('{') || token.is_punct('<')
}

/// Whether the token at `at` closes a bracket. The `>` of an arrow `->`
/// closes none.
pub open spec fn closes(ty: Seq<Token>, at: int) -> bool {
    ||| ty[at].is_punct(')')
    ||| ty[at].is_punct(']')
    ||| ty[at].is_punct('}')
    ||| ty[at].is_punct('>') && !(at > 0 && ty[at - 1].is_punct('-'))
}

/// Whether the token at `at` is a comma directly inside the outermost bracket.
pub open spec fn separates(ty: Seq<Token>, at: int) -> bool {
    ty[at].is_punct(',') && opened(ty, at) == closed(ty, at) + 1
}

/// The number of commas directly inside the outermost bracket, among the
/// first `upto` tokens.
pub open spec fn separators(ty: Seq<Token>, upto: int) -> nat
    decreases upto,
{
    if upto <= 0 {
        0
    } else {
        separators(ty, upto - 1) + if separates(ty, upto - 1) { 1nat } else { 0nat }
    }
}

/// The slots that a type expression stands for: none for an empty expression
/// and for `()`, one for anything that is not a parenthesised list, and for a
/// list the number of its elements, a trailing comma not counted.
pub open spec fn value_kind(ty: Seq<Token>) -> ValueKind {
    if ty.len() == 0 {
        ValueKind::Nothing
    } else if !ty[0].is_punct('(') {
        ValueKind::Single
    } else if ty.len() >= 2 && ty[1].is_punct(')') {
        ValueKind::Nothing
    } else {
        let commas = separators(ty, ty.len() as int);
        if commas == 0 {
            ValueKind::Single
        } else if ty[ty.len() - 2].is_punct(',') {
            ValueKind::Multiple(commas as usize)
        } else {
            ValueKind::Multiple((commas + 1) as usize)
        }
    }
}

/// The slots of a declared return type; none where nothing is declared.
pub open spec fn result_kind(return_ty: Option<Vec<Token>>) -> ValueKind {
    match return_ty {
        Some(ty) => value_kind(ty@),
        None => ValueKind::Nothing,
    }
}

/// The convention of a parameter list, by the rules at the head of this file.
/// A receiver taken by value, or one that is not the first parameter, fits
/// no rule.
pub open spec fn method_info(func: Function) -> Option<MethodInfo> {
    let params = func.params@;
    let result = result_kind(func.return_ty);
    if !tail_is_typed(params) {
        None
    } else if params.len() == 0 {
        Some(MethodInfo { receiver: None, signature: Some(Signature { args: 0, result }) })
    } else if params[0].is_receiver() {
        match self_param(params[0]) {
            None => None,
            Some(mutable) => if params.len() == 2 && takes_handle(params[1]) {
                Some(MethodInfo { receiver: Some(mutable), signature: None })
            } else {
                Some(
                    MethodInfo {
                        receiver: Some(mutable),
                        signature: Some(Signature { args: (params.len() - 1) as usize, result }),
                    },
                )
            },
        }
    } else if params.len() == 1 && takes_handle(params[0]) {
        Some(MethodInfo { receiver: None, signature: None })
    } else {
        Some(
            MethodInfo {
                receiver: None,
                signature: Some(Signature { args: params.len() as usize, result }),
            },
        )
    }
}

/// What becomes of a method: `Ok(None)` for a private one, which is left
/// alone; an error for a public one that cannot be exposed.
pub open spec fn classified(func: Function) -> Result<Option<MethodInfo>, ClassifyError> {
    if !func.public {
        Ok(None)
    } else if func.asynchronous {
        Err(ClassifyError::Asynchronous)
    } else {
        match method_info(func) {
            Some(info) => Ok(Some(info)),
            None => Err(ClassifyError::Shape),
        }
    }
}

/// For a receiver taken by reference, tells whether it is mutable; `None`
/// for any other parameter.
pub fn is_self_param(param: &FnParam) -> (mutable: Option<bool>)
    ensures
        mutable == self_param(*param),
{
    match param {
        FnParam::Receiver { by_reference, mutable } => {
            if *by_reference {
                Some(*mutable)
            } else {
                None
            }
        },
        FnParam::Typed { .. } => None,
    }
}

/// Tells whether a type is a reference to something whose name holds `State`.
pub fn is_state_param(tokens: &Vec<Token>) -> (yes: bool)
    ensures
        yes == names_state(tokens@),
{
    if tokens.len() < 2 {
        return false;
    }
    if !match_punct_char(&tokens[0], '&') {
        return false;
    }
    match &tokens[1] {
        Token::Ident(name) => contains(name.as_str(), "State"),
        _ => false,
    }
}

/// Tells whether a parameter is typed as the stack handle.
fn is_handle_param(param: &FnParam) -> (yes: bool)
    ensures
        yes == takes_handle(*param),
{
    match param {
        FnParam::Typed { ty } => {
            if is_state_param(ty) {
                true
            } else {
                ty.len() >= 1 && match_punct_char(&ty[0], '*')
            }
        },
        FnParam::Receiver { .. } => false,
    }
}

/// Tells whether a function takes exactly one parameter and that parameter is
/// a raw pointer.
pub fn is_raw_func(func: &Function) -> (yes: bool)
    ensures
        yes == (func.params@.len() == 1 && match func.params@[0] {
            FnParam::Typed { ty } => is_pointer(ty@),
            FnParam::Receiver { .. } => false,
        }),
{
    if func.params.len() != 1 {
        return false;
    }
    match &func.params[0] {
        FnParam::Receiver { .. } => false,
        FnParam::Typed { ty } => ty.len() >= 1 && match_punct_char(&ty[0], '*'),
    }
}

/// Tells whether a token opens a bracket.
fn is_opening(token: &Token) -> (yes: bool)
    ensures
        yes == opens(*token),
{
    match_punct_char(token, '(') || match_punct_char(token, '[') || match_punct_char(token, '{')
        || match_punct_char(token, '<')
}

/// Tells whether the token at `at` closes a bracket.
fn is_closing(tokens: &Vec<Token>, at: usize) -> (yes: bool)
    requires
        at < tokens@.len(),
    ensures
        yes == closes(tokens@, at as int),
{
    let token = &tokens[at];
    if match_punct_char(token, ')') || match_punct_char(token, ']') || match_punct_char(
        token,
        '}',
    ) {
        true
    } else if match_punct_char(token, '>') {
        !(at > 0 && match_punct_char(&tokens[at - 1], '-'))
    } else {
        false
    }
}

/// Counts the slots that a type expression stands for.
pub fn get_value_kind(tokens: &Vec<Token>) -> (kind: ValueKind)
    ensures
        kind == value_kind(tokens@),
{
    let n: usize = tokens.len();
    if n == 0 {
        return ValueKind::Nothing;
    }
    if !match_punct_char(&tokens[0], '(') {
        return ValueKind::Single;
    }
    if n >= 2 && match_punct_char(&tokens[1], ')') {
        return ValueKind::Nothing;
    }
    let mut up: usize = 0;
    let mut down: usize = 0;
    let mut commas: usize = 0;
    let mut i: usize = 0;
    while i < n
        invariant
            n == tokens@.len(),
            i <= n,
            tokens@[0].is_punct('('),
            up == opened(tokens@, i as int),
            down == closed(tokens@, i as int),
            commas == separators(tokens@, i as int),
            up <= i,
            down <= i,
            commas <= i,
            i >= 1 ==> commas < i,
        decreases n - i,
    {
        let token = &tokens[i];
        if match_punct_char(token, ',') && up == down + 1 {
            commas += 1;
        }
        if is_opening(token) {
            up += 1;
        }
        if is_closing(tokens, i) {
            down += 1;
        }
        i += 1;
    }
    if commas == 0 {
        ValueKind::Single
    } else if match_punct_char(&tokens[n - 2], ',') {
        ValueKind::Multiple(commas)
    } else {
        ValueKind::Multiple(commas + 1)
    }
}

/// Counts the slots of a declared return type.
pub fn parse_result(func: &Function) -> (kind: ValueKind)
    ensures
        kind == result_kind(func.return_ty),
{
    match &func.return_ty {
        Some(ty) => get_value_kind(ty),
        None => ValueKind::Nothing,
    }
}

/// Counts the slots of the whole parameter list, the receiver included:
/// `None` for an empty list.
pub fn parse_args(func: &Function) -> (kind: Option<ValueKind>)
    ensures
        func.params@.len() == 0 ==> kind is None,
        func.params@.len() == 1 ==> kind == Some(ValueKind::Single),
        func.params@.len() > 1 ==> kind == Some(ValueKind::Multiple(func.params@.len() as usize)),
{
    let n: usize = func.params.len();
    if n == 0 {
        None
    } else if n > 1 {
        Some(ValueKind::Multiple(n))
    } else {
        Some(ValueKind::Single)
    }
}

/// Tells whether no parameter after the first is a receiver.
fn check_tail(params: &Vec<FnParam>) -> (ok: bool)
    ensures
        ok == tail_is_typed(params@),
{
    let mut i: usize = 1;
    while i < params.len()
        invariant
            1 <= i,
            forall|j: int| 1 <= j < i && j < params@.len() ==> !(#[trigger] params@[j]).is_receiver(),
        decreases params.len() - i,
    {
        if matches!(&params[i], FnParam::Receiver { .. }) {
            return false;
        }
        i += 1;
    }
    true
}

/// Reads the calling convention off a parameter list; `None` where the list
/// fits no convention.
pub fn params_info(func: &Function) -> (info: Option<MethodInfo>)
    ensures
        info == method_info(*func),
{
    if !check_tail(&func.params) {
        return None;
    }
    let result = parse_result(func);
    let n: usize = func.params.len();
    if n == 0 {
        return Some(MethodInfo { receiver: None, signature: Some(Signature { args: 0, result }) });
    }
    match &func.params[0] {
        FnParam::Receiver { .. } => {
            match is_self_param(&func.params[0]) {
                None => None,
                Some(mutable) => {
                    if n == 2 && is_handle_param(&func.params[1]) {
                        Some(MethodInfo { receiver: Some(mutable), signature: None })
                    } else {
                        Some(
                            MethodInfo {
                                receiver: Some(mutable),
                                signature: Some(Signature { args: n - 1, result }),
                            },
                        )
                    }
                },
            }
        },
        FnParam::Typed { .. } => {
            if n == 1 && is_handle_param(&func.params[0]) {
                Some(MethodInfo { receiver: None, signature: None })
            } else {
                Some(MethodInfo { receiver: None, signature: Some(Signature { args: n, result }) })
            }
        },
    }
}

/// Decides what becomes of a method: a private one is passed over, an
/// `async` one and one whose parameter list fits no convention are refused,
/// any other gets its convention.
pub fn classify(func: &Function) -> (outcome: Result<Option<MethodInfo>, ClassifyError>)
    ensures
        outcome == classified(*func),
{
    if !func.public {
        return Ok(None);
    }
    if func.asynchronous {
        return Err(ClassifyError::Asynchronous);
    }
    match params_info(func) {
        Some(info) => Ok(Some(info)),
        None => Err(ClassifyError::Shape),
    }
}

} // verus!
