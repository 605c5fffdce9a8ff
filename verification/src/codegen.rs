//! From the methods of an `impl` block to the declarations that expose the
//! type: its name and its dispatch table.

use vstd::prelude::*;
use vstd::string::*;
use crate::classify::{classified, classify, method_info, ClassifyError, MethodInfo};
use crate::kind::{kind_of, Kind};
use crate::syntax::{FnParam, Function, Impl};
use crate::user_data::{distinct_names, find_entry, Method, UserData};

verus! {

/// A public method that cannot be exposed.
#[derive(Clone, Copy, Debug, PartialEq, Eq)]
pub struct GenerateError {
    /// The index of the method among the methods of the block.
    pub method: usize,
    /// Why it cannot be exposed.
    pub reason: ClassifyError,
}

/// The conversion protocol of a parameter; none for a receiver and for a type
/// that has no protocol.
pub open spec fn param_kind(param: FnParam) -> Option<Kind> {
    match param {
        FnParam::Typed { ty } => kind_of(ty@),
        FnParam::Receiver { .. } => None,
    }
}

/// The conversion protocols of the parameters from index `from` on, where
/// each of them has one.
pub open spec fn param_kinds(params: Seq<FnParam>, from: int) -> Option<Seq<Kind>> {
    if forall|i: int| from <= i < params.len() ==> (#[trigger] param_kind(params[i])) is Some {
        Some(Seq::new((params.len() - from) as nat, |k: int| param_kind(params[from + k]).unwrap()))
    } else {
        None
    }
}

/// The conversion protocols of the arguments that a trampoline decodes for a
/// method of convention `info`: none for a raw method, else one for each
/// parameter but the receiver.
pub open spec fn arg_kinds(func: Function, info: MethodInfo) -> Option<Seq<Kind>> {
    match info.signature {
        None => Some(Seq::empty()),
        Some(_) => param_kinds(
            func.params@,
            if info.receiver is Some {
                1
            } else {
                0
            },
        ),
    }
}

/// What a method contributes to the dispatch table: nothing where it is
/// private, its convention and argument protocols where it can be exposed,
/// an error where it is public and cannot.
pub open spec fn generated(func: Function) -> Result<
    Option<(MethodInfo, Seq<Kind>)>,
    ClassifyError,
> {
    match classified(func) {
        Err(e) => Err(e),
        Ok(None) => Ok(None),
        Ok(Some(info)) => match arg_kinds(func, info) {
            Some(kinds) => Ok(Some((info, kinds))),
            None => Err(ClassifyError::ArgumentType),
        },
    }
}

/// Whether `method` is the dispatch entry of the public method `func`: it has
/// the method's name, its convention and its argument protocols.
pub open spec fn describes(method: Method, func: Function) -> bool {
    &&& method.name@ == func.name@
    &&& generated(func) == Ok::<Option<(MethodInfo, Seq<Kind>)>, ClassifyError>(
        Some((method.info, method.args@)),
    )
}

/// Whether a public method before the one at `at` has the same name.
pub open spec fn repeats(methods: Seq<Function>, at: int) -> bool {
    exists|i: int|
        0 <= i < at && (#[trigger] methods[i]).public && methods[i].name@ == methods[at].name@
}

/// What the method at `at` contributes to the dispatch table of its block:
/// what it contributes by itself, unless it can be exposed and repeats the
/// name of an earlier public method, which is an error.
pub open spec fn contributed(methods: Seq<Function>, at: int) -> Result<
    Option<(MethodInfo, Seq<Kind>)>,
    ClassifyError,
> {
    match generated(methods[at]) {
        Ok(Some(entry)) => if repeats(methods, at) {
            Err(ClassifyError::DuplicateName)
        } else {
            Ok(Some(entry))
        },
        other => other,
    }
}

/// Whether every public method of a block can be exposed: none is `async`,
/// each parameter list fits a convention, each typed argument has a
/// conversion protocol, and no name is used twice.
pub open spec fn exposable(methods: Seq<Function>) -> bool {
    forall|j: int|
        0 <= j < methods.len() && (#[trigger] methods[j]).public ==> {
            &&& !methods[j].asynchronous
            &&& method_info(methods[j]) matches Some(info) && arg_kinds(methods[j], info) is Some
            &&& !repeats(methods, j)
        }
}

/// The number of public methods among the first `upto`.
pub open spec fn public_count(methods: Seq<Function>, upto: int) -> nat
    decreases upto,
{
    if upto <= 0 {
        0
    } else {
        public_count(methods, upto - 1) + if methods[upto - 1].public {
            1nat
        } else {
            0nat
        }
    }
}

/// Whether `entries` is the dispatch table of `methods`: one entry for each
/// public method and no other, in source order, each describing its method.
pub open spec fn exposes(entries: Seq<Method>, methods: Seq<Function>) -> bool {
    &&& entries.len() == public_count(methods, methods.len() as int)
    &&& forall|j: int|
        0 <= j < methods.len() && (#[trigger] methods[j]).public ==> {
            &&& public_count(methods, j) < entries.len()
            &&& describes(entries[public_count(methods, j) as int], methods[j])
        }
}

/// Finds the conversion protocol of each parameter from index `from` on.
fn kinds_from(params: &Vec<FnParam>, from: usize) -> (kinds: Option<Vec<Kind>>)
    requires
        from <= params@.len(),
    ensures
        match kinds {
            Some(kinds) => param_kinds(params@, from as int) == Some(kinds@),
            None => param_kinds(params@, from as int) is None,
        },
{
    let mut kinds: Vec<Kind> = Vec::new();
    let mut i: usize = from;
    while i < params.len()
        invariant
            from <= i <= params@.len(),
            kinds@.len() == i - from,
            forall|j: int| from <= j < i ==> (#[trigger] param_kind(params@[j])) == Some(
                kinds@[j - from],
            ),
        decreases params.len() - i,
    {
        let kind = match &params[i] {
            FnParam::Typed { ty } => Kind::of_type(ty),
            FnParam::Receiver { .. } => None,
        };
        match kind {
            Some(kind) => {
                kinds.push(kind);
            },
            None => {
                proof {
                    assert(param_kind(params@[i as int]) is None);
                }
                return None;
            },
        }
        i += 1;
    }
    proof {
        assert(kinds@ =~= Seq::new(
            (params@.len() - from) as nat,
            |k: int| param_kind(params@[from + k]).unwrap(),
        ));
    }
    Some(kinds)
}

/// Makes the dispatch entry of a method: `Ok(None)` for a private method,
/// which gets none; an error for a public method that is `async`, whose
/// parameter list fits no convention, or one of whose arguments has a type
/// without a conversion protocol.
pub fn try_generate_method(func: &Function) -> (entry: Result<Option<Method>, ClassifyError>)
    ensures
        match entry {
            Ok(Some(method)) => describes(method, *func) && method.wf(),
            Ok(None) => generated(*func) == Ok::<Option<(MethodInfo, Seq<Kind>)>, ClassifyError>(
                None,
            ),
            Err(e) => generated(*func) == Err::<Option<(MethodInfo, Seq<Kind>)>, ClassifyError>(e),
        },
{
    let info = match classify(func) {
        Err(e) => {
            return Err(e);
        },
        Ok(None) => {
            return Ok(None);
        },
        Ok(Some(info)) => info,
    };
    let args: Vec<Kind> = if info.is_raw() {
        Vec::new()
    } else {
        let from: usize = if info.is_method() {
            1
        } else {
            0
        };
        match kinds_from(&func.params, from) {
            Some(kinds) => kinds,
            None => {
                return Err(ClassifyError::ArgumentType);
            },
        }
    };
    let method = Method { name: func.name.clone(), info, args };
    proof {
        assert(arg_kinds(*func, info) matches Some(kinds) && kinds =~= method.args@);
        assert(func.params@.len() == func.params.len());
    }
    Ok(Some(method))
}

/// Makes the declarations that expose the type of an `impl` block: the
/// type's name, and a dispatch table with one entry for each public method.
/// The first public method that cannot be exposed, or that repeats the name
/// of an earlier one, fails the whole block.
pub fn generate_impl(item: &Impl) -> (class: Result<UserData, GenerateError>)
    ensures
        class is Ok <==> exposable(item.methods@),
        match class {
            Ok(class) => {
                &&& class.name@ == item.self_ty@
                &&& class.wf()
                &&& exposes(class.functions@, item.methods@)
                &&& forall|j: int|
                    0 <= j < item.methods@.len() ==> (#[trigger] contributed(item.methods@, j)) is Ok
            },
            Err(e) => {
                &&& e.method < item.methods@.len()
                &&& contributed(item.methods@, e.method as int) == Err::<
                    Option<(MethodInfo, Seq<Kind>)>,
                    ClassifyError,
                >(e.reason)
                &&& forall|j: int|
                    0 <= j < e.method ==> (#[trigger] contributed(item.methods@, j)) is Ok
            },
        },
{
    let mut functions: Vec<Method> = Vec::new();
    let mut i: usize = 0;
    while i < item.methods.len()
        invariant
            i <= item.methods@.len(),
            functions@.len() == public_count(item.methods@, i as int),
            forall|j: int|
                0 <= j < i && (#[trigger] item.methods@[j]).public ==> {
                    &&& public_count(item.methods@, j) < functions@.len()
                    &&& describes(
                        functions@[public_count(item.methods@, j) as int],
                        item.methods@[j],
                    )
                },
            forall|j: int| 0 <= j < functions@.len() ==> (#[trigger] functions@[j]).wf(),
            distinct_names(functions@),
            forall|j: int| 0 <= j < i ==> (#[trigger] contributed(item.methods@, j)) is Ok,
        decreases item.methods.len() - i,
    {
        match try_generate_method(&item.methods[i]) {
            Err(reason) => {
                proof {
                    lemma_exposable(item.methods@);
                }
                return Err(GenerateError { method: i, reason });
            },
            Ok(None) => {},
            Ok(Some(method)) => {
                match find_entry(&functions, method.name.as_str()) {
                    Some(k) => {
                        proof {
                            let j = lemma_count_reaches(item.methods@, i as int, k as int);
                            assert(item.methods@[j].public);
                            assert(repeats(item.methods@, i as int));
                            lemma_exposable(item.methods@);
                        }
                        return Err(
                            GenerateError { method: i, reason: ClassifyError::DuplicateName },
                        );
                    },
                    None => {
                        proof {
                            if repeats(item.methods@, i as int) {
                                let j = choose|j: int|
                                    0 <= j < i && (#[trigger] item.methods@[j]).public
                                        && item.methods@[j].name@ == item.methods@[i as int].name@;
                                let k = public_count(item.methods@, j) as int;
                                assert(functions@[k].name@ == method.name@);
                            }
                        }
                        functions.push(method);
                    },
                }
            },
        }
        proof {
            lemma_public_count_grows(item.methods@, i as int);
        }
        i += 1;
    }
    proof {
        lemma_exposable(item.methods@);
    }
    Ok(UserData { name: item.self_ty.clone(), functions })
}

/// Does what [`generate_impl`] does.
pub fn generate_user_data_impl(item: &Impl) -> (class: Result<UserData, GenerateError>)
    ensures
        class is Ok <==> exposable(item.methods@),
        match class {
            Ok(class) => {
                &&& class.name@ == item.self_ty@
                &&& class.wf()
                &&& exposes(class.functions@, item.methods@)
                &&& forall|j: int|
                    0 <= j < item.methods@.len() ==> (#[trigger] contributed(item.methods@, j)) is Ok
            },
            Err(e) => {
                &&& e.method < item.methods@.len()
                &&& contributed(item.methods@, e.method as int) == Err::<
                    Option<(MethodInfo, Seq<Kind>)>,
                    ClassifyError,
                >(e.reason)
                &&& forall|j: int|
                    0 <= j < e.method ==> (#[trigger] contributed(item.methods@, j)) is Ok
            },
        },
{
    generate_impl(item)
}

/// A block can be exposed exactly where each of its methods contributes
/// without error.
pub proof fn lemma_exposable(methods: Seq<Function>)
    ensures
        exposable(methods) <==> forall|j: int|
            0 <= j < methods.len() ==> (#[trigger] contributed(methods, j)) is Ok,
{
    if exposable(methods) {
        assert forall|j: int| 0 <= j < methods.len() implies (#[trigger] contributed(
            methods,
            j,
        )) is Ok by {
            if methods[j].public {
                assert(!methods[j].asynchronous);
            }
        }
    }
    if forall|j: int| 0 <= j < methods.len() ==> (#[trigger] contributed(methods, j)) is Ok {
        assert forall|j: int| 0 <= j < methods.len() && (#[trigger] methods[j]).public implies {
            &&& !methods[j].asynchronous
            &&& method_info(methods[j]) matches Some(info) && arg_kinds(methods[j], info) is Some
            &&& !repeats(methods, j)
        } by {
            assert(contributed(methods, j) is Ok);
        }
    }
}

/// Every count below the count at `upto` is the count at some public method
/// before `upto`.
pub proof fn lemma_count_reaches(methods: Seq<Function>, upto: int, k: int) -> (j: int)
    requires
        0 <= upto <= methods.len(),
        0 <= k < public_count(methods, upto),
    ensures
        0 <= j < upto,
        methods[j].public,
        public_count(methods, j) == k,
    decreases upto,
{
    if methods[upto - 1].public && public_count(methods, upto - 1) == k {
        upto - 1
    } else {
        lemma_count_reaches(methods, upto - 1, k)
    }
}

/// The count of public methods never falls as more methods are counted.
pub proof fn lemma_public_count_grows(methods: Seq<Function>, upto: int)
    requires
        0 <= upto,
    ensures
        forall|j: int| 0 <= j <= upto ==> #[trigger] public_count(methods, j) <= public_count(
            methods,
            upto,
        ),
    decreases upto,
{
    if upto > 0 {
        lemma_public_count_grows(methods, upto - 1);
    }
}

} // verus!
