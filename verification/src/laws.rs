//! What holds of the protocols taken together.

use vstd::prelude::*;
use vstd::string::*;
use crate::call::{adjusted, below_call};
use crate::classify::{
    method_info, result_kind, self_param, tail_is_typed, takes_handle, FunctionKind,
};
use crate::codegen::{describes, exposes, lemma_count_reaches, public_count};
use crate::engine::{global, slot, EngineView};
use crate::state::{indexed, stored};
use crate::from_lua::{converted, decoded, FromLua};
use crate::is_type::accepts;
use crate::kind::Kind;
use crate::syntax::Function;
use crate::to_lua::{encoded, registered, Instance, Item, ToLua};
use crate::trampoline::{args_of, receiver_of};
use crate::tuple::{decoded_tuple, encoded_all, first_unreadable, probes, tuple_base};
use crate::user_data::{table_index, Method, UserData};
use crate::value::LuaValue;

verus! {

/// Whether `value` is a host value of the type `kind`: one that `kind`
/// accepts and that reading as `kind` leaves as it is. For an integer that
/// means the range of 32 bits; a value that the engine takes in two ways is
/// no host value, since it is read as one of the two.
pub open spec fn inhabits(kind: Kind, value: LuaValue) -> bool {
    accepts(kind, value) && converted(kind, value) == value
}

/// The items that encode `values` as they stand.
pub open spec fn plain(values: Seq<LuaValue>) -> Seq<Item> {
    Seq::new(values.len(), |i: int| Item::Value(values[i]))
}

/// Encoding a host value and reading the top of the stack as its type gives
/// the value back.
pub proof fn lemma_round_trip(before: EngineView, kind: Kind, value: LuaValue)
    requires
        inhabits(kind, value),
    ensures
        decoded(encoded(before, Item::Value(value)).stack, kind, -1) == Some(value),
{
}

/// An integer that is encoded is read back as the same integer.
pub proof fn lemma_round_trip_integer(before: EngineView, after: EngineView, host: i32)
    requires
        host.pushed(before, after),
    ensures
        decoded(after.stack, <i32 as FromLua>::kind(), -1) matches Some(value) && <i32 as FromLua>::readable(
            value,
            after.objects,
        ) && <i32 as FromLua>::renders(host, value, after.objects),
{
}

/// A boolean that is encoded is read back as the same boolean.
pub proof fn lemma_round_trip_boolean(before: EngineView, after: EngineView, host: bool)
    requires
        host.pushed(before, after),
    ensures
        decoded(after.stack, <bool as FromLua>::kind(), -1) matches Some(value) && <bool as FromLua>::readable(
            value,
            after.objects,
        ) && <bool as FromLua>::renders(host, value, after.objects),
{
}

/// Owned text that is encoded is read back as the same text.
pub proof fn lemma_round_trip_string(before: EngineView, after: EngineView, host: String)
    requires
        host.pushed(before, after),
    ensures
        decoded(after.stack, <String as FromLua>::kind(), -1) matches Some(value) && <String as FromLua>::readable(
            value,
            after.objects,
        ) && <String as FromLua>::renders(host, value, after.objects),
{
}

/// Borrowed text that is encoded is read back as the same text.
pub proof fn lemma_round_trip_str(before: EngineView, after: EngineView, host: &str)
    requires
        host.pushed(before, after),
    ensures
        decoded(after.stack, <&str as FromLua>::kind(), -1) matches Some(value) && <&str as FromLua>::readable(
            value,
            after.objects,
        ) && <&str as FromLua>::renders(host, value, after.objects),
{
}

/// Encoding plain values appends them to the stack, in order, and changes
/// nothing else.
pub proof fn lemma_encoded_plain(before: EngineView, values: Seq<LuaValue>)
    ensures
        encoded_all(before, plain(values)) == (EngineView {
            stack: before.stack + values,
            ..before
        }),
    decreases values.len(),
{
    if values.len() == 0 {
        assert(before.stack + values =~= before.stack);
    } else {
        lemma_encoded_plain(before, values.drop_last());
        assert(plain(values).drop_last() =~= plain(values.drop_last()));
        assert((before.stack + values.drop_last()).push(values.last()) =~= before.stack + values);
    }
}

/// Encoding a tuple and reading as many positions off the top of the stack,
/// each as the type of its element, gives the tuple back.
pub proof fn lemma_tuple_round_trip(before: EngineView, kinds: Seq<Kind>, values: Seq<LuaValue>)
    requires
        kinds.len() == values.len(),
        values.len() >= 1,
        forall|i: int| 0 <= i < values.len() ==> inhabits(#[trigger] kinds[i], values[i]),
    ensures
        decoded_tuple(encoded_all(before, plain(values)).stack, kinds, -(kinds.len() as int))
            == Some(values),
{
    lemma_encoded_plain(before, values);
    let stack = before.stack + values;
    let base = before.stack.len() + 1;
    assert(tuple_base(stack.len() as int, kinds.len() as int, -(kinds.len() as int)) == Some(
        base as int,
    ));
    assert forall|j: int| 0 <= j < kinds.len() implies (#[trigger] decoded(
        stack,
        kinds[j],
        base + j,
    )) == Some(values[j]) by {
        assert(slot(stack, base + j) == Some(values[j]));
        assert(inhabits(kinds[j], values[j]));
    }
    assert(Seq::new(kinds.len(), |j: int| decoded(stack, kinds[j], base + j).unwrap())
        =~= values);
}

/// Reading a tuple from a stack that holds fewer values from the tuple's
/// first position on than the tuple has elements gives nothing, and looks
/// at no position.
pub proof fn lemma_tuple_short(stack: Seq<LuaValue>, kinds: Seq<Kind>, idx: int)
    requires
        tuple_base(stack.len() as int, kinds.len() as int, idx) is None,
    ensures
        decoded_tuple(stack, kinds, idx) is None,
        probes(stack, kinds, idx) == 0,
{
}

/// Reading a tuple stops at the first position whose value is of the wrong
/// type: the read gives nothing, and the positions looked at are those up to
/// and including that one, whatever the later positions hold.
pub proof fn lemma_fail_fast(stack: Seq<LuaValue>, kinds: Seq<Kind>, idx: int, at: int)
    requires
        tuple_base(stack.len() as int, kinds.len() as int, idx) is Some,
        0 <= at < kinds.len(),
        decoded(
            stack,
            kinds[at],
            tuple_base(stack.len() as int, kinds.len() as int, idx).unwrap() + at,
        ) is None,
        forall|j: int|
            0 <= j < at ==> (#[trigger] decoded(
                stack,
                kinds[j],
                tuple_base(stack.len() as int, kinds.len() as int, idx).unwrap() + j,
            )) is Some,
    ensures
        decoded_tuple(stack, kinds, idx) is None,
        probes(stack, kinds, idx) == at + 1,
{
    let base = tuple_base(stack.len() as int, kinds.len() as int, idx).unwrap();
    lemma_stops_at(stack, kinds, base, 0, at);
}

/// Where the positions from `from` up to `at` can be read and `at` cannot,
/// `at` is the first that cannot.
proof fn lemma_stops_at(stack: Seq<LuaValue>, kinds: Seq<Kind>, base: int, from: int, at: int)
    requires
        0 <= from <= at < kinds.len(),
        decoded(stack, kinds[at], base + at) is None,
        forall|j: int| from <= j < at ==> (#[trigger] decoded(stack, kinds[j], base + j)) is Some,
    ensures
        first_unreadable(stack, kinds, base, from) == at,
    decreases at - from,
{
    if from < at {
        assert(decoded(stack, kinds[from], base + from) is Some);
        lemma_stops_at(stack, kinds, base, from + 1, at);
    }
}

/// A value stored in a field of the table at a position is what reading
/// that field at that position gives, the position counted the same way
/// both times.
pub proof fn lemma_field_read_back(
    engine: EngineView,
    idx: int,
    name: Seq<char>,
    value: LuaValue,
)
    requires
        slot(engine.stack, idx) matches Some(LuaValue::Table(_)),
    ensures
        indexed(
            EngineView {
                fields: stored(engine.fields, engine.stack, idx, name, value),
                ..engine
            },
            idx,
            name,
        ) == value,
{
}

/// A value stored in a global is what reading that global gives.
pub proof fn lemma_global_read_back(
    globals: Map<Seq<char>, LuaValue>,
    name: Seq<char>,
    value: LuaValue,
)
    ensures
        global(globals.insert(name, value), name) == value,
{
}

/// Whether no two dispatch tables are for the same type name.
pub open spec fn distinct_tables(registry: Seq<UserData>) -> bool {
    forall|a: int, b: int|
        0 <= a < b < registry.len() ==> (#[trigger] registry[a]).name@ != (
        #[trigger] registry[b]).name@
}

/// A registry that holds one table for each type name still does so after a
/// dispatch table was asked for.
pub proof fn lemma_registry_stays_distinct(registry: Seq<UserData>, class: UserData)
    requires
        distinct_tables(registry),
    ensures
        distinct_tables(registered(registry, class)),
{
}

/// Once a dispatch table is asked for, a table of that name is registered.
pub proof fn lemma_registered(registry: Seq<UserData>, class: UserData)
    ensures
        table_index(registered(registry, class), class.name@) is Some,
        table_index(registry, class.name@) is Some ==> table_index(
            registered(registry, class),
            class.name@,
        ) == table_index(registry, class.name@),
        registry.len() <= registered(registry, class).len() <= registry.len() + 1,
{
    if table_index(registry, class.name@) is None {
        let longer = registry.push(class);
        assert(longer[registry.len() as int].name@ == class.name@);
    }
}

/// Encoding two objects of one type registers the type's dispatch table
/// once: the second encoding leaves the registry as the first one left it,
/// and both objects are tagged with the same table.
pub proof fn lemma_dispatch_idempotent(before: EngineView, first: Instance, second: Instance)
    requires
        first.class.name@ == second.class.name@,
    ensures
        ({
            let once = encoded(before, Item::Object(first));
            let twice = encoded(once, Item::Object(second));
            &&& twice.registry == once.registry
            &&& once.registry.len() <= before.registry.len() + 1
            &&& table_index(once.registry, first.class.name@) is Some
            &&& table_index(twice.registry, second.class.name@) == table_index(
                once.registry,
                first.class.name@,
            )
        }),
{
    lemma_registered(before.registry, first.class);
}

/// Every parameter list whose receiver, if it has one, comes first and is
/// taken by reference has exactly one calling convention, and no other list
/// has any. Which one it has can be read off the list without regard to the
/// order of the rules.
pub proof fn lemma_classification(func: Function)
    ensures
        method_info(func) is Some <==> (tail_is_typed(func.params@) && (func.params@.len() > 0
            && func.params@[0].is_receiver() ==> self_param(func.params@[0]) is Some)),
        method_info(func) matches Some(info) ==> {
            let params = func.params@;
            &&& info.spec_kind() == FunctionKind::Raw <==> (params.len() == 2
                && params[0].is_receiver() && takes_handle(params[1]))
            &&& info.spec_kind() == FunctionKind::StaticRaw <==> (params.len() == 1
                && takes_handle(params[0]))
            &&& info.spec_kind() == FunctionKind::Method <==> (params.len() > 0
                && params[0].is_receiver() && !(params.len() == 2 && takes_handle(params[1])))
            &&& info.spec_kind() == FunctionKind::Static <==> ((params.len() == 0
                || !params[0].is_receiver()) && !(params.len() == 1 && takes_handle(params[0])))
            &&& info.receiver == if params.len() > 0 {
                self_param(params[0])
            } else {
                None
            }
            &&& info.spec_frame_width() == if info.signature is Some {
                params.len()
            } else {
                0
            }
            &&& info.spec_result_width() == if info.signature is Some {
                result_kind(func.return_ty).arity()
            } else {
                0
            }
        },
{
    assert(func.params@.len() == func.params.len());
}

/// Whether `entry` is the dispatch entry of some public method of `methods`.
pub open spec fn has_source(entry: Method, methods: Seq<Function>) -> bool {
    exists|j: int|
        0 <= j < methods.len() && (#[trigger] methods[j]).public && describes(entry, methods[j])
}

/// In a dispatch table made from the methods of a block, every public method
/// has its own entry and every entry belongs to a public method.
pub proof fn lemma_one_entry_each(entries: Seq<Method>, methods: Seq<Function>)
    requires
        exposes(entries, methods),
    ensures
        forall|i: int, j: int|
            0 <= i < j < methods.len() && (#[trigger] methods[i]).public && (
            #[trigger] methods[j]).public ==> public_count(methods, i) < public_count(methods, j),
        forall|k: int| 0 <= k < entries.len() ==> #[trigger] has_source(entries[k], methods),
{
    assert forall|i: int, j: int|
        0 <= i < j < methods.len() && (#[trigger] methods[i]).public && (
        #[trigger] methods[j]).public implies public_count(methods, i) < public_count(
        methods,
        j,
    ) by {
        lemma_count_passes(methods, i, j);
    }
    assert forall|k: int| 0 <= k < entries.len() implies #[trigger] has_source(
        entries[k],
        methods,
    ) by {
        let j = lemma_count_reaches(methods, methods.len() as int, k);
        assert(methods[j].public && describes(entries[k], methods[j]));
    }
}

/// A public method at `i` is counted by every later position.
proof fn lemma_count_passes(methods: Seq<Function>, i: int, j: int)
    requires
        0 <= i < j <= methods.len(),
        methods[i].public,
    ensures
        public_count(methods, i) < public_count(methods, j),
    decreases j - i,
{
    if i + 1 < j {
        lemma_count_passes(methods, i, j - 1);
    }
}

/// Encoding items grows the stack by one slot for each and leaves what was
/// on it in place.
pub proof fn lemma_encoded_extends(before: EngineView, items: Seq<Item>)
    ensures
        encoded_all(before, items).stack.len() == before.stack.len() + items.len(),
        encoded_all(before, items).stack.take(before.stack.len() as int) == before.stack,
    decreases items.len(),
{
    if items.len() == 0 {
        assert(before.stack.take(before.stack.len() as int) =~= before.stack);
    } else {
        lemma_encoded_extends(before, items.drop_last());
        let mid = encoded_all(before, items.drop_last());
        let after = encoded(mid, items.last());
        assert(after.stack.take(before.stack.len() as int) =~= mid.stack.take(
            before.stack.len() as int,
        ));
    }
}

/// A call that fails leaves the stack one slot shallower than it was with
/// the callee on top and no argument encoded yet: what was below the callee
/// is all that stays.
pub proof fn lemma_failed_call_depth(before: EngineView, args: Seq<Item>)
    requires
        before.stack.len() >= 1,
    ensures
        below_call(encoded_all(before, args).stack, args.len()) == before.stack.drop_last(),
        below_call(encoded_all(before, args).stack, args.len()).len() == before.stack.len() - 1,
{
    lemma_encoded_extends(before, args);
    let full = encoded_all(before, args).stack;
    assert(full.take(before.stack.len() - 1) =~= full.take(before.stack.len() as int).take(
        before.stack.len() - 1,
    ));
    assert(before.stack.drop_last() =~= before.stack.take(before.stack.len() - 1));
}

/// What a caller encodes, a trampoline reads: with a reference to an object
/// pushed first and then arguments that are host values of the method's
/// argument types, entering the method gives that receiver and those
/// arguments.
pub proof fn lemma_calling_convention(
    below: Seq<LuaValue>,
    method: Method,
    receiver: usize,
    args: Seq<LuaValue>,
)
    requires
        method.wf(),
        method.info.receiver is Some,
        method.info.signature is Some,
        args.len() == method.args@.len(),
        forall|i: int| 0 <= i < args.len() ==> inhabits(#[trigger] method.args@[i], args[i]),
    ensures
        receiver_of(below.push(LuaValue::UserData(receiver)) + args, method) == Some(
            LuaValue::UserData(receiver),
        ),
        args_of(below.push(LuaValue::UserData(receiver)) + args, method) == Some(args),
{
    let stack = below.push(LuaValue::UserData(receiver)) + args;
    let kinds = method.args@;
    assert(slot(stack, -(args.len() + 1)) == Some(LuaValue::UserData(receiver)));
    if args.len() > 0 {
        let base = below.len() + 2;
        assert(tuple_base(stack.len() as int, kinds.len() as int, -(kinds.len() as int))
            == Some(base as int));
        assert forall|j: int| 0 <= j < kinds.len() implies (#[trigger] decoded(
            stack,
            kinds[j],
            base + j,
        )) == Some(args[j]) by {
            assert(slot(stack, base + j) == Some(args[j]));
            assert(inhabits(kinds[j], args[j]));
        }
        assert(Seq::new(kinds.len(), |j: int| decoded(stack, kinds[j], base + j).unwrap())
            =~= args);
    } else {
        assert(args =~= Seq::<LuaValue>::empty());
    }
}

/// What a caller encodes, a trampoline without a receiver reads: with
/// arguments on top of the stack that are host values of the method's
/// argument types, entering the method gives those arguments.
pub proof fn lemma_static_calling_convention(
    below: Seq<LuaValue>,
    method: Method,
    args: Seq<LuaValue>,
)
    requires
        method.wf(),
        method.info.signature is Some,
        args.len() == method.args@.len(),
        forall|i: int| 0 <= i < args.len() ==> inhabits(#[trigger] method.args@[i], args[i]),
    ensures
        args_of(below + args, method) == Some(args),
{
    let stack = below + args;
    let kinds = method.args@;
    if args.len() > 0 {
        let base = below.len() + 1;
        assert(tuple_base(stack.len() as int, kinds.len() as int, -(kinds.len() as int))
            == Some(base as int));
        assert forall|j: int| 0 <= j < kinds.len() implies (#[trigger] decoded(
            stack,
            kinds[j],
            base + j,
        )) == Some(args[j]) by {
            assert(slot(stack, base + j) == Some(args[j]));
            assert(inhabits(kinds[j], args[j]));
        }
        assert(Seq::new(kinds.len(), |j: int| decoded(stack, kinds[j], base + j).unwrap())
            =~= args);
    } else {
        assert(args =~= Seq::<LuaValue>::empty());
    }
}

/// What a callee returns, the caller reads: where the results are host
/// values of the types that the caller asks for, one for each, they take the
/// place of the callee on the caller's stack and are read back as they are.
pub proof fn lemma_results_reach_caller(
    below: Seq<LuaValue>,
    callee: LuaValue,
    results: Seq<LuaValue>,
    kinds: Seq<Kind>,
)
    requires
        kinds.len() == results.len(),
        results.len() >= 1,
        forall|i: int| 0 <= i < results.len() ==> inhabits(#[trigger] kinds[i], results[i]),
    ensures
        below_call(below.push(callee), 0) == below,
        adjusted(results, kinds.len()) == results,
        decoded_tuple(
            below_call(below.push(callee), 0) + adjusted(results, kinds.len()),
            kinds,
            -(kinds.len() as int),
        ) == Some(results),
{
    assert(below_call(below.push(callee), 0) =~= below);
    assert(adjusted(results, kinds.len()) =~= results);
    let before = EngineView {
        stack: below,
        below: Seq::empty(),
        objects: Seq::empty(),
        globals: Map::empty(),
        fields: Map::empty(),
        registry: Seq::empty(),
    };
    lemma_tuple_round_trip(before, kinds, results);
    lemma_encoded_plain(before, results);
}

} // verus!
