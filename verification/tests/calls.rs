use lua_bridge::call::{hold_to, Call, CallOutcome};
use lua_bridge::classify::{MethodInfo, Signature, ValueKind};
use lua_bridge::engine::Engine;
use lua_bridge::error::Error;
use lua_bridge::function::LuaFunction;
use lua_bridge::kind::Kind;
use lua_bridge::state::State;
use lua_bridge::to_lua::{Instance, Item, RelativeValue};
use lua_bridge::trampoline::{Invocation, Returned};
use lua_bridge::user_data::{find_entry, find_table, Method, UserData};
use lua_bridge::value::{LuaValue, RawFunction};

fn text(s: &str) -> LuaValue {
    LuaValue::String(s.to_string())
}

fn whole(i: i64) -> Item {
    Item::Value(LuaValue::Integer(i))
}

fn plain(values: &[LuaValue]) -> Vec<Item> {
    values.iter().cloned().map(Item::Value).collect()
}

fn entry(name: &str, receiver: Option<bool>, args: Vec<Kind>, result: ValueKind) -> Method {
    let info = MethodInfo { receiver, signature: Some(Signature { args: args.len(), result }) };
    Method::new(name.to_string(), info, args).unwrap()
}

fn raw_entry(name: &str, receiver: Option<bool>) -> Method {
    Method::new(name.to_string(), MethodInfo { receiver, signature: None }, vec![]).unwrap()
}

#[test]
fn a_tuple_is_written_and_read_left_to_right() {
    for n in 1..=24usize {
        let values: Vec<LuaValue> = (0..n)
            .map(|i| match i % 3 {
                0 => LuaValue::Integer(i as i64),
                1 => LuaValue::Bool(i % 2 == 0),
                _ => text(&format!("element {}", i)),
            })
            .collect();
        let kinds: Vec<Kind> =
            (0..n).map(|i| [Kind::Integer, Kind::Boolean, Kind::Text][i % 3]).collect();
        let mut state = State::new();
        state.push("below");
        state.push_tuple(plain(&values));
        assert_eq!(state.get_top() as usize, n + 1);
        assert_eq!(state.cast_to_tuple(&kinds, -(n as i32)), Some(values.clone()));
        assert_eq!(state.cast_to_tuple(&kinds, 2), Some(values));
        assert_eq!(state.cast_to_tuple(&kinds, 3), None);
    }
}

#[test]
fn a_tuple_is_not_read_off_a_stack_that_is_too_short() {
    let mut state = State::new();
    state.push_tuple(plain(&[LuaValue::Integer(1), LuaValue::Integer(2)]));
    let three = vec![Kind::Integer, Kind::Integer, Kind::Integer];
    let two = vec![Kind::Integer, Kind::Integer];
    for idx in [1, 2, 3, -1, -2, -3, 0, i32::MIN, i32::MAX] {
        let read = state.engine().read_tuple(&three, idx);
        assert_eq!(read.values, None, "at {}", idx);
        assert_eq!(read.probes, 0, "at {}", idx);
    }
    assert_eq!(state.cast_to_tuple(&two, 2), None);
    assert_eq!(state.cast_to_tuple(&two, -1), None);
    assert_eq!(state.cast_to_tuple(&two, -3), None);
    assert_eq!(state.cast_to_tuple(&two, -2).unwrap().len(), 2);
    assert_eq!(State::new().cast_to_tuple(&two, 1), None);
}

#[test]
fn reading_a_tuple_stops_at_the_first_wrong_type() {
    let kinds = vec![Kind::Integer, Kind::Boolean, Kind::Text];
    let mut state = State::new();
    state.push_tuple(plain(&[LuaValue::Integer(1), text("not a boolean"), text("c")]));
    let read = state.engine().read_tuple(&kinds, 1);
    assert_eq!(read.values, None);
    assert_eq!(read.probes, 2);

    let mut state = State::new();
    state.push_tuple(plain(&[text("not an integer"), LuaValue::Bool(true), text("c")]));
    assert_eq!(state.engine().read_tuple(&kinds, -3).probes, 1);

    let mut state = State::new();
    state.push_tuple(plain(&[LuaValue::Integer(1), LuaValue::Bool(true), LuaValue::Nil]));
    assert_eq!(state.engine().read_tuple(&kinds, 1).probes, 3);

    let mut state = State::new();
    state.push_tuple(plain(&[LuaValue::Integer(1), LuaValue::Bool(true), text("c")]));
    let read = state.engine().read_tuple(&kinds, 1);
    assert_eq!(read.probes, 3);
    assert_eq!(read.values.unwrap().len(), 3);
}

#[test]
fn relative_elements_are_resolved_as_they_are_pushed() {
    let mut state = State::new();
    state.push("x");
    state.push(1);
    state.push_tuple(vec![
        Item::Relative(RelativeValue::new(-2)),
        Item::Relative(RelativeValue::new(-2)),
        Item::Relative(RelativeValue::new(-1)),
    ]);
    assert_eq!(state.cast_to::<&str>(3), Some("x"));
    assert_eq!(state.cast_to::<i32>(4), Some(1));
    assert_eq!(state.cast_to::<i32>(5), Some(1));
}

#[test]
fn results_are_held_to_the_count_that_is_asked_for() {
    let values = vec![LuaValue::Integer(1), LuaValue::Integer(2)];
    assert_eq!(hold_to(values.clone(), 2), values);
    assert_eq!(hold_to(values.clone(), 1), vec![LuaValue::Integer(1)]);
    assert_eq!(hold_to(values.clone(), 0), vec![]);
    assert_eq!(
        hold_to(values, 4),
        vec![LuaValue::Integer(1), LuaValue::Integer(2), LuaValue::Nil, LuaValue::Nil]
    );
}

#[test]
fn a_call_needs_a_function_on_top() {
    let mut state = State::new();
    assert_eq!(state.prepare_call(vec![whole(1)]), Err(Error::InvalidFunction));
    state.push("not a function");
    assert_eq!(state.prepare_call(vec![whole(1)]), Err(Error::InvalidFunction));
    assert_eq!(state.get_top(), 1);
    state.push(LuaValue::Closure(3));
    assert_eq!(state.prepare_call(vec![whole(1), whole(2)]), Ok(Call { nargs: 2 }));
    assert_eq!(state.get_top(), 4);
}

#[test]
fn a_failed_call_leaves_the_stack_one_slot_shallower() {
    let mut state = State::new();
    state.push("kept");
    state.push(LuaValue::Closure(3));
    let before = state.get_top();
    let call = state.prepare_call(vec![whole(1), whole(2), whole(3)]).unwrap();
    let result =
        state.protected_call(call, &vec![Kind::Integer], CallOutcome::Raised("it broke".to_string()));
    assert_eq!(result, Err(Error::LuaRuntimeError("it broke".to_string())));
    assert_eq!(result.unwrap_err().message(), "it broke");
    assert_eq!(state.get_top(), before - 1);
    assert_eq!(state.cast_to::<&str>(-1), Some("kept"));

    // The stack is still usable, and a second failure behaves alike.
    state.push(LuaValue::Closure(4));
    let call = state.prepare_call(vec![]).unwrap();
    let result = state.protected_call(call, &vec![], CallOutcome::Raised("again".to_string()));
    assert_eq!(result, Err(Error::LuaRuntimeError("again".to_string())));
    assert_eq!(state.get_top(), 1);
}

#[test]
fn a_failed_run_leaves_the_stack_as_it_was() {
    let mut state = State::new();
    state.push(1);
    let result = state.do_string(CallOutcome::Raised("syntax error".to_string()));
    assert_eq!(result, Err(Error::LuaRuntimeError("syntax error".to_string())));
    assert_eq!(state.get_top(), 1);
    let result = state.do_string(CallOutcome::Returned(vec![LuaValue::Integer(2), LuaValue::Nil]));
    assert_eq!(result, Ok(()));
    assert_eq!(state.get_top(), 3);
    assert_eq!(state.cast_to::<i32>(2), Some(2));
}

#[test]
fn results_take_the_place_of_the_call() {
    let mut state = State::new();
    state.push("kept");
    state.push(LuaValue::Closure(3));
    let call = state.prepare_call(vec![whole(1)]).unwrap();
    let outcome = CallOutcome::Returned(vec![LuaValue::Integer(5), text("five"), LuaValue::Nil]);
    let result = state.protected_call(call, &vec![Kind::Integer, Kind::Text], outcome);
    assert_eq!(result, Ok(vec![LuaValue::Integer(5), text("five")]));
    assert_eq!(state.get_top(), 3);
    assert_eq!(state.cast_to::<&str>(1), Some("kept"));
    assert_eq!(state.read_results(&vec![Kind::Integer, Kind::Text]).unwrap().len(), 2);
    assert_eq!(state.read_results(&vec![]), Ok(vec![]));
}

#[test]
fn results_of_another_type_are_a_failure_to_cast() {
    let mut state = State::new();
    state.push(LuaValue::Closure(3));
    let call = state.prepare_call(vec![]).unwrap();
    let outcome = CallOutcome::Returned(vec![text("five")]);
    let result = state.protected_call(call, &vec![Kind::Integer], outcome);
    assert_eq!(result, Err(Error::LuaRuntimeError("Failed to cast output.".to_string())));
    assert_eq!(state.get_top(), 1);

    // Missing results are nothing, and nothing is no integer.
    state.pop(1);
    state.push(LuaValue::Closure(3));
    let call = state.prepare_call(vec![]).unwrap();
    let result =
        state.protected_call(call, &vec![Kind::Integer, Kind::Integer], CallOutcome::Returned(vec![LuaValue::Integer(1)]));
    assert_eq!(result, Err(Error::LuaRuntimeError("Failed to cast output.".to_string())));
    assert_eq!(state.get_top(), 2);
}

#[test]
fn a_callable_reference_is_bound_to_a_function() {
    let mut state = State::new();
    state.push(1);
    state.push(LuaValue::Closure(9));
    assert_eq!(LuaFunction::from_lua(&state, 1, vec![]), None);
    assert_eq!(LuaFunction::from_lua(&state, 3, vec![]), None);
    let f = LuaFunction::from_lua(&state, -1, vec![Kind::Integer]).unwrap();
    assert_eq!(f.position, 2);
    assert_eq!(f.results, vec![Kind::Integer]);
    assert_eq!(LuaFunction::from_lua(&state, 2, vec![]).unwrap().position, 2);
    assert_eq!(LuaFunction::len(), 1);

    // Once something lies above the function, the reference is stale.
    state.push(0);
    assert_eq!(f.prepare(&mut state, vec![]), Err(Error::InvalidFunction));
    assert_eq!(state.get_top(), 3);
    state.pop(1);
    let call = f.prepare(&mut state, vec![whole(4)]).unwrap();
    let result = f.call(&mut state, call, CallOutcome::Returned(vec![LuaValue::Integer(8)]));
    assert_eq!(result, Ok(vec![LuaValue::Integer(8)]));
    assert_eq!(state.get_top(), 2);
}

#[test]
fn a_typed_trampoline_reads_its_frame_from_the_top() {
    let method = entry("add", Some(true), vec![Kind::Integer, Kind::Float], ValueKind::Single);
    let mut state = State::new();
    state.push("below the frame");
    state.push(LuaValue::UserData(0));
    state.push(10);
    state.push(LuaValue::Number(2.5f64.to_bits()));
    assert_eq!(
        state.enter(&method),
        Some(Invocation::Typed {
            receiver: Some(LuaValue::UserData(0)),
            args: vec![LuaValue::Integer(10), LuaValue::Number(2.5f64.to_bits())],
        })
    );
    let count = state.leave(&method, Returned::Values(vec![whole(12)]));
    assert_eq!(count, 1);
    assert_eq!(state.cast_to::<i32>(-1), Some(12));
    assert_eq!(state.get_top(), 5);
}

#[test]
fn a_trampoline_fails_to_enter_on_a_wrong_frame() {
    let method = entry("add", Some(false), vec![Kind::Integer, Kind::Integer], ValueKind::Single);
    let mut state = State::new();
    assert_eq!(state.enter(&method), None);
    state.push_tuple(plain(&[LuaValue::Integer(1), LuaValue::Integer(2), LuaValue::Integer(3)]));
    assert_eq!(state.enter(&method), None);
    state.set_top(0);
    state.push_tuple(plain(&[LuaValue::UserData(0), LuaValue::Integer(2), text("three")]));
    assert_eq!(state.enter(&method), None);
    state.set_top(0);
    state.push_tuple(plain(&[LuaValue::UserData(0), LuaValue::Integer(2)]));
    assert_eq!(state.enter(&method), None);
}

#[test]
fn trampolines_without_arguments_or_results_elide_them() {
    let getter = entry("get", Some(false), vec![], ValueKind::Single);
    let action = entry("run", None, vec![], ValueKind::Nothing);
    let mut state = State::new();
    assert_eq!(state.enter(&action), Some(Invocation::Typed { receiver: None, args: vec![] }));
    assert_eq!(state.leave(&action, Returned::Values(vec![])), 0);
    assert_eq!(state.get_top(), 0);
    assert_eq!(state.enter(&getter), None);
    state.push(LuaValue::UserData(4));
    assert_eq!(
        state.enter(&getter),
        Some(Invocation::Typed { receiver: Some(LuaValue::UserData(4)), args: vec![] })
    );
    let pair = entry("pair", None, vec![Kind::Integer], ValueKind::Multiple(2));
    state.push(3);
    assert_eq!(
        state.enter(&pair),
        Some(Invocation::Typed { receiver: None, args: vec![LuaValue::Integer(3)] })
    );
    assert_eq!(state.leave(&pair, Returned::Values(vec![whole(1), whole(2)])), 2);
    assert_eq!(state.get_top(), 4);
}

#[test]
fn a_raw_trampoline_hands_the_count_through() {
    let raw = raw_entry("raw", Some(true));
    let raw_static = raw_entry("make", None);
    let mut state = State::new();
    assert_eq!(state.enter(&raw_static), Some(Invocation::Raw { receiver: None }));
    assert_eq!(state.enter(&raw), None);
    state.push(LuaValue::UserData(2));
    state.push(1);
    state.push(2);
    assert_eq!(state.enter(&raw), Some(Invocation::Raw { receiver: Some(LuaValue::UserData(2)) }));
    assert_eq!(state.leave(&raw, Returned::Count(2)), 2);
    assert_eq!(state.leave(&raw_static, Returned::Count(0)), 0);
    assert_eq!(state.get_top(), 3);
}

#[test]
fn a_dispatch_entry_tells_whether_it_fits() {
    let mut entry = entry("add", Some(true), vec![Kind::Integer], ValueKind::Single);
    assert!(entry.check());
    entry.args.push(Kind::Integer);
    assert!(!entry.check());
    let mut raw = raw_entry("raw", None);
    assert!(raw.check());
    raw.args.push(Kind::Text);
    assert!(!raw.check());
}

#[test]
fn the_receiver_lies_below_the_arguments() {
    let typed = entry("add", Some(true), vec![Kind::Integer, Kind::Float], ValueKind::Single);
    assert_eq!(typed.receiver_position(), Some(-3));
    assert_eq!(entry("get", Some(false), vec![], ValueKind::Single).receiver_position(), Some(-1));
    assert_eq!(raw_entry("raw", Some(true)).receiver_position(), Some(1));
    assert_eq!(raw_entry("make", None).receiver_position(), None);
    assert_eq!(entry("f", None, vec![Kind::Integer], ValueKind::Nothing).receiver_position(), None);
}

#[test]
fn a_dispatch_entry_must_fit_its_convention() {
    let info = MethodInfo {
        receiver: None,
        signature: Some(Signature { args: 2, result: ValueKind::Nothing }),
    };
    assert!(Method::new("f".to_string(), info, vec![Kind::Integer]).is_none());
    assert!(Method::new("f".to_string(), info, vec![Kind::Integer, Kind::Text]).is_some());
    let raw = MethodInfo { receiver: None, signature: None };
    assert!(Method::new("f".to_string(), raw, vec![Kind::Integer]).is_none());
    assert!(Method::new("f".to_string(), raw, vec![]).is_some());
}

#[test]
fn entries_and_tables_are_found_by_name() {
    let class = UserData {
        name: "Math".to_string(),
        functions: vec![raw_entry("new", None), raw_entry("sum", Some(true)), raw_entry("new", None)],
    };
    assert_eq!(find_entry(&class.functions, "new"), Some(0));
    assert_eq!(find_entry(&class.functions, "sum"), Some(1));
    assert_eq!(find_entry(&class.functions, "Sum"), None);
    assert_eq!(find_entry(&vec![], "sum"), None);
    let registry = vec![UserData { name: "A".to_string(), functions: vec![] }, class];
    assert_eq!(find_table(&registry, "Math"), Some(1));
    assert_eq!(find_table(&registry, "A"), Some(0));
    assert_eq!(find_table(&registry, "B"), None);

    let mut state = State::new();
    state.push(Instance { class: registry[1].clone(), bytes: vec![] });
    assert_eq!(
        state.get_field(1, "sum", Kind::NativeFunction),
        Some(LuaValue::Function(RawFunction { table: 0, entry: 1 }))
    );
    assert_eq!(state.get_field(1, "none", Kind::NativeFunction), None);
    assert_eq!(state.get_field(2, "sum", Kind::Unit), Some(LuaValue::Nil));
    assert_eq!(state.method(RawFunction { table: 0, entry: 1 }).unwrap().name, "sum");
    assert!(state.method(RawFunction { table: 0, entry: 3 }).is_none());
    assert!(state.method(RawFunction { table: 1, entry: 0 }).is_none());
}

#[test]
fn a_method_is_called_through_its_trampoline() {
    let class = UserData {
        name: "Math".to_string(),
        functions: vec![entry("sum", Some(false), vec![Kind::Float, Kind::Float], ValueKind::Single)],
    };
    let mut state = State::new();
    state.set_global("math", Item::Object(Instance { class, bytes: vec![] }));
    assert_eq!(state.get_global("math", Kind::UserData), Some(LuaValue::UserData(0)));
    let function = state.get_field(-1, "sum", Kind::LuaFunction).unwrap();
    let sum = match function {
        LuaValue::Function(raw) => state.method(raw).unwrap().clone(),
        other => panic!("not a native function: {:?}", other),
    };

    let call = state
        .prepare_call(vec![
            Item::Relative(RelativeValue::new(-2)),
            Item::Value(LuaValue::Number(10f64.to_bits())),
            Item::Value(LuaValue::Number(12f64.to_bits())),
        ])
        .unwrap();
    let frame = state.open_frame(&call);
    assert_eq!(state.get_top(), 3);
    let (a, b) = match state.enter(&sum) {
        Some(Invocation::Typed { receiver: Some(LuaValue::UserData(0)), args }) => {
            match (&args[0], &args[1]) {
                (LuaValue::Number(a), LuaValue::Number(b)) => (f64::from_bits(*a), f64::from_bits(*b)),
                other => panic!("not numbers: {:?}", other),
            }
        }
        other => panic!("not an instance call: {:?}", other),
    };
    let returned = Returned::Values(vec![Item::Value(LuaValue::Number((a + b).to_bits()))]);
    let count = state.leave(&sum, returned);
    assert_eq!(count, 1);
    let (call, outcome) = state.close_frame(frame, count);
    assert_eq!(state.get_top(), 2);
    let result = state.protected_call(call, &vec![Kind::Float], outcome).unwrap();
    assert_eq!(result, vec![LuaValue::Number(22f64.to_bits())]);
    assert_eq!(f64::from_bits(22f64.to_bits()), 22.0);
    assert_eq!(state.get_top(), 2);
    assert_eq!(state.decode(Kind::Float, -1), Some(LuaValue::Number(22f64.to_bits())));
}

#[test]
fn frames_nest() {
    let mut engine = Engine::new();
    for i in 0..5 {
        engine.put(LuaValue::Integer(i));
    }
    let mut state = State::from_raw(engine);
    let outer = state.open_frame(&Call { nargs: 3 });
    assert_eq!(state.get_top(), 3);
    assert_eq!(state.cast_to::<i32>(1), Some(2));
    let inner = state.open_frame(&Call { nargs: 1 });
    assert_eq!(state.get_top(), 1);
    assert_eq!(state.cast_to::<i32>(1), Some(4));
    assert_eq!(state.cast_to::<i32>(-2), None);
    state.push(40);
    let (call, outcome) = state.close_frame(inner, 1);
    assert_eq!(call, Call { nargs: 0 });
    assert_eq!(outcome, CallOutcome::Returned(vec![LuaValue::Integer(40)]));
    assert_eq!(state.get_top(), 2);
    assert_eq!(state.cast_to::<i32>(-1), Some(3));
    let (_, outcome) = state.close_frame(outer, 2);
    assert_eq!(outcome, CallOutcome::Returned(vec![LuaValue::Integer(2), LuaValue::Integer(3)]));
    assert_eq!(state.get_top(), 2);
    assert_eq!(state.cast_to::<i32>(-1), Some(1));
}
