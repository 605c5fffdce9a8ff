use lua_bridge::call::{Call, CallOutcome};
use lua_bridge::codegen::generate_impl;
use lua_bridge::engine::Object;
use lua_bridge::function::LuaFunction;
use lua_bridge::is_type::AnyUserData;
use lua_bridge::kind::Kind;
use lua_bridge::state::State;
use lua_bridge::syntax::{FnParam, Function, Impl, Token};
use lua_bridge::to_lua::{Instance, Item, RelativeValue};
use lua_bridge::trampoline::{Invocation, Returned};
use lua_bridge::user_data::UserData;
use lua_bridge::value::LuaValue;

fn float(x: f64) -> LuaValue {
    LuaValue::Number(x.to_bits())
}

fn as_f64(value: &LuaValue) -> f64 {
    match value {
        LuaValue::Integer(i) => *i as f64,
        LuaValue::Number(bits) => f64::from_bits(*bits),
        other => panic!("not a number: {:?}", other),
    }
}

fn ident(name: &str) -> Vec<Token> {
    vec![Token::Ident(name.to_string())]
}

fn state_ref() -> Vec<Token> {
    vec![Token::Punct('&'), Token::Ident("State".to_string())]
}

fn method(name: &str, public: bool, params: Vec<FnParam>, return_ty: Option<Vec<Token>>) -> Function {
    Function { name: name.to_string(), public, asynchronous: false, params, return_ty }
}

fn receiver(mutable: bool) -> FnParam {
    FnParam::Receiver { by_reference: true, mutable }
}

fn typed(ty: Vec<Token>) -> FnParam {
    FnParam::Typed { ty }
}

fn text(s: &str) -> LuaValue {
    LuaValue::String(s.to_string())
}

fn whole(i: i64) -> Item {
    Item::Value(LuaValue::Integer(i))
}

fn class_of(name: &str, methods: Vec<Function>) -> UserData {
    generate_impl(&Impl { self_ty: name.to_string(), methods }).unwrap()
}

fn instance(class: &UserData, bytes: Vec<u8>) -> Item {
    Item::Object(Instance { class: class.clone(), bytes })
}

/// Plays the engine for a chunk that defines one global function: the
/// function becomes a value of the engine under its name.
fn run(state: &mut State, source: &str) -> Result<(), lua_bridge::error::Error> {
    let name = source
        .strip_prefix("function ")
        .and_then(|rest| rest.split('(').next())
        .unwrap_or_else(|| panic!("not a function definition: {}", source));
    state.set_global(name, Item::Value(LuaValue::Closure(1)));
    state.do_string(CallOutcome::Returned(vec![]))
}

/// Plays the engine for a call of a native function: gives the callee its
/// frame, runs the trampoline around `host`, and gives the stack back.
fn dispatch(
    state: &mut State,
    function: &LuaValue,
    call: Call,
    host: impl FnOnce(&mut State, Invocation) -> Returned,
) -> (Call, CallOutcome) {
    let raw = match function {
        LuaValue::Function(raw) => *raw,
        other => panic!("not a native function: {:?}", other),
    };
    let frame = state.open_frame(&call);
    let entry = state.method(raw).unwrap().clone();
    let invocation = state.enter(&entry).unwrap();
    let returned = host(state, invocation);
    let count = state.leave(&entry, returned);
    state.close_frame(frame, count)
}

#[test]
fn push_int() {
    let mut state = State::new();
    state.push(10 as i32);
    state.push(20 as i64);

    assert!(state.get_top() == 2);
    assert_eq!(state.cast_to::<i32>(-2).unwrap(), 10);
    assert_eq!(as_f64(&state.decode(Kind::Float, -1).unwrap()), 20.0);
}

#[test]
fn push_float() {
    let mut state = State::new();
    state.push(float((10.5 as f32) as f64));
    state.push(float(9.8 as f64));

    assert!(state.get_top() == 2);
    assert_eq!(as_f64(&state.decode(Kind::Float, -2).unwrap()), 10.5 as f64);
    assert_eq!(as_f64(&state.decode(Kind::Float, -1).unwrap()), 9.8 as f64);
}

#[test]
fn push_string() {
    let mut state = State::new();
    let name = "Soreto".to_string();

    state.push(name.as_str());
    state.push(name.clone());

    assert_eq!(state.get_top(), 2);
    assert_eq!(state.cast_to::<&str>(-2).unwrap(), name.as_str());
    assert_eq!(state.cast_to::<&str>(-1).unwrap(), name.as_str());
}

#[test]
fn protected_call_with_single_return_arg() {
    let mut state = State::new();
    run(&mut state, "function sum(a, b) return a + b end").unwrap();
    state.get_global("sum", Kind::LuaFunction);

    let call = state.prepare_call(vec![whole(2), whole(3)]).unwrap();
    let a = state.cast_to::<i32>(-2).unwrap();
    let b = state.cast_to::<i32>(-1).unwrap();
    let outcome = CallOutcome::Returned(vec![LuaValue::Integer((a + b) as i64)]);
    let result = state.protected_call(call, &vec![Kind::Integer], outcome);
    assert!(result.is_ok());
    assert_eq!(result.unwrap(), vec![LuaValue::Integer(5)]);
}

#[test]
fn calling_lua_from_rust_multiple_return() {
    let mut state = State::new();
    run(&mut state, "function double(a, b) return a * 2, b * 2 end").unwrap();

    state.get_global("double", Kind::LuaFunction);
    let option = LuaFunction::from_lua(&state, -1, vec![Kind::Integer, Kind::Integer]);
    assert!(option.is_some());

    let double = option.unwrap();
    let call = double.prepare(&mut state, vec![whole(4), whole(8)]).unwrap();
    let a = state.cast_to::<i32>(-2).unwrap() as i64;
    let b = state.cast_to::<i32>(-1).unwrap() as i64;
    let outcome = CallOutcome::Returned(vec![LuaValue::Integer(a * 2), LuaValue::Integer(b * 2)]);
    let result = double.call(&mut state, call, outcome);
    assert!(result.is_ok());
    assert_eq!(result.unwrap(), vec![LuaValue::Integer(8), LuaValue::Integer(16)]);
}

#[test]
fn calling_lua_from_rust_single_return() {
    let mut state = State::new();
    run(&mut state, "function double(a) return a * 2 end").unwrap();

    state.get_global("double", Kind::LuaFunction);
    let double = LuaFunction::from_lua(&state, -1, vec![Kind::Integer]).unwrap();
    let call = double.prepare(&mut state, vec![whole(10)]).unwrap();
    let a = state.cast_to::<i32>(-1).unwrap() as i64;
    let result = double.call(&mut state, call, CallOutcome::Returned(vec![LuaValue::Integer(a * 2)]));
    assert!(result.is_ok());
    assert_eq!(result.unwrap(), vec![LuaValue::Integer(20)]);
}

#[test]
fn push_bool() {
    let mut state = State::new();
    state.push(false);
    state.push(true);

    assert_eq!(state.get_top(), 2);
    assert_eq!(state.cast_to::<bool>(-2).unwrap(), false);
    assert_eq!(state.cast_to::<bool>(-1).unwrap(), true);
}

#[test]
fn push_tuple_with_different_types() {
    let mut state = State::new();
    state.push_tuple(vec![whole(10), Item::Value(LuaValue::Bool(false)), Item::Value(text("soreto"))]);

    assert_eq!(state.get_top(), 3);
    assert_eq!(as_f64(&state.decode(Kind::Float, -3).unwrap()), 10.0);
    assert_eq!(state.cast_to::<bool>(-2).unwrap(), false);
    assert_eq!(state.cast_to::<&str>(-1).unwrap(), "soreto");
}

#[test]
fn push_tuples_2() {
    let mut state = State::new();
    state.push_tuple(vec![whole(10), whole(20)]);

    assert_eq!(state.get_top(), 2);
    assert_eq!(as_f64(&state.decode(Kind::Float, -2).unwrap()), 10.0);
    assert_eq!(as_f64(&state.decode(Kind::Float, -1).unwrap()), 20.0);
}

#[test]
fn push_tuples_3() {
    let mut state = State::new();
    state.push_tuple(vec![whole(10), whole(20), whole(30)]);

    assert_eq!(state.get_top(), 3);
    assert_eq!(as_f64(&state.decode(Kind::Float, -3).unwrap()), 10.0);
    assert_eq!(as_f64(&state.decode(Kind::Float, -2).unwrap()), 20.0);
    assert_eq!(as_f64(&state.decode(Kind::Float, -1).unwrap()), 30.0);
}

#[test]
fn tuple_from_lua() {
    let value = vec![LuaValue::Integer(10), LuaValue::Integer(20), LuaValue::Integer(30)];
    let mut state = State::new();
    state.push_tuple(value.iter().cloned().map(Item::Value).collect());

    let result = state.cast_to_tuple(&vec![Kind::Integer, Kind::Integer, Kind::Integer], 1);
    assert!(result.is_some());
    assert_eq!(result.unwrap(), value);
}

#[test]
fn mixed_tuple_from_lua() {
    let value = vec![LuaValue::Integer(10), LuaValue::Bool(false), text("soreto")];
    let mut state = State::new();
    state.push_tuple(value.iter().cloned().map(Item::Value).collect());

    let result = state.cast_to_tuple(&vec![Kind::Integer, Kind::Boolean, Kind::Text], 1);
    assert!(result.is_some());
    assert_eq!(result.unwrap(), value);
}

#[test]
fn take_user_data_ref_from_stack() {
    let class = class_of(
        "Test",
        vec![
            method("foo", true, vec![receiver(true), typed(state_ref())], Some(ident("i32"))),
            method("bar", false, vec![receiver(false)], Some(ident("i32"))),
        ],
    );

    let mut state = State::new();
    state.push(instance(&class, vec![123]));

    let result = state.cast_to::<&Object>(-1);
    assert!(result.is_some());
    assert_eq!(result.unwrap().bytes, vec![123]);
}

#[test]
fn push_user_data() {
    let class = class_of(
        "Math",
        vec![
            method("new", true, vec![typed(state_ref())], Some(ident("usize"))),
            method("sum", true, vec![typed(state_ref())], Some(ident("usize"))),
        ],
    );

    let mut state = State::new();
    state.push(instance(&class, vec![]));

    assert_eq!(state.get_top(), 1);
    assert!(state.is::<Object>(-1));
    assert!(state.is::<AnyUserData>(-1));

    let option = state.get_field(-1, "sum", Kind::LuaFunction);
    assert!(option.is_some());

    let sum = option.unwrap();
    let handle = LuaFunction::from_lua(&state, -1, vec![Kind::Float]).unwrap();
    let call = handle
        .prepare(&mut state, vec![Item::Value(float(10.0)), Item::Value(float(12.0))])
        .unwrap();
    let (call, outcome) = dispatch(&mut state, &sum, call, |state, invocation| {
        assert_eq!(invocation, Invocation::Raw { receiver: None });
        let a = as_f64(&state.decode(Kind::Float, -2).unwrap());
        let b = as_f64(&state.decode(Kind::Float, -1).unwrap());
        state.push(float(a + b));
        Returned::Count(1)
    });
    let result = handle.call(&mut state, call, outcome);
    assert!(result.is_ok());
    assert_eq!(as_f64(&result.unwrap()[0]), 22.0);
}

#[test]
fn proc_macro_pub_raw_function() {
    let class = class_of(
        "Test",
        vec![method("foo", true, vec![receiver(true), typed(state_ref())], Some(ident("i32")))],
    );

    assert_eq!(class.name, "Test");

    let funcs = &class.functions;
    assert!(funcs.len() > 0);

    assert_eq!(funcs[0].name, "foo");

    let mut state = State::new();
    state.push(instance(&class, vec![]));
    let option = state.get_field(-1, "foo", Kind::LuaFunction);
    assert!(option.is_some());

    let foo = option.unwrap();
    let handle = LuaFunction::from_lua(&state, -1, vec![Kind::Boolean, Kind::Float]).unwrap();
    let call = handle
        .prepare(&mut state, vec![Item::Relative(RelativeValue::new(-2)), whole(2), whole(3)])
        .unwrap();
    let (call, outcome) = dispatch(&mut state, &foo, call, |state, _| {
        let is_user_data = state.is_kind(Kind::UserData, 1);
        state.push(is_user_data);

        let a = state.decode(Kind::Float, 2).map(|v| as_f64(&v)).unwrap_or(0.0);
        let b = state.decode(Kind::Float, 3).map(|v| as_f64(&v)).unwrap_or(0.0);
        state.push(float(a + b));

        Returned::Count(2)
    });
    let result = handle.call(&mut state, call, outcome);
    assert!(result.is_ok());
    let values = result.unwrap();
    assert_eq!(values[0], LuaValue::Bool(true));
    assert_eq!(as_f64(&values[1]), 5.0);
}

#[test]
fn proc_macro_pub_function() {
    let class = class_of(
        "Test",
        vec![method("twice", true, vec![typed(ident("i32"))], Some(ident("i32")))],
    );
    assert_eq!(class.functions.len(), 1);
    assert_eq!(class.functions[0].name, "twice");
    assert!(!class.functions[0].info.is_method());
    assert!(!class.functions[0].info.is_raw());

    let mut state = State::new();
    state.push(instance(&class, vec![]));
    let twice = state.get_field(-1, "twice", Kind::NativeFunction).unwrap();
    let call = state.prepare_call(vec![whole(21)]).unwrap();
    let (call, outcome) = dispatch(&mut state, &twice, call, |_, invocation| match invocation {
        Invocation::Typed { receiver: None, args } => match &args[0] {
            LuaValue::Integer(i) => Returned::Values(vec![whole(*i * 2)]),
            other => panic!("not an integer: {:?}", other),
        },
        other => panic!("not a static call: {:?}", other),
    });
    let result = state.protected_call(call, &vec![Kind::Integer], outcome);
    assert_eq!(result.unwrap(), vec![LuaValue::Integer(42)]);
}

#[test]
fn proc_macro_pub_method_manual_impl() {
    let class = UserData {
        name: "Test".to_string(),
        functions: vec![lua_bridge::user_data::Method {
            name: "foo".to_string(),
            info: lua_bridge::classify::MethodInfo {
                receiver: Some(false),
                signature: Some(lua_bridge::classify::Signature {
                    args: 2,
                    result: lua_bridge::classify::ValueKind::Single,
                }),
            },
            args: vec![Kind::Integer, Kind::Integer],
        }],
    };

    let mut state = State::new();
    state.push(instance(&class, vec![2]));
    let option = state.get_field(-1, "foo", Kind::LuaFunction);
    assert!(option.is_some());

    let foo = option.unwrap();
    let handle = LuaFunction::from_lua(&state, -1, vec![Kind::Integer]).unwrap();
    let call = handle
        .prepare(&mut state, vec![Item::Relative(RelativeValue::new(-2)), whole(2), whole(3)])
        .unwrap();
    let (call, outcome) = dispatch(&mut state, &foo, call, |state, invocation| match invocation {
        Invocation::Typed { receiver: Some(LuaValue::UserData(id)), args } => {
            let a = state.engine().object(id).unwrap().bytes[0] as i64;
            match (&args[0], &args[1]) {
                (LuaValue::Integer(b), LuaValue::Integer(c)) => Returned::Values(vec![whole(a + b + c)]),
                other => panic!("not integers: {:?}", other),
            }
        }
        other => panic!("not an instance call: {:?}", other),
    });
    let result = handle.call(&mut state, call, outcome);
    assert!(result.is_ok());
    assert_eq!(result.unwrap(), vec![LuaValue::Integer(2 + 2 + 3)]);
}

#[test]
fn proc_macro_pub_method() {
    let class = class_of(
        "Test",
        vec![method(
            "foo",
            true,
            vec![receiver(false), typed(ident("i32")), typed(ident("i32"))],
            Some(ident("i32")),
        )],
    );

    let mut state = State::new();
    state.push(instance(&class, vec![]));
    let foo = state.get_field(-1, "foo", Kind::LuaFunction).unwrap();

    let call = state
        .prepare_call(vec![Item::Relative(RelativeValue::new(-2)), whole(2), whole(3)])
        .unwrap();
    let (call, outcome) = dispatch(&mut state, &foo, call, |_, invocation| match invocation {
        Invocation::Typed { receiver: Some(_), args } => match (&args[0], &args[1]) {
            (LuaValue::Integer(a), LuaValue::Integer(b)) => Returned::Values(vec![whole(a + b)]),
            other => panic!("not integers: {:?}", other),
        },
        other => panic!("not an instance call: {:?}", other),
    });
    let result = state.protected_call(call, &vec![Kind::Integer], outcome);
    assert!(result.is_ok());
    assert_eq!(result.unwrap(), vec![LuaValue::Integer(2 + 3)]);
}
