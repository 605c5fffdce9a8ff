use lua_bridge::classify::{
    classify, get_value_kind, is_raw_func, is_self_param, is_state_param, params_info, parse_args,
    parse_result, ClassifyError, FunctionKind, MethodInfo, Signature, ValueKind,
};
use lua_bridge::codegen::{generate_impl, generate_user_data_impl, try_generate_method, GenerateError};
use lua_bridge::kind::{same_text, Kind};
use lua_bridge::syntax::{contains, match_punct_char, FnParam, Function, Impl, Token};
use lua_bridge::tuple_impl::{
    gen_cast, gen_return_value, generate_from_lua_tuple_impl, generate_to_lua_tuple_impl, Cast,
    MAX_ARITY, MIN_ARITY,
};

fn tokens(source: &str) -> Vec<Token> {
    source
        .split_whitespace()
        .map(|word| {
            let mut chars = word.chars();
            let first = chars.next().unwrap();
            if chars.next().is_none() && !first.is_alphanumeric() {
                Token::Punct(first)
            } else {
                Token::Ident(word.to_string())
            }
        })
        .collect()
}

fn receiver(mutable: bool) -> FnParam {
    FnParam::Receiver { by_reference: true, mutable }
}

fn typed(source: &str) -> FnParam {
    FnParam::Typed { ty: tokens(source) }
}

fn function(name: &str, params: Vec<FnParam>, return_ty: Option<&str>) -> Function {
    Function {
        name: name.to_string(),
        public: true,
        asynchronous: false,
        params,
        return_ty: return_ty.map(tokens),
    }
}

fn typed_call(receiver: Option<bool>, args: usize, result: ValueKind) -> Option<MethodInfo> {
    Some(MethodInfo { receiver, signature: Some(Signature { args, result }) })
}

#[test]
fn a_lone_receiver_is_an_instance_method_without_arguments() {
    let info = params_info(&function("get", vec![receiver(false)], Some("i32"))).unwrap();
    assert_eq!(Some(info), typed_call(Some(false), 0, ValueKind::Single));
    assert_eq!(info.kind(), FunctionKind::Method);
    assert!(info.is_method() && !info.is_raw() && !info.is_mut());
    assert!(!info.has_args() && info.has_return_value());

    let info = params_info(&function("reset", vec![receiver(true)], None)).unwrap();
    assert_eq!(Some(info), typed_call(Some(true), 0, ValueKind::Nothing));
    assert!(info.is_mut() && !info.has_args() && !info.has_return_value());
}

#[test]
fn a_lone_stack_handle_is_a_raw_static_function() {
    for handle in ["& State", "& LuaState", "* mut lua_State", "* const lua_State"] {
        let info = params_info(&function("new", vec![typed(handle)], Some("i32"))).unwrap();
        assert_eq!(info, MethodInfo { receiver: None, signature: None }, "for {}", handle);
        assert_eq!(info.kind(), FunctionKind::StaticRaw);
        assert!(info.is_raw() && !info.is_method() && !info.is_mut());
        assert!(!info.has_args() && !info.has_return_value());
    }
}

#[test]
fn a_receiver_and_the_stack_handle_are_a_raw_instance_method() {
    let info = params_info(&function("sum", vec![receiver(true), typed("& State")], Some("usize")));
    assert_eq!(info, Some(MethodInfo { receiver: Some(true), signature: None }));
    assert_eq!(info.unwrap().kind(), FunctionKind::Raw);
    let info = params_info(&function("sum", vec![receiver(false), typed("& State")], None));
    assert_eq!(info, Some(MethodInfo { receiver: Some(false), signature: None }));
}

#[test]
fn a_receiver_and_arguments_are_an_instance_method() {
    let info = params_info(&function("foo", vec![receiver(false), typed("i32")], None));
    assert_eq!(info, typed_call(Some(false), 1, ValueKind::Nothing));
    let info = params_info(&function(
        "foo",
        vec![receiver(true), typed("i32"), typed("& str"), typed("bool")],
        Some("( i32 , bool )"),
    ));
    assert_eq!(info, typed_call(Some(true), 3, ValueKind::Multiple(2)));
    assert!(info.unwrap().has_args() && info.unwrap().has_return_value());
    // The handle among other arguments is an argument like any other.
    let info = params_info(&function("foo", vec![receiver(true), typed("& State"), typed("i32")], None));
    assert_eq!(info, typed_call(Some(true), 2, ValueKind::Nothing));
}

#[test]
fn a_list_without_a_receiver_is_a_static_function() {
    let info = params_info(&function("zero", vec![], None));
    assert_eq!(info, typed_call(None, 0, ValueKind::Nothing));
    assert_eq!(info.unwrap().kind(), FunctionKind::Static);
    let info = params_info(&function("twice", vec![typed("i32")], Some("i32")));
    assert_eq!(info, typed_call(None, 1, ValueKind::Single));
    let info = params_info(&function("add", vec![typed("i32"), typed("i32")], Some("i32")));
    assert_eq!(info, typed_call(None, 2, ValueKind::Single));
    let info = params_info(&function("two", vec![typed("& State"), typed("& State")], None));
    assert_eq!(info, typed_call(None, 2, ValueKind::Nothing));
}

#[test]
fn a_misplaced_or_moved_receiver_fits_no_convention() {
    let by_value = FnParam::Receiver { by_reference: false, mutable: false };
    assert_eq!(params_info(&function("take", vec![by_value.clone()], None)), None);
    assert_eq!(params_info(&function("take", vec![by_value.clone(), typed("i32")], None)), None);
    assert_eq!(params_info(&function("odd", vec![typed("i32"), receiver(false)], None)), None);
    assert_eq!(params_info(&function("odd", vec![receiver(false), receiver(false)], None)), None);
    assert_eq!(
        classify(&function("take", vec![by_value], None)),
        Err(ClassifyError::Shape)
    );
}

#[test]
fn private_methods_are_passed_over_and_async_ones_refused() {
    let mut private = function("hidden", vec![receiver(false)], None);
    private.public = false;
    assert_eq!(classify(&private), Ok(None));
    private.asynchronous = true;
    assert_eq!(classify(&private), Ok(None));

    let mut waits = function("wait", vec![receiver(false)], None);
    waits.asynchronous = true;
    assert_eq!(classify(&waits), Err(ClassifyError::Asynchronous));
    assert_eq!(try_generate_method(&waits), Err(ClassifyError::Asynchronous));

    let plain = function("get", vec![receiver(false)], None);
    assert_eq!(classify(&plain), Ok(typed_call(Some(false), 0, ValueKind::Nothing)));
}

#[test]
fn receivers_and_handles_are_told_apart() {
    assert_eq!(is_self_param(&receiver(true)), Some(true));
    assert_eq!(is_self_param(&receiver(false)), Some(false));
    assert_eq!(is_self_param(&FnParam::Receiver { by_reference: false, mutable: true }), None);
    assert_eq!(is_self_param(&typed("i32")), None);

    assert!(is_state_param(&tokens("& State")));
    assert!(is_state_param(&tokens("& MyStateHandle")));
    assert!(!is_state_param(&tokens("& mut State")));
    assert!(!is_state_param(&tokens("State")));
    assert!(!is_state_param(&tokens("& state")));
    assert!(!is_state_param(&tokens("* State")));
    assert!(!is_state_param(&vec![]));
    assert!(!is_state_param(&vec![Token::Punct('&'), Token::Literal("State".to_string())]));

    assert!(is_raw_func(&function("f", vec![typed("* mut lua_State")], None)));
    assert!(!is_raw_func(&function("f", vec![typed("& State")], None)));
    assert!(!is_raw_func(&function("f", vec![receiver(false)], None)));
    assert!(!is_raw_func(&function("f", vec![typed("* mut x"), typed("i32")], None)));
    assert!(!is_raw_func(&function("f", vec![], None)));
}

#[test]
fn a_type_stands_for_as_many_slots_as_it_has_elements() {
    assert_eq!(get_value_kind(&vec![]), ValueKind::Nothing);
    assert_eq!(get_value_kind(&tokens("( )")), ValueKind::Nothing);
    assert_eq!(get_value_kind(&tokens("i32")), ValueKind::Single);
    assert_eq!(get_value_kind(&tokens("& str")), ValueKind::Single);
    assert_eq!(get_value_kind(&tokens("( i32 )")), ValueKind::Single);
    assert_eq!(get_value_kind(&tokens("( i32 , )")), ValueKind::Multiple(1));
    assert_eq!(get_value_kind(&tokens("( i32 , bool )")), ValueKind::Multiple(2));
    assert_eq!(get_value_kind(&tokens("( i32 , bool , )")), ValueKind::Multiple(2));
    assert_eq!(get_value_kind(&tokens("( A , B , C )")), ValueKind::Multiple(3));
    assert_eq!(get_value_kind(&tokens("( ( A , B ) , C )")), ValueKind::Multiple(2));
    assert_eq!(get_value_kind(&tokens("( Map < K , V > , [ u8 ; 2 ] , C )")), ValueKind::Multiple(3));
    assert_eq!(get_value_kind(&tokens("Map < K , V >")), ValueKind::Single);
    assert_eq!(get_value_kind(&tokens("( fn ( ) - > i32 , u8 )")), ValueKind::Multiple(2));
    assert_eq!(get_value_kind(&tokens("( fn ( A , B ) - > C , )")), ValueKind::Multiple(1));

    assert_eq!(ValueKind::Nothing.len(), 0);
    assert_eq!(ValueKind::Single.len(), 1);
    assert_eq!(ValueKind::Multiple(7).len(), 7);

    assert_eq!(parse_result(&function("f", vec![], None)), ValueKind::Nothing);
    assert_eq!(parse_result(&function("f", vec![], Some("( i32 , i32 )"))), ValueKind::Multiple(2));
    assert_eq!(parse_args(&function("f", vec![], None)), None);
    assert_eq!(parse_args(&function("f", vec![receiver(false)], None)), Some(ValueKind::Single));
    assert_eq!(
        parse_args(&function("f", vec![receiver(false), typed("i32"), typed("i32")], None)),
        Some(ValueKind::Multiple(3))
    );
}

#[test]
fn types_select_their_protocol_by_spelling() {
    let cases = [
        ("i32", Some(Kind::Integer)),
        ("f32", Some(Kind::Float)),
        ("f64", Some(Kind::Float)),
        ("bool", Some(Kind::Boolean)),
        ("String", Some(Kind::Text)),
        ("& str", Some(Kind::Text)),
        ("( )", Some(Kind::Unit)),
        ("NativeFunction", Some(Kind::NativeFunction)),
        ("LuaFunction", Some(Kind::LuaFunction)),
        ("AnyLuaFunction", Some(Kind::LuaFunction)),
        ("AnyUserData", Some(Kind::AnyUserData)),
        ("LightUserData", Some(Kind::LightUserData)),
        ("Coroutine", Some(Kind::Coroutine)),
        ("Table", Some(Kind::Table)),
        ("& Point", Some(Kind::UserData)),
        ("& mut Point", Some(Kind::UserData)),
        ("Point", None),
        ("u8", None),
        ("& mut", None),
        ("& & Point", None),
        ("std : : string : : String", Some(Kind::Text)),
        ("crate : : Table", Some(Kind::Table)),
        (": : core : : primitive : : i32", Some(Kind::Integer)),
        ("& ' a Point", Some(Kind::UserData)),
        ("& ' a mut Point", Some(Kind::UserData)),
        ("& ' static str", Some(Kind::Text)),
        ("& mut str", Some(Kind::Text)),
        ("& crate : : shapes : : Point", Some(Kind::UserData)),
        ("& ' a mut crate : : Point", Some(Kind::UserData)),
        ("LuaFunction < ( i32 , i32 ) , i32 >", Some(Kind::LuaFunction)),
        ("RelativeValue < Test >", Some(Kind::UserData)),
        ("crate : : RelativeValue < Test >", Some(Kind::UserData)),
        ("Vec < i32 >", None),
        ("Vec < std : : string : : String >", None),
        ("& ' a", None),
        ("&", None),
        ("& [ u8 ]", None),
        ("std : :", None),
        ("' a", None),
        ("( i32 , i32 )", None),
        ("", None),
    ];
    for (source, kind) in cases {
        assert_eq!(Kind::of_type(&tokens(source)), kind, "for `{}`", source);
    }
}

#[test]
fn text_helpers_compare_and_search() {
    assert!(same_text("abc", "abc") && same_text("", ""));
    assert!(!same_text("abc", "abd") && !same_text("abc", "ab") && !same_text("", "a"));
    assert!(contains("LuaState", "State") && contains("State", "State") && contains("x", ""));
    assert!(contains("aaStatStatebb", "State"));
    assert!(!contains("Stat", "State") && !contains("", "State") && !contains("state", "State"));
    assert!(match_punct_char(&Token::Punct('&'), '&'));
    assert!(!match_punct_char(&Token::Punct('&'), '*'));
    assert!(!match_punct_char(&Token::Ident("&".to_string()), '&'));
}

#[test]
fn a_block_with_all_five_shapes_gets_one_entry_for_each_public_method() {
    let mut private = function("helper", vec![receiver(false), typed("i32")], None);
    private.public = false;
    let block = Impl {
        self_ty: "Shapes".to_string(),
        methods: vec![
            function("plain", vec![receiver(false)], Some("i32")),
            function("create", vec![typed("& State")], Some("i32")),
            private,
            function("raw", vec![receiver(true), typed("& State")], Some("i32")),
            function("add", vec![receiver(true), typed("i32"), typed("f64")], Some("f64")),
            function("make", vec![typed("bool"), typed("& str")], Some("( i32 , String )")),
        ],
    };
    let class = generate_impl(&block).unwrap();
    assert_eq!(class.name, "Shapes");
    let names: Vec<&str> = class.functions.iter().map(|m| m.name.as_str()).collect();
    assert_eq!(names, vec!["plain", "create", "raw", "add", "make"]);
    let kinds: Vec<FunctionKind> = class.functions.iter().map(|m| m.info.kind()).collect();
    assert_eq!(
        kinds,
        vec![
            FunctionKind::Method,
            FunctionKind::StaticRaw,
            FunctionKind::Raw,
            FunctionKind::Method,
            FunctionKind::Static,
        ]
    );
    assert_eq!(class.functions[0].args, vec![]);
    assert_eq!(class.functions[1].args, vec![]);
    assert_eq!(class.functions[2].args, vec![]);
    assert_eq!(class.functions[3].args, vec![Kind::Integer, Kind::Float]);
    assert_eq!(class.functions[4].args, vec![Kind::Boolean, Kind::Text]);
    assert_eq!(
        class.functions[4].info.signature,
        Some(Signature { args: 2, result: ValueKind::Multiple(2) })
    );
    assert_eq!(generate_user_data_impl(&block), Ok(class));
}

#[test]
fn the_first_method_that_cannot_be_exposed_fails_the_block() {
    let mut waits = function("wait", vec![receiver(false)], None);
    waits.asynchronous = true;
    let block = Impl {
        self_ty: "Bad".to_string(),
        methods: vec![
            function("fine", vec![receiver(false)], None),
            function("unknown", vec![receiver(false), typed("Widget")], None),
            waits.clone(),
        ],
    };
    assert_eq!(
        generate_impl(&block),
        Err(GenerateError { method: 1, reason: ClassifyError::ArgumentType })
    );
    let block = Impl { self_ty: "Bad".to_string(), methods: vec![waits] };
    assert_eq!(
        generate_impl(&block),
        Err(GenerateError { method: 0, reason: ClassifyError::Asynchronous })
    );
    let moved = FnParam::Receiver { by_reference: false, mutable: false };
    let block = Impl {
        self_ty: "Bad".to_string(),
        methods: vec![function("ok", vec![], None), function("take", vec![moved], None)],
    };
    assert_eq!(
        generate_impl(&block),
        Err(GenerateError { method: 1, reason: ClassifyError::Shape })
    );
    let mut hidden = function("same", vec![receiver(false)], None);
    hidden.public = false;
    let block = Impl {
        self_ty: "Bad".to_string(),
        methods: vec![
            hidden,
            function("same", vec![receiver(false)], None),
            function("other", vec![], None),
            function("same", vec![typed("i32")], None),
        ],
    };
    assert_eq!(
        generate_impl(&block),
        Err(GenerateError { method: 3, reason: ClassifyError::DuplicateName })
    );
    let empty = Impl { self_ty: "Empty".to_string(), methods: vec![] };
    assert_eq!(generate_impl(&empty).unwrap().functions.len(), 0);
}

#[test]
fn an_entry_is_made_for_a_public_method_only() {
    let mut hidden = function("bar", vec![receiver(false)], Some("i32"));
    hidden.public = false;
    assert_eq!(try_generate_method(&hidden), Ok(None));
    let entry = try_generate_method(&function("foo", vec![receiver(true), typed("& State")], Some("i32")))
        .unwrap()
        .unwrap();
    assert_eq!(entry.name, "foo");
    assert_eq!(entry.info, MethodInfo { receiver: Some(true), signature: None });
    assert!(entry.args.is_empty());
    assert_eq!(
        try_generate_method(&function("foo", vec![typed("Widget")], None)),
        Err(ClassifyError::ArgumentType)
    );
}

#[test]
fn tuple_protocols_exist_for_every_arity_from_two_to_twenty_four() {
    assert_eq!((MIN_ARITY, MAX_ARITY), (2, 24));
    let readers = generate_from_lua_tuple_impl();
    let writers = generate_to_lua_tuple_impl();
    assert_eq!(readers.len(), 23);
    assert_eq!(writers.len(), 23);
    for (k, (reader, writer)) in readers.iter().zip(writers.iter()).enumerate() {
        let n = k + 2;
        assert_eq!(reader.len, n);
        assert_eq!(writer.len, n);
        let letters: Vec<char> = ('A'..='Z').take(n).collect();
        let small: Vec<char> = ('a'..='z').take(n).collect();
        assert_eq!(reader.type_params, letters);
        assert_eq!(writer.type_params, letters);
        assert_eq!(reader.return_value, small);
        assert_eq!(writer.pushes, (0..n).collect::<Vec<usize>>());
        assert_eq!(reader.casts.len(), n);
        for (i, cast) in reader.casts.iter().enumerate() {
            assert_eq!(*cast, Cast { variable: small[i], ty: letters[i] });
        }
    }
    assert_eq!(readers[0].type_params, vec!['A', 'B']);
    assert_eq!(readers[22].type_params.last(), Some(&'X'));
}

#[test]
fn a_cast_is_named_after_its_letter() {
    assert_eq!(gen_cast('C'), Cast { variable: 'c', ty: 'C' });
    assert_eq!(gen_cast('c'), Cast { variable: 'c', ty: 'C' });
    assert_eq!(gen_cast('1'), Cast { variable: '1', ty: '1' });
    assert_eq!(gen_return_value('A'), vec!['a']);
    assert_eq!(gen_return_value('C'), vec!['a', 'b', 'c']);
    assert_eq!(gen_return_value('Z').len(), 26);
    assert_eq!(gen_return_value('@'), vec![]);
    assert_eq!(gen_return_value('0'), vec![]);
    assert_eq!(gen_return_value('\0'), vec![]);
}
