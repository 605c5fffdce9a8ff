use lua_bridge::error::Error;

#[test]
fn runtime_error_shows_engine_message() {
    let e = Error::LuaRuntimeError("boom".to_string());
    assert_eq!(e.message(), "boom");
}

#[test]
fn invalid_function_has_fixed_message() {
    assert_eq!(Error::InvalidFunction.message(), "Thing at the top is not a function.");
}
