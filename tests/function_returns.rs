use gmod::error::{debug_string, LuaError};
use gmod::function_return::{DisplayLuaError, HandleLuaFunctionReturn};

#[test]
fn counts_pass_through() {
    assert_eq!(3i32.handle_result(), Ok(3));
    assert_eq!(Ok::<i32, String>(2).handle_result(), Ok(2));
    assert_eq!(Ok::<(), String>(()).handle_result(), Ok(0));
}

#[test]
fn errors_become_their_debug_text() {
    assert_eq!(Err::<i32, String>("bad input".to_string()).handle_result(), Err("\"bad input\"".to_string()));
    assert_eq!(
        Err::<(), LuaError>(LuaError::RuntimeError(None)).handle_result(),
        Err("RuntimeError(None)".to_string())
    );
    assert_eq!(LuaError::MemoryAllocationError.display_lua_error(), "MemoryAllocationError");
}

#[test]
fn debug_text_matches_derived_debug() {
    let errors = vec![
        LuaError::MemoryAllocationError,
        LuaError::SyntaxError(Some("near 'end'".to_string())),
        LuaError::SyntaxError(None),
        LuaError::FileError(Some("a\\b.lua".to_string())),
        LuaError::FileError(None),
        LuaError::RuntimeError(Some("say \"hi\"\n".to_string())),
        LuaError::RuntimeError(None),
        LuaError::ErrorHandlerError,
        LuaError::Unknown(-12),
        LuaError::Unknown(7),
    ];
    for e in errors {
        assert_eq!(e.debug_text(), format!("{:?}", e));
        assert_eq!(e.display_lua_error(), format!("{:?}", e));
    }
}

#[test]
fn strings_are_quoted_and_escaped() {
    assert_eq!(debug_string(&"tab\there".to_string()), "\"tab\\there\"");
    assert_eq!("x\"y".to_string().display_lua_error(), "\"x\\\"y\"");
}
