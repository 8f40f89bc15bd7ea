use gmod::consts::{LUA_ERRERR, LUA_ERRFILE, LUA_ERRMEM, LUA_ERRRUN, LUA_ERRSYNTAX, LUA_OK, LUA_YIELD};
use gmod::error::{reads_message, LuaError};

#[test]
fn memory_and_handler_errors_read_no_message() {
    assert!(!reads_message(LUA_ERRMEM));
    assert!(!reads_message(LUA_ERRERR));
    assert_eq!(LuaError::from_status(LUA_ERRMEM, Some("ignored".to_string())), LuaError::MemoryAllocationError);
    assert_eq!(LuaError::from_status(LUA_ERRERR, Some("ignored".to_string())), LuaError::ErrorHandlerError);
    assert_eq!(LuaError::from_status(LUA_ERRMEM, None), LuaError::MemoryAllocationError);
}

#[test]
fn syntax_runtime_and_file_errors_carry_the_message() {
    assert!(reads_message(LUA_ERRSYNTAX));
    assert!(reads_message(LUA_ERRRUN));
    assert!(reads_message(LUA_ERRFILE));
    assert_eq!(
        LuaError::from_status(LUA_ERRSYNTAX, Some("unexpected symbol".to_string())),
        LuaError::SyntaxError(Some("unexpected symbol".to_string()))
    );
    assert_eq!(
        LuaError::from_status(LUA_ERRRUN, Some("boom".to_string())),
        LuaError::RuntimeError(Some("boom".to_string()))
    );
    assert_eq!(
        LuaError::from_status(LUA_ERRFILE, Some("missing.lua".to_string())),
        LuaError::FileError(Some("missing.lua".to_string()))
    );
}

#[test]
fn failed_message_extraction_leaves_the_message_out() {
    assert_eq!(LuaError::from_status(LUA_ERRSYNTAX, None), LuaError::SyntaxError(None));
    assert_eq!(LuaError::from_status(LUA_ERRRUN, None), LuaError::RuntimeError(None));
    assert_eq!(LuaError::from_status(LUA_ERRFILE, None), LuaError::FileError(None));
}

#[test]
fn unknown_codes_keep_the_raw_value() {
    assert!(!reads_message(42));
    assert_eq!(LuaError::from_status(42, Some("x".to_string())), LuaError::Unknown(42));
    assert_eq!(LuaError::from_status(-7, None), LuaError::Unknown(-7));
    assert_eq!(LuaError::from_status(LUA_OK, None), LuaError::Unknown(0));
    assert_eq!(LuaError::from_status(LUA_YIELD, None), LuaError::Unknown(1));
}

#[test]
fn descriptions() {
    assert_eq!(LuaError::MemoryAllocationError.describe(), "Out of memory");
    assert_eq!(LuaError::SyntaxError(Some("near 'end'".to_string())).describe(), "Syntax error: near 'end'");
    assert_eq!(LuaError::SyntaxError(None).describe(), "Syntax error");
    assert_eq!(LuaError::FileError(Some("a.lua".to_string())).describe(), "File error: a.lua");
    assert_eq!(LuaError::FileError(None).describe(), "File error");
    assert_eq!(LuaError::RuntimeError(Some("attempt to call nil".to_string())).describe(), "attempt to call nil");
    assert_eq!(LuaError::RuntimeError(None).describe(), "Runtime error");
    assert_eq!(LuaError::ErrorHandlerError.describe(), "Error handler error");
    assert_eq!(LuaError::Unknown(-12).describe(), "Unknown Lua error code: -12");
    assert_eq!(LuaError::Unknown(99).describe(), "Unknown Lua error code: 99");
}
