use vstd::prelude::*;

use crate::error::{debug_quoted, debug_string, LuaError};

verus! {

/// Errors that a native function can report to the VM as text.
pub trait DisplayLuaError {
    /// The text raised in the VM for this error.
    spec fn spec_lua_error_text(&self) -> Seq<char>;

    /// The text raised in the VM for this error: its `Debug` rendering.
    fn display_lua_error(&self) -> (r: String)
        ensures
            r@ == self.spec_lua_error_text(),
    ;
}

impl DisplayLuaError for LuaError {
    open spec fn spec_lua_error_text(&self) -> Seq<char> {
        self.spec_debug_text()
    }

    fn display_lua_error(&self) -> (r: String) {
        self.debug_text()
    }
}

impl DisplayLuaError for String {
    open spec fn spec_lua_error_text(&self) -> Seq<char> {
        debug_quoted(self@)
    }

    fn display_lua_error(&self) -> (r: String) {
        debug_string(self)
    }
}

/// What a native function may return: the number of results it left on the
/// stack, or an error to raise in the VM.
pub trait HandleLuaFunctionReturn: Sized {
    /// The number of results, or `None` when the value is an error.
    spec fn result_count(&self) -> Option<int>;

    /// The text raised in the VM when the value is an error.
    spec fn raised_text(&self) -> Seq<char>;

    /// The count to hand back to the VM, or the text of the error to raise.
    fn handle_result(self) -> (r: Result<i32, String>)
        ensures
            (r is Ok) == (self.result_count() is Some),
            r is Ok ==> r->Ok_0 as int == self.result_count()->Some_0,
            r is Err ==> r->Err_0@ == self.raised_text(),
    ;
}

impl HandleLuaFunctionReturn for i32 {
    open spec fn result_count(&self) -> Option<int> {
        Some(*self as int)
    }

    open spec fn raised_text(&self) -> Seq<char> {
        Seq::empty()
    }

    fn handle_result(self) -> (r: Result<i32, String>) {
        Ok(self)
    }
}

impl<E: DisplayLuaError> HandleLuaFunctionReturn for Result<i32, E> {
    open spec fn result_count(&self) -> Option<int> {
        match self {
            Ok(n) => Some(*n as int),
            Err(_) => None,
        }
    }

    open spec fn raised_text(&self) -> Seq<char> {
        match self {
            Ok(_) => Seq::empty(),
            Err(e) => e.spec_lua_error_text(),
        }
    }

    fn handle_result(self) -> (r: Result<i32, String>) {
        match self {
            Ok(n) => Ok(n),
            Err(e) => Err(e.display_lua_error()),
        }
    }
}

impl<E: DisplayLuaError> HandleLuaFunctionReturn for Result<(), E> {
    open spec fn result_count(&self) -> Option<int> {
        match self {
            Ok(_) => Some(0),
            Err(_) => None,
        }
    }

    open spec fn raised_text(&self) -> Seq<char> {
        match self {
            Ok(_) => Seq::empty(),
            Err(e) => e.spec_lua_error_text(),
        }
    }

    fn handle_result(self) -> (r: Result<i32, String>) {
        match self {
            Ok(_) => Ok(0),
            Err(e) => Err(e.display_lua_error()),
        }
    }
}

} // verus!
