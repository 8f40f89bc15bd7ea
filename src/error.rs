use vstd::prelude::*;
use vstd::string::StringExecFns;

use crate::consts::{LUA_ERRERR, LUA_ERRFILE, LUA_ERRMEM, LUA_ERRRUN, LUA_ERRSYNTAX};
use crate::number::{decimal_i128, decimal_int};

verus! {

/// What the `Debug` formatting of a string gives for the characters `s`.
pub uninterp spec fn debug_quoted(s: Seq<char>) -> Seq<char>;

/// Relies on the `Debug` formatting of str: the text in double quotes, with
/// quotes, backslashes and unprintable characters escaped; it depends on the
/// characters alone.
#[verifier::external_body]
fn debug_quote(s: &str) -> (r: String)
    ensures
        r@ == debug_quoted(s@),
{
    format!("{:?}", s)
}

/// The `Debug` rendering of a string: quoted and escaped.
pub fn debug_string(s: &String) -> (r: String)
    ensures
        r@ == debug_quoted(s@),
{
    debug_quote(s.as_str())
}

/// The `Debug` rendering of an optional message.
pub open spec fn spec_debug_message(m: Option<String>) -> Seq<char> {
    match m {
        Some(text) => "Some("@ + debug_quoted(text@) + ")"@,
        None => "None"@,
    }
}

fn debug_message(m: &Option<String>) -> (r: String)
    ensures
        r@ == spec_debug_message(*m),
{
    match m {
        Some(text) => {
            let quoted = debug_string(text);
            String::from_str("Some(").concat(quoted.as_str()).concat(")")
        },
        None => String::from_str("None"),
    }
}

/// An error reported by the VM, classified by its raw status code.
#[derive(Debug, Clone, PartialEq, Eq)]
pub enum LuaError {
    /// Out of memory.
    MemoryAllocationError,
    /// A syntax error in loaded source code.
    SyntaxError(Option<String>),
    /// A file could not be loaded.
    FileError(Option<String>),
    /// A runtime error.
    RuntimeError(Option<String>),
    /// An error while running the error handler.
    ErrorHandlerError,
    /// A status code outside the known set.
    Unknown(i32),
}

/// Whether classifying `code` reads an error message from the top of the stack.
pub open spec fn status_reads_message(code: i32) -> bool {
    code == LUA_ERRSYNTAX || code == LUA_ERRRUN || code == LUA_ERRFILE
}

/// Whether classifying `code` reads an error message from the top of the stack:
/// only syntax, runtime and file errors carry one.
pub fn reads_message(code: i32) -> (r: bool)
    ensures
        r == status_reads_message(code),
{
    code == LUA_ERRSYNTAX || code == LUA_ERRRUN || code == LUA_ERRFILE
}

/// The text that an optional message contributes after a fixed prefix.
pub open spec fn with_detail(prefix: Seq<char>, message: Option<String>) -> Seq<char> {
    match message {
        Some(m) => prefix + ": "@ + m@,
        None => prefix,
    }
}

impl LuaError {
    /// The error that a status code stands for, given the message read for it.
    pub open spec fn spec_from_status(code: i32, message: Option<String>) -> LuaError {
        if code == LUA_ERRMEM {
            LuaError::MemoryAllocationError
        } else if code == LUA_ERRERR {
            LuaError::ErrorHandlerError
        } else if code == LUA_ERRSYNTAX {
            LuaError::SyntaxError(message)
        } else if code == LUA_ERRRUN {
            LuaError::RuntimeError(message)
        } else if code == LUA_ERRFILE {
            LuaError::FileError(message)
        } else {
            LuaError::Unknown(code)
        }
    }

    /// Classifies a raw status code. `message` is what was read from the top of
    /// the stack for codes that carry one (`None` when reading failed); it is
    /// ignored for the others.
    pub fn from_status(code: i32, message: Option<String>) -> (e: LuaError)
        ensures
            e == Self::spec_from_status(code, message),
    {
        if code == LUA_ERRMEM {
            LuaError::MemoryAllocationError
        } else if code == LUA_ERRERR {
            LuaError::ErrorHandlerError
        } else if code == LUA_ERRSYNTAX {
            LuaError::SyntaxError(message)
        } else if code == LUA_ERRRUN {
            LuaError::RuntimeError(message)
        } else if code == LUA_ERRFILE {
            LuaError::FileError(message)
        } else {
            LuaError::Unknown(code)
        }
    }

    /// The human-readable description of the error.
    pub open spec fn spec_describe(&self) -> Seq<char> {
        match self {
            LuaError::MemoryAllocationError => "Out of memory"@,
            LuaError::SyntaxError(m) => with_detail("Syntax error"@, *m),
            LuaError::FileError(m) => with_detail("File error"@, *m),
            LuaError::RuntimeError(Some(m)) => m@,
            LuaError::RuntimeError(None) => "Runtime error"@,
            LuaError::ErrorHandlerError => "Error handler error"@,
            LuaError::Unknown(code) => "Unknown Lua error code: "@ + decimal_int(*code as int),
        }
    }

    /// The `Debug` rendering of the error: the variant's name, followed by its
    /// field in parentheses.
    pub open spec fn spec_debug_text(&self) -> Seq<char> {
        match self {
            LuaError::MemoryAllocationError => "MemoryAllocationError"@,
            LuaError::SyntaxError(m) => "SyntaxError("@ + spec_debug_message(*m) + ")"@,
            LuaError::FileError(m) => "FileError("@ + spec_debug_message(*m) + ")"@,
            LuaError::RuntimeError(m) => "RuntimeError("@ + spec_debug_message(*m) + ")"@,
            LuaError::ErrorHandlerError => "ErrorHandlerError"@,
            LuaError::Unknown(code) => "Unknown("@ + decimal_int(*code as int) + ")"@,
        }
    }

    /// Renders the error as its `Debug` form.
    pub fn debug_text(&self) -> (s: String)
        ensures
            s@ == self.spec_debug_text(),
    {
        match self {
            LuaError::MemoryAllocationError => String::from_str("MemoryAllocationError"),
            LuaError::SyntaxError(m) => {
                let inner = debug_message(m);
                String::from_str("SyntaxError(").concat(inner.as_str()).concat(")")
            },
            LuaError::FileError(m) => {
                let inner = debug_message(m);
                String::from_str("FileError(").concat(inner.as_str()).concat(")")
            },
            LuaError::RuntimeError(m) => {
                let inner = debug_message(m);
                String::from_str("RuntimeError(").concat(inner.as_str()).concat(")")
            },
            LuaError::ErrorHandlerError => String::from_str("ErrorHandlerError"),
            LuaError::Unknown(code) => {
                let digits = decimal_i128(*code as i128);
                String::from_str("Unknown(").concat(digits.as_str()).concat(")")
            },
        }
    }

    /// Describes the error as text.
    pub fn describe(&self) -> (s: String)
        ensures
            s@ == self.spec_describe(),
    {
        match self {
            LuaError::MemoryAllocationError => String::from_str("Out of memory"),
            LuaError::SyntaxError(m) => detail_text("Syntax error", m),
            LuaError::FileError(m) => detail_text("File error", m),
            LuaError::RuntimeError(Some(m)) => m.clone(),
            LuaError::RuntimeError(None) => String::from_str("Runtime error"),
            LuaError::ErrorHandlerError => String::from_str("Error handler error"),
            LuaError::Unknown(code) => {
                let digits = decimal_i128(*code as i128);
                String::from_str("Unknown Lua error code: ").concat(digits.as_str())
            },
        }
    }
}

fn detail_text(prefix: &str, message: &Option<String>) -> (s: String)
    ensures
        s@ == with_detail(prefix@, *message),
{
    match message {
        Some(m) => {
            let head = String::from_str(prefix).concat(": ");
            head.concat(m.as_str())
        },
        None => String::from_str(prefix),
    }
}

/// Status codes for out-of-memory and error-handler failures never read a
/// message, and the message handed in cannot change their classification; syntax,
/// runtime and file errors read one and, when reading fails, carry none.
pub proof fn lemma_status_classification(code: i32, first: Option<String>, second: Option<String>)
    ensures
        (code == LUA_ERRMEM || code == LUA_ERRERR) ==> !status_reads_message(code)
            && LuaError::spec_from_status(code, first) == LuaError::spec_from_status(code, second),
        code == LUA_ERRMEM ==> LuaError::spec_from_status(code, first) is MemoryAllocationError,
        code == LUA_ERRERR ==> LuaError::spec_from_status(code, first) is ErrorHandlerError,
        code == LUA_ERRSYNTAX ==> status_reads_message(code)
            && LuaError::spec_from_status(code, None) == LuaError::SyntaxError(None),
        code == LUA_ERRRUN ==> status_reads_message(code)
            && LuaError::spec_from_status(code, None) == LuaError::RuntimeError(None),
        code == LUA_ERRFILE ==> status_reads_message(code)
            && LuaError::spec_from_status(code, None) == LuaError::FileError(None),
        !status_reads_message(code) && code != LUA_ERRMEM && code != LUA_ERRERR
            ==> LuaError::spec_from_status(code, first) == LuaError::Unknown(code),
{
}

} // verus!
