use vstd::prelude::*;
use vstd::string::StringExecFns;

use crate::consts::LUA_REGISTRYINDEX;
use crate::number::{decimal_i128, decimal_int};
use crate::text::text_eq;

verus! {

/// The 1-based argument position that a stack index names: a negative index
/// above the pseudo-indices counts from the top of a stack of `top` values.
pub open spec fn spec_absolute_arg(narg: int, top: int) -> int {
    if narg < 0 && narg > LUA_REGISTRYINDEX as int {
        top + narg + 1
    } else {
        narg
    }
}

/// The function name shown in a message: the one found, or "?".
pub open spec fn spec_function_name(fname: Option<&str>) -> Seq<char> {
    match fname {
        Some(f) => f@,
        None => "?"@,
    }
}

/// Whether the caller was reached through a method call.
pub open spec fn spec_is_method(namewhat: Option<&str>) -> bool {
    match namewhat {
        Some(w) => w@ == "method"@,
        None => false,
    }
}

/// The "bad argument" message for argument `narg` of the running function.
pub open spec fn spec_err_argmsg(
    narg: int,
    top: int,
    fname: Option<&str>,
    namewhat: Option<&str>,
    msg: Seq<char>,
) -> Seq<char> {
    let name = spec_function_name(fname);
    let position = spec_absolute_arg(narg, top);
    let shown = if spec_is_method(namewhat) { position - 1 } else { position };
    if spec_is_method(namewhat) && shown == 0 {
        "bad self parameter in method '"@ + name + "' ("@ + msg + ")"@
    } else {
        "bad argument #"@ + decimal_int(shown) + " to '"@ + name + "' ("@ + msg + ")"@
    }
}

/// Formats the "bad argument" message for argument `narg` of the running
/// function. `top` is the current stack size, `fname` and `namewhat` are what
/// the debug record gives of the running function (if anything). A method call
/// passes its receiver as argument 1, so positions shift down by one and
/// position 0 is the receiver itself.
pub fn err_argmsg(
    narg: i32,
    top: i32,
    fname: Option<&str>,
    namewhat: Option<&str>,
    msg: &str,
) -> (s: String)
    requires
        top >= 0,
    ensures
        s@ == spec_err_argmsg(narg as int, top as int, fname, namewhat, msg@),
{
    let name: &str = match fname {
        Some(f) => f,
        None => "?",
    };
    let position: i64 = if narg < 0 && narg > LUA_REGISTRYINDEX {
        top as i64 + narg as i64 + 1
    } else {
        narg as i64
    };
    let is_method = match namewhat {
        Some(w) => text_eq(w, "method"),
        None => false,
    };
    let shown: i64 = if is_method { position - 1 } else { position };
    if is_method && shown == 0 {
        let s = String::from_str("bad self parameter in method '").concat(name);
        s.concat("' (").concat(msg).concat(")")
    } else {
        let digits = decimal_i128(shown as i128);
        let s = String::from_str("bad argument #").concat(digits.as_str());
        s.concat(" to '").concat(name).concat("' (").concat(msg).concat(")")
    }
}

/// The message of an argument whose type is `actual` where `expected` was wanted.
pub open spec fn spec_type_mismatch(expected: Seq<char>, actual: Seq<char>) -> Seq<char> {
    expected + " expected, got "@ + actual
}

/// Formats the "bad argument" message for an argument of the wrong type.
pub fn type_error(
    narg: i32,
    top: i32,
    fname: Option<&str>,
    namewhat: Option<&str>,
    expected: &str,
    actual: &str,
) -> (s: String)
    requires
        top >= 0,
    ensures
        s@ == spec_err_argmsg(
            narg as int,
            top as int,
            fname,
            namewhat,
            spec_type_mismatch(expected@, actual@),
        ),
{
    let msg = String::from_str(expected).concat(" expected, got ").concat(actual);
    err_argmsg(narg, top, fname, namewhat, msg.as_str())
}

/// Formats the message for a table field of the wrong type.
pub fn field_type_error(field: &str, expected: &str, actual: &str) -> (s: String)
    ensures
        s@ == "bad type for field: '"@ + field@ + "' ("@ + expected@ + " expected, got: "@
            + actual@ + ")"@,
{
    let s = String::from_str("bad type for field: '").concat(field).concat("' (");
    s.concat(expected).concat(" expected, got: ").concat(actual).concat(")")
}

/// Where an error that must not halt the VM is reported: the name of the global
/// reporting function, the text handed to it, and the prefix used when that
/// function is missing and the text is printed instead.
#[derive(Debug, Clone, PartialEq, Eq)]
pub struct NoHaltReport {
    pub handler: String,
    pub text: String,
    pub fallback_prefix: String,
}

/// Chooses how an error is reported without halting: with a traceback it goes to
/// `ErrorNoHalt` as a tagged message followed by the traceback; without one it
/// goes as is to `ErrorNoHaltWithStack`, which captures the stack itself.
pub fn error_no_halt_report(err: &str, traceback: Option<&str>) -> (r: NoHaltReport)
    ensures
        traceback is Some ==> r.handler@ == "ErrorNoHalt"@ && r.text@ == "[ERROR] "@ + err@
            + "\n"@ + traceback->Some_0@ + "\n"@ && r.fallback_prefix@ == ""@,
        traceback is None ==> r.handler@ == "ErrorNoHaltWithStack"@ && r.text@ == err@
            && r.fallback_prefix@ == "[ERROR] "@,
{
    match traceback {
        Some(tb) => {
            let text = String::from_str("[ERROR] ").concat(err).concat("\n").concat(tb).concat("\n");
            NoHaltReport {
                handler: String::from_str("ErrorNoHalt"),
                text,
                fallback_prefix: String::from_str(""),
            }
        },
        None => NoHaltReport {
            handler: String::from_str("ErrorNoHaltWithStack"),
            text: String::from_str(err),
            fallback_prefix: String::from_str("[ERROR] "),
        },
    }
}

} // verus!
