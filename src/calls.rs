use vstd::prelude::*;
use vstd::string::StringExecFns;

use crate::consts::{LUA_ERRMEM, LUA_ERRRUN, LUA_NOREF, LUA_OK, LUA_REFNIL, LUA_YIELD};

verus! {

/// Whether a reference token is one of the two sentinels ("nil" and "no
/// reference"), which name no registry slot.
pub open spec fn is_sentinel(token: i32) -> bool {
    token == LUA_REFNIL || token == LUA_NOREF
}

/// Whether a reference token names a registry slot.
pub fn is_registry_reference(token: i32) -> (r: bool)
    ensures
        r == !is_sentinel(token),
{
    token != LUA_REFNIL && token != LUA_NOREF
}

/// Whether releasing `token` frees a registry slot.
pub open spec fn releases_slot(token: i32) -> bool {
    !is_sentinel(token)
}

/// Whether resolving `token` pushes the referenced value.
pub open spec fn resolves_slot(token: i32) -> bool {
    !is_sentinel(token)
}

/// Whether releasing `token` frees a registry slot; releasing a sentinel does
/// nothing.
pub fn dereference_releases(token: i32) -> (r: bool)
    ensures
        r == releases_slot(token),
{
    is_registry_reference(token)
}

/// Whether resolving `token` pushes the referenced value (and reports success);
/// resolving a sentinel pushes nothing and reports failure.
pub fn from_reference_pushes(token: i32) -> (r: bool)
    ensures
        r == resolves_slot(token),
{
    is_registry_reference(token)
}

/// Releasing or resolving either sentinel token neither touches the registry
/// nor pushes anything, and since the decision depends on the token alone,
/// repeating it changes nothing; every other token is released and resolved.
pub proof fn lemma_sentinel_references(token: i32)
    ensures
        (token == LUA_REFNIL || token == LUA_NOREF) ==> !releases_slot(token) && !resolves_slot(token),
        (token != LUA_REFNIL && token != LUA_NOREF) ==> releases_slot(token) && resolves_slot(token),
{
}

/// What a defensive protected call does with the stack.
#[derive(Debug, Clone, Copy, PartialEq, Eq, Structural)]
pub enum CallStep {
    /// Nothing is called: pop this many values, which the caller pushed (and the
    /// resolved value, if one was pushed).
    Discard(i32),
    /// Call in protected mode, after moving the function from the top of the
    /// stack to the given index below its arguments, if one is given.
    Call(Option<i32>),
}

/// The first step of calling through `func_ref` with `nargs` arguments pushed.
pub open spec fn spec_plan_function_ref(func_ref: i32, nargs: i32) -> Option<CallStep> {
    if is_sentinel(func_ref) {
        Some(CallStep::Discard(nargs))
    } else {
        None
    }
}

/// The step after a reference was resolved above `nargs` arguments.
pub open spec fn spec_plan_resolved_call(is_function: bool, nargs: i32) -> CallStep {
    if !is_function {
        CallStep::Discard((nargs + 1) as i32)
    } else if nargs > 0 {
        CallStep::Call(Some((-(nargs + 1)) as i32))
    } else {
        CallStep::Call(None)
    }
}

/// The step of calling a function pushed before its `nargs` arguments.
pub open spec fn spec_plan_stacked_call(is_function: bool, nargs: i32) -> CallStep {
    if is_function {
        CallStep::Call(None)
    } else {
        CallStep::Discard((nargs + 1) as i32)
    }
}

/// The first step of calling through a function reference with `nargs`
/// arguments already pushed: a sentinel reference calls nothing and drops the
/// arguments; any other token is resolved first (`None`).
pub fn plan_function_ref(func_ref: i32, nargs: i32) -> (r: Option<CallStep>)
    ensures
        r == spec_plan_function_ref(func_ref, nargs),
{
    if is_registry_reference(func_ref) {
        None
    } else {
        Some(CallStep::Discard(nargs))
    }
}

/// The step after the reference was resolved onto the top of the stack, above
/// `nargs` arguments: a value that is not a function is dropped with the
/// arguments; a function is moved below its arguments (when there are any) and
/// called.
pub fn plan_resolved_call(is_function: bool, nargs: i32) -> (r: CallStep)
    requires
        nargs < i32::MAX,
    ensures
        r == spec_plan_resolved_call(is_function, nargs),
{
    if !is_function {
        CallStep::Discard(nargs + 1)
    } else if nargs > 0 {
        CallStep::Call(Some(-(nargs + 1)))
    } else {
        CallStep::Call(None)
    }
}

/// The stack index of a function pushed before its `nargs` arguments.
pub fn function_slot(nargs: i32) -> (r: i32)
    requires
        nargs < i32::MAX,
    ensures
        r == -(nargs + 1),
{
    -(nargs + 1)
}

/// The step of calling a function that the caller pushed before its `nargs`
/// arguments: a value that is not a function is dropped with the arguments,
/// a function is called where it stands.
pub fn plan_stacked_call(is_function: bool, nargs: i32) -> (r: CallStep)
    requires
        nargs < i32::MAX,
    ensures
        r == spec_plan_stacked_call(is_function, nargs),
{
    if is_function {
        CallStep::Call(None)
    } else {
        CallStep::Discard(nargs + 1)
    }
}

/// The stack depth after carrying out `step` on a stack of `depth` values:
/// discarding pops its count, moving the function changes no depth, and a
/// completed protected call replaces the function and its `nargs` arguments by
/// its `nresults` results.
pub open spec fn depth_after_step(depth: int, step: CallStep, nargs: int, nresults: int) -> int {
    match step {
        CallStep::Discard(count) => depth - count,
        CallStep::Call(_) => depth - nargs - 1 + nresults,
    }
}

/// The stack depth after calling through `func_ref` from a stack of `depth`
/// values whose top `nargs` are the arguments; `is_function` is whether the
/// resolved value is a function.
pub open spec fn depth_after_ref_call(
    depth: int,
    func_ref: i32,
    is_function: bool,
    nargs: i32,
    nresults: int,
) -> int {
    match spec_plan_function_ref(func_ref, nargs) {
        Some(step) => depth_after_step(depth, step, nargs as int, nresults),
        None => depth_after_step(depth + 1, spec_plan_resolved_call(is_function, nargs), nargs as int, nresults),
    }
}

/// Calling through a reference always consumes the pushed arguments: when the
/// function is called the stack ends at (depth before) - (arguments) + (results),
/// and when nothing is called (a sentinel, or a value that is not a function)
/// at (depth before) - (arguments), with nothing of the resolution left behind.
pub proof fn lemma_ref_call_depth(depth: int, func_ref: i32, is_function: bool, nargs: i32, nresults: int)
    requires
        0 <= nargs < i32::MAX,
    ensures
        !is_sentinel(func_ref) && is_function ==> depth_after_ref_call(depth, func_ref, is_function, nargs, nresults)
            == depth - nargs + nresults,
        !(!is_sentinel(func_ref) && is_function) ==> depth_after_ref_call(
            depth,
            func_ref,
            is_function,
            nargs,
            nresults,
        ) == depth - nargs,
{
}

/// Calling a function pushed below its arguments consumes the function and
/// the arguments whether or not it is called; a call leaves its results.
pub proof fn lemma_stacked_call_depth(depth: int, is_function: bool, nargs: i32, nresults: int)
    requires
        0 <= nargs < i32::MAX,
    ensures
        depth_after_step(depth, spec_plan_stacked_call(is_function, nargs), nargs as int, nresults) == if is_function {
            depth - nargs - 1 + nresults
        } else {
            depth - nargs - 1
        },
{
}

/// The error that resuming a coroutine raises, if any: none when it returned or
/// yielded; a runtime error carries the message found on the stack (or
/// "Unknown error"), an allocation failure is reported as such, and any other
/// status is an internal error.
pub open spec fn spec_resume_error(status: i32, message: Option<String>) -> Option<Seq<char>> {
    if status == LUA_OK || status == LUA_YIELD {
        None
    } else if status == LUA_ERRRUN {
        match message {
            Some(m) => Some(m@),
            None => Some("Unknown error"@),
        }
    } else if status == LUA_ERRMEM {
        Some("Out of memory"@)
    } else {
        Some("Unknown internal Lua error"@)
    }
}

/// The error that resuming a coroutine with status `status` raises, if any.
/// `message` is the error message read from the coroutine's stack.
pub fn resume_error(status: i32, message: Option<String>) -> (r: Option<String>)
    ensures
        r is Some == spec_resume_error(status, message) is Some,
        r is Some ==> r->Some_0@ == spec_resume_error(status, message)->Some_0,
{
    if status == LUA_OK || status == LUA_YIELD {
        None
    } else if status == LUA_ERRRUN {
        match message {
            Some(m) => Some(m),
            None => Some(String::from_str("Unknown error")),
        }
    } else if status == LUA_ERRMEM {
        Some(String::from_str("Out of memory"))
    } else {
        Some(String::from_str("Unknown internal Lua error"))
    }
}

/// Whether a resume status lets the caller go on: the coroutine returned or
/// yielded.
pub fn resume_succeeded(status: i32) -> (r: bool)
    ensures
        r == (status == LUA_OK || status == LUA_YIELD),
{
    status == LUA_OK || status == LUA_YIELD
}

} // verus!
