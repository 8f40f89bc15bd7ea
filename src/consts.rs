use vstd::prelude::*;

verus! {

/// Pseudo-index of the registry table.
pub const LUA_REGISTRYINDEX: i32 = -10000;
/// Pseudo-index of the running function's environment.
pub const LUA_ENVIRONINDEX: i32 = -10001;
/// Pseudo-index of the globals table.
pub const LUA_GLOBALSINDEX: i32 = -10002;

/// Result count that asks a call for all of its results.
pub const LUA_MULTRET: i32 = -1;
/// Reference token that stands for "no reference".
pub const LUA_NOREF: i32 = -2;
/// Reference token that stands for a nil value.
pub const LUA_REFNIL: i32 = -1;

pub const LUA_TNONE: i32 = -1;
pub const LUA_TNIL: i32 = 0;
pub const LUA_TBOOLEAN: i32 = 1;
pub const LUA_TLIGHTUSERDATA: i32 = 2;
pub const LUA_TNUMBER: i32 = 3;
pub const LUA_TSTRING: i32 = 4;
pub const LUA_TTABLE: i32 = 5;
pub const LUA_TFUNCTION: i32 = 6;
pub const LUA_TUSERDATA: i32 = 7;
pub const LUA_TTHREAD: i32 = 8;

pub const LUA_OK: i32 = 0;
pub const LUA_YIELD: i32 = 1;
pub const LUA_ERRRUN: i32 = 2;
pub const LUA_ERRSYNTAX: i32 = 3;
pub const LUA_ERRMEM: i32 = 4;
pub const LUA_ERRERR: i32 = 5;
pub const LUA_ERRFILE: i32 = 6;

/// Size of the source-location buffer in a debug record.
pub const LUA_IDSIZE: usize = 60;

} // verus!
