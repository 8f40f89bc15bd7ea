use gmod::number::{decimal_i128, decimal_u128, LuaNumberRepr, LuaPushNumber, LUA_NUMBER_MAX_SAFE_INTEGER};

fn decimal(r: LuaNumberRepr) -> String {
    match r {
        LuaNumberRepr::Decimal(s) => s,
        LuaNumberRepr::Number(n) => panic!("expected a decimal text, got the number {}", n),
    }
}

#[test]
fn safe_bound_is_two_to_the_53_minus_one() {
    assert_eq!(LUA_NUMBER_MAX_SAFE_INTEGER, 9007199254740991);
}

#[test]
fn small_integers_are_pushed_as_numbers() {
    assert_eq!(7i8.lua_push_number(), LuaNumberRepr::Number(7));
    assert_eq!((-128i8).lua_push_number(), LuaNumberRepr::Number(-128));
    assert_eq!(65535u16.lua_push_number(), LuaNumberRepr::Number(65535));
    assert_eq!(i32::MIN.lua_push_number(), LuaNumberRepr::Number(-2147483648));
    assert_eq!(u32::MAX.lua_push_number(), LuaNumberRepr::Number(4294967295));
    assert_eq!(0usize.lua_push_number(), LuaNumberRepr::Number(0));
    assert_eq!((-42isize).lua_push_number(), LuaNumberRepr::Number(-42));
}

#[test]
fn values_at_the_bound_stay_numbers() {
    assert_eq!(9007199254740991i64.lua_push_number(), LuaNumberRepr::Number(9007199254740991));
    assert_eq!((-9007199254740991i64).lua_push_number(), LuaNumberRepr::Number(-9007199254740991));
    assert_eq!(9007199254740991u64.lua_push_number(), LuaNumberRepr::Number(9007199254740991));
    assert_eq!(9007199254740991u128.lua_push_number(), LuaNumberRepr::Number(9007199254740991));
    assert_eq!((-9007199254740991i128).lua_push_number(), LuaNumberRepr::Number(-9007199254740991));
}

#[test]
fn values_beyond_the_bound_become_decimal_text() {
    assert_eq!(decimal(9007199254740992i64.lua_push_number()), "9007199254740992");
    assert_eq!(decimal((-9007199254740992i64).lua_push_number()), "-9007199254740992");
    assert_eq!(decimal(9007199254740992u64.lua_push_number()), "9007199254740992");
    assert_eq!(decimal(u64::MAX.lua_push_number()), "18446744073709551615");
    assert_eq!(decimal(i64::MIN.lua_push_number()), "-9223372036854775808");
    assert_eq!(decimal(i64::MAX.lua_push_number()), "9223372036854775807");
    assert_eq!(decimal(u128::MAX.lua_push_number()), "340282366920938463463374607431768211455");
    assert_eq!(decimal(i128::MIN.lua_push_number()), "-170141183460469231731687303715884105728");
}

#[test]
fn wide_values_round_trip_through_their_text() {
    for v in [9007199254740992i128, -9007199254740993, i128::MAX, i128::MIN, 123456789012345678901234567890] {
        let text = decimal(v.lua_push_number());
        assert_eq!(text.parse::<i128>().unwrap(), v);
    }
    for v in [0i64, 1, -1, 9007199254740991, -9007199254740991] {
        match v.lua_push_number() {
            LuaNumberRepr::Number(n) => assert_eq!(n as f64 as i64, v),
            LuaNumberRepr::Decimal(s) => panic!("unexpected text {}", s),
        }
    }
}

#[test]
fn decimal_formatting_matches_std() {
    for v in [0u128, 9, 10, 99, 100, 4096, 1_000_000_007, u128::MAX] {
        assert_eq!(decimal_u128(v), v.to_string());
    }
    for v in [0i128, -1, -10, 10, -909, i128::MAX, i128::MIN] {
        assert_eq!(decimal_i128(v), v.to_string());
    }
}

#[test]
fn is_number_tells_the_kinds_apart() {
    assert!(5u8.lua_push_number().is_number());
    assert!(!u64::MAX.lua_push_number().is_number());
}
