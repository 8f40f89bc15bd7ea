use vstd::prelude::*;
use vstd::string::StringExecFns;

verus! {

/// The largest integer magnitude that the VM's double-precision numbers hold exactly.
pub const LUA_NUMBER_MAX_SAFE_INTEGER: i64 = 9007199254740991;

/// Whether `v` lies within the VM's safe-integer bound.
pub open spec fn within_safe_bound(v: int) -> bool {
    -(LUA_NUMBER_MAX_SAFE_INTEGER as int) <= v <= LUA_NUMBER_MAX_SAFE_INTEGER as int
}

/// The character of a decimal digit.
pub open spec fn digit_char(d: int) -> char {
    if d == 0 { '0' }
    else if d == 1 { '1' }
    else if d == 2 { '2' }
    else if d == 3 { '3' }
    else if d == 4 { '4' }
    else if d == 5 { '5' }
    else if d == 6 { '6' }
    else if d == 7 { '7' }
    else if d == 8 { '8' }
    else { '9' }
}

/// The value of a decimal digit character (-1 for any other character).
pub open spec fn digit_value(c: char) -> int {
    if c == '0' { 0 }
    else if c == '1' { 1 }
    else if c == '2' { 2 }
    else if c == '3' { 3 }
    else if c == '4' { 4 }
    else if c == '5' { 5 }
    else if c == '6' { 6 }
    else if c == '7' { 7 }
    else if c == '8' { 8 }
    else if c == '9' { 9 }
    else { -1 }
}

/// Base-10 digits of a natural number, most significant first, without leading zeros.
pub open spec fn decimal_nat(n: nat) -> Seq<char>
    decreases n,
{
    if n < 10 {
        seq![digit_char(n as int)]
    } else {
        decimal_nat(n / 10).push(digit_char((n % 10) as int))
    }
}

/// Base-10 representation of an integer, with a leading '-' when negative.
pub open spec fn decimal_int(v: int) -> Seq<char> {
    if v < 0 {
        seq!['-'] + decimal_nat((-v) as nat)
    } else {
        decimal_nat(v as nat)
    }
}

/// The natural number that a sequence of decimal digits denotes.
pub open spec fn parse_decimal_nat(s: Seq<char>) -> int
    decreases s.len(),
{
    if s.len() == 0 {
        0
    } else {
        parse_decimal_nat(s.drop_last()) * 10 + digit_value(s.last())
    }
}

/// The integer that an optionally '-'-prefixed decimal text denotes.
pub open spec fn parse_decimal_int(s: Seq<char>) -> int {
    if s.len() > 0 && s[0] == '-' {
        -parse_decimal_nat(s.drop_first())
    } else {
        parse_decimal_nat(s)
    }
}

/// How a native number is handed to the VM: as a VM number holding the exact
/// integer, or, beyond the safe-integer bound, as its base-10 text.
#[derive(Debug, Clone, PartialEq, Eq)]
pub enum LuaNumberRepr {
    Number(i64),
    Decimal(String),
}

impl LuaNumberRepr {
    /// `self` is the representation that the rule prescribes for `v`.
    pub open spec fn represents(&self, v: int) -> bool {
        match self {
            LuaNumberRepr::Number(n) => within_safe_bound(v) && n as int == v,
            LuaNumberRepr::Decimal(s) => !within_safe_bound(v) && s@ == decimal_int(v),
        }
    }

    /// The integer that the VM reads back from this representation.
    pub open spec fn read_back(&self) -> int {
        match self {
            LuaNumberRepr::Number(n) => n as int,
            LuaNumberRepr::Decimal(s) => parse_decimal_int(s@),
        }
    }

    /// Whether the VM receives a number (rather than a string).
    pub fn is_number(&self) -> (r: bool)
        ensures
            r == (self is Number),
    {
        match self {
            LuaNumberRepr::Number(_) => true,
            LuaNumberRepr::Decimal(_) => false,
        }
    }
}

proof fn lemma_digit_round_trip(d: int)
    requires
        0 <= d < 10,
    ensures
        digit_value(digit_char(d)) == d,
        digit_char(d) != '-',
{
}

proof fn lemma_decimal_nat_round_trip(n: nat)
    ensures
        parse_decimal_nat(decimal_nat(n)) == n,
        decimal_nat(n).len() > 0,
        decimal_nat(n)[0] != '-',
    decreases n,
{
    if n < 10 {
        lemma_digit_round_trip(n as int);
        let s = decimal_nat(n);
        assert(s.drop_last() =~= Seq::<char>::empty());
        assert(parse_decimal_nat(Seq::<char>::empty()) == 0);
        assert(s.last() == digit_char(n as int));
        assert(parse_decimal_nat(s) == parse_decimal_nat(s.drop_last()) * 10 + digit_value(s.last()));
    } else {
        lemma_decimal_nat_round_trip(n / 10);
        lemma_digit_round_trip((n % 10) as int);
        let s = decimal_nat(n);
        assert(s.drop_last() =~= decimal_nat(n / 10));
        assert(s.last() == digit_char((n % 10) as int));
        assert(parse_decimal_nat(s) == parse_decimal_nat(decimal_nat(n / 10)) * 10 + (n % 10) as int);
        assert((n / 10) * 10 + n % 10 == n);
    }
}

/// The decimal text of an integer reads back as that integer.
pub proof fn lemma_decimal_round_trip(v: int)
    ensures
        parse_decimal_int(decimal_int(v)) == v,
{
    if v < 0 {
        lemma_decimal_nat_round_trip((-v) as nat);
        let s = decimal_int(v);
        assert(s.drop_first() =~= decimal_nat((-v) as nat));
    } else {
        lemma_decimal_nat_round_trip(v as nat);
    }
}

/// Whatever integer is pushed reads back as exactly that integer: as a number
/// within the safe-integer bound, and beyond it as a text that is not a number
/// and whose digits denote the pushed value.
pub proof fn lemma_push_number_round_trip(r: LuaNumberRepr, v: int)
    requires
        r.represents(v),
    ensures
        r.read_back() == v,
        (r is Number) == within_safe_bound(v),
{
    lemma_decimal_round_trip(v);
}

fn digit_str(d: u128) -> (r: &'static str)
    requires
        d < 10,
    ensures
        r@ == seq![digit_char(d as int)],
{
    proof {
        reveal_strlit("0");
        reveal_strlit("1");
        reveal_strlit("2");
        reveal_strlit("3");
        reveal_strlit("4");
        reveal_strlit("5");
        reveal_strlit("6");
        reveal_strlit("7");
        reveal_strlit("8");
        reveal_strlit("9");
    }
    if d == 0 { "0" }
    else if d == 1 { "1" }
    else if d == 2 { "2" }
    else if d == 3 { "3" }
    else if d == 4 { "4" }
    else if d == 5 { "5" }
    else if d == 6 { "6" }
    else if d == 7 { "7" }
    else if d == 8 { "8" }
    else { "9" }
}

/// Base-10 text of an unsigned integer.
pub fn decimal_u128(n: u128) -> (s: String)
    ensures
        s@ == decimal_nat(n as nat),
    decreases n,
{
    if n < 10 {
        String::from_str(digit_str(n))
    } else {
        let mut s = decimal_u128(n / 10);
        s.append(digit_str(n % 10));
        s
    }
}

/// Base-10 text of a signed integer.
pub fn decimal_i128(v: i128) -> (s: String)
    ensures
        s@ == decimal_int(v as int),
{
    if v < 0 {
        let magnitude: u128 = (-(v + 1)) as u128 + 1;
        let digits = decimal_u128(magnitude);
        proof {
            reveal_strlit("-");
        }
        String::from_str("-").concat(digits.as_str())
    } else {
        decimal_u128(v as u128)
    }
}

fn repr_signed(v: i128) -> (r: LuaNumberRepr)
    ensures
        r.represents(v as int),
{
    if -(LUA_NUMBER_MAX_SAFE_INTEGER as i128) <= v && v <= LUA_NUMBER_MAX_SAFE_INTEGER as i128 {
        LuaNumberRepr::Number(v as i64)
    } else {
        LuaNumberRepr::Decimal(decimal_i128(v))
    }
}

fn repr_unsigned(v: u128) -> (r: LuaNumberRepr)
    ensures
        r.represents(v as int),
{
    if v <= LUA_NUMBER_MAX_SAFE_INTEGER as u128 {
        LuaNumberRepr::Number(v as i64)
    } else {
        LuaNumberRepr::Decimal(decimal_u128(v))
    }
}

/// Native integers that can be pushed onto the VM stack.
pub trait LuaPushNumber: Sized {
    /// The mathematical value of the number.
    spec fn lua_value(&self) -> int;

    /// The representation in which the number is pushed.
    fn lua_push_number(self) -> (r: LuaNumberRepr)
        ensures
            r.represents(self.lua_value()),
    ;
}

impl LuaPushNumber for i8 {
    open spec fn lua_value(&self) -> int {
        *self as int
    }

    fn lua_push_number(self) -> (r: LuaNumberRepr) {
        repr_signed(self as i128)
    }
}

impl LuaPushNumber for i16 {
    open spec fn lua_value(&self) -> int {
        *self as int
    }

    fn lua_push_number(self) -> (r: LuaNumberRepr) {
        repr_signed(self as i128)
    }
}

impl LuaPushNumber for i32 {
    open spec fn lua_value(&self) -> int {
        *self as int
    }

    fn lua_push_number(self) -> (r: LuaNumberRepr) {
        repr_signed(self as i128)
    }
}

impl LuaPushNumber for i64 {
    open spec fn lua_value(&self) -> int {
        *self as int
    }

    fn lua_push_number(self) -> (r: LuaNumberRepr) {
        repr_signed(self as i128)
    }
}

impl LuaPushNumber for i128 {
    open spec fn lua_value(&self) -> int {
        *self as int
    }

    fn lua_push_number(self) -> (r: LuaNumberRepr) {
        repr_signed(self)
    }
}

impl LuaPushNumber for isize {
    open spec fn lua_value(&self) -> int {
        *self as int
    }

    fn lua_push_number(self) -> (r: LuaNumberRepr) {
        repr_signed(self as i128)
    }
}

impl LuaPushNumber for u8 {
    open spec fn lua_value(&self) -> int {
        *self as int
    }

    fn lua_push_number(self) -> (r: LuaNumberRepr) {
        repr_unsigned(self as u128)
    }
}

impl LuaPushNumber for u16 {
    open spec fn lua_value(&self) -> int {
        *self as int
    }

    fn lua_push_number(self) -> (r: LuaNumberRepr) {
        repr_unsigned(self as u128)
    }
}

impl LuaPushNumber for u32 {
    open spec fn lua_value(&self) -> int {
        *self as int
    }

    fn lua_push_number(self) -> (r: LuaNumberRepr) {
        repr_unsigned(self as u128)
    }
}

impl LuaPushNumber for u64 {
    open spec fn lua_value(&self) -> int {
        *self as int
    }

    fn lua_push_number(self) -> (r: LuaNumberRepr) {
        repr_unsigned(self as u128)
    }
}

impl LuaPushNumber for u128 {
    open spec fn lua_value(&self) -> int {
        *self as int
    }

    fn lua_push_number(self) -> (r: LuaNumberRepr) {
        repr_unsigned(self)
    }
}

impl LuaPushNumber for usize {
    open spec fn lua_value(&self) -> int {
        *self as int
    }

    fn lua_push_number(self) -> (r: LuaNumberRepr) {
        repr_unsigned(self as u128)
    }
}

} // verus!
