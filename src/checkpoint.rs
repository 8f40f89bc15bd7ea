use vstd::prelude::*;
use vstd::string::StringExecFns;

verus! {

/// Whether `c` is an ASCII letter or digit.
pub open spec fn is_alphanumeric_char(c: char) -> bool {
    (65 <= c as u32 <= 90) || (97 <= c as u32 <= 122) || (48 <= c as u32 <= 57)
}

/// Relies on fastrand::alphanumeric: a random character in a-z, A-Z or 0-9,
/// handed back as a one-character string.
#[verifier::external_body]
fn random_alphanumeric() -> (s: String)
    ensures
        s@.len() == 1,
        is_alphanumeric_char(s@[0]),
{
    fastrand::alphanumeric().to_string()
}

/// The character of a hexadecimal digit (lower case).
pub open spec fn hex_digit_char(d: int) -> char {
    if d < 10 {
        crate::number::digit_char(d)
    } else if d == 10 { 'a' }
    else if d == 11 { 'b' }
    else if d == 12 { 'c' }
    else if d == 13 { 'd' }
    else if d == 14 { 'e' }
    else { 'f' }
}

/// Lower-case hexadecimal digits of a natural number, without leading zeros.
pub open spec fn hex_nat(n: nat) -> Seq<char>
    decreases n,
{
    if n < 16 {
        seq![hex_digit_char(n as int)]
    } else {
        hex_nat(n / 16).push(hex_digit_char((n % 16) as int))
    }
}

fn hex_digit_str(d: usize) -> (r: &'static str)
    requires
        d < 16,
    ensures
        r@ == seq![hex_digit_char(d as int)],
{
    proof {
        reveal_strlit("0");
        reveal_strlit("1");
        reveal_strlit("2");
        reveal_strlit("3");
        reveal_strlit("4");
        reveal_strlit("5");
        reveal_strlit("6");
        reveal_strlit("7");
        reveal_strlit("8");
        reveal_strlit("9");
        reveal_strlit("a");
        reveal_strlit("b");
        reveal_strlit("c");
        reveal_strlit("d");
        reveal_strlit("e");
        reveal_strlit("f");
    }
    if d == 0 { "0" }
    else if d == 1 { "1" }
    else if d == 2 { "2" }
    else if d == 3 { "3" }
    else if d == 4 { "4" }
    else if d == 5 { "5" }
    else if d == 6 { "6" }
    else if d == 7 { "7" }
    else if d == 8 { "8" }
    else if d == 9 { "9" }
    else if d == 10 { "a" }
    else if d == 11 { "b" }
    else if d == 12 { "c" }
    else if d == 13 { "d" }
    else if d == 14 { "e" }
    else { "f" }
}

/// An address in the form "0x" followed by its lower-case hexadecimal digits.
pub fn address_text(address: usize) -> (s: String)
    ensures
        s@ == "0x"@ + hex_nat(address as nat),
{
    let digits = hex_digits(address);
    String::from_str("0x").concat(digits.as_str())
}

fn hex_digits(n: usize) -> (s: String)
    ensures
        s@ == hex_nat(n as nat),
    decreases n,
{
    if n < 16 {
        String::from_str(hex_digit_str(n))
    } else {
        let mut s = hex_digits(n / 16);
        s.append(hex_digit_str(n % 16));
        s
    }
}

/// The name of the checkpoint timer for the queue at `address`, given its
/// random part.
pub open spec fn spec_timer_name(random: Seq<char>, address: usize) -> Seq<char> {
    "_GOOBIE_LUA_THINK_"@ + random + "_"@ + "0x"@ + hex_nat(address as nat)
}

/// Number of random characters in a checkpoint timer's name.
pub const TIMER_RANDOM_LEN: usize = 10;

/// Builds the checkpoint timer's name from its random part and the queue's address.
pub fn timer_name_from(random: &str, address: usize) -> (s: String)
    ensures
        s@ == spec_timer_name(random@, address),
{
    let head = String::from_str("_GOOBIE_LUA_THINK_").concat(random).concat("_");
    let tail = address_text(address);
    head.concat(tail.as_str())
}

/// A fresh name for the checkpoint timer of the queue at `address`: a fixed
/// prefix, ten random letters or digits (so that plugins loaded side by side do
/// not collide) and the address.
pub fn checkpoint_timer_name(address: usize) -> (s: String)
    ensures
        exists|random: Seq<char>|
            random.len() == TIMER_RANDOM_LEN
            && (forall|i: int| 0 <= i < random.len() ==> is_alphanumeric_char(#[trigger] random[i]))
            && s@ == spec_timer_name(random, address),
{
    let mut random = String::new();
    let mut i: usize = 0;
    while i < TIMER_RANDOM_LEN
        invariant
            i <= TIMER_RANDOM_LEN,
            random@.len() == i,
            forall|j: int| 0 <= j < i ==> is_alphanumeric_char(#[trigger] random@[j]),
        decreases TIMER_RANDOM_LEN - i,
    {
        let c = random_alphanumeric();
        let ghost before = random@;
        random.append(c.as_str());
        assert(random@ == before + c@);
        i = i + 1;
    }
    timer_name_from(random.as_str(), address)
}

} // verus!
