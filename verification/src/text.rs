//! Text built by the contract: decimal numbers and framed messages.

use vstd::prelude::*;

verus! {

/// The character for a single decimal digit.
pub open spec fn digit_char(d: int) -> char {
    if d == 0 { '0' }
    else if d == 1 { '1' }
    else if d == 2 { '2' }
    else if d == 3 { '3' }
    else if d == 4 { '4' }
    else if d == 5 { '5' }
    else if d == 6 { '6' }
    else if d == 7 { '7' }
    else if d == 8 { '8' }
    else { '9' }
}

/// The decimal notation of `n`, without sign or leading zeros.
pub open spec fn decimal(n: nat) -> Seq<char>
    decreases n,
{
    if n < 10 {
        seq![digit_char(n as int)]
    } else {
        decimal(n / 10) + seq![digit_char((n % 10) as int)]
    }
}

fn digit_str(d: u128) -> (s: &'static str)
    requires
        d < 10,
    ensures
        s@ == seq![digit_char(d as int)],
{
    proof {
        reveal_strlit("0");
        reveal_strlit("1");
        reveal_strlit("2");
        reveal_strlit("3");
        reveal_strlit("4");
        reveal_strlit("5");
        reveal_strlit("6");
        reveal_strlit("7");
        reveal_strlit("8");
        reveal_strlit("9");
    }
    if d == 0 { "0" }
    else if d == 1 { "1" }
    else if d == 2 { "2" }
    else if d == 3 { "3" }
    else if d == 4 { "4" }
    else if d == 5 { "5" }
    else if d == 6 { "6" }
    else if d == 7 { "7" }
    else if d == 8 { "8" }
    else { "9" }
}

fn append_decimal(out: &mut String, n: u128)
    ensures
        final(out)@ == old(out)@ + decimal(n as nat),
    decreases n,
{
    if n >= 10 {
        append_decimal(out, n / 10);
    }
    out.append(digit_str(n % 10));
    assert(out@ == old(out)@ + decimal(n as nat)) by {
        if n >= 10 {
            assert(decimal(n as nat) == decimal((n / 10) as nat) + seq![digit_char((n % 10) as int)]);
        }
    }
}

/// The decimal text of an amount, as the contract writes it into attributes.
pub fn to_decimal(n: u128) -> (s: String)
    ensures
        s@ == decimal(n as nat),
{
    let mut s = String::new();
    append_decimal(&mut s, n);
    s
}

} // verus!

verus! {

/// The JSON message that asks a cw20 contract to report deposits to the
/// contract whose code has the given hash.
pub open spec fn register_receive_text(code_hash: Seq<char>) -> Seq<char> {
    "{\"register_receive\":{\"code_hash\":\""@ + code_hash + "\"}}"@
}

/// Frames the register-receive message for a code hash.
pub fn register_receive(code_hash: &str) -> (s: String)
    ensures
        s@ == register_receive_text(code_hash@),
{
    let mut s = String::from_str("{\"register_receive\":{\"code_hash\":\"");
    s.append(code_hash);
    s.append("\"}}");
    s
}

/// A path of three segments joined by slashes.
pub open spec fn slash_path(a: Seq<char>, b: Seq<char>, c: Seq<char>) -> Seq<char> {
    a + "/"@ + b + "/"@ + c
}

/// Joins three segments with slashes.
pub fn join_path(a: &str, b: &str, c: &str) -> (s: String)
    ensures
        s@ == slash_path(a@, b@, c@),
{
    let mut s = String::from_str(a);
    s.append("/");
    s.append(b);
    s.append("/");
    s.append(c);
    s
}

} // verus!
