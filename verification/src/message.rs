//! Error messages of the form `[<code>] <message>`.

use vstd::prelude::*;
use vstd::string::*;

verus! {

/// Status code of every validation failure.
pub const CODE_BAD_REQUEST: u16 = 400;

/// Text of the failure for a request without a text body.
pub const MSG_EMPTY_TEXT_BODY: &'static str = "Empty text body.";

/// Text of the failure for a request whose text body is over the limit.
pub const MSG_TEXT_BODY_TOO_LONG: &'static str = "Text body is too long (max: 100)";

/// The character that writes the digit `d`, for `0 <= d < 10`.
pub open spec fn digit_char(d: nat) -> char {
    if d == 0 {
        '0'
    } else if d == 1 {
        '1'
    } else if d == 2 {
        '2'
    } else if d == 3 {
        '3'
    } else if d == 4 {
        '4'
    } else if d == 5 {
        '5'
    } else if d == 6 {
        '6'
    } else if d == 7 {
        '7'
    } else if d == 8 {
        '8'
    } else {
        '9'
    }
}

/// The decimal numeral of `n`: most significant digit first, no leading
/// zero, and `"0"` for zero.
pub open spec fn decimal(n: nat) -> Seq<char>
    decreases n,
{
    if n < 10 {
        seq![digit_char(n)]
    } else {
        decimal(n / 10).push(digit_char(n % 10))
    }
}

/// The message for a status code and a text: the code's decimal numeral in
/// square brackets, one space, then the text unchanged.
pub open spec fn err_msg(code: nat, msg: Seq<char>) -> Seq<char> {
    seq!['['] + decimal(code) + seq![']', ' '] + msg
}

/// The digit a character writes; zero for any character that is no digit.
pub open spec fn digit_value(c: char) -> nat {
    if c == '1' {
        1
    } else if c == '2' {
        2
    } else if c == '3' {
        3
    } else if c == '4' {
        4
    } else if c == '5' {
        5
    } else if c == '6' {
        6
    } else if c == '7' {
        7
    } else if c == '8' {
        8
    } else if c == '9' {
        9
    } else {
        0
    }
}

/// The number a numeral denotes, most significant digit first.
pub open spec fn numeral_value(digits: Seq<char>) -> nat
    decreases digits.len(),
{
    if digits.len() == 0 {
        0
    } else {
        numeral_value(digits.drop_last()) * 10 + digit_value(digits.last())
    }
}

/// The numeral of a number denotes that number, has at least one digit, and
/// starts with a zero only where the number is zero.
pub proof fn lemma_decimal_denotes(n: nat)
    ensures
        numeral_value(decimal(n)) == n,
        decimal(n).len() >= 1,
        decimal(n)[0] == '0' <==> n == 0,
    decreases n,
{
    if n < 10 {
        assert(decimal(n).drop_last() =~= Seq::<char>::empty());
        assert(numeral_value(decimal(n)) == numeral_value(Seq::<char>::empty()) * 10 + digit_value(
            digit_char(n),
        ));
    } else {
        lemma_decimal_denotes(n / 10);
        assert(decimal(n).drop_last() =~= decimal(n / 10));
        assert(decimal(n).last() == digit_char(n % 10));
        assert(decimal(n)[0] == decimal(n / 10)[0]);
    }
}

/// The one-character string that writes a single digit.
fn digit_str(d: u16) -> (s: &'static str)
    requires
        d < 10,
    ensures
        s@ == seq![digit_char(d as nat)],
{
    proof {
        reveal_strlit("0");
        reveal_strlit("1");
        reveal_strlit("2");
        reveal_strlit("3");
        reveal_strlit("4");
        reveal_strlit("5");
        reveal_strlit("6");
        reveal_strlit("7");
        reveal_strlit("8");
        reveal_strlit("9");
    }
    let s: &'static str = match d {
        0 => "0",
        1 => "1",
        2 => "2",
        3 => "3",
        4 => "4",
        5 => "5",
        6 => "6",
        7 => "7",
        8 => "8",
        _ => "9",
    };
    assert(s@ =~= seq![digit_char(d as nat)]);
    s
}

/// Writes `n` in decimal.
pub fn decimal_string(n: u16) -> (s: String)
    ensures
        s@ == decimal(n as nat),
    decreases n,
{
    if n < 10 {
        String::from_str(digit_str(n))
    } else {
        let mut s = decimal_string(n / 10);
        s.append(digit_str(n % 10));
        assert(s@ =~= decimal(n as nat));
        s
    }
}

/// Formats a status code and a text as `[<code>] <text>`.
pub fn get_err_msg(code: u16, msg: &str) -> (out: String)
    ensures
        out@ == err_msg(code as nat, msg@),
{
    let mut out = String::from_str("[");
    let digits = decimal_string(code);
    out.append(digits.as_str());
    out.append("] ");
    out.append(msg);
    proof {
        reveal_strlit("[");
        reveal_strlit("] ");
        assert(out@ =~= err_msg(code as nat, msg@));
    }
    out
}

/// The numeral of the bad-request code is `400`.
pub proof fn lemma_decimal_bad_request()
    ensures
        decimal(400) == seq!['4', '0', '0'],
{
    reveal_with_fuel(decimal, 4);
    assert(decimal(4) =~= seq!['4']);
    assert(decimal(40) =~= seq!['4', '0']);
    assert(decimal(400) =~= seq!['4', '0', '0']);
}

/// The full message for a request without a text body.
pub open spec fn empty_body_message() -> Seq<char> {
    "[400] Empty text body."@
}

/// The full message for a request whose text body is over the limit.
pub open spec fn too_long_message() -> Seq<char> {
    "[400] Text body is too long (max: 100)"@
}

/// Formatting the bad-request code with the two fixed texts gives the two
/// documented messages, letter for letter.
pub proof fn lemma_bad_request_messages()
    ensures
        err_msg(CODE_BAD_REQUEST as nat, MSG_EMPTY_TEXT_BODY@) == empty_body_message(),
        err_msg(CODE_BAD_REQUEST as nat, MSG_TEXT_BODY_TOO_LONG@) == too_long_message(),
{
    lemma_decimal_bad_request();
    reveal_strlit("Empty text body.");
    reveal_strlit("[400] Empty text body.");
    reveal_strlit("Text body is too long (max: 100)");
    reveal_strlit("[400] Text body is too long (max: 100)");
    assert(err_msg(400, "Empty text body."@) =~= "[400] Empty text body."@);
    assert(err_msg(400, "Text body is too long (max: 100)"@)
        =~= "[400] Text body is too long (max: 100)"@);
}

} // verus!
