//! Text pieces that messages are built from: decimal numbers and HTTP
//! status lines.

use vstd::prelude::*;

verus! {

/// The decimal digit character of `d`, for `d < 10`.
pub open spec fn digit(d: nat) -> char {
    if d == 0 {
        '0'
    } else if d == 1 {
        '1'
    } else if d == 2 {
        '2'
    } else if d == 3 {
        '3'
    } else if d == 4 {
        '4'
    } else if d == 5 {
        '5'
    } else if d == 6 {
        '6'
    } else if d == 7 {
        '7'
    } else if d == 8 {
        '8'
    } else {
        '9'
    }
}

/// The decimal notation of `n`, without leading zeros.
pub open spec fn decimal(n: nat) -> Seq<char>
    decreases n,
{
    if n < 10 {
        seq![digit(n)]
    } else {
        decimal(n / 10).push(digit(n % 10))
    }
}

fn digit_str(d: usize) -> (r: &'static str)
    requires
        d < 10,
    ensures
        r@ == seq![digit(d as nat)],
{
    if d == 0 {
        proof { reveal_strlit("0"); }
        "0"
    } else if d == 1 {
        proof { reveal_strlit("1"); }
        "1"
    } else if d == 2 {
        proof { reveal_strlit("2"); }
        "2"
    } else if d == 3 {
        proof { reveal_strlit("3"); }
        "3"
    } else if d == 4 {
        proof { reveal_strlit("4"); }
        "4"
    } else if d == 5 {
        proof { reveal_strlit("5"); }
        "5"
    } else if d == 6 {
        proof { reveal_strlit("6"); }
        "6"
    } else if d == 7 {
        proof { reveal_strlit("7"); }
        "7"
    } else if d == 8 {
        proof { reveal_strlit("8"); }
        "8"
    } else {
        proof { reveal_strlit("9"); }
        "9"
    }
}

/// The decimal notation of `n`.
pub fn decimal_text(n: usize) -> (r: String)
    ensures
        r@ == decimal(n as nat),
    decreases n,
{
    if n < 10 {
        String::from_str(digit_str(n))
    } else {
        let mut s = decimal_text(n / 10);
        s.append(digit_str(n % 10));
        s
    }
}

/// Whether an HTTP status code reports success (the 2xx range).
pub open spec fn is_success_code(code: u16) -> bool {
    200 <= code < 300
}

/// Whether an HTTP status code reports success (the 2xx range).
pub fn is_success(code: u16) -> (r: bool)
    ensures
        r == is_success_code(code),
{
    200 <= code && code < 300
}

/// The standard reason phrase of a status code, if it has one.
pub uninterp spec fn reason_phrase_of(code: u16) -> Option<Seq<char>>;

/// Relies on `reqwest::StatusCode::from_u16`, which accepts exactly the codes
/// 100 to 999, and on `StatusCode::canonical_reason`, which gives the
/// standard reason phrase of a code, if it has one.
#[verifier::external_body]
fn canonical_reason(code: u16) -> (r: Option<String>)
    requires
        100 <= code <= 999,
    ensures
        match r {
            Some(s) => reason_phrase_of(code) == Some(s@),
            None => reason_phrase_of(code) is None,
        },
{
    match reqwest::StatusCode::from_u16(code) {
        Ok(s) => s.canonical_reason().map(String::from),
        Err(_) => None,
    }
}

/// How a status code is shown: its number, then its reason phrase, or a
/// placeholder when it has none.
pub open spec fn status_display(code: u16) -> Seq<char> {
    let reason = if 100 <= code <= 999 {
        reason_phrase_of(code)
    } else {
        None
    };
    decimal(code as nat) + " "@ + match reason {
        Some(p) => p,
        None => "<unknown status code>"@,
    }
}

/// How a status code is shown: its number, then its reason phrase, or a
/// placeholder when it has none.
pub fn status_text(code: u16) -> (r: String)
    ensures
        r@ == status_display(code),
{
    let reason = if 100 <= code && code <= 999 {
        canonical_reason(code)
    } else {
        None
    };
    let mut s = decimal_text(code as usize);
    s.append(" ");
    match reason {
        Some(p) => s.append(p.as_str()),
        None => s.append("<unknown status code>"),
    }
    s
}

} // verus!
