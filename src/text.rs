//! Text shown in the error banner.
use vstd::prelude::*;

verus! {

pub open spec fn digit_char(d: nat) -> char {
    seq!['0', '1', '2', '3', '4', '5', '6', '7', '8', '9'][d as int]
}

/// The decimal digits of `n`, without leading zeros.
pub open spec fn decimal(n: nat) -> Seq<char>
    decreases n,
{
    if n < 10 {
        seq![digit_char(n)]
    } else {
        decimal(n / 10).push(digit_char(n % 10))
    }
}

/// An HTTP status as a number, or `UNKNOWN` when the failure carried none.
pub open spec fn status_label(status: Option<u16>) -> Seq<char> {
    match status {
        Some(code) => decimal(code as nat),
        None => "UNKNOWN"@,
    }
}

/// The banner for a failed request: `Error <status>: <description>`.
pub open spec fn error_banner(status: Option<u16>, text: Seq<char>) -> Seq<char> {
    "Error "@ + status_label(status) + ": "@ + text
}

/// Appends the decimal digits of `n`.
pub fn push_decimal(out: &mut String, n: u32)
    ensures
        final(out)@ == old(out)@ + decimal(n as nat),
    decreases n,
{
    if n >= 10 {
        push_decimal(out, n / 10);
    }
    let d = n % 10;
    let digits = "0123456789";
    proof {
        reveal_strlit("0123456789");
    }
    let s = digits.substring_char(d as usize, d as usize + 1);
    assert(s@ =~= seq![digit_char(d as nat)]);
    out.append(s);
    assert(out@ =~= old(out)@ + decimal(n as nat));
}

pub fn error_banner_text(status: Option<u16>, text: &str) -> (r: String)
    ensures
        r@ == error_banner(status, text@),
{
    let mut r = String::from_str("Error ");
    match status {
        Some(code) => push_decimal(&mut r, code as u32),
        None => r.append("UNKNOWN"),
    }
    r.append(": ");
    r.append(text);
    assert(r@ =~= error_banner(status, text@));
    r
}

} // verus!
