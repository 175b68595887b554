//! Verified rendering of the human-readable diagnostic messages.

use vstd::prelude::*;
use vstd::string::StringExecFns;

verus! {

/// The character for a single decimal digit.
pub open spec fn digit_char(d: nat) -> char {
    if d == 0 {
        '0'
    } else if d == 1 {
        '1'
    } else if d == 2 {
        '2'
    } else if d == 3 {
        '3'
    } else if d == 4 {
        '4'
    } else if d == 5 {
        '5'
    } else if d == 6 {
        '6'
    } else if d == 7 {
        '7'
    } else if d == 8 {
        '8'
    } else {
        '9'
    }
}

/// The decimal rendering of `n`: most significant digit first, no sign, no
/// leading zeros (a lone `'0'` for zero).
pub open spec fn decimal(n: nat) -> Seq<char>
    decreases n,
{
    if n < 10 {
        seq![digit_char(n)]
    } else {
        decimal(n / 10).push(digit_char(n % 10))
    }
}

/// The message a missing metadata block is reported with.
pub open spec fn not_found_message(container: Seq<char>) -> Seq<char> {
    "No Exif data found in "@ + container
}

/// The message a partial result is reported with.
pub open spec fn partial_result_message(field_count: nat, error_count: nat) -> Seq<char> {
    "Partial result with "@ + decimal(field_count) + " fields and "@ + decimal(error_count)
        + " errors"@
}

/// The opening of a partial result's diagnostic rendering, up to and
/// including the bracket that starts the suppressed-error list.
pub open spec fn partial_debug_prefix(field_count: nat) -> Seq<char> {
    "PartialResult(Document("@ + decimal(field_count) + " fields), ["@
}

/// The single-character string for one decimal digit.
fn digit_str(d: u64) -> (s: &'static str)
    requires
        d < 10,
    ensures
        s@ == seq![digit_char(d as nat)],
{
    let s: &'static str = if d == 0 {
        "0"
    } else if d == 1 {
        "1"
    } else if d == 2 {
        "2"
    } else if d == 3 {
        "3"
    } else if d == 4 {
        "4"
    } else if d == 5 {
        "5"
    } else if d == 6 {
        "6"
    } else if d == 7 {
        "7"
    } else if d == 8 {
        "8"
    } else {
        "9"
    };
    proof {
        reveal_strlit("0");
        reveal_strlit("1");
        reveal_strlit("2");
        reveal_strlit("3");
        reveal_strlit("4");
        reveal_strlit("5");
        reveal_strlit("6");
        reveal_strlit("7");
        reveal_strlit("8");
        reveal_strlit("9");
        assert(s@ =~= seq![digit_char(d as nat)]);
    }
    s
}

/// Renders `n` in decimal.
pub fn decimal_string(n: u64) -> (s: String)
    ensures
        s@ == decimal(n as nat),
    decreases n,
{
    if n < 10 {
        digit_str(n).to_owned()
    } else {
        let mut s = decimal_string(n / 10);
        s.append(digit_str(n % 10));
        proof {
            assert(s@ =~= decimal(n as nat));
        }
        s
    }
}

/// Renders the message a missing metadata block is reported with.
pub fn render_not_found(container: &str) -> (s: String)
    ensures
        s@ == not_found_message(container@),
{
    let mut s: String = "No Exif data found in ".to_owned();
    s.append(container);
    s
}

/// Renders the message a partial result is reported with.
pub fn render_partial_result(field_count: usize, error_count: usize) -> (s: String)
    ensures
        s@ == partial_result_message(field_count as nat, error_count as nat),
{
    let mut s: String = "Partial result with ".to_owned();
    let fields = decimal_string(field_count as u64);
    s.append(fields.as_str());
    s.append(" fields and ");
    let errors = decimal_string(error_count as u64);
    s.append(errors.as_str());
    s.append(" errors");
    proof {
        assert(s@ =~= partial_result_message(field_count as nat, error_count as nat));
    }
    s
}

} // verus!
