//! Verified construction of the page-request URL: decimal rendering of the
//! page number and page size, appended to the registry's fixed base URL.

use vstd::prelude::*;
use vstd::string::StringExecFns;

verus! {

/// The decimal digit character for `d` in `0 .. 10`.
pub open spec fn digit_char(d: int) -> char {
    if d == 0 {
        '0'
    } else if d == 1 {
        '1'
    } else if d == 2 {
        '2'
    } else if d == 3 {
        '3'
    } else if d == 4 {
        '4'
    } else if d == 5 {
        '5'
    } else if d == 6 {
        '6'
    } else if d == 7 {
        '7'
    } else if d == 8 {
        '8'
    } else {
        '9'
    }
}

/// The decimal rendering of `n`, most significant digit first, with no
/// leading zeros (a single `'0'` for 0).
pub open spec fn decimal_of(n: int) -> Seq<char>
    decreases n,
{
    if n < 10 {
        seq![digit_char(n)]
    } else {
        decimal_of(n / 10).push(digit_char(n % 10))
    }
}

/// The one-character string slice for a decimal digit.
fn digit_str(d: u32) -> (r: &'static str)
    requires
        d < 10,
    ensures
        r@ == seq![digit_char(d as int)],
{
    let r: &'static str = match d {
        0 => "0",
        1 => "1",
        2 => "2",
        3 => "3",
        4 => "4",
        5 => "5",
        6 => "6",
        7 => "7",
        8 => "8",
        _ => "9",
    };
    proof {
        reveal_strlit("0");
        reveal_strlit("1");
        reveal_strlit("2");
        reveal_strlit("3");
        reveal_strlit("4");
        reveal_strlit("5");
        reveal_strlit("6");
        reveal_strlit("7");
        reveal_strlit("8");
        reveal_strlit("9");
        assert(r@ =~= seq![digit_char(d as int)]);
    }
    r
}

/// Appends the decimal rendering of `n` to `s`.
pub fn append_u32(s: &mut String, n: u32)
    ensures
        final(s)@ == old(s)@ + decimal_of(n as int),
    decreases n,
{
    if n >= 10 {
        append_u32(s, n / 10);
        let d = digit_str(n % 10);
        s.append(d);
        proof {
            assert(s@ =~= old(s)@ + decimal_of(n as int));
        }
    } else {
        let d = digit_str(n);
        s.append(d);
        proof {
            assert(s@ =~= old(s)@ + decimal_of(n as int));
        }
    }
}

/// The full request URL for one page of a subject's reverse dependencies.
pub open spec fn url_of(subject: Seq<char>, page: u32, per_page: u32) -> Seq<char> {
    "https://crates.io/api/v1/crates/"@ + subject + "/reverse_dependencies?page="@ + decimal_of(
        page as int,
    ) + "&per_page="@ + decimal_of(per_page as int)
}

/// Builds the request URL for one page of `subject`'s reverse dependencies.
pub fn build_url(subject: &str, page: u32, per_page: u32) -> (r: String)
    ensures
        r@ == url_of(subject@, page, per_page),
{
    let mut s = String::new();
    s.append("https://crates.io/api/v1/crates/");
    s.append(subject);
    s.append("/reverse_dependencies?page=");
    append_u32(&mut s, page);
    s.append("&per_page=");
    append_u32(&mut s, per_page);
    proof {
        assert(s@ =~= url_of(subject@, page, per_page));
    }
    s
}

} // verus!
