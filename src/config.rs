//! Server settings taken from optional environment values, with defaults.
use vstd::prelude::*;

verus! {

/// The port used when none is configured, or the configured one is not a port.
pub const DEFAULT_PORT: u16 = 3333;

/// The folder of the client's compiled package used when none is configured.
pub const DEFAULT_PKG_FOLDER: &'static str = "./client/pkg";

/// The client's entry page used when none is configured.
pub const DEFAULT_INDEX_FILE: &'static str = "./client/index.html";

pub open spec fn is_decimal_digit(c: char) -> bool {
    '0' <= c <= '9'
}

/// The value of a string of decimal digits, most significant first.
pub open spec fn digits_value(digits: Seq<char>) -> nat
    decreases digits.len(),
{
    if digits.len() == 0 {
        0
    } else {
        digits_value(digits.drop_last()) * 10 + (digits.last() as int - '0' as int) as nat
    }
}

/// The `u16` that a text spells: an optional `+`, then one or more decimal
/// digits whose value is at most `u16::MAX`. Nothing else (no whitespace, no
/// `-`) is allowed.
pub open spec fn decimal_u16(s: Seq<char>) -> Option<u16> {
    let digits = if s.len() > 0 && s[0] == '+' {
        s.drop_first()
    } else {
        s
    };
    if digits.len() > 0 && (forall|i: int| 0 <= i < digits.len() ==> is_decimal_digit(#[trigger] digits[i]))
        && digits_value(digits) <= u16::MAX as nat {
        Some(digits_value(digits) as u16)
    } else {
        None
    }
}

/// Relies on `<u16 as FromStr>::from_str`, which accepts exactly an optional
/// `+` followed by decimal digits whose value fits in a `u16`.
#[verifier::external_body]
fn parse_u16(s: &str) -> (r: Option<u16>)
    ensures
        r == decimal_u16(s@),
{
    s.parse::<u16>().ok()
}

/// The port to listen on: the configured value where it spells a `u16`,
/// otherwise `DEFAULT_PORT`.
pub fn server_port(configured: Option<String>) -> (r: u16)
    ensures
        r == match configured {
            Some(s) => match decimal_u16(s@) {
                Some(p) => p,
                None => DEFAULT_PORT,
            },
            None => DEFAULT_PORT,
        },
{
    match configured {
        Some(s) => match parse_u16(s.as_str()) {
            Some(p) => p,
            None => DEFAULT_PORT,
        },
        None => DEFAULT_PORT,
    }
}

/// The folder of the client's compiled package: the configured value, or
/// `DEFAULT_PKG_FOLDER`.
pub fn pkg_folder(configured: Option<String>) -> (r: String)
    ensures
        r@ == match configured {
            Some(s) => s@,
            None => DEFAULT_PKG_FOLDER@,
        },
{
    match configured {
        Some(s) => s,
        None => DEFAULT_PKG_FOLDER.to_owned(),
    }
}

/// The client's entry page: the configured value, or `DEFAULT_INDEX_FILE`.
pub fn index_file(configured: Option<String>) -> (r: String)
    ensures
        r@ == match configured {
            Some(s) => s@,
            None => DEFAULT_INDEX_FILE@,
        },
{
    match configured {
        Some(s) => s,
        None => DEFAULT_INDEX_FILE.to_owned(),
    }
}

} // verus!
