//! Resolution of the server's configuration values: a missing variable
//! falls back to its default, a present one must parse as a number where
//! a number is called for.

use vstd::prelude::*;

use crate::digits::after_sign;
use crate::digits::digits_value;
use crate::digits::is_decimal;
use crate::digits::parse_u64;

verus! {

/// The default amount of threads to use for the HTTP server.
pub const DEFAULT_WORKERS: usize = 4;

/// The default port to bind to.
pub const DEFAULT_PORT: u16 = 8080;

/// The default IP to bind to.
pub fn default_ip() -> (r: String)
    ensures
        r@ == "127.0.0.1"@,
{
    String::from_str("127.0.0.1")
}

/// True when `s` parses as an unsigned decimal numeral whose value is
/// at most `bound`.
pub open spec fn parses_within(s: Seq<char>, bound: int) -> bool {
    is_decimal(s) && digits_value(after_sign(s)) <= bound
}

/// The worker count for the server: the default when the variable is
/// absent, the variable's decimal value when it has one that fits in a
/// `usize`, and nothing otherwise.
pub fn resolve_workers(var: Option<String>) -> (r: Option<usize>)
    ensures
        var is None ==> r == Some(DEFAULT_WORKERS),
        var matches Some(s) ==> ((r is Some) <==> parses_within(s@, usize::MAX as int)),
        var matches Some(s) ==> (r matches Some(w) ==> w == digits_value(after_sign(s@))),
{
    match var {
        None => Some(DEFAULT_WORKERS),
        Some(s) => match parse_u64(s.as_str()) {
            None => None,
            Some(v) => {
                if v <= usize::MAX as u64 {
                    Some(v as usize)
                } else {
                    None
                }
            },
        },
    }
}

/// The IP for the server to bind to: the variable's own text, or the
/// default when it is absent.
pub fn resolve_ip(var: Option<String>) -> (r: String)
    ensures
        var matches Some(s) ==> r@ == s@,
        var is None ==> r@ == "127.0.0.1"@,
{
    match var {
        None => default_ip(),
        Some(s) => s,
    }
}

/// The port for the server to bind to: the default when the variable is
/// absent, the variable's decimal value when it has one that fits in a
/// `u16`, and nothing otherwise.
pub fn resolve_port(var: Option<String>) -> (r: Option<u16>)
    ensures
        var is None ==> r == Some(DEFAULT_PORT),
        var matches Some(s) ==> ((r is Some) <==> parses_within(s@, u16::MAX as int)),
        var matches Some(s) ==> (r matches Some(p) ==> p == digits_value(after_sign(s@))),
{
    match var {
        None => Some(DEFAULT_PORT),
        Some(s) => match parse_u64(s.as_str()) {
            None => None,
            Some(v) => {
                if v <= u16::MAX as u64 {
                    Some(v as u16)
                } else {
                    None
                }
            },
        },
    }
}

} // verus!
