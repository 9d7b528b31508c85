//! Where the relay listens.
//!
//! The relay asks for the port that `PORT` names, or 8787. Where that port
//! is taken it tries the next one, five ports in all.

use crate::config::{Environment, EnvironmentView};
use crate::text::{chars_of, decimal, to_decimal};
use vstd::prelude::*;

verus! {

/// The port on which a relay listens whose environment names none.
pub const DEFAULT_PORT: u16 = 8787;

/// How many ports the relay tries.
pub const BIND_ATTEMPTS: u8 = 5;

/// Looking for a port: the one to try next, and how many tries are left,
/// this one included.
#[derive(Clone, Copy, Debug, PartialEq, Eq, Structural)]
pub struct Binding {
    /// The port to try.
    pub port: u16,
    /// How many tries are left, this one included.
    pub attempts_left: u8,
}

/// What a failed try leads to.
#[derive(Debug, PartialEq, Eq)]
pub struct BindFailure {
    /// The entry for the log: message and marker.
    pub note: (String, String),
    /// The next try; `None` where none is left.
    pub next: Option<Binding>,
}

/// The digit that `c` is; `None` where it is none.
pub open spec fn digit_of(c: char) -> Option<nat> {
    if '0' <= c && c <= '9' {
        Some((c as u32 - 48) as nat)
    } else {
        None
    }
}

/// The number that `digits` name in decimal; `None` where they are not
/// digits all, or where there are none.
pub open spec fn digits_value(digits: Seq<char>) -> Option<nat>
    decreases digits.len(),
{
    if digits.len() == 0 {
        None
    } else {
        match digit_of(digits.last()) {
            None => None,
            Some(ones) => if digits.len() == 1 {
                Some(ones)
            } else {
                match digits_value(digits.drop_last()) {
                    Some(tens) => Some(tens * 10 + ones),
                    None => None,
                }
            },
        }
    }
}

/// `text` without the plus sign at its head, if it has one.
pub open spec fn unsigned(text: Seq<char>) -> Seq<char> {
    if text.len() > 0 && text[0] == '+' {
        text.drop_first()
    } else {
        text
    }
}

/// The port that `text` names: decimal digits, behind a plus sign or not,
/// that name a number up to 65535. Nothing else names a port: no space, no
/// minus sign, no digits of another script.
pub open spec fn port_number(text: Seq<char>) -> Option<u16> {
    match digits_value(unsigned(text)) {
        Some(value) if value <= u16::MAX => Some(value as u16),
        _ => None,
    }
}

/// The digits at the head of a number name a number themselves, and no
/// greater one.
proof fn head_of_digits(digits: Seq<char>, k: int)
    requires
        0 < k <= digits.len(),
        digits_value(digits) is Some,
    ensures
        digits_value(digits.take(k)) is Some,
        digits_value(digits.take(k)).unwrap() <= digits_value(digits).unwrap(),
    decreases digits.len(),
{
    if k == digits.len() {
        assert(digits.take(k) =~= digits);
    } else {
        head_of_digits(digits.drop_last(), k);
        assert(digits.drop_last().take(k) =~= digits.take(k));
    }
}

/// Reads a port as `port_number` says.
pub fn parse_port(text: &str) -> (port: Option<u16>)
    ensures
        port == port_number(text@),
{
    let chars = chars_of(text);
    let start: usize = if chars.len() > 0 && chars[0] == '+' {
        1
    } else {
        0
    };
    let ghost digits = chars@.skip(start as int);
    assert(digits =~= unsigned(text@));
    let mut value: u32 = 0;
    let mut i: usize = start;
    while i < chars.len()
        invariant
            start <= i <= chars.len(),
            digits == chars@.skip(start as int),
            digits == unsigned(text@),
            value <= u16::MAX,
            i == start ==> value == 0,
            i > start ==> digits_value(digits.take(i - start)) == Some(value as nat),
        decreases chars.len() - i,
    {
        let c = chars[i];
        let ghost head = digits.take(i - start + 1);
        assert(head.last() == c);
        assert(head.drop_last() =~= digits.take(i - start));
        if c < '0' || c > '9' {
            proof {
                if digits_value(digits) is Some {
                    head_of_digits(digits, i - start + 1);
                }
            }
            return None;
        }
        let next: u32 = value * 10 + (c as u32 - 48);
        assert(digits_value(head) == Some(next as nat));
        if next > 65535 {
            proof {
                if digits_value(digits) is Some {
                    head_of_digits(digits, i - start + 1);
                }
            }
            return None;
        }
        value = next;
        i += 1;
    }
    if i == start {
        return None;
    }
    assert(digits.take(i - start) =~= digits);
    Some(value as u16)
}

/// The port to try first: the one that `PORT` names, or 8787 where it is
/// not set or names no port.
pub open spec fn first_port(env: EnvironmentView) -> u16 {
    match env.port {
        Some(text) => match port_number(text) {
            Some(port) => port,
            None => DEFAULT_PORT,
        },
        None => DEFAULT_PORT,
    }
}

/// The address to bind for `port`: every interface of the machine.
pub open spec fn bind_address(port: u16) -> Seq<char> {
    "0.0.0.0:"@ + decimal(port as nat)
}

/// The entry that records where the relay listens.
pub open spec fn bound_note(port: u16) -> (Seq<char>, Seq<char>) {
    ("Server bound to "@ + bind_address(port), "✅"@)
}

/// The entry that records a failed try, with its reason.
pub open spec fn bind_failed_note(port: u16, reason: Seq<char>) -> (Seq<char>, Seq<char>) {
    (
        "Failed to bind to "@ + bind_address(port) + ": "@ + reason + ". Trying next port..."@,
        "⚠️"@,
    )
}

/// The try that follows a failed one: the next port, unless the failed try
/// was the last.
pub open spec fn next_binding(failed: Binding) -> Option<Binding> {
    if failed.attempts_left > 1 {
        Some(Binding { port: (failed.port + 1) as u16, attempts_left: (failed.attempts_left - 1) as u8 })
    } else {
        None
    }
}

/// Computes `bind_address`.
pub fn address_of(port: u16) -> (address: String)
    ensures
        address@ == bind_address(port),
{
    let mut address = String::from_str("0.0.0.0:");
    address.append(to_decimal(port as u64).as_str());
    address
}

/// The first try.
pub fn start_binding(env: &Environment) -> (first: Binding)
    ensures
        first.port == first_port(env@),
        first.attempts_left == BIND_ATTEMPTS,
{
    let port = match &env.port {
        Some(text) => match parse_port(text.as_str()) {
            Some(port) => port,
            None => DEFAULT_PORT,
        },
        None => DEFAULT_PORT,
    };
    Binding { port, attempts_left: BIND_ATTEMPTS }
}

/// Builds `bound_note`.
pub fn bound(port: u16) -> (note: (String, String))
    ensures
        note.deep_view() == bound_note(port),
{
    let mut message = String::from_str("Server bound to ");
    message.append(address_of(port).as_str());
    (message, String::from_str("✅"))
}

/// Takes note of a failed try and names the next one. The port after the
/// last port there is cannot be named: `failed.port` is below 65535.
pub fn bind_failed(failed: Binding, reason: &str) -> (failure: BindFailure)
    requires
        failed.port < u16::MAX,
    ensures
        failure.note.deep_view() == bind_failed_note(failed.port, reason@),
        failure.next == next_binding(failed),
{
    let mut message = String::from_str("Failed to bind to ");
    message.append(address_of(failed.port).as_str());
    message.append(": ");
    message.append(reason);
    message.append(". Trying next port...");
    let next = if failed.attempts_left > 1 {
        Some(Binding { port: failed.port + 1, attempts_left: failed.attempts_left - 1 })
    } else {
        None
    };
    BindFailure { note: (message, String::from_str("⚠️")), next }
}

} // verus!
