//! The requested action, as resolved from the command line.
use vstd::prelude::*;

verus! {

/// What the invocation asks of the device.
#[derive(Debug, Clone, Copy, PartialEq, Eq, Structural)]
pub enum Action {
    /// Switch the device to managed mode and set this sensitivity.
    SetDpi(u16),
    /// Touch nothing.
    NoCommand,
}

impl Default for Action {
    fn default() -> (r: Action)
        ensures
            r == Action::NoCommand,
    {
        Action::NoCommand
    }
}

/// An argument that cannot be resolved into an action.
#[derive(Debug, Clone, Copy, PartialEq, Eq, Structural)]
pub enum ArgumentError {
    /// The sensitivity is not an unsigned 16-bit decimal integer.
    InvalidDpi,
}

pub open spec fn is_decimal_digit(c: char) -> bool {
    '0' <= c && c <= '9'
}

/// The value of a string of decimal digits.
pub open spec fn decimal_value(s: Seq<char>) -> nat
    decreases s.len(),
{
    if s.len() == 0 {
        0
    } else {
        decimal_value(s.drop_last()) * 10 + (s.last() as nat - '0' as nat) as nat
    }
}

/// The text after an optional leading `+`.
pub open spec fn unsigned_digits(s: Seq<char>) -> Seq<char> {
    if s.len() > 0 && s[0] == '+' {
        s.drop_first()
    } else {
        s
    }
}

/// The number that `s` writes in decimal, if it is one that fits in 16 bits:
/// an optional `+`, then one or more digits and nothing else.
pub open spec fn parsed_u16(s: Seq<char>) -> Option<u16> {
    let d = unsigned_digits(s);
    if d.len() > 0 && (forall|i: int| 0 <= i < d.len() ==> is_decimal_digit(#[trigger] d[i]))
        && decimal_value(d) <= u16::MAX {
        Some(decimal_value(d) as u16)
    } else {
        None
    }
}

/// Relies on `str::parse::<u16>`, whose documentation asks for an optional `+`
/// followed by decimal digits only, and fails on any other text and on values
/// that do not fit.
#[verifier::external_body]
fn parse_u16(s: &str) -> (r: Option<u16>)
    ensures
        r == parsed_u16(s@),
{
    s.parse::<u16>().ok()
}

/// The action for a command line: `dpi_arg` is the argument of the `set-dpi`
/// subcommand, or `None` where that subcommand is absent.
pub fn resolve_action(dpi_arg: Option<&str>) -> (r: Result<Action, ArgumentError>)
    ensures
        match dpi_arg {
            None => r == Ok::<Action, ArgumentError>(Action::NoCommand),
            Some(s) => match parsed_u16(s@) {
                Some(v) => r == Ok::<Action, ArgumentError>(Action::SetDpi(v)),
                None => r == Err::<Action, ArgumentError>(ArgumentError::InvalidDpi),
            },
        },
{
    match dpi_arg {
        None => Ok(Action::NoCommand),
        Some(s) => match parse_u16(s) {
            Some(v) => Ok(Action::SetDpi(v)),
            None => Err(ArgumentError::InvalidDpi),
        },
    }
}

} // verus!
