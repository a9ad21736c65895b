//! The failure vocabulary shared by every part of the library.

use vstd::prelude::*;
use vstd::string::StringExecFns;

verus! {

/// Status with which the native counter library reports success.
pub const PAPI_OK: i32 = 0;

/// What can go wrong when working with the counter library.
#[derive(Debug, PartialEq, Eq)]
pub enum ErrorKind {
    /// The native library returned a status other than [`PAPI_OK`].
    PapiError(i32),
    /// An event name that could not be resolved.
    InvalidEvent(&'static str),
    /// Malformed input from the caller, with a diagnostic.
    InvalidArgument(String),
    /// More events were requested than there are hardware counters.
    OutOfHardwareCounters(&'static str),
}

/// Mathematical model of an [`ErrorKind`].
pub enum ErrorView {
    PapiError(int),
    InvalidEvent(Seq<char>),
    InvalidArgument(Seq<char>),
    OutOfHardwareCounters(Seq<char>),
}

impl View for ErrorKind {
    type V = ErrorView;

    open spec fn view(&self) -> ErrorView {
        match self {
            ErrorKind::PapiError(code) => ErrorView::PapiError(*code as int),
            ErrorKind::InvalidEvent(name) => ErrorView::InvalidEvent(name@),
            ErrorKind::InvalidArgument(message) => ErrorView::InvalidArgument(message@),
            ErrorKind::OutOfHardwareCounters(detail) => ErrorView::OutOfHardwareCounters(detail@),
        }
    }
}

/// The character that writes the decimal digit `d`.
pub open spec fn digit_char(d: int) -> char {
    if d == 0 {
        '0'
    } else if d == 1 {
        '1'
    } else if d == 2 {
        '2'
    } else if d == 3 {
        '3'
    } else if d == 4 {
        '4'
    } else if d == 5 {
        '5'
    } else if d == 6 {
        '6'
    } else if d == 7 {
        '7'
    } else if d == 8 {
        '8'
    } else {
        '9'
    }
}

/// Decimal digits of a natural number, most significant first, without
/// leading zeros.
pub open spec fn decimal_digits(n: nat) -> Seq<char>
    decreases n,
{
    if n < 10 {
        seq![digit_char(n as int)]
    } else {
        decimal_digits(n / 10).push(digit_char((n % 10) as int))
    }
}

/// Decimal text of an integer: a minus sign for a negative number, then the
/// digits of its magnitude.
pub open spec fn decimal(n: int) -> Seq<char> {
    if n < 0 {
        seq!['-'] + decimal_digits((-n) as nat)
    } else {
        decimal_digits(n as nat)
    }
}

impl ErrorView {
    /// The text that describes the error: what kind it is, then its detail.
    pub open spec fn text(self) -> Seq<char> {
        match self {
            ErrorView::PapiError(code) => "PAPI error: "@ + decimal(code),
            ErrorView::InvalidEvent(name) => "Invalid event: "@ + name,
            ErrorView::InvalidArgument(message) => "Invalid argument: "@ + message,
            ErrorView::OutOfHardwareCounters(detail) => "Out of hardware counters: "@ + detail,
        }
    }
}

/// One decimal digit as text.
fn digit_text(d: u8) -> (text: &'static str)
    requires
        d < 10,
    ensures
        text@ == seq![digit_char(d as int)],
{
    proof {
        reveal_strlit("0");
        reveal_strlit("1");
        reveal_strlit("2");
        reveal_strlit("3");
        reveal_strlit("4");
        reveal_strlit("5");
        reveal_strlit("6");
        reveal_strlit("7");
        reveal_strlit("8");
        reveal_strlit("9");
    }
    match d {
        0 => "0",
        1 => "1",
        2 => "2",
        3 => "3",
        4 => "4",
        5 => "5",
        6 => "6",
        7 => "7",
        8 => "8",
        _ => "9",
    }
}

/// Appends the decimal digits of `n` to `out`.
fn push_decimal_digits(out: &mut String, n: u32)
    ensures
        final(out)@ == old(out)@ + decimal_digits(n as nat),
    decreases n,
{
    if n >= 10 {
        push_decimal_digits(out, n / 10);
    }
    out.append(digit_text((n % 10) as u8));
}

/// Appends the decimal text of `n` to `out`.
fn push_decimal(out: &mut String, n: i32)
    ensures
        final(out)@ == old(out)@ + decimal(n as int),
{
    if n < 0 {
        out.append("-");
        proof {
            reveal_strlit("-");
        }
        let magnitude: i64 = -(n as i64);
        push_decimal_digits(out, magnitude as u32);
    } else {
        push_decimal_digits(out, n as u32);
    }
}

impl ErrorKind {
    /// Describes the error in words, its kind first and then its detail.
    pub fn to_string(&self) -> (text: String)
        ensures
            text@ == self@.text(),
    {
        match self {
            ErrorKind::PapiError(code) => {
                let mut text = String::from_str("PAPI error: ");
                push_decimal(&mut text, *code);
                text
            },
            ErrorKind::InvalidEvent(name) => String::from_str("Invalid event: ").concat(name),
            ErrorKind::InvalidArgument(message) => String::from_str("Invalid argument: ").concat(
                message.as_str(),
            ),
            ErrorKind::OutOfHardwareCounters(detail) => String::from_str(
                "Out of hardware counters: ",
            ).concat(detail),
        }
    }
}

/// Turns a status of the native library into a result: [`PAPI_OK`] is
/// success, every other status is an [`ErrorKind::PapiError`] that carries it.
pub fn check(code: i32) -> (result: Result<(), ErrorKind>)
    ensures
        code == PAPI_OK ==> result is Ok,
        code != PAPI_OK ==> result == Err::<(), ErrorKind>(ErrorKind::PapiError(code)),
{
    if code == PAPI_OK {
        Ok(())
    } else {
        Err(ErrorKind::PapiError(code))
    }
}

} // verus!
