//! Errors of the client, and the decimal rendering of status codes used in
//! their messages.
use vstd::prelude::*;

verus! {

/// What went wrong in a call.
#[derive(Debug, Clone)]
pub enum Error {
    /// The transport failed (connection, header value, reading a body).
    RequestError(String),
    /// Credentials were rejected, or a response had an unexpected status.
    AuthenticationError(String),
    /// A response body did not decode into the expected shape.
    APIParseError(String),
}

/// The mathematical view of an [`Error`]: its kind and its message.
pub enum ErrorView {
    Request(Seq<char>),
    Authentication(Seq<char>),
    Parse(Seq<char>),
}

impl View for Error {
    type V = ErrorView;

    open spec fn view(&self) -> ErrorView {
        match self {
            Error::RequestError(m) => ErrorView::Request(m@),
            Error::AuthenticationError(m) => ErrorView::Authentication(m@),
            Error::APIParseError(m) => ErrorView::Parse(m@),
        }
    }
}

impl Error {
    /// The diagnostic text carried by the error.
    pub fn message(&self) -> (r: &str)
        ensures
            r@ == match self@ {
                ErrorView::Request(m) => m,
                ErrorView::Authentication(m) => m,
                ErrorView::Parse(m) => m,
            },
    {
        match self {
            Error::RequestError(m) => m.as_str(),
            Error::AuthenticationError(m) => m.as_str(),
            Error::APIParseError(m) => m.as_str(),
        }
    }

    /// Whether this is an authentication error.
    pub fn is_authentication(&self) -> (r: bool)
        ensures
            r == (self@ is Authentication),
    {
        match self {
            Error::AuthenticationError(_) => true,
            _ => false,
        }
    }
}

/// The character of a decimal digit.
pub open spec fn digit_char(d: nat) -> char {
    if d == 0 { '0' }
    else if d == 1 { '1' }
    else if d == 2 { '2' }
    else if d == 3 { '3' }
    else if d == 4 { '4' }
    else if d == 5 { '5' }
    else if d == 6 { '6' }
    else if d == 7 { '7' }
    else if d == 8 { '8' }
    else { '9' }
}

/// The decimal notation of a natural number, without leading zeros.
pub open spec fn decimal(n: nat) -> Seq<char>
    decreases n,
{
    if n < 10 {
        seq![digit_char(n)]
    } else {
        decimal(n / 10) + seq![digit_char(n % 10)]
    }
}

fn digit_str(d: u16) -> (r: &'static str)
    requires
        d < 10,
    ensures
        r@ == seq![digit_char(d as nat)],
{
    proof {
        reveal_strlit("0");
        reveal_strlit("1");
        reveal_strlit("2");
        reveal_strlit("3");
        reveal_strlit("4");
        reveal_strlit("5");
        reveal_strlit("6");
        reveal_strlit("7");
        reveal_strlit("8");
        reveal_strlit("9");
    }
    match d {
        0 => "0",
        1 => "1",
        2 => "2",
        3 => "3",
        4 => "4",
        5 => "5",
        6 => "6",
        7 => "7",
        8 => "8",
        _ => "9",
    }
}

/// Renders a status code in decimal, as it appears in error messages.
pub fn decimal_string(n: u16) -> (r: String)
    ensures
        r@ == decimal(n as nat),
    decreases n,
{
    if n < 10 {
        String::from_str(digit_str(n))
    } else {
        let head = decimal_string(n / 10);
        head.concat(digit_str(n % 10))
    }
}

} // verus!
