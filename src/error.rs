//! Server error taxonomy and the client-safe messages sent for each error.

use vstd::prelude::*;
use vstd::string::*;

verus! {

/// Everything that can go wrong while handling one request.
#[derive(Debug)]
pub enum ServerError {
    /// A datagram too short to carry a checksum.
    MalformedDatagram,
    /// The checksum carried by a datagram differs from the one computed over its body.
    ChecksumUnmatch { expect: u32, actual: u32 },
    /// The request envelope, or its method name, could not be parsed.
    ParseJson,
    /// A stored value is not UTF-8 text.
    ParseParamLiteral,
    /// A stored or given value is not a decimal number.
    ParseParamNumeric,
    /// Fewer parameters than the method needs; holds how many were expected.
    MissingParam(usize),
    /// The parameter at this index must be a key name.
    MissingName(usize),
    /// The parameter at this index must be a decimal number.
    MissingNumber(usize),
    /// The key holds no value.
    DbKeyNotFound(String),
    /// An update named a key that does not exist.
    DbKeyUpdate(String),
    /// A create named a key that already holds a value.
    SledCas,
    /// The storage engine failed.
    SledInternal,
    /// A division had a zero divisor.
    DivisionByZero,
    /// An arithmetic operand has a scale too large to compute with.
    ScaleOutOfRange,
    /// Processing did not finish before the deadline.
    Timeout,
}

/// The mathematical view of a [`ServerError`]: key texts become character sequences.
pub enum Fault {
    MalformedDatagram,
    ChecksumUnmatch { expect: u32, actual: u32 },
    ParseJson,
    ParseParamLiteral,
    ParseParamNumeric,
    MissingParam(usize),
    MissingName(usize),
    MissingNumber(usize),
    DbKeyNotFound(Seq<char>),
    DbKeyUpdate(Seq<char>),
    SledCas,
    SledInternal,
    DivisionByZero,
    ScaleOutOfRange,
    Timeout,
}

impl View for ServerError {
    type V = Fault;

    open spec fn view(&self) -> Fault {
        match self {
            ServerError::MalformedDatagram => Fault::MalformedDatagram,
            ServerError::ChecksumUnmatch { expect, actual } => Fault::ChecksumUnmatch {
                expect: *expect,
                actual: *actual,
            },
            ServerError::ParseJson => Fault::ParseJson,
            ServerError::ParseParamLiteral => Fault::ParseParamLiteral,
            ServerError::ParseParamNumeric => Fault::ParseParamNumeric,
            ServerError::MissingParam(n) => Fault::MissingParam(*n),
            ServerError::MissingName(n) => Fault::MissingName(*n),
            ServerError::MissingNumber(n) => Fault::MissingNumber(*n),
            ServerError::DbKeyNotFound(k) => Fault::DbKeyNotFound(k@),
            ServerError::DbKeyUpdate(k) => Fault::DbKeyUpdate(k@),
            ServerError::SledCas => Fault::SledCas,
            ServerError::SledInternal => Fault::SledInternal,
            ServerError::DivisionByZero => Fault::DivisionByZero,
            ServerError::ScaleOutOfRange => Fault::ScaleOutOfRange,
            ServerError::Timeout => Fault::Timeout,
        }
    }
}

/// The character of a decimal digit.
pub open spec fn digit_char(d: nat) -> char {
    if d == 0 {
        '0'
    } else if d == 1 {
        '1'
    } else if d == 2 {
        '2'
    } else if d == 3 {
        '3'
    } else if d == 4 {
        '4'
    } else if d == 5 {
        '5'
    } else if d == 6 {
        '6'
    } else if d == 7 {
        '7'
    } else if d == 8 {
        '8'
    } else {
        '9'
    }
}

/// The decimal numeral of `n`, without leading zeros.
pub open spec fn numeral(n: nat) -> Seq<char>
    decreases n,
{
    if n < 10 {
        seq![digit_char(n)]
    } else {
        numeral(n / 10).push(digit_char(n % 10))
    }
}

/// `["key"]`, as messages quote a key.
pub open spec fn quoted_key(key: Seq<char>) -> Seq<char> {
    "[\""@ + key + "\"]"@
}

/// The message sent to the client for each error.
pub open spec fn message_of(f: Fault) -> Seq<char> {
    match f {
        Fault::MalformedDatagram => "malformed datagram."@,
        Fault::ChecksumUnmatch { expect, actual } => "JSON RPC checksum unmatched, expect: "@
            + numeral(expect as nat) + ", actual: "@ + numeral(actual as nat),
        Fault::ParseJson => "failed to parse JSON attributes."@,
        Fault::ParseParamLiteral => "failed to parse parameter into utf8-string."@,
        Fault::ParseParamNumeric => "failed to parse paramater into floating number."@,
        Fault::MissingParam(n) => "missing "@ + numeral(n as nat) + " parameter."@,
        Fault::MissingName(i) => "index "@ + numeral(i as nat) + " must be a name."@,
        Fault::MissingNumber(i) => "index "@ + numeral(i as nat) + " must be decimal number."@,
        Fault::DbKeyNotFound(k) => quoted_key(k) + " not found."@,
        Fault::DbKeyUpdate(k) => quoted_key(k) + " does not exist."@,
        Fault::SledCas => "failed to create new value in user database"@,
        Fault::SledInternal => "failed to fetch or update value in user database."@,
        Fault::DivisionByZero => "division by zero."@,
        Fault::ScaleOutOfRange => "decimal number out of range."@,
        Fault::Timeout => "server timeout."@,
    }
}

fn digit_str(d: usize) -> (r: &'static str)
    requires
        d < 10,
    ensures
        r@ == seq![digit_char(d as nat)],
{
    proof {
        reveal_strlit("0");
        reveal_strlit("1");
        reveal_strlit("2");
        reveal_strlit("3");
        reveal_strlit("4");
        reveal_strlit("5");
        reveal_strlit("6");
        reveal_strlit("7");
        reveal_strlit("8");
        reveal_strlit("9");
    }
    let r = if d == 0 {
        "0"
    } else if d == 1 {
        "1"
    } else if d == 2 {
        "2"
    } else if d == 3 {
        "3"
    } else if d == 4 {
        "4"
    } else if d == 5 {
        "5"
    } else if d == 6 {
        "6"
    } else if d == 7 {
        "7"
    } else if d == 8 {
        "8"
    } else {
        "9"
    };
    assert(r@ =~= seq![digit_char(d as nat)]);
    r
}

/// Appends the decimal numeral of `n` to `s`.
fn append_numeral(s: &mut String, n: usize)
    ensures
        final(s)@ == old(s)@ + numeral(n as nat),
    decreases n,
{
    if n < 10 {
        s.append(digit_str(n));
    } else {
        append_numeral(s, n / 10);
        s.append(digit_str(n % 10));
        assert(final(s)@ =~= old(s)@ + numeral(n as nat));
    }
}

/// The content of the "error" member of a response.
pub struct ErrorMsg(String);

impl View for ErrorMsg {
    type V = Seq<char>;

    closed spec fn view(&self) -> Seq<char> {
        self.0@
    }
}

impl ErrorMsg {
    /// Wraps a message.
    pub fn new(msg: String) -> (r: Self)
        ensures
            r@ == msg@,
    {
        ErrorMsg(msg)
    }

    /// Gives back the message.
    pub fn into_inner(self) -> (r: String)
        ensures
            r@ == self@,
    {
        self.0
    }

    /// The client-safe message for an error; it never carries engine detail.
    pub fn from_error(e: ServerError) -> (r: Self)
        ensures
            r@ == message_of(e@),
    {
        let mut s = String::new();
        match e {
            ServerError::MalformedDatagram => s.append("malformed datagram."),
            ServerError::ChecksumUnmatch { expect, actual } => {
                s.append("JSON RPC checksum unmatched, expect: ");
                append_numeral(&mut s, expect as usize);
                s.append(", actual: ");
                append_numeral(&mut s, actual as usize);
            },
            ServerError::ParseJson => s.append("failed to parse JSON attributes."),
            ServerError::ParseParamLiteral => s.append(
                "failed to parse parameter into utf8-string.",
            ),
            ServerError::ParseParamNumeric => s.append(
                "failed to parse paramater into floating number.",
            ),
            ServerError::MissingParam(n) => {
                s.append("missing ");
                append_numeral(&mut s, n);
                s.append(" parameter.");
            },
            ServerError::MissingName(i) => {
                s.append("index ");
                append_numeral(&mut s, i);
                s.append(" must be a name.");
            },
            ServerError::MissingNumber(i) => {
                s.append("index ");
                append_numeral(&mut s, i);
                s.append(" must be decimal number.");
            },
            ServerError::DbKeyNotFound(k) => {
                s.append("[\"");
                s.append(k.as_str());
                s.append("\"]");
                s.append(" not found.");
            },
            ServerError::DbKeyUpdate(k) => {
                s.append("[\"");
                s.append(k.as_str());
                s.append("\"]");
                s.append(" does not exist.");
            },
            ServerError::SledCas => s.append("failed to create new value in user database"),
            ServerError::SledInternal => s.append(
                "failed to fetch or update value in user database.",
            ),
            ServerError::DivisionByZero => s.append("division by zero."),
            ServerError::ScaleOutOfRange => s.append("decimal number out of range."),
            ServerError::Timeout => s.append("server timeout."),
        }
        assert(s@ =~= message_of(e@));
        ErrorMsg(s)
    }
}

impl From<ServerError> for ErrorMsg {
    fn from(e: ServerError) -> (r: Self)
        ensures
            r@ == message_of(e@),
    {
        ErrorMsg::from_error(e)
    }
}

impl vstd::std_specs::convert::FromSpecImpl<ServerError> for ErrorMsg {
    open spec fn obeys_from_spec() -> bool {
        false
    }

    open spec fn from_spec(e: ServerError) -> ErrorMsg {
        arbitrary()
    }
}

} // verus!
