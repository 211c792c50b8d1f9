//! A CRUD service core for arithmetic on arbitrary-precision decimal numbers,
//! framed as JSON-RPC 1.0 style requests carried in checksummed datagrams.

pub mod codec;
pub mod database;
pub mod decimal;
pub mod dispatch;
pub mod error;
mod jsonrpc;
pub mod prelude;

use vstd::prelude::*;
use vstd::string::*;

use crate::decimal::decimal_text;
use crate::error::{Fault, ServerError};

verus! {

/// The arithmetic that a binary method applies.
#[derive(Debug, Clone, Copy, PartialEq, Eq, Structural)]
pub enum BinaryOps {
    Add,
    Subtract,
    Multiply,
    Divide,
}

/// The operation that a request invokes.
#[derive(Debug, Clone, Copy, PartialEq, Eq, Structural)]
pub enum Method {
    Create,
    Read,
    Update,
    Delete,
    Binary(BinaryOps),
}

/// The method named by `s`, matched exactly; `None` for any other text.
pub open spec fn method_of(s: Seq<char>) -> Option<Method> {
    if s == "create"@ {
        Some(Method::Create)
    } else if s == "read"@ {
        Some(Method::Read)
    } else if s == "update"@ {
        Some(Method::Update)
    } else if s == "delete"@ {
        Some(Method::Delete)
    } else if s == "add"@ {
        Some(Method::Binary(BinaryOps::Add))
    } else if s == "subtract"@ {
        Some(Method::Binary(BinaryOps::Subtract))
    } else if s == "multiply"@ {
        Some(Method::Binary(BinaryOps::Multiply))
    } else if s == "divide"@ {
        Some(Method::Binary(BinaryOps::Divide))
    } else {
        None
    }
}

/// The name of a binary operation on the wire.
pub open spec fn op_name(op: BinaryOps) -> Seq<char> {
    match op {
        BinaryOps::Add => "add"@,
        BinaryOps::Subtract => "subtract"@,
        BinaryOps::Multiply => "multiply"@,
        BinaryOps::Divide => "divide"@,
    }
}

/// The name of a method on the wire.
pub open spec fn method_name(m: Method) -> Seq<char> {
    match m {
        Method::Create => "create"@,
        Method::Read => "read"@,
        Method::Update => "update"@,
        Method::Delete => "delete"@,
        Method::Binary(op) => op_name(op),
    }
}

impl BinaryOps {
    /// The wire name of this operation.
    pub fn name(&self) -> (r: String)
        ensures
            r@ == op_name(*self),
    {
        match self {
            BinaryOps::Add => String::from_str("add"),
            BinaryOps::Subtract => String::from_str("subtract"),
            BinaryOps::Multiply => String::from_str("multiply"),
            BinaryOps::Divide => String::from_str("divide"),
        }
    }
}

impl Method {
    /// The wire name of this method.
    pub fn name(&self) -> (r: String)
        ensures
            r@ == method_name(*self),
    {
        match self {
            Method::Create => String::from_str("create"),
            Method::Read => String::from_str("read"),
            Method::Update => String::from_str("update"),
            Method::Delete => String::from_str("delete"),
            Method::Binary(op) => op.name(),
        }
    }

    /// Parses a wire name; any text outside the vocabulary is a parse error.
    pub fn parse(s: &String) -> (r: Result<Method, ServerError>)
        ensures
            match method_of(s@) {
                Some(m) => r == Ok::<Method, ServerError>(m),
                None => r matches Err(e) && e@ == Fault::ParseJson,
            },
    {
        if *s == String::from_str("create") {
            Ok(Method::Create)
        } else if *s == String::from_str("read") {
            Ok(Method::Read)
        } else if *s == String::from_str("update") {
            Ok(Method::Update)
        } else if *s == String::from_str("delete") {
            Ok(Method::Delete)
        } else if *s == String::from_str("add") {
            Ok(Method::Binary(BinaryOps::Add))
        } else if *s == String::from_str("subtract") {
            Ok(Method::Binary(BinaryOps::Subtract))
        } else if *s == String::from_str("multiply") {
            Ok(Method::Binary(BinaryOps::Multiply))
        } else if *s == String::from_str("divide") {
            Ok(Method::Binary(BinaryOps::Divide))
        } else {
            Err(ServerError::ParseJson)
        }
    }
}

impl From<Method> for String {
    fn from(m: Method) -> (r: String)
        ensures
            r@ == method_name(m),
    {
        m.name()
    }
}

impl vstd::std_specs::convert::FromSpecImpl<Method> for String {
    open spec fn obeys_from_spec() -> bool {
        false
    }

    open spec fn from_spec(m: Method) -> String {
        arbitrary()
    }
}

/// Parsing a method's wire name gives that method back.
pub proof fn lemma_method_name_round_trip(m: Method)
    ensures
        method_of(method_name(m)) == Some(m),
{
    reveal_strlit("create");
    reveal_strlit("read");
    reveal_strlit("update");
    reveal_strlit("delete");
    reveal_strlit("add");
    reveal_strlit("subtract");
    reveal_strlit("multiply");
    reveal_strlit("divide");
    let names = seq!["create"@, "read"@, "update"@, "delete"@, "add"@, "subtract"@, "multiply"@, "divide"@];
    assert(names[0].len() == 6 && names[1].len() == 4 && names[2].len() == 6 && names[3].len() == 6);
    assert(names[4].len() == 3 && names[5].len() == 8 && names[6].len() == 8 && names[7].len() == 6);
    assert(names[0][0] == 'c' && names[2][0] == 'u' && names[3][0] == 'd' && names[7][0] == 'd');
    assert(names[3][2] == 'l' && names[7][2] == 'v' && names[5][0] == 's' && names[6][0] == 'm');
}

/// A resolved request parameter: a key name or a decimal number.
#[derive(Debug)]
pub enum Param {
    /// A key of the store.
    Name(String),
    /// A decimal number, as the text `bigdecimal` formats for it.
    Number(String),
}

/// The mathematical view of a [`Param`].
pub enum ParamView {
    Name(Seq<char>),
    Number(Seq<char>),
}

impl View for Param {
    type V = ParamView;

    open spec fn view(&self) -> ParamView {
        match self {
            Param::Name(s) => ParamView::Name(s@),
            Param::Number(t) => ParamView::Number(t@),
        }
    }
}

/// How a raw parameter resolves: a number whenever it parses as one, else a name.
pub open spec fn resolve(raw: Seq<char>) -> ParamView {
    match decimal_text(raw) {
        Some(t) => ParamView::Number(t),
        None => ParamView::Name(raw),
    }
}

impl Param {
    /// Resolves one raw parameter.
    pub fn resolve(raw: String) -> (r: Param)
        ensures
            r@ == resolve(raw@),
    {
        match crate::decimal::canonical_text(raw.as_str()) {
            Some(t) => Param::Number(t),
            None => Param::Name(raw),
        }
    }
}

/// Resolves each raw parameter, keeping their order.
pub fn resolve_params(raw: &Vec<String>) -> (r: Vec<Param>)
    ensures
        r@.len() == raw@.len(),
        forall|i: int| 0 <= i < raw@.len() ==> #[trigger] r@[i]@ == resolve(raw@[i]@),
{
    let mut r: Vec<Param> = Vec::new();
    let mut i: usize = 0;
    while i < raw.len()
        invariant
            i <= raw@.len(),
            r@.len() == i,
            forall|j: int| 0 <= j < i ==> #[trigger] r@[j]@ == resolve(raw@[j]@),
        decreases raw@.len() - i,
    {
        r.push(Param::resolve(raw[i].clone()));
        i = i + 1;
    }
    r
}

/// Reading of a request body into the typed method and parameters.
pub trait JsonInternal {
    /// The raw method name.
    spec fn method_text(&self) -> Seq<char>;

    /// The raw parameters, in order.
    spec fn param_texts(&self) -> Seq<Seq<char>>;

    /// Parses the "method" member.
    fn parse_method(&self) -> (r: Result<Method, ServerError>)
        ensures
            match method_of(self.method_text()) {
                Some(m) => r == Ok::<Method, ServerError>(m),
                None => r matches Err(e) && e@ == Fault::ParseJson,
            },
    ;

    /// Resolves the "params" members, keeping their order.
    fn parse_params(&self) -> (r: Vec<Param>)
        ensures
            r@.len() == self.param_texts().len(),
            forall|i: int|
                0 <= i < self.param_texts().len() ==> #[trigger] r@[i]@ == resolve(
                    self.param_texts()[i],
                ),
    ;
}

} // verus!
