//! Why a document was not accepted.

use vstd::prelude::*;
use vstd::string::StringExecFns;

verus! {

/// The kinds of failure that a caller can tell apart.
#[derive(Clone, Copy, Debug, PartialEq, Eq)]
pub enum ErrorKind {
    /// The file could not be read.
    Io,
    /// The text is no TOML, or holds something else than a style sheet.
    Format,
    /// A colour is named that nothing defines, or a hexadecimal byte is malformed.
    Color,
    /// The file could not be watched.
    Watch,
}

/// A failure to produce a theme.
#[derive(Debug, PartialEq, Eq)]
pub enum Error {
    /// The file could not be read; the text says why.
    Io(String),
    /// The text is not TOML; the text is the parser's message.
    Syntax(String),
    /// A value has another shape than its place in a style sheet asks for.
    Shape,
    /// No colour has this name.
    UnknownAlias(String),
    /// This text is no hexadecimal byte.
    InvalidHex(String),
    /// The file could not be watched; the text says why.
    Watch(String),
}

/// The mathematical model of an [`Error`].
pub enum Fault {
    Io(Seq<char>),
    Syntax(Seq<char>),
    Shape,
    UnknownAlias(Seq<char>),
    InvalidHex(Seq<char>),
    Watch(Seq<char>),
}

impl Fault {
    /// The kind of this failure.
    pub open spec fn kind(self) -> ErrorKind {
        match self {
            Fault::Io(_) => ErrorKind::Io,
            Fault::Syntax(_) | Fault::Shape => ErrorKind::Format,
            Fault::UnknownAlias(_) | Fault::InvalidHex(_) => ErrorKind::Color,
            Fault::Watch(_) => ErrorKind::Watch,
        }
    }

    /// Whether this is a failure of what a document holds: a wrong shape, a name of no
    /// colour, or a malformed hexadecimal byte.
    pub open spec fn of_document(self) -> bool {
        self is Shape || self is UnknownAlias || self is InvalidHex
    }

    /// The sentence that reports this failure.
    pub open spec fn message(self) -> Seq<char> {
        match self {
            Fault::Io(text) => text,
            Fault::Syntax(text) => text,
            Fault::Shape => "value does not have the shape of a style sheet"@,
            Fault::UnknownAlias(name) => "cannot find color alias '"@ + name + "'"@,
            Fault::InvalidHex(text) => "invalid hex: "@ + text,
            Fault::Watch(text) => text,
        }
    }
}

impl View for Error {
    type V = Fault;

    open spec fn view(&self) -> Fault {
        match self {
            Error::Io(text) => Fault::Io(text@),
            Error::Syntax(text) => Fault::Syntax(text@),
            Error::Shape => Fault::Shape,
            Error::UnknownAlias(name) => Fault::UnknownAlias(name@),
            Error::InvalidHex(text) => Fault::InvalidHex(text@),
            Error::Watch(text) => Fault::Watch(text@),
        }
    }
}

/// A failure of what a document holds is one of format or of colour, never one of reading or
/// of watching.
pub proof fn lemma_kinds_of_document(fault: Fault)
    requires
        fault.of_document(),
    ensures
        fault.kind() == ErrorKind::Format || fault.kind() == ErrorKind::Color,
        fault.kind() != ErrorKind::Io,
        fault.kind() != ErrorKind::Watch,
{
}

/// A result with its error replaced by the error's model.
pub open spec fn outcome<T>(r: Result<T, Error>) -> Result<T, Fault> {
    match r {
        Ok(x) => Ok(x),
        Err(e) => Err(e@),
    }
}

impl Error {
    /// The kind of this failure.
    pub fn kind(&self) -> (r: ErrorKind)
        ensures
            r == self@.kind(),
    {
        match self {
            Error::Io(_) => ErrorKind::Io,
            Error::Syntax(_) | Error::Shape => ErrorKind::Format,
            Error::UnknownAlias(_) | Error::InvalidHex(_) => ErrorKind::Color,
            Error::Watch(_) => ErrorKind::Watch,
        }
    }

    /// The sentence that reports this failure.
    pub fn message(&self) -> (r: String)
        ensures
            r@ == self@.message(),
    {
        match self {
            Error::Io(text) => text.clone(),
            Error::Syntax(text) => text.clone(),
            Error::Shape => String::from_str("value does not have the shape of a style sheet"),
            Error::UnknownAlias(name) => {
                let mut s = String::from_str("cannot find color alias '");
                s.append(name.as_str());
                s.append("'");
                s
            },
            Error::InvalidHex(text) => {
                let mut s = String::from_str("invalid hex: ");
                s.append(text.as_str());
                s
            },
            Error::Watch(text) => text.clone(),
        }
    }
}

} // verus!
