//! The host-visible error value: every failure is tagged with its category
//! and carries a message that names what went wrong. A rejected options
//! value always reports the offending field's path first.

use vstd::prelude::*;
use vstd::string::StringExecFns;

use crate::decode::{DecodeError, DecodeErrorKind, DecodeErrorV};

verus! {

/// A failed entry-point call: a rejected options value, a rejected document
/// tree handed in from the host, or a failure of the engine's formatter.
/// Hook failures are never surfaced here; they are swallowed by design.
#[derive(Debug)]
pub enum Error {
    Decode(DecodeError),
    Deserialize(String),
    Render(String),
}

/// Mathematical view of [`Error`].
pub ghost enum ErrorV {
    Decode(DecodeErrorV),
    Deserialize(Seq<char>),
    Render(Seq<char>),
}

impl View for Error {
    type V = ErrorV;

    open spec fn view(&self) -> ErrorV {
        match self {
            Error::Decode(d) => ErrorV::Decode(d@),
            Error::Deserialize(m) => ErrorV::Deserialize(m@),
            Error::Render(m) => ErrorV::Render(m@),
        }
    }
}

/// The wording for each decode offence.
pub open spec fn spec_kind_text(k: DecodeErrorKind) -> Seq<char> {
    match k {
        DecodeErrorKind::NotAnObject => ": expected an object or nothing"@,
        DecodeErrorKind::ExpectedBool => ": expected a boolean"@,
        DecodeErrorKind::ExpectedInteger => ": expected a non-negative integer"@,
        DecodeErrorKind::IntegerOutOfRange => ": integer out of range"@,
        DecodeErrorKind::ExpectedString => ": expected a string"@,
        DecodeErrorKind::ExpectedObject => ": expected an object"@,
        DecodeErrorKind::ExpectedCallable => ": expected a function"@,
        DecodeErrorKind::ExpectedEnum => ": not one of the recognized names"@,
        DecodeErrorKind::UnknownField => ": unknown field"@,
        DecodeErrorKind::ConflictingWikilinkSides => ": both title sides selected"@,
    }
}

fn kind_text(k: DecodeErrorKind) -> (r: &'static str)
    ensures
        r@ == spec_kind_text(k),
{
    match k {
        DecodeErrorKind::NotAnObject => ": expected an object or nothing",
        DecodeErrorKind::ExpectedBool => ": expected a boolean",
        DecodeErrorKind::ExpectedInteger => ": expected a non-negative integer",
        DecodeErrorKind::IntegerOutOfRange => ": integer out of range",
        DecodeErrorKind::ExpectedString => ": expected a string",
        DecodeErrorKind::ExpectedObject => ": expected an object",
        DecodeErrorKind::ExpectedCallable => ": expected a function",
        DecodeErrorKind::ExpectedEnum => ": not one of the recognized names",
        DecodeErrorKind::UnknownField => ": unknown field",
        DecodeErrorKind::ConflictingWikilinkSides => ": both title sides selected",
    }
}

/// What a rejected options value reads as: the offending path, then the
/// offence.
pub open spec fn spec_decode_message(d: DecodeErrorV) -> Seq<char> {
    d.path + spec_kind_text(d.kind)
}

impl DecodeError {
    /// The message of a rejected options value.
    pub fn message(&self) -> (r: String)
        ensures
            r@ == spec_decode_message(self@),
    {
        let mut out = self.path.clone();
        out.append(kind_text(self.kind));
        out
    }
}

/// What each error reads as. A decode error's message is the offending
/// field's path followed by the offence.
pub open spec fn spec_message(e: ErrorV) -> Seq<char> {
    match e {
        ErrorV::Decode(d) => "type error: "@ + spec_decode_message(d),
        ErrorV::Deserialize(m) => "invalid document tree: "@ + m,
        ErrorV::Render(m) => "render failure: "@ + m,
    }
}

impl Error {
    /// The message of this error.
    pub fn message(&self) -> (r: String)
        ensures
            r@ == spec_message(self@),
    {
        match self {
            Error::Decode(d) => {
                let mut out: String = "type error: ".to_owned();
                let tail = d.message();
                out.append(tail.as_str());
                out
            },
            Error::Deserialize(m) => {
                let mut out: String = "invalid document tree: ".to_owned();
                out.append(m.as_str());
                out
            },
            Error::Render(m) => {
                let mut out: String = "render failure: ".to_owned();
                out.append(m.as_str());
                out
            },
        }
    }
}

/// A rejected options value is reported under a message that carries the
/// offending field's path, starting right after the category tag.
pub proof fn lemma_message_names_path(d: DecodeErrorV)
    ensures
        spec_message(ErrorV::Decode(d)).subrange(
            "type error: "@.len() as int,
            ("type error: "@.len() + d.path.len()) as int,
        ) == d.path,
{
    assert(spec_message(ErrorV::Decode(d)).subrange(
        "type error: "@.len() as int,
        ("type error: "@.len() + d.path.len()) as int,
    ) =~= d.path);
}

} // verus!
