//! Typed errors, and the bridge that turns what a native call hands back
//! into a `Result`.
use vstd::prelude::*;
use vstd::utf8::{decode_utf8, valid_utf8};

verus! {

/// The kind of native entry point that was called. It decides as which
/// error a failure of the call is reported.
#[derive(Clone, Copy, Debug, PartialEq, Eq, Structural)]
pub enum Origin {
    /// Creating a native resource.
    Allocation,
    /// Decoding an encoded image from bytes.
    Decode,
    /// Reading an image from a path.
    Read,
    /// Writing an image to a path.
    Write,
    /// Encoding an image into bytes.
    Encode,
    /// Any processing operation.
    Operation,
}

/// What can go wrong. Each failure that the native layer reported carries
/// the message that came with it, empty where none could be read.
#[derive(Clone, Debug, PartialEq, Eq)]
pub enum Error {
    /// A buffer or array does not have the length that its dimensions ask for.
    ShapeMismatch,
    /// A native resource could not be created.
    AllocationFailure(String),
    /// Encoded bytes could not be decoded.
    DecodeFailure(String),
    /// A path could not be read as an image.
    ReadFailure(String),
    /// An image could not be written to a path.
    WriteFailure(String),
    /// An image could not be encoded.
    EncodeFailure(String),
    /// A processing operation reported an error.
    OperationFailure(String),
}

/// What a native call hands back: a value, and an error signal. The signal
/// is `None` where the call succeeded, and else holds the bytes of the
/// message that the native layer left. The value means nothing unless the
/// signal is `None`.
pub struct FFIResult<T> {
    pub ok: T,
    pub error: Option<Vec<u8>>,
}

/// The message that a signal of these bytes carries: their text where they
/// are UTF-8, and nothing otherwise.
pub open spec fn signal_message(bytes: Seq<u8>) -> Seq<char> {
    if valid_utf8(bytes) {
        decode_utf8(bytes)
    } else {
        Seq::empty()
    }
}

/// Calls `String::from_utf8` of std and drops the error's detail. The
/// contract claims that the call succeeds on exactly the byte strings that
/// are valid UTF-8, and that the string it gives then holds the characters
/// that those bytes encode.
#[verifier::external_body]
fn string_from_utf8(bytes: Vec<u8>) -> (text: Option<String>)
    ensures
        text is Some <==> valid_utf8(bytes@),
        text is Some ==> text.unwrap()@ == decode_utf8(bytes@),
{
    String::from_utf8(bytes).ok()
}

impl Error {
    /// The kind of call that failed; `None` for a shape mismatch, which is
    /// found before any call is made.
    pub open spec fn spec_origin(self) -> Option<Origin> {
        match self {
            Error::ShapeMismatch => None,
            Error::AllocationFailure(_) => Some(Origin::Allocation),
            Error::DecodeFailure(_) => Some(Origin::Decode),
            Error::ReadFailure(_) => Some(Origin::Read),
            Error::WriteFailure(_) => Some(Origin::Write),
            Error::EncodeFailure(_) => Some(Origin::Encode),
            Error::OperationFailure(_) => Some(Origin::Operation),
        }
    }

    /// The message that the native layer left; empty for a shape mismatch.
    pub open spec fn spec_message(self) -> Seq<char> {
        match self {
            Error::ShapeMismatch => Seq::empty(),
            Error::AllocationFailure(m) => m@,
            Error::DecodeFailure(m) => m@,
            Error::ReadFailure(m) => m@,
            Error::WriteFailure(m) => m@,
            Error::EncodeFailure(m) => m@,
            Error::OperationFailure(m) => m@,
        }
    }

    /// The failure of a call of kind `origin` that left `message`.
    pub fn native(origin: Origin, message: String) -> (e: Error)
        ensures
            e.spec_origin() == Some(origin),
            e.spec_message() == message@,
    {
        match origin {
            Origin::Allocation => Error::AllocationFailure(message),
            Origin::Decode => Error::DecodeFailure(message),
            Origin::Read => Error::ReadFailure(message),
            Origin::Write => Error::WriteFailure(message),
            Origin::Encode => Error::EncodeFailure(message),
            Origin::Operation => Error::OperationFailure(message),
        }
    }

    /// The kind of call that failed, if a call did.
    pub fn origin(&self) -> (o: Option<Origin>)
        ensures
            o == self.spec_origin(),
    {
        match self {
            Error::ShapeMismatch => None,
            Error::AllocationFailure(_) => Some(Origin::Allocation),
            Error::DecodeFailure(_) => Some(Origin::Decode),
            Error::ReadFailure(_) => Some(Origin::Read),
            Error::WriteFailure(_) => Some(Origin::Write),
            Error::EncodeFailure(_) => Some(Origin::Encode),
            Error::OperationFailure(_) => Some(Origin::Operation),
        }
    }

    /// The message that came with the failure.
    pub fn message(&self) -> (m: &str)
        ensures
            m@ == self.spec_message(),
    {
        match self {
            Error::ShapeMismatch => {
                proof {
                    reveal_strlit("");
                }
                assert(""@ =~= Seq::<char>::empty());
                ""
            },
            Error::AllocationFailure(m) => m.as_str(),
            Error::DecodeFailure(m) => m.as_str(),
            Error::ReadFailure(m) => m.as_str(),
            Error::WriteFailure(m) => m.as_str(),
            Error::EncodeFailure(m) => m.as_str(),
            Error::OperationFailure(m) => m.as_str(),
        }
    }
}

impl<T> FFIResult<T> {
    /// What a call that succeeded with `value` hands back.
    pub fn success(value: T) -> (r: FFIResult<T>)
        ensures
            r.ok == value,
            r.error is None,
    {
        FFIResult { ok: value, error: None }
    }

    /// What a call that failed hands back: the message bytes, beside a
    /// value that must not be used.
    pub fn failure(value: T, message: Vec<u8>) -> (r: FFIResult<T>)
        ensures
            r.ok == value,
            r.error == Some(message),
    {
        FFIResult { ok: value, error: Some(message) }
    }

    /// What a call hands back that signals its failure by a flag alone: no
    /// signal where `failed` is false, and else a signal without a message.
    pub fn flagged(value: T, failed: bool) -> (r: FFIResult<T>)
        ensures
            r.ok == value,
            r.error is None <==> !failed,
            failed ==> r.error.unwrap()@ == Seq::<u8>::empty(),
    {
        if failed {
            FFIResult { ok: value, error: Some(Vec::new()) }
        } else {
            FFIResult { ok: value, error: None }
        }
    }

    /// Turns what a native call of kind `origin` handed back into a
    /// `Result`. Without an error signal the value is passed on. With one,
    /// the value is dropped and the error of that kind is returned, with the
    /// signal's message where its bytes are UTF-8 and an empty one
    /// otherwise.
    pub fn into_result(self, origin: Origin) -> (r: Result<T, Error>)
        ensures
            self.error is None ==> (r matches Ok(v) && v == self.ok),
            self.error is Some ==> (r matches Err(e) && e.spec_origin() == Some(origin)
                && e.spec_message() == signal_message(self.error.unwrap()@)),
    {
        match self.error {
            None => Ok(self.ok),
            Some(bytes) => {
                let message = match string_from_utf8(bytes) {
                    Some(text) => text,
                    None => String::new(),
                };
                Err(Error::native(origin, message))
            },
        }
    }
}

} // verus!
