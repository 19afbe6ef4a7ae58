//! The uniform result of a dispatch.

use vstd::prelude::*;

use crate::error::{ErrorCode, ErrorModel, FlowyError};
use crate::message::Message;

verus! {

/// What a handler answered: payload bytes, or an error.
pub type Outcome = Result<Seq<u8>, ErrorModel>;

/// The one value of `M` that the bytes `b` hold, with nothing left over.
pub open spec fn decoded<M: Message>(b: Seq<u8>) -> Option<M::Model> {
    match M::take(b) {
        Some((m, rest)) => if rest.len() == 0 {
            Some(m)
        } else {
            None
        },
        None => None,
    }
}

/// Encoding then decoding gives back the value.
pub proof fn lemma_round_trip<M: Message>(m: M::Model)
    requires
        M::fits(m),
    ensures
        decoded::<M>(M::wire(m)) == Some(m),
{
    M::lemma_take_wire(m, Seq::empty());
    assert(M::wire(m) + Seq::<u8>::empty() =~= M::wire(m));
}

/// The bytes of `value`.
pub fn encode<M: Message>(value: &M) -> (r: Vec<u8>)
    ensures
        r@ == M::wire(value.model()),
        M::fits(value.model()),
{
    let mut out: Vec<u8> = Vec::new();
    value.put(&mut out);
    assert(out@ =~= M::wire(value.model()));
    out
}

/// The value that `b` holds, or a `DecodeError`.
pub fn decode<M: Message>(b: &Vec<u8>) -> (r: Result<M, FlowyError>)
    ensures
        match r {
            Ok(v) => decoded::<M>(b@) == Some(v.model()),
            Err(e) => decoded::<M>(b@) is None && e.code == ErrorCode::DecodeError,
        },
{
    assert(b@.skip(0) =~= b@);
    match M::get(b, 0) {
        Some((v, p)) => {
            if p == b.len() {
                Ok(v)
            } else {
                Err(FlowyError::new(ErrorCode::DecodeError, "trailing bytes after the payload"))
            }
        },
        None => Err(FlowyError::new(ErrorCode::DecodeError, "payload does not match its type")),
    }
}

/// A dispatch's result: success with payload bytes, or failure with an error.
#[derive(Debug)]
pub enum Envelope {
    Success(Vec<u8>),
    Failure(FlowyError),
}

/// A typed result `r` is what an outcome `o` reads as `T`: the error unchanged,
/// the decoded value, or a `DecodeError` where the bytes are not a `T`.
pub open spec fn reads_as<T: Message>(o: Outcome, r: Result<T, FlowyError>) -> bool {
    match o {
        Err(e) => r matches Err(x) && x.model() == e,
        Ok(b) => match decoded::<T>(b) {
            Some(m) => r matches Ok(v) && v.model() == m,
            None => r matches Err(x) && x.code == ErrorCode::DecodeError,
        },
    }
}

impl Envelope {
    pub open spec fn outcome(&self) -> Outcome {
        match self {
            Envelope::Success(b) => Ok(b@),
            Envelope::Failure(e) => Err(e.model()),
        }
    }

    pub fn is_success(&self) -> (r: bool)
        ensures
            r == self is Success,
    {
        match self {
            Envelope::Success(_) => true,
            Envelope::Failure(_) => false,
        }
    }

    /// The error of a failure; none for a success.
    pub fn error(self) -> (r: Option<FlowyError>)
        ensures
            match self.outcome() {
                Ok(_) => r is None,
                Err(e) => r matches Some(x) && x.model() == e,
            },
    {
        match self {
            Envelope::Success(_) => None,
            Envelope::Failure(e) => Some(e),
        }
    }

    /// The payload read as `T`, or the error.
    pub fn parse<T: Message>(self) -> (r: Result<T, FlowyError>)
        ensures
            reads_as(self.outcome(), r),
    {
        match self {
            Envelope::Success(b) => decode::<T>(&b),
            Envelope::Failure(e) => Err(e),
        }
    }

    /// The payload read as `T`, for an envelope known to hold one.
    pub fn parse_or_panic<T: Message>(self) -> (r: T)
        requires
            self.outcome() matches Ok(b) && decoded::<T>(b) is Some,
        ensures
            self.outcome() matches Ok(b) && decoded::<T>(b) == Some(r.model()),
    {
        self.parse::<T>().unwrap()
    }
}

} // verus!
