//! The format bridge: the per-field encode/decode contract that plugs
//! `JsOption` into a host serialization framework.
//!
//! The host framework walks a document's fields, decides whether a field
//! is present at all, and calls value-level hooks for the fields it
//! found. This module states what those hooks do for a `JsOption` field,
//! as plain functions from values to values; an adapter around the host
//! framework performs the actual wire work and consults these.
//!
//! The contract is deliberately asymmetric. Decoding a field the host
//! found never yields `Undefined`: that variant arises only from the
//! type's default, which the host substitutes where the caller opted a
//! field into default-substitution. Encoding `Undefined` is a contract
//! violation and fails recoverably; callers who want such fields omitted
//! configure the host to skip a field when
//! [`JsOption::is_undefined`](crate::JsOption::is_undefined) holds.

use crate::JsOption;
use vstd::prelude::*;
use vstd::string::StringExecFns;

verus! {

/// The recoverable failure of the encode contract: an attempt was made
/// to encode an `Undefined` value.
///
/// This is a data error surfaced through the host framework's normal
/// error channel, not a crash.
#[derive(Clone, Copy, Debug, PartialEq, Eq)]
pub struct EncodeUndefinedError;

impl EncodeUndefinedError {
    /// The descriptive message the failure carries to the host
    /// framework's error channel.
    pub fn message(&self) -> (r: String)
        ensures
            r@ == "attempted to serialize `undefined`"@,
    {
        String::from_str("attempted to serialize `undefined`")
    }
}

/// What the host framework must write for one field during encode.
pub enum EncodeAction<'a, T> {
    /// Write the value-level encoding of this value, wrapped as
    /// "present"; no absence marker of any kind surrounds it.
    WriteValue(&'a T),
    /// Write an explicit null marker.
    WriteNull,
}

impl<T> JsOption<T> {
    /// The decode half of the bridge: the host hands over what it found
    /// at a field that is present in the document, `Some(v)` for a
    /// concrete value and `None` for an explicit null marker.
    ///
    /// A field missing from the document never reaches the bridge, so
    /// decoding alone never yields `Undefined`.
    pub fn decode_field(found: Option<T>) -> (r: Self)
        ensures
            r == Self::spec_from_option(found),
            !(r is Undefined),
    {
        JsOption::from_option(found)
    }

    /// The encode half of the bridge: which wire action one field takes.
    ///
    /// `Present(v)` is written as the value-level encoding of `v`,
    /// `Null` as an explicit null marker, and `Undefined` is refused
    /// with a data error rather than silently written or omitted.
    pub fn encode_action(&self) -> (r: Result<EncodeAction<T>, EncodeUndefinedError>)
        ensures
            self matches JsOption::Present(val) ==> (r matches Ok(EncodeAction::WriteValue(p))
                && p == val),
            self is Null ==> (r matches Ok(a) && a is WriteNull),
            self is Undefined ==> r is Err,
    {
        match self {
            JsOption::Present(val) => Ok(EncodeAction::WriteValue(val)),
            JsOption::Null => Ok(EncodeAction::WriteNull),
            JsOption::Undefined => Err(EncodeUndefinedError),
        }
    }

    /// For the two variants the encoder accepts, what it writes reads
    /// back as the same variant: a document round trip loses nothing
    /// short of `Undefined`, which is never written at all.
    pub proof fn lemma_encode_decode_round_trip(v: JsOption<T>)
        requires
            !(v is Undefined),
        ensures
            Self::spec_from_option(v.spec_into_option()) == v,
    {
    }
}

} // verus!
