//! Failure reporting for calls into the native engine.
//!
//! The native interface signals failure through sentinel values: a null
//! pointer from constructor-like calls, a negative integer from size- and
//! count-returning calls, and a process-wide last-error slot that holds the
//! most recent failure message.  The decoders here centralize those rules so
//! that no caller compares raw sentinels itself.

use vstd::prelude::*;

verus! {

/// A failure reported by the wrapper layer.
#[derive(Debug, Clone)]
pub enum Error {
    /// The native engine reported a failure; the payload is the message
    /// recovered from the last-error slot, or the generic fallback.
    Native(String),
    /// The input could not be represented in the native string encoding;
    /// detected before any native call is made.
    Conversion(String),
}

impl Error {
    /// True when `self` is a native-call failure carrying exactly `msg`.
    pub open spec fn is_native_with(self, msg: Seq<char>) -> bool {
        match self {
            Error::Native(m) => m@ == msg,
            Error::Conversion(_) => false,
        }
    }

    /// True when `self` is a conversion failure.
    pub open spec fn is_conversion(self) -> bool {
        self matches Error::Conversion(_)
    }

    /// The message carried by this error.
    pub fn message(&self) -> (r: &str)
        ensures
            r@ == self.spec_message(),
    {
        match self {
            Error::Native(m) => m.as_str(),
            Error::Conversion(m) => m.as_str(),
        }
    }

    /// The message carried by this error, as a sequence of characters.
    pub open spec fn spec_message(self) -> Seq<char> {
        match self {
            Error::Native(m) => m@,
            Error::Conversion(m) => m@,
        }
    }
}

/// The message reported when the native error slot held nothing usable.
pub fn fallback_message() -> (r: String)
    ensures
        r@ == spec_fallback_message(),
{
    String::from_str("no error message available")
}

/// The characters of the generic fallback message.
pub open spec fn spec_fallback_message() -> Seq<char> {
    "no error message available"@
}

/// The message that a failure should carry, given what the error slot held:
/// the slot's text when it is present and non-empty, the generic fallback
/// otherwise.
pub open spec fn spec_message_of(raw: Option<String>) -> Seq<char> {
    match raw {
        Some(m) => if m@.len() > 0 {
            m@
        } else {
            spec_fallback_message()
        },
        None => spec_fallback_message(),
    }
}

/// Normalizes what the error slot held into the message a failure carries.
/// An absent or empty message maps to the generic fallback.
pub fn message_of(raw: Option<String>) -> (r: String)
    ensures
        r@ == spec_message_of(raw),
{
    match raw {
        Some(m) => {
            if m.as_str().is_empty() {
                fallback_message()
            } else {
                m
            }
        },
        None => fallback_message(),
    }
}

/// The process-wide last-error slot, as the wrapper observes it: reading the
/// slot clears it, and an empty message is the same as no message.
pub struct ErrorChannel {
    slot: Option<String>,
}

impl ErrorChannel {
    /// What the slot currently holds.
    pub closed spec fn spec_slot(self) -> Option<Seq<char>> {
        match self.slot {
            Some(m) => Some(m@),
            None => None,
        }
    }

    /// A fresh channel with no pending error.
    pub fn new() -> (r: ErrorChannel)
        ensures
            r.spec_slot() is None,
    {
        ErrorChannel { slot: None }
    }

    /// Records a failure message, overwriting whatever was pending.
    pub fn post(&mut self, msg: String)
        ensures
            final(self).spec_slot() == Some(msg@),
    {
        self.slot = Some(msg);
    }

    /// Reads and clears the slot.  An absent or empty message comes back as
    /// `None`; a second read before another failure always yields `None`.
    pub fn take(&mut self) -> (r: Option<String>)
        ensures
            final(self).spec_slot() is None,
            match r {
                Some(m) => old(self).spec_slot() == Some(m@) && m@.len() > 0,
                None => match old(self).spec_slot() {
                    Some(pending) => pending.len() == 0,
                    None => true,
                },
            },
    {
        let pending = self.slot.take();
        match pending {
            Some(m) => {
                if m.as_str().is_empty() {
                    None
                } else {
                    Some(m)
                }
            },
            None => None,
        }
    }
}

/// Decodes a status-returning native call: zero is success, anything else is
/// a failure whose message comes from the error slot.
pub fn check_status(ret: i32, raw_err: Option<String>) -> (r: Result<(), Error>)
    ensures
        ret == 0 <==> r is Ok,
        ret != 0 ==> (r matches Err(e) && e.is_native_with(spec_message_of(raw_err))),
{
    if ret == 0 {
        Ok(())
    } else {
        Err(Error::Native(message_of(raw_err)))
    }
}

/// Decodes a size- or count-returning native call: a non-negative value is
/// the count, a negative one is a failure whose message comes from the error
/// slot.
pub fn decode_size(ret: i32, raw_err: Option<String>) -> (r: Result<usize, Error>)
    ensures
        ret >= 0 <==> r is Ok,
        ret >= 0 ==> (r matches Ok(n) && n == ret),
        ret < 0 ==> (r matches Err(e) && e.is_native_with(spec_message_of(raw_err))),
{
    if ret >= 0 {
        Ok(ret as usize)
    } else {
        Err(Error::Native(message_of(raw_err)))
    }
}

/// Decodes the tri-state result of a blocklist insertion: negative is a
/// failure, zero means the morpheme was already present, positive means it
/// was newly added.
pub fn decode_added(ret: i32, raw_err: Option<String>) -> (r: Result<bool, Error>)
    ensures
        ret >= 0 <==> r is Ok,
        ret >= 0 ==> r == Ok::<bool, Error>(ret > 0),
        ret < 0 ==> (r matches Err(e) && e.is_native_with(spec_message_of(raw_err))),
{
    if ret >= 0 {
        Ok(ret > 0)
    } else {
        Err(Error::Native(message_of(raw_err)))
    }
}

/// Decodes a constructor-like native call, whose result is absent exactly
/// when the call returned the null sentinel.
pub fn require_present<T>(value: Option<T>, raw_err: Option<String>) -> (r: Result<T, Error>)
    ensures
        value is Some <==> r is Ok,
        value matches Some(v) ==> (r matches Ok(out) && out == v),
        value is None ==> (r matches Err(e) && e.is_native_with(spec_message_of(raw_err))),
{
    match value {
        Some(v) => Ok(v),
        None => Err(Error::Native(message_of(raw_err))),
    }
}

} // verus!
