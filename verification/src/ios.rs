//! Clipboard backend for a platform without clipboard support.
//!
//! Construction always succeeds, and every read or write fails with the
//! [`iOSClipboardError::Unimplemented`] error. The backend holds no state,
//! so the outcome of a call never depends on the calls made before it.

use vstd::prelude::*;

verus! {

broadcast use vstd::string::group_string_axioms;

/// The error every operation of the stub backend fails with.
#[derive(Debug, PartialEq, Eq, Structural, Clone, Copy)]
#[allow(non_camel_case_types)]
pub enum iOSClipboardError {
    Unimplemented,
}

impl iOSClipboardError {
    /// The error's display text.
    pub fn message(&self) -> (r: String)
        ensures
            r@ == "Unimplemented"@,
    {
        "Unimplemented".to_string()
    }
}

/// A clipboard provider that supports nothing: it exists so that platforms
/// without a real backend still satisfy the common read/write interface.
pub struct Clipboard;

impl Clipboard {
    /// Construction always succeeds; there is no session to establish.
    pub fn new() -> (r: Result<Clipboard, iOSClipboardError>)
        ensures
            r is Ok,
    {
        Ok(Clipboard)
    }

    /// Reading is not supported: every call returns the `Unimplemented`
    /// error and never a value, whatever happened before.
    pub fn read(&self) -> (r: Result<String, iOSClipboardError>)
        ensures
            r == Err::<String, iOSClipboardError>(iOSClipboardError::Unimplemented),
    {
        Err(iOSClipboardError::Unimplemented)
    }

    /// Writing is not supported: every input, the empty string included,
    /// is answered with the `Unimplemented` error, and the provider is
    /// left exactly as it was.
    pub fn write(&mut self, contents: String) -> (r: Result<(), iOSClipboardError>)
        ensures
            r == Err::<(), iOSClipboardError>(iOSClipboardError::Unimplemented),
            *final(self) == *old(self),
    {
        let _ = contents;
        Err(iOSClipboardError::Unimplemented)
    }
}

} // verus!
