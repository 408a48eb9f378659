//! Clipboard adapter for the Wayland windowing system.
//!
//! The adapter forwards every operation to a vendor clipboard session,
//! shared behind a reference-counted, mutex-guarded handle so that any
//! number of callers can use one session, one operation at a time. Any
//! failure the vendor session reports is passed through opaquely as a
//! [`WaylandClipboardError`].

use vstd::prelude::*;
use std::sync::Arc;
use std::sync::Mutex;
use smithay_clipboard::Clipboard as SmithaySession;

verus! {

/// Declares the vendor's clipboard session, smithay_clipboard::Clipboard,
/// as an opaque type: the adapter only carries it, never looks inside.
#[verifier::external_type_specification]
#[verifier::external_body]
pub struct ExSmithaySession(SmithaySession);

/// Declares std::sync::Mutex as an opaque type; it guards the vendor
/// session so that each clipboard operation is exclusive end-to-end.
#[verifier::external_type_specification]
#[verifier::external_body]
#[verifier::reject_recursive_types(T)]
pub struct ExMutex<T: ?Sized>(Mutex<T>);

/// Declares std::io::Error as an opaque type: it is the error the vendor
/// session reports, passed through to callers unread.
#[verifier::external_type_specification]
#[verifier::external_body]
pub struct ExIoError(std::io::Error);

/// Relies on std::sync::Mutex::new: wraps a value in a new mutex.
pub assume_specification<T>[ Mutex::<T>::new ](t: T) -> (r: Mutex<T>);

/// Error raised by the Wayland adapter: an opaque pass-through of
/// whatever failure the vendor session reported.
#[derive(Debug)]
pub enum WaylandClipboardError {
    Backend(std::io::Error),
}

impl WaylandClipboardError {
    /// Hands back the underlying backend failure.
    pub fn into_io_error(self) -> (r: std::io::Error)
        ensures
            self matches WaylandClipboardError::Backend(e) && r == e,
    {
        match self {
            WaylandClipboardError::Backend(e) => e,
        }
    }
}

/// Turns the vendor session's answer into the adapter's own result type:
/// a value passes through unchanged, and a failure is wrapped, exactly as
/// it was reported, in [`WaylandClipboardError::Backend`].
pub fn map_backend_result(r: Result<String, std::io::Error>) -> (res: Result<
    String,
    WaylandClipboardError,
>)
    ensures
        r matches Ok(s) ==> res == Ok::<String, WaylandClipboardError>(s),
        r matches Err(e) ==> res == Err::<String, WaylandClipboardError>(
            WaylandClipboardError::Backend(e),
        ),
{
    match r {
        Ok(s) => Ok(s),
        Err(e) => Err(WaylandClipboardError::Backend(e)),
    }
}

/// A shared handle to a Wayland clipboard session: reference-counted, and
/// serialized through a single mutex so that each operation is exclusive
/// end-to-end.
pub struct Clipboard {
    context: Arc<Mutex<SmithaySession>>,
}

/// Relies on smithay_clipboard::Clipboard::load: asks the compositor for
/// the text held by the current clipboard selection. What comes back
/// depends on the compositor's state, so nothing is promised of it. The
/// lock is taken for the whole call; a poisoned lock is fatal.
#[verifier::external_body]
fn load_text(context: &Arc<Mutex<SmithaySession>>) -> (r: Result<
    String,
    std::io::Error,
>) {
    context.lock().unwrap().load()
}

/// Relies on smithay_clipboard::Clipboard::load_primary: asks the
/// compositor for the text held by the primary selection. What comes back
/// depends on the compositor's state, so nothing is promised of it. The
/// lock is taken for the whole call; a poisoned lock is fatal.
#[verifier::external_body]
fn load_primary_text(context: &Arc<Mutex<SmithaySession>>) -> (r: Result<
    String,
    std::io::Error,
>) {
    context.lock().unwrap().load_primary()
}

/// Relies on smithay_clipboard::Clipboard::store: offers the given text
/// as the clipboard selection; the vendor call cannot fail. The lock is
/// taken for the whole call; a poisoned lock is fatal.
#[verifier::external_body]
fn store_text(context: &Arc<Mutex<SmithaySession>>, data: String) {
    context.lock().unwrap().store(data);
}

/// Relies on smithay_clipboard::Clipboard::store_primary: offers the
/// given text as the primary selection; the vendor call cannot fail. The
/// lock is taken for the whole call; a poisoned lock is fatal.
#[verifier::external_body]
fn store_primary_text(context: &Arc<Mutex<SmithaySession>>, data: String) {
    context.lock().unwrap().store_primary(data);
}

impl Clipboard {
    /// Wraps an established vendor session in a shared, lock-guarded
    /// handle. The caller who created the session answers for the
    /// display connection staying alive as long as the handle does.
    pub fn connect(session: SmithaySession) -> Clipboard {
        Clipboard { context: Arc::new(Mutex::new(session)) }
    }

    /// Reads the text of the current clipboard selection. A value is
    /// whatever the compositor handed over; a failure is the backend's
    /// own, passed through.
    pub fn read(&self) -> (r: Result<String, WaylandClipboardError>)
        ensures
            r matches Err(e) ==> e is Backend,
    {
        map_backend_result(load_text(&self.context))
    }

    /// Reads the text of the primary selection. A value is whatever the
    /// compositor handed over; a failure is the backend's own, passed
    /// through.
    pub fn read_primary(&self) -> (r: Result<String, WaylandClipboardError>)
        ensures
            r matches Err(e) ==> e is Backend,
    {
        map_backend_result(load_primary_text(&self.context))
    }

    /// Stores text as the clipboard selection. Once the lock is
    /// obtained the operation always succeeds, and the handle itself is
    /// left as it was.
    pub fn write(&mut self, data: String) -> (r: Result<(), WaylandClipboardError>)
        ensures
            r is Ok,
            *final(self) == *old(self),
    {
        store_text(&self.context, data);
        Ok(())
    }

    /// Stores text as the primary selection. Once the lock is obtained
    /// the operation always succeeds, and the handle itself is left as
    /// it was.
    pub fn write_primary(&mut self, data: String) -> (r: Result<(), WaylandClipboardError>)
        ensures
            r is Ok,
            *final(self) == *old(self),
    {
        store_primary_text(&self.context, data);
        Ok(())
    }
}

} // verus!
