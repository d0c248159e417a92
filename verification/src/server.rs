//! Server core: serialized access to the single clipboard resource and the
//! mapping of its failures onto transport status codes.
//!
//! The platform adapter (the OS clipboard primitive) is a collaborator at
//! the boundary: the runtime performs one `read` or `write` call on it while
//! holding the exclusive gate and hands the outcome here as a plain value.
//! This module decides the response and tracks, at the specification level,
//! what the clipboard contents are after each operation.

use vstd::prelude::*;

verus! {

/// HTTP status for a successful operation.
pub const STATUS_OK: u16 = 200;

/// HTTP status when the clipboard is busy or the transport failed.
pub const STATUS_SERVICE_UNAVAILABLE: u16 = 503;

/// HTTP status for any other clipboard failure.
pub const STATUS_INTERNAL_SERVER_ERROR: u16 = 500;

/// Failure reported by the platform clipboard adapter.
#[derive(Clone, Copy, Debug, PartialEq, Eq, Structural)]
pub enum AdapterError {
    /// Another local actor currently holds the OS clipboard.
    Busy,
    /// Any other platform-level failure (for example, no session available).
    Other,
}

/// The server's error taxonomy, produced at this layer and mapped to a
/// transport status before a response is sent.
#[derive(Clone, Copy, Debug, PartialEq, Eq, Structural)]
pub enum Error {
    /// The clipboard resource could not be initialized.
    ClipboardInit(AdapterError),
    /// A clipboard access failed after initialization.
    ClipboardAccess(AdapterError),
    /// The network transport failed.
    Network,
}

impl Error {
    /// The transport status that stands for this error: busy contention and
    /// transport failures are transient (503), everything else is an
    /// internal failure (500).
    pub open spec fn spec_status(self) -> u16 {
        match self {
            Error::ClipboardAccess(AdapterError::Busy) => STATUS_SERVICE_UNAVAILABLE,
            Error::ClipboardAccess(AdapterError::Other) => STATUS_INTERNAL_SERVER_ERROR,
            Error::ClipboardInit(_) => STATUS_INTERNAL_SERVER_ERROR,
            Error::Network => STATUS_SERVICE_UNAVAILABLE,
        }
    }

    /// Map this error to the transport status code of the response.
    pub fn status_code(&self) -> (s: u16)
        ensures
            s == self.spec_status(),
    {
        match self {
            Error::ClipboardAccess(AdapterError::Busy) => STATUS_SERVICE_UNAVAILABLE,
            Error::ClipboardAccess(AdapterError::Other) => STATUS_INTERNAL_SERVER_ERROR,
            Error::ClipboardInit(_) => STATUS_INTERNAL_SERVER_ERROR,
            Error::Network => STATUS_SERVICE_UNAVAILABLE,
        }
    }

    /// The human-readable description used as the response body.
    pub open spec fn spec_message(self) -> Seq<char> {
        match self {
            Error::ClipboardInit(AdapterError::Busy) =>
                "Failed to create clipboard instance: clipboard occupied"@,
            Error::ClipboardInit(AdapterError::Other) =>
                "Failed to create clipboard instance: clipboard unavailable"@,
            Error::ClipboardAccess(AdapterError::Busy) =>
                "Failed to access clipboard: clipboard occupied"@,
            Error::ClipboardAccess(AdapterError::Other) =>
                "Failed to access clipboard: clipboard unavailable"@,
            Error::Network => "Network error"@,
        }
    }

    /// Render the description that a response carries as its body.
    pub fn message(&self) -> (m: String)
        ensures
            m@ == self.spec_message(),
    {
        match self {
            Error::ClipboardInit(AdapterError::Busy) => String::from_str(
                "Failed to create clipboard instance: clipboard occupied",
            ),
            Error::ClipboardInit(AdapterError::Other) => String::from_str(
                "Failed to create clipboard instance: clipboard unavailable",
            ),
            Error::ClipboardAccess(AdapterError::Busy) => String::from_str(
                "Failed to access clipboard: clipboard occupied",
            ),
            Error::ClipboardAccess(AdapterError::Other) => String::from_str(
                "Failed to access clipboard: clipboard unavailable",
            ),
            Error::Network => String::from_str("Network error"),
        }
    }
}

/// The clipboard contents after one write attempt: a successful write
/// replaces the whole contents with the payload, a failed one leaves them
/// untouched (all-or-nothing).
pub open spec fn write_effect(prev: Seq<u8>, payload: Seq<u8>, ok: bool) -> Seq<u8> {
    if ok {
        payload
    } else {
        prev
    }
}

/// What a read observes: the clipboard contents, verbatim.
pub open spec fn read_view(contents: Seq<u8>) -> Seq<u8> {
    contents
}

/// The server core: one logical owner of the clipboard resource.  The
/// runtime serializes adapter calls through an exclusive gate and reports
/// each outcome here; the core decides the response and tracks the
/// clipboard contents at the specification level.
pub struct ServerCore {
    clipboard: Ghost<Seq<u8>>,
}

impl ServerCore {
    /// The clipboard contents as established by the operations applied so
    /// far: the payload of the last successful write.
    pub closed spec fn contents(self) -> Seq<u8> {
        self.clipboard@
    }

    /// Start a server core.  The model takes the clipboard as initially
    /// empty; every law below holds for arbitrary prior contents.
    pub fn new() -> (core: Self)
        ensures
            core.contents() == Seq::<u8>::empty(),
    {
        ServerCore { clipboard: Ghost(Seq::empty()) }
    }

    /// Decide the response to a store request, given the payload and the
    /// outcome of the single exclusive `write` call on the adapter.
    /// Success answers 200 with no body; a failure is surfaced as a
    /// clipboard-access error and the contents are unchanged.
    pub fn post_clipboard(
        &mut self,
        data: &Vec<u8>,
        outcome: Result<(), AdapterError>,
    ) -> (r: Result<u16, Error>)
        ensures
            final(self).contents() == write_effect(
                old(self).contents(),
                data@,
                outcome is Ok,
            ),
            outcome is Ok ==> r == Ok::<u16, Error>(STATUS_OK),
            outcome matches Err(e) ==> r == Err::<u16, Error>(Error::ClipboardAccess(e)),
    {
        match outcome {
            Ok(()) => {
                self.clipboard = Ghost(data@);
                Ok(STATUS_OK)
            },
            Err(e) => Err(Error::ClipboardAccess(e)),
        }
    }

    /// Decide the response to a fetch request, given the outcome of the
    /// single exclusive `read` call on the adapter.  The bytes the adapter
    /// observed are returned verbatim as the response body; a failure is
    /// surfaced as a clipboard-access error.
    pub fn get_clipboard(
        &self,
        outcome: Result<Vec<u8>, AdapterError>,
    ) -> (r: Result<Vec<u8>, Error>)
        ensures
            outcome matches Ok(d) ==> r is Ok && r->Ok_0@ == read_view(d@),
            outcome matches Err(e) ==> r == Err::<Vec<u8>, Error>(Error::ClipboardAccess(e)),
    {
        match outcome {
            Ok(d) => Ok(d),
            Err(e) => Err(Error::ClipboardAccess(e)),
        }
    }
}

/// Round-trip fidelity: whatever the clipboard held before, after a
/// successful write of payload `p` a read observes exactly `p`, with no
/// transformation of content.
pub proof fn lemma_copy_paste_round_trip(prev: Seq<u8>, p: Seq<u8>)
    ensures
        read_view(write_effect(prev, p, true)) == p,
{
}

/// Atomicity of a copy: two racing writes are serialized by the exclusive
/// gate, so in whichever order their exclusive sections run, the final
/// contents are one complete payload or the other, never an interleaving
/// of both.
pub proof fn lemma_concurrent_copy_atomic(prev: Seq<u8>, a: Seq<u8>, b: Seq<u8>, a_last: bool)
    ensures
        ({
            let end = if a_last {
                write_effect(write_effect(prev, b, true), a, true)
            } else {
                write_effect(write_effect(prev, a, true), b, true)
            };
            read_view(end) == a || read_view(end) == b
        }),
{
}

/// A busy adapter during a store leaves the already-stored contents
/// unchanged, and the error it surfaces maps to status 503.
pub proof fn lemma_busy_copy_preserves_contents(prev: Seq<u8>, p: Seq<u8>)
    ensures
        write_effect(prev, p, false) == prev,
        Error::ClipboardAccess(AdapterError::Busy).spec_status() == STATUS_SERVICE_UNAVAILABLE,
{
}

} // verus!
