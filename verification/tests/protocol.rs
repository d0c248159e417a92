//! The server core's request decisions, its error taxonomy, and the
//! chunked-transfer discipline, exercised on concrete payloads.

use limeade::chunks::BodyAssembler;
use limeade::chunks::chunk_payload;
use limeade::server::AdapterError;
use limeade::server::Error;
use limeade::server::ServerCore;
use limeade::server::STATUS_INTERNAL_SERVER_ERROR;
use limeade::server::STATUS_OK;
use limeade::server::STATUS_SERVICE_UNAVAILABLE;

#[test]
fn copy_then_paste_returns_payload() {
    let mut core = ServerCore::new();
    let payload = b"hello".to_vec();
    let r = core.post_clipboard(&payload, Ok(()));
    assert_eq!(r, Ok(STATUS_OK));
    // The adapter's read observes what the successful write stored.
    let pasted = core.get_clipboard(Ok(payload.clone()));
    assert_eq!(pasted, Ok(b"hello".to_vec()));
}

#[test]
fn copy_empty_then_paste_empty() {
    let mut core = ServerCore::new();
    let payload: Vec<u8> = Vec::new();
    let r = core.post_clipboard(&payload, Ok(()));
    assert_eq!(r, Ok(200));
    let pasted = core.get_clipboard(Ok(Vec::new()));
    assert_eq!(pasted, Ok(Vec::new()));
}

#[test]
fn two_copies_last_writer_wins() {
    let mut core = ServerCore::new();
    let a = b"first".to_vec();
    let b = b"second".to_vec();
    assert_eq!(core.post_clipboard(&a, Ok(())), Ok(200));
    assert_eq!(core.post_clipboard(&b, Ok(())), Ok(200));
    // A later read observes the payload of whichever write ran last.
    let pasted = core.get_clipboard(Ok(b.clone()));
    assert_eq!(pasted, Ok(b"second".to_vec()));
}

#[test]
fn busy_copy_reports_busy_and_preserves_content() {
    let mut core = ServerCore::new();
    let stored = b"kept".to_vec();
    assert_eq!(core.post_clipboard(&stored, Ok(())), Ok(200));
    let attempted = b"lost".to_vec();
    let r = core.post_clipboard(&attempted, Err(AdapterError::Busy));
    let err = r.unwrap_err();
    assert_eq!(err, Error::ClipboardAccess(AdapterError::Busy));
    assert_eq!(err.status_code(), 503);
    // The already-stored contents are what a later read observes.
    let pasted = core.get_clipboard(Ok(stored.clone()));
    assert_eq!(pasted, Ok(b"kept".to_vec()));
}

#[test]
fn failed_paste_surfaces_error() {
    let core = ServerCore::new();
    let r = core.get_clipboard(Err(AdapterError::Other));
    assert_eq!(r, Err(Error::ClipboardAccess(AdapterError::Other)));
}

#[test]
fn status_codes_cover_the_taxonomy() {
    assert_eq!(Error::ClipboardAccess(AdapterError::Busy).status_code(), STATUS_SERVICE_UNAVAILABLE);
    assert_eq!(Error::ClipboardAccess(AdapterError::Other).status_code(), STATUS_INTERNAL_SERVER_ERROR);
    assert_eq!(Error::ClipboardInit(AdapterError::Busy).status_code(), 500);
    assert_eq!(Error::ClipboardInit(AdapterError::Other).status_code(), 500);
    assert_eq!(Error::Network.status_code(), 503);
}

#[test]
fn error_messages_name_the_failure() {
    assert_eq!(
        Error::ClipboardAccess(AdapterError::Busy).message(),
        "Failed to access clipboard: clipboard occupied"
    );
    assert_eq!(
        Error::ClipboardInit(AdapterError::Other).message(),
        "Failed to create clipboard instance: clipboard unavailable"
    );
    assert_eq!(Error::Network.message(), "Network error");
}

#[test]
fn chunking_splits_exactly() {
    let payload = b"hello world".to_vec();
    let chunks = chunk_payload(&payload, 4);
    assert_eq!(
        chunks,
        vec![b"hell".to_vec(), b"o wo".to_vec(), b"rld".to_vec()]
    );
}

#[test]
fn chunking_empty_payload_yields_no_chunks() {
    let payload: Vec<u8> = Vec::new();
    let chunks = chunk_payload(&payload, 16);
    assert!(chunks.is_empty());
}

#[test]
fn assembler_concatenates_in_order() {
    let mut assembler = BodyAssembler::new();
    assembler.push_chunk(b"cli");
    assembler.push_chunk(b"p");
    assembler.push_chunk(b"");
    assembler.push_chunk(b"board");
    assert_eq!(assembler.finish(), b"clipboard".to_vec());
}

#[test]
fn streaming_equals_buffered_transfer() {
    // A payload larger than any single chunk: splitting it for a streamed
    // transfer and reassembling the chunks yields the buffered payload.
    let payload: Vec<u8> = (0u16..1000).map(|i| (i % 251) as u8).collect();
    let chunks = chunk_payload(&payload, 7);
    assert!(chunks.iter().all(|c| !c.is_empty() && c.len() <= 7));
    let mut assembler = BodyAssembler::new();
    for c in &chunks {
        assembler.push_chunk(c);
    }
    assert_eq!(assembler.finish(), payload);
}
