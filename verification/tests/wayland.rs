use std::io::Error;
use std::io::ErrorKind;

use window_clipboard::wayland::WaylandClipboardError;
use window_clipboard::wayland::map_backend_result;

#[test]
fn ok_passes_through_unchanged() {
    let r = map_backend_result(Ok(String::from("clipboard text")));
    assert_eq!(r.unwrap(), "clipboard text");
}

#[test]
fn ok_empty_passes_through() {
    let r = map_backend_result(Ok(String::new()));
    assert_eq!(r.unwrap(), "");
}

#[test]
fn failure_is_wrapped_as_backend() {
    let e = Error::new(ErrorKind::WouldBlock, "no data on the selection");
    let r = map_backend_result(Err(e));
    assert!(matches!(r, Err(WaylandClipboardError::Backend(_))));
}

#[test]
fn wrapped_failure_is_the_reported_one() {
    let e = Error::new(ErrorKind::TimedOut, "compositor did not answer");
    let r = map_backend_result(Err(e));
    let back = r.unwrap_err().into_io_error();
    assert_eq!(back.kind(), ErrorKind::TimedOut);
    assert_eq!(format!("{back}"), "compositor did not answer");
}
