use window_clipboard::ios::Clipboard;
use window_clipboard::ios::iOSClipboardError;

#[test]
fn new_always_succeeds() {
    assert!(Clipboard::new().is_ok());
    assert!(Clipboard::new().is_ok());
}

#[test]
fn read_always_unimplemented() {
    let provider = Clipboard::new().unwrap();
    assert_eq!(provider.read(), Err(iOSClipboardError::Unimplemented));
    assert_eq!(provider.read(), Err(iOSClipboardError::Unimplemented));
}

#[test]
fn read_unaffected_by_prior_writes() {
    let mut provider = Clipboard::new().unwrap();
    let _ = provider.write(String::from("something"));
    assert_eq!(provider.read(), Err(iOSClipboardError::Unimplemented));
}

#[test]
fn write_always_errors() {
    let mut provider = Clipboard::new().unwrap();
    assert_eq!(
        provider.write(String::new()),
        Err(iOSClipboardError::Unimplemented)
    );
    assert_eq!(
        provider.write(String::from("hello")),
        Err(iOSClipboardError::Unimplemented)
    );
    assert_eq!(
        provider.write(String::from("\u{1F4CB} non-ascii text")),
        Err(iOSClipboardError::Unimplemented)
    );
}

#[test]
fn error_message_text() {
    let e = iOSClipboardError::Unimplemented;
    assert_eq!(e.message(), "Unimplemented");
}
