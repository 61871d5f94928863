use glide_kvm::clipboard::{text_of_read, write_went_through, ClipboardManager};

#[test]
fn unavailable_clipboard_reads_nothing_and_refuses_writes() {
    let mut m = ClipboardManager::from_connection(Err(arboard::Error::ClipboardNotSupported));
    assert_eq!(m.get_text(), None);
    assert!(!m.set_text("hello"));
    assert_eq!(m.get_text(), None);
}

#[test]
fn reads_give_back_text_only_on_success() {
    assert_eq!(text_of_read(Ok("copied".to_string())), Some("copied".to_string()));
    assert_eq!(text_of_read(Err(arboard::Error::ContentNotAvailable)), None);
}

#[test]
fn writes_report_their_outcome() {
    assert!(write_went_through(Ok(())));
    assert!(!write_went_through(Err(arboard::Error::ClipboardOccupied)));
}
