use document_picker::shim::incoming;

#[test]
fn a_buffer_comes_in_as_a_handle_on_its_bytes() {
    let buffer = [10u8, 20, 30];
    let message = incoming(Some(&buffer));
    let handle = message.expect("a buffer gives a file");
    assert_eq!(&*handle, &buffer[..]);
}

#[test]
fn an_empty_buffer_comes_in_as_an_empty_file() {
    let message = incoming(Some(&[]));
    assert_eq!(message.map(|handle| handle.len()), Some(0));
}

#[test]
fn no_buffer_comes_in_as_no_file() {
    assert!(incoming(None).is_none());
}
