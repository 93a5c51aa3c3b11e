use khafre::input::{key_to_bytes, KeyInput};

#[test]
fn test_key_plain_text() {
    let key = KeyInput::Character("a".to_string());
    assert_eq!(key_to_bytes(&key, false), b"a".to_vec());
    let wide = KeyInput::Character("é".to_string());
    assert_eq!(key_to_bytes(&wide, false), vec![0xc3, 0xa9]);
}

#[test]
fn test_key_control_lowercase() {
    let key = KeyInput::Character("c".to_string());
    assert_eq!(key_to_bytes(&key, true), vec![3]);
    // control with anything but a lowercase letter sends the plain text
    let upper = KeyInput::Character("C".to_string());
    assert_eq!(key_to_bytes(&upper, true), b"C".to_vec());
}

#[test]
fn test_key_editing_keys() {
    assert_eq!(key_to_bytes(&KeyInput::Enter, false), vec![b'\r']);
    assert_eq!(key_to_bytes(&KeyInput::Backspace, false), vec![0x7f]);
    assert_eq!(key_to_bytes(&KeyInput::Tab, false), vec![b'\t']);
    assert_eq!(key_to_bytes(&KeyInput::Escape, false), vec![0x1b]);
    assert_eq!(key_to_bytes(&KeyInput::ArrowUp, false), vec![0x1b, b'[', b'A']);
    assert_eq!(key_to_bytes(&KeyInput::ArrowLeft, false), vec![0x1b, b'[', b'D']);
    assert_eq!(key_to_bytes(&KeyInput::Home, false), vec![0x1b, b'[', b'H']);
    assert_eq!(key_to_bytes(&KeyInput::PageDown, false), vec![0x1b, b'[', b'6', b'~']);
    assert_eq!(key_to_bytes(&KeyInput::Delete, false), vec![0x1b, b'[', b'3', b'~']);
}

#[test]
fn test_key_function_keys() {
    assert_eq!(key_to_bytes(&KeyInput::F1, false), vec![0x1b, b'O', b'P']);
    assert_eq!(key_to_bytes(&KeyInput::F5, false), vec![0x1b, b'[', b'1', b'5', b'~']);
    assert_eq!(key_to_bytes(&KeyInput::F12, false), vec![0x1b, b'[', b'2', b'4', b'~']);
}

#[test]
fn test_key_other_sends_nothing() {
    assert!(key_to_bytes(&KeyInput::Other, false).is_empty());
    assert!(key_to_bytes(&KeyInput::Other, true).is_empty());
}
