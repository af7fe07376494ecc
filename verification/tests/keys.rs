use acreetionos::keys::{ctrl_letter_code, escape_sequence, is_ascii_lowercase, key_pressed, TermKey};

#[test]
fn ctrl_c_sends_end_of_text_and_is_consumed() {
    let r = key_pressed(true, true, Some('c'), TermKey::Other);
    assert_eq!(r.send, Some(vec![3u8]));
    assert!(r.handled);
}

#[test]
fn ctrl_letter_codes_span_a_to_z() {
    assert_eq!(ctrl_letter_code('a'), 1);
    assert_eq!(ctrl_letter_code('z'), 26);
    assert_eq!(ctrl_letter_code('m'), 13);
}

#[test]
fn ctrl_letter_wins_over_key_sequence() {
    let r = key_pressed(true, true, Some('d'), TermKey::Up);
    assert_eq!(r.send, Some(vec![4u8]));
    assert!(r.handled);
}

#[test]
fn no_sender_sends_nothing() {
    let r = key_pressed(false, true, Some('c'), TermKey::Return);
    assert_eq!(r.send, None);
    assert!(!r.handled);
    let r = key_pressed(false, false, None, TermKey::Up);
    assert_eq!(r.send, None);
    assert!(!r.handled);
}

#[test]
fn ctrl_with_upper_case_letter_falls_through() {
    let r = key_pressed(true, true, Some('C'), TermKey::Other);
    assert_eq!(r.send, None);
    assert!(!r.handled);
}

#[test]
fn ctrl_return_sends_carriage_return_unconsumed() {
    let r = key_pressed(true, true, Some('\r'), TermKey::Return);
    assert_eq!(r.send, Some(b"\r".to_vec()));
    assert!(!r.handled);
}

#[test]
fn plain_keys_send_their_sequences_unconsumed() {
    let r = key_pressed(true, false, Some('x'), TermKey::Up);
    assert_eq!(r.send, Some(b"\x1b[A".to_vec()));
    assert!(!r.handled);
    let r = key_pressed(true, false, Some('x'), TermKey::Other);
    assert_eq!(r.send, None);
    assert!(!r.handled);
}

#[test]
fn every_key_sequence() {
    let table: Vec<(TermKey, &[u8])> = vec![
        (TermKey::Return, b"\r"),
        (TermKey::KpEnter, b"\r"),
        (TermKey::BackSpace, b"\x7f"),
        (TermKey::Tab, b"\t"),
        (TermKey::Escape, b"\x1b"),
        (TermKey::Up, b"\x1b[A"),
        (TermKey::Down, b"\x1b[B"),
        (TermKey::Right, b"\x1b[C"),
        (TermKey::Left, b"\x1b[D"),
        (TermKey::PageUp, b"\x1b[5~"),
        (TermKey::PageDown, b"\x1b[6~"),
        (TermKey::Home, b"\x1b[H"),
        (TermKey::End, b"\x1b[F"),
        (TermKey::Insert, b"\x1b[2~"),
        (TermKey::Delete, b"\x1b[3~"),
        (TermKey::F1, b"\x1bOP"),
        (TermKey::F2, b"\x1bOQ"),
        (TermKey::F3, b"\x1bOR"),
        (TermKey::F4, b"\x1bOS"),
        (TermKey::F5, b"\x1b[15~"),
        (TermKey::F6, b"\x1b[17~"),
        (TermKey::F7, b"\x1b[18~"),
        (TermKey::F8, b"\x1b[19~"),
        (TermKey::F9, b"\x1b[20~"),
        (TermKey::F10, b"\x1b[21~"),
        (TermKey::F11, b"\x1b[23~"),
        (TermKey::F12, b"\x1b[24~"),
    ];
    for (key, bytes) in table {
        assert_eq!(escape_sequence(key), Some(bytes.to_vec()), "{:?}", key);
    }
    assert_eq!(escape_sequence(TermKey::Other), None);
}

#[test]
fn lowercase_test() {
    assert!(is_ascii_lowercase('a'));
    assert!(is_ascii_lowercase('z'));
    assert!(!is_ascii_lowercase('A'));
    assert!(!is_ascii_lowercase('{'));
    assert!(!is_ascii_lowercase('`'));
    assert!(!is_ascii_lowercase('é'));
}

#[test]
fn distinct_keys_send_distinct_bytes() {
    let keys = [
        TermKey::Return, TermKey::BackSpace, TermKey::Tab, TermKey::Escape, TermKey::Up,
        TermKey::Down, TermKey::Right, TermKey::Left, TermKey::PageUp, TermKey::PageDown,
        TermKey::Home, TermKey::End, TermKey::Insert, TermKey::Delete, TermKey::F1, TermKey::F2,
        TermKey::F3, TermKey::F4, TermKey::F5, TermKey::F6, TermKey::F7, TermKey::F8,
        TermKey::F9, TermKey::F10, TermKey::F11, TermKey::F12,
    ];
    for (i, a) in keys.iter().enumerate() {
        for b in keys.iter().skip(i + 1) {
            assert_ne!(escape_sequence(*a), escape_sequence(*b), "{:?} {:?}", a, b);
        }
    }
    assert_eq!(escape_sequence(TermKey::Return), escape_sequence(TermKey::KpEnter));
}

#[test]
fn ctrl_codes_distinct() {
    let codes: Vec<u8> = ('a'..='z').map(ctrl_letter_code).collect();
    assert_eq!(codes, (1u8..=26).collect::<Vec<u8>>());
}
