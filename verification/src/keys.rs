//! Translation of key presses into the bytes written to the pseudo-terminal.
use vstd::prelude::*;

verus! {

/// The keys that the terminal translates to a fixed byte sequence; every
/// other key is `Other`.
#[derive(Clone, Copy, Debug, PartialEq, Eq, Structural)]
pub enum TermKey {
    Return,
    KpEnter,
    BackSpace,
    Tab,
    Escape,
    Up,
    Down,
    Right,
    Left,
    PageUp,
    PageDown,
    Home,
    End,
    Insert,
    Delete,
    F1,
    F2,
    F3,
    F4,
    F5,
    F6,
    F7,
    F8,
    F9,
    F10,
    F11,
    F12,
    Other,
}

/// What a key press leads to: the bytes to write to the terminal, if any,
/// and whether the press is consumed (`true`) or left to other handlers.
#[derive(Debug)]
pub struct KeyResponse {
    pub send: Option<Vec<u8>>,
    pub handled: bool,
}

/// Whether `c` is an ASCII lower-case letter.
pub open spec fn is_ascii_lower(c: char) -> bool {
    'a' <= c && c <= 'z'
}

/// The control byte that Ctrl together with letter `c` sends: `a` gives 1, `z` gives 26.
pub open spec fn ctrl_code(c: char) -> u8 {
    ((c as int) - ('a' as int) + 1) as u8
}

/// ESC `[` followed by `tail`: the CSI prefix.
pub open spec fn csi(tail: Seq<u8>) -> Seq<u8> {
    seq![0x1bu8, 0x5bu8] + tail
}

/// ESC `O` followed by `last`: the SS3 prefix used for F1 to F4.
pub open spec fn ss3(last: u8) -> Seq<u8> {
    seq![0x1bu8, 0x4fu8, last]
}

/// CSI, the two decimal digits `d1 d2`, then `~`.
pub open spec fn csi_tilde2(d1: u8, d2: u8) -> Seq<u8> {
    csi(seq![d1, d2, 0x7eu8])
}

/// The byte sequence that `key` sends, or `None` for keys that send nothing.
pub open spec fn key_sequence(key: TermKey) -> Option<Seq<u8>> {
    match key {
        TermKey::Return => Some(seq![0x0du8]),
        TermKey::KpEnter => Some(seq![0x0du8]),
        TermKey::BackSpace => Some(seq![0x7fu8]),
        TermKey::Tab => Some(seq![0x09u8]),
        TermKey::Escape => Some(seq![0x1bu8]),
        TermKey::Up => Some(csi(seq![0x41u8])),
        TermKey::Down => Some(csi(seq![0x42u8])),
        TermKey::Right => Some(csi(seq![0x43u8])),
        TermKey::Left => Some(csi(seq![0x44u8])),
        TermKey::PageUp => Some(csi(seq![0x35u8, 0x7eu8])),
        TermKey::PageDown => Some(csi(seq![0x36u8, 0x7eu8])),
        TermKey::Home => Some(csi(seq![0x48u8])),
        TermKey::End => Some(csi(seq![0x46u8])),
        TermKey::Insert => Some(csi(seq![0x32u8, 0x7eu8])),
        TermKey::Delete => Some(csi(seq![0x33u8, 0x7eu8])),
        TermKey::F1 => Some(ss3(0x50u8)),
        TermKey::F2 => Some(ss3(0x51u8)),
        TermKey::F3 => Some(ss3(0x52u8)),
        TermKey::F4 => Some(ss3(0x53u8)),
        TermKey::F5 => Some(csi_tilde2(0x31u8, 0x35u8)),
        TermKey::F6 => Some(csi_tilde2(0x31u8, 0x37u8)),
        TermKey::F7 => Some(csi_tilde2(0x31u8, 0x38u8)),
        TermKey::F8 => Some(csi_tilde2(0x31u8, 0x39u8)),
        TermKey::F9 => Some(csi_tilde2(0x32u8, 0x30u8)),
        TermKey::F10 => Some(csi_tilde2(0x32u8, 0x31u8)),
        TermKey::F11 => Some(csi_tilde2(0x32u8, 0x33u8)),
        TermKey::F12 => Some(csi_tilde2(0x32u8, 0x34u8)),
        TermKey::Other => None,
    }
}

/// The view of an optional byte vector.
pub open spec fn opt_bytes(v: Option<Vec<u8>>) -> Option<Seq<u8>> {
    match v {
        Some(b) => Some(b@),
        None => None,
    }
}

/// Whether a press with Ctrl held and the key's character `unicode` is a
/// Ctrl-letter combination.
pub open spec fn is_ctrl_letter(ctrl: bool, unicode: Option<char>) -> bool {
    &&& ctrl
    &&& unicode matches Some(ch) && is_ascii_lower(ch)
}

/// What a key press does, given whether the terminal has a writer
/// (`has_sender`), whether Ctrl is held, the key's character and the key.
pub open spec fn key_response(
    has_sender: bool,
    ctrl: bool,
    unicode: Option<char>,
    key: TermKey,
) -> (Option<Seq<u8>>, bool) {
    if !has_sender {
        (None, false)
    } else if is_ctrl_letter(ctrl, unicode) {
        (Some(seq![ctrl_code(unicode.unwrap())]), true)
    } else {
        (key_sequence(key), false)
    }
}

/// The control byte sent for Ctrl held together with the letter `ch`.
pub fn ctrl_letter_code(ch: char) -> (code: u8)
    requires
        is_ascii_lower(ch),
    ensures
        code == ctrl_code(ch),
        1 <= code <= 26,
{
    let b: u32 = ch as u32;
    ((b as u8) - 0x61u8) + 1
}

/// Whether `c` is an ASCII lower-case letter.
pub fn is_ascii_lowercase(c: char) -> (b: bool)
    ensures
        b == is_ascii_lower(c),
{
    'a' <= c && c <= 'z'
}

/// The byte sequence that `key` sends, or `None` for keys that send nothing.
pub fn escape_sequence(key: TermKey) -> (seq: Option<Vec<u8>>)
    ensures
        opt_bytes(seq) == key_sequence(key),
{
    let s: Option<Vec<u8>> = match key {
        TermKey::Return => Some(vec![0x0du8]),
        TermKey::KpEnter => Some(vec![0x0du8]),
        TermKey::BackSpace => Some(vec![0x7fu8]),
        TermKey::Tab => Some(vec![0x09u8]),
        TermKey::Escape => Some(vec![0x1bu8]),
        TermKey::Up => Some(vec![0x1bu8, 0x5bu8, 0x41u8]),
        TermKey::Down => Some(vec![0x1bu8, 0x5bu8, 0x42u8]),
        TermKey::Right => Some(vec![0x1bu8, 0x5bu8, 0x43u8]),
        TermKey::Left => Some(vec![0x1bu8, 0x5bu8, 0x44u8]),
        TermKey::PageUp => Some(vec![0x1bu8, 0x5bu8, 0x35u8, 0x7eu8]),
        TermKey::PageDown => Some(vec![0x1bu8, 0x5bu8, 0x36u8, 0x7eu8]),
        TermKey::Home => Some(vec![0x1bu8, 0x5bu8, 0x48u8]),
        TermKey::End => Some(vec![0x1bu8, 0x5bu8, 0x46u8]),
        TermKey::Insert => Some(vec![0x1bu8, 0x5bu8, 0x32u8, 0x7eu8]),
        TermKey::Delete => Some(vec![0x1bu8, 0x5bu8, 0x33u8, 0x7eu8]),
        TermKey::F1 => Some(vec![0x1bu8, 0x4fu8, 0x50u8]),
        TermKey::F2 => Some(vec![0x1bu8, 0x4fu8, 0x51u8]),
        TermKey::F3 => Some(vec![0x1bu8, 0x4fu8, 0x52u8]),
        TermKey::F4 => Some(vec![0x1bu8, 0x4fu8, 0x53u8]),
        TermKey::F5 => Some(vec![0x1bu8, 0x5bu8, 0x31u8, 0x35u8, 0x7eu8]),
        TermKey::F6 => Some(vec![0x1bu8, 0x5bu8, 0x31u8, 0x37u8, 0x7eu8]),
        TermKey::F7 => Some(vec![0x1bu8, 0x5bu8, 0x31u8, 0x38u8, 0x7eu8]),
        TermKey::F8 => Some(vec![0x1bu8, 0x5bu8, 0x31u8, 0x39u8, 0x7eu8]),
        TermKey::F9 => Some(vec![0x1bu8, 0x5bu8, 0x32u8, 0x30u8, 0x7eu8]),
        TermKey::F10 => Some(vec![0x1bu8, 0x5bu8, 0x32u8, 0x31u8, 0x7eu8]),
        TermKey::F11 => Some(vec![0x1bu8, 0x5bu8, 0x32u8, 0x33u8, 0x7eu8]),
        TermKey::F12 => Some(vec![0x1bu8, 0x5bu8, 0x32u8, 0x34u8, 0x7eu8]),
        TermKey::Other => None,
    };
    proof {
        if s is Some {
            assert(s->0@ =~= key_sequence(key).unwrap());
        }
    }
    s
}

/// Decides what a key press does. Without a writer nothing is sent and the
/// press is left to other handlers. Ctrl with a lower-case letter sends its
/// control byte and consumes the press. Otherwise the key's fixed sequence,
/// if it has one, is sent and the press is still left to other handlers.
pub fn key_pressed(has_sender: bool, ctrl: bool, unicode: Option<char>, key: TermKey) -> (r:
    KeyResponse)
    ensures
        (opt_bytes(r.send), r.handled) == key_response(has_sender, ctrl, unicode, key),
        !has_sender ==> r.send is None && !r.handled,
        has_sender && is_ctrl_letter(ctrl, unicode) ==> r.handled && opt_bytes(r.send) == Some(
            seq![ctrl_code(unicode.unwrap())],
        ),
        has_sender && !is_ctrl_letter(ctrl, unicode) ==> !r.handled && opt_bytes(r.send)
            == key_sequence(key),
{
    if !has_sender {
        return KeyResponse { send: None, handled: false };
    }
    if ctrl {
        if let Some(ch) = unicode {
            if is_ascii_lowercase(ch) {
                let code = ctrl_letter_code(ch);
                let v = vec![code];
                assert(v@ =~= seq![ctrl_code(ch)]);
                return KeyResponse { send: Some(v), handled: true };
            }
        }
    }
    KeyResponse { send: escape_sequence(key), handled: false }
}

/// Without a writer a key press sends nothing and is never consumed.
pub proof fn law_no_sender_sends_nothing(ctrl: bool, unicode: Option<char>, key: TermKey)
    ensures
        key_response(false, ctrl, unicode, key) == (None::<Seq<u8>>, false),
{
}

/// A press is consumed exactly when a writer exists and the press is Ctrl
/// with a lower-case letter; it then sends one control byte from 1 to 26,
/// whatever the key's own sequence would have been.
pub proof fn law_ctrl_letter_consumed(has_sender: bool, ctrl: bool, unicode: Option<char>, key: TermKey)
    ensures
        key_response(has_sender, ctrl, unicode, key).1 <==> (has_sender && is_ctrl_letter(ctrl, unicode)),
        key_response(has_sender, ctrl, unicode, key).1 ==> {
            let sent = key_response(has_sender, ctrl, unicode, key).0.unwrap();
            &&& sent.len() == 1
            &&& 1 <= sent[0] <= 26
            &&& sent[0] == ctrl_code(unicode.unwrap())
        },
{
}

/// Distinct lower-case letters give distinct control bytes.
pub proof fn law_ctrl_codes_distinct(c1: char, c2: char)
    requires
        is_ascii_lower(c1),
        is_ascii_lower(c2),
        c1 != c2,
    ensures
        ctrl_code(c1) != ctrl_code(c2),
{
}

/// Every key with a sequence sends at least one byte, and the cursor,
/// paging, editing and function keys send an escape sequence: ESC followed
/// by at least two more bytes.
pub proof fn law_sequences_well_formed(key: TermKey)
    ensures
        key_sequence(key) matches Some(s) ==> s.len() >= 1,
        key_sequence(key) matches Some(s) ==> (s.len() > 1 <==> s[0] == 0x1bu8 && s.len() >= 3),
        key_sequence(key) is None <==> key == TermKey::Other,
{
}

/// A number that tells apart the sequences that the keys send: built from
/// the length, the first and last bytes and the third and fourth bytes.
spec fn fingerprint(s: Seq<u8>) -> int {
    s.len() * 0x1_0000_0000 + s.last() * 0x100_0000 + (if s.len() >= 3 {
        s[2] as int
    } else {
        0
    }) * 0x1_0000 + (if s.len() >= 4 {
        s[3] as int
    } else {
        0
    }) * 0x100 + s[0]
}

/// The fingerprint of each key's sequence, written out.
spec fn key_fingerprint(key: TermKey) -> int {
    match key {
        TermKey::Return => 0x1_0d00_000d,
        TermKey::KpEnter => 0x1_0d00_000d,
        TermKey::BackSpace => 0x1_7f00_007f,
        TermKey::Tab => 0x1_0900_0009,
        TermKey::Escape => 0x1_1b00_001b,
        TermKey::Up => 0x3_4141_001b,
        TermKey::Down => 0x3_4242_001b,
        TermKey::Right => 0x3_4343_001b,
        TermKey::Left => 0x3_4444_001b,
        TermKey::PageUp => 0x4_7e35_7e1b,
        TermKey::PageDown => 0x4_7e36_7e1b,
        TermKey::Home => 0x3_4848_001b,
        TermKey::End => 0x3_4646_001b,
        TermKey::Insert => 0x4_7e32_7e1b,
        TermKey::Delete => 0x4_7e33_7e1b,
        TermKey::F1 => 0x3_5050_001b,
        TermKey::F2 => 0x3_5151_001b,
        TermKey::F3 => 0x3_5252_001b,
        TermKey::F4 => 0x3_5353_001b,
        TermKey::F5 => 0x5_7e31_351b,
        TermKey::F6 => 0x5_7e31_371b,
        TermKey::F7 => 0x5_7e31_381b,
        TermKey::F8 => 0x5_7e31_391b,
        TermKey::F9 => 0x5_7e32_301b,
        TermKey::F10 => 0x5_7e32_311b,
        TermKey::F11 => 0x5_7e32_331b,
        TermKey::F12 => 0x5_7e32_341b,
        TermKey::Other => 0,
    }
}

proof fn lemma_fingerprint_of_key(key: TermKey)
    requires
        key_sequence(key) is Some,
    ensures
        fingerprint(key_sequence(key).unwrap()) == key_fingerprint(key),
{
}

/// Two different keys never send the same bytes, except Return and the
/// keypad Enter, which both send a carriage return.
pub proof fn law_sequences_distinct(k1: TermKey, k2: TermKey)
    requires
        k1 != k2,
        key_sequence(k1) is Some,
        key_sequence(k2) is Some,
        !(k1 == TermKey::Return && k2 == TermKey::KpEnter),
        !(k1 == TermKey::KpEnter && k2 == TermKey::Return),
    ensures
        key_sequence(k1) != key_sequence(k2),
{
    lemma_fingerprint_of_key(k1);
    lemma_fingerprint_of_key(k2);
}

/// With a writer, a press that is not Ctrl with a lower-case letter sends
/// exactly the key's own sequence, whatever character the press carries
/// (none included), and is left to other handlers.
pub proof fn law_plain_press_sends_key_sequence(ctrl: bool, unicode: Option<char>, key: TermKey)
    requires
        !is_ctrl_letter(ctrl, unicode),
    ensures
        key_response(true, ctrl, unicode, key) == (key_sequence(key), false),
        key_response(true, ctrl, None, key) == key_response(true, ctrl, unicode, key),
        key_response(true, false, unicode, key) == key_response(true, ctrl, unicode, key),
{
}

/// The control bytes run up with the alphabet from `a`, which sends 1:
/// a later letter always sends a larger byte, one more per letter.
pub proof fn law_ctrl_codes_follow_alphabet(c1: char, c2: char)
    requires
        is_ascii_lower(c1),
        is_ascii_lower(c2),
    ensures
        ctrl_code('a') == 1,
        ctrl_code(c2) - ctrl_code(c1) == (c2 as int) - (c1 as int),
{
}

/// The bytes each key sends, written out in full.
pub proof fn law_key_table()
    ensures
        key_sequence(TermKey::Return) == Some(seq![13u8]),
        key_sequence(TermKey::KpEnter) == Some(seq![13u8]),
        key_sequence(TermKey::BackSpace) == Some(seq![127u8]),
        key_sequence(TermKey::Tab) == Some(seq![9u8]),
        key_sequence(TermKey::Escape) == Some(seq![27u8]),
        key_sequence(TermKey::Up) == Some(seq![27u8, 91u8, 65u8]),
        key_sequence(TermKey::Down) == Some(seq![27u8, 91u8, 66u8]),
        key_sequence(TermKey::Right) == Some(seq![27u8, 91u8, 67u8]),
        key_sequence(TermKey::Left) == Some(seq![27u8, 91u8, 68u8]),
        key_sequence(TermKey::PageUp) == Some(seq![27u8, 91u8, 53u8, 126u8]),
        key_sequence(TermKey::PageDown) == Some(seq![27u8, 91u8, 54u8, 126u8]),
        key_sequence(TermKey::Home) == Some(seq![27u8, 91u8, 72u8]),
        key_sequence(TermKey::End) == Some(seq![27u8, 91u8, 70u8]),
        key_sequence(TermKey::Insert) == Some(seq![27u8, 91u8, 50u8, 126u8]),
        key_sequence(TermKey::Delete) == Some(seq![27u8, 91u8, 51u8, 126u8]),
        key_sequence(TermKey::F1) == Some(seq![27u8, 79u8, 80u8]),
        key_sequence(TermKey::F2) == Some(seq![27u8, 79u8, 81u8]),
        key_sequence(TermKey::F3) == Some(seq![27u8, 79u8, 82u8]),
        key_sequence(TermKey::F4) == Some(seq![27u8, 79u8, 83u8]),
        key_sequence(TermKey::F5) == Some(seq![27u8, 91u8, 49u8, 53u8, 126u8]),
        key_sequence(TermKey::F6) == Some(seq![27u8, 91u8, 49u8, 55u8, 126u8]),
        key_sequence(TermKey::F7) == Some(seq![27u8, 91u8, 49u8, 56u8, 126u8]),
        key_sequence(TermKey::F8) == Some(seq![27u8, 91u8, 49u8, 57u8, 126u8]),
        key_sequence(TermKey::F9) == Some(seq![27u8, 91u8, 50u8, 48u8, 126u8]),
        key_sequence(TermKey::F10) == Some(seq![27u8, 91u8, 50u8, 49u8, 126u8]),
        key_sequence(TermKey::F11) == Some(seq![27u8, 91u8, 50u8, 51u8, 126u8]),
        key_sequence(TermKey::F12) == Some(seq![27u8, 91u8, 50u8, 52u8, 126u8]),
        key_sequence(TermKey::Other) is None,
{
    assert(csi(seq![65u8]) =~= seq![27u8, 91u8, 65u8]);
    assert(csi(seq![66u8]) =~= seq![27u8, 91u8, 66u8]);
    assert(csi(seq![67u8]) =~= seq![27u8, 91u8, 67u8]);
    assert(csi(seq![68u8]) =~= seq![27u8, 91u8, 68u8]);
    assert(csi(seq![72u8]) =~= seq![27u8, 91u8, 72u8]);
    assert(csi(seq![70u8]) =~= seq![27u8, 91u8, 70u8]);
    assert(csi(seq![53u8, 126u8]) =~= seq![27u8, 91u8, 53u8, 126u8]);
    assert(csi(seq![54u8, 126u8]) =~= seq![27u8, 91u8, 54u8, 126u8]);
    assert(csi(seq![50u8, 126u8]) =~= seq![27u8, 91u8, 50u8, 126u8]);
    assert(csi(seq![51u8, 126u8]) =~= seq![27u8, 91u8, 51u8, 126u8]);
    assert(csi_tilde2(49u8, 53u8) =~= seq![27u8, 91u8, 49u8, 53u8, 126u8]);
    assert(csi_tilde2(49u8, 55u8) =~= seq![27u8, 91u8, 49u8, 55u8, 126u8]);
    assert(csi_tilde2(49u8, 56u8) =~= seq![27u8, 91u8, 49u8, 56u8, 126u8]);
    assert(csi_tilde2(49u8, 57u8) =~= seq![27u8, 91u8, 49u8, 57u8, 126u8]);
    assert(csi_tilde2(50u8, 48u8) =~= seq![27u8, 91u8, 50u8, 48u8, 126u8]);
    assert(csi_tilde2(50u8, 49u8) =~= seq![27u8, 91u8, 50u8, 49u8, 126u8]);
    assert(csi_tilde2(50u8, 51u8) =~= seq![27u8, 91u8, 50u8, 51u8, 126u8]);
    assert(csi_tilde2(50u8, 52u8) =~= seq![27u8, 91u8, 50u8, 52u8, 126u8]);
}

/// The lower-case ASCII letters are exactly the characters with codes 97
/// (`a`) to 122 (`z`).
pub proof fn law_lowercase_letters(c: char)
    ensures
        is_ascii_lower(c) <==> (97 <= (c as int) && (c as int) <= 122),
{
}

} // verus!
