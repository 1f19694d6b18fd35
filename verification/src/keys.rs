//! Keyboard input: the bytes a key press sends to the shell.
use vstd::prelude::*;

use crate::workspace::SplitDirection;

verus! {

/// The keys the terminal gives a meaning to; every other key is `Other`.
#[derive(Debug, Clone, Copy, PartialEq, Eq, Structural)]
pub enum Key {
    A, B, C, D, E, F, G, H, I, J, K, L, M,
    N, O, P, Q, R, S, T, U, V, W, X, Y, Z,
    Enter,
    Backspace,
    Tab,
    Escape,
    ArrowUp,
    ArrowDown,
    ArrowRight,
    ArrowLeft,
    Home,
    End,
    Insert,
    Delete,
    PageUp,
    PageDown,
    F1, F2, F3, F4, F5, F6, F7, F8, F9, F10, F11, F12,
    Other,
}

/// The modifier keys held during a key press.
#[derive(Debug, Clone, Copy, PartialEq, Eq, Structural)]
pub struct Modifiers {
    pub ctrl: bool,
    pub shift: bool,
    pub alt: bool,
}

/// The position in the alphabet of a letter key (`A` is 0), if the key is a letter.
pub open spec fn letter_index(key: Key) -> Option<nat> {
    match key {
        Key::A => Some(0nat), Key::B => Some(1nat), Key::C => Some(2nat), Key::D => Some(3nat),
        Key::E => Some(4nat), Key::F => Some(5nat), Key::G => Some(6nat), Key::H => Some(7nat),
        Key::I => Some(8nat), Key::J => Some(9nat), Key::K => Some(10nat), Key::L => Some(11nat),
        Key::M => Some(12nat), Key::N => Some(13nat), Key::O => Some(14nat), Key::P => Some(15nat),
        Key::Q => Some(16nat), Key::R => Some(17nat), Key::S => Some(18nat), Key::T => Some(19nat),
        Key::U => Some(20nat), Key::V => Some(21nat), Key::W => Some(22nat), Key::X => Some(23nat),
        Key::Y => Some(24nat), Key::Z => Some(25nat),
        _ => None,
    }
}

/// The escape byte that starts the VT sequences below.
pub open spec fn esc() -> u8 {
    0x1b
}

/// The bytes a non-letter key sends: VT/xterm sequences (`ESC [ ...` or `ESC O ...`)
/// for cursor, editing and function keys, a single control byte for the others.
/// In ASCII, 0x5b is `[`, 0x4f is `O`, 0x7e is `~`, 0x30..0x39 are the digits and
/// 0x41..0x53 the capital letters `A` to `S`.
pub open spec fn special_sequence(key: Key) -> Option<Seq<u8>> {
    match key {
        Key::Enter => Some(seq![0x0du8]),
        Key::Backspace => Some(seq![0x7fu8]),
        Key::Tab => Some(seq![0x09u8]),
        Key::Escape => Some(seq![esc()]),
        Key::ArrowUp => Some(seq![esc(), 0x5bu8, 0x41u8]),
        Key::ArrowDown => Some(seq![esc(), 0x5bu8, 0x42u8]),
        Key::ArrowRight => Some(seq![esc(), 0x5bu8, 0x43u8]),
        Key::ArrowLeft => Some(seq![esc(), 0x5bu8, 0x44u8]),
        Key::Home => Some(seq![esc(), 0x5bu8, 0x48u8]),
        Key::End => Some(seq![esc(), 0x5bu8, 0x46u8]),
        Key::Insert => Some(seq![esc(), 0x5bu8, 0x32u8, 0x7eu8]),
        Key::Delete => Some(seq![esc(), 0x5bu8, 0x33u8, 0x7eu8]),
        Key::PageUp => Some(seq![esc(), 0x5bu8, 0x35u8, 0x7eu8]),
        Key::PageDown => Some(seq![esc(), 0x5bu8, 0x36u8, 0x7eu8]),
        Key::F1 => Some(seq![esc(), 0x4fu8, 0x50u8]),
        Key::F2 => Some(seq![esc(), 0x4fu8, 0x51u8]),
        Key::F3 => Some(seq![esc(), 0x4fu8, 0x52u8]),
        Key::F4 => Some(seq![esc(), 0x4fu8, 0x53u8]),
        Key::F5 => Some(seq![esc(), 0x5bu8, 0x31u8, 0x35u8, 0x7eu8]),
        Key::F6 => Some(seq![esc(), 0x5bu8, 0x31u8, 0x37u8, 0x7eu8]),
        Key::F7 => Some(seq![esc(), 0x5bu8, 0x31u8, 0x38u8, 0x7eu8]),
        Key::F8 => Some(seq![esc(), 0x5bu8, 0x31u8, 0x39u8, 0x7eu8]),
        Key::F9 => Some(seq![esc(), 0x5bu8, 0x32u8, 0x30u8, 0x7eu8]),
        Key::F10 => Some(seq![esc(), 0x5bu8, 0x32u8, 0x31u8, 0x7eu8]),
        Key::F11 => Some(seq![esc(), 0x5bu8, 0x32u8, 0x33u8, 0x7eu8]),
        Key::F12 => Some(seq![esc(), 0x5bu8, 0x32u8, 0x34u8, 0x7eu8]),
        _ => None,
    }
}

/// Whether the modifiers are Ctrl alone (no Shift, no Alt).
pub open spec fn ctrl_only(m: Modifiers) -> bool {
    m.ctrl && !m.shift && !m.alt
}

/// The bytes a key press sends to the shell, if any: with Ctrl alone, a letter
/// sends its C0 control byte (Ctrl+A is 1, ..., Ctrl+Z is 26) and any other key
/// nothing; otherwise a key sends its special sequence. Plain letters send
/// nothing here: typed text arrives as text.
pub open spec fn key_sequence(key: Key, modifiers: Modifiers) -> Option<Seq<u8>> {
    if ctrl_only(modifiers) {
        match letter_index(key) {
            Some(i) => Some(seq![(i + 1) as u8]),
            None => None,
        }
    } else {
        special_sequence(key)
    }
}

/// Ctrl with a letter (and no other modifier) sends exactly one byte, a C0 control
/// code between 1 and 26.
pub proof fn lemma_ctrl_letter_sends_control_byte(key: Key, modifiers: Modifiers)
    requires
        ctrl_only(modifiers),
        letter_index(key) is Some,
    ensures
        key_sequence(key, modifiers) is Some,
        key_sequence(key, modifiers).unwrap().len() == 1,
        1 <= key_sequence(key, modifiers).unwrap()[0] <= 26,
{
}

/// A key that sends anything sends at least one byte, and every sequence longer
/// than one byte is an escape sequence.
pub proof fn lemma_sequences_are_single_bytes_or_escapes(key: Key, modifiers: Modifiers)
    requires
        key_sequence(key, modifiers) is Some,
    ensures
        key_sequence(key, modifiers).unwrap().len() >= 1,
        key_sequence(key, modifiers).unwrap().len() > 1 ==> key_sequence(key, modifiers).unwrap()[0] == esc(),
{
}

/// The lower-case ASCII letter of a letter key.
fn letter_byte(key: Key) -> (b: Option<u8>)
    ensures
        match letter_index(key) {
            Some(i) => b == Some((0x61 + i) as u8),
            None => b is None,
        },
{
    match key {
        Key::A => Some(0x61), Key::B => Some(0x62), Key::C => Some(0x63), Key::D => Some(0x64),
        Key::E => Some(0x65), Key::F => Some(0x66), Key::G => Some(0x67), Key::H => Some(0x68),
        Key::I => Some(0x69), Key::J => Some(0x6a), Key::K => Some(0x6b), Key::L => Some(0x6c),
        Key::M => Some(0x6d), Key::N => Some(0x6e), Key::O => Some(0x6f), Key::P => Some(0x70),
        Key::Q => Some(0x71), Key::R => Some(0x72), Key::S => Some(0x73), Key::T => Some(0x74),
        Key::U => Some(0x75), Key::V => Some(0x76), Key::W => Some(0x77), Key::X => Some(0x78),
        Key::Y => Some(0x79), Key::Z => Some(0x7a),
        _ => None,
    }
}

/// The sequence a non-letter key sends.
fn special_bytes(key: Key) -> (v: Option<Vec<u8>>)
    ensures
        v.deep_view() == special_sequence(key),
{
    let r: Option<Vec<u8>> = match key {
        Key::Enter => Some(vec![0x0d]),
        Key::Backspace => Some(vec![0x7f]),
        Key::Tab => Some(vec![0x09]),
        Key::Escape => Some(vec![0x1b]),
        Key::ArrowUp => Some(vec![0x1b, 0x5b, 0x41]),
        Key::ArrowDown => Some(vec![0x1b, 0x5b, 0x42]),
        Key::ArrowRight => Some(vec![0x1b, 0x5b, 0x43]),
        Key::ArrowLeft => Some(vec![0x1b, 0x5b, 0x44]),
        Key::Home => Some(vec![0x1b, 0x5b, 0x48]),
        Key::End => Some(vec![0x1b, 0x5b, 0x46]),
        Key::Insert => Some(vec![0x1b, 0x5b, 0x32, 0x7e]),
        Key::Delete => Some(vec![0x1b, 0x5b, 0x33, 0x7e]),
        Key::PageUp => Some(vec![0x1b, 0x5b, 0x35, 0x7e]),
        Key::PageDown => Some(vec![0x1b, 0x5b, 0x36, 0x7e]),
        Key::F1 => Some(vec![0x1b, 0x4f, 0x50]),
        Key::F2 => Some(vec![0x1b, 0x4f, 0x51]),
        Key::F3 => Some(vec![0x1b, 0x4f, 0x52]),
        Key::F4 => Some(vec![0x1b, 0x4f, 0x53]),
        Key::F5 => Some(vec![0x1b, 0x5b, 0x31, 0x35, 0x7e]),
        Key::F6 => Some(vec![0x1b, 0x5b, 0x31, 0x37, 0x7e]),
        Key::F7 => Some(vec![0x1b, 0x5b, 0x31, 0x38, 0x7e]),
        Key::F8 => Some(vec![0x1b, 0x5b, 0x31, 0x39, 0x7e]),
        Key::F9 => Some(vec![0x1b, 0x5b, 0x32, 0x30, 0x7e]),
        Key::F10 => Some(vec![0x1b, 0x5b, 0x32, 0x31, 0x7e]),
        Key::F11 => Some(vec![0x1b, 0x5b, 0x32, 0x33, 0x7e]),
        Key::F12 => Some(vec![0x1b, 0x5b, 0x32, 0x34, 0x7e]),
        _ => None,
    };
    r
}

/// Turns a key press into the bytes the shell receives, if the key sends any.
pub fn key_bytes(key: Key, modifiers: Modifiers) -> (v: Option<Vec<u8>>)
    ensures
        v.deep_view() == key_sequence(key, modifiers),
{
    if modifiers.ctrl && !modifiers.shift && !modifiers.alt {
        match letter_byte(key) {
            Some(letter) => {
                let ghost i = letter_index(key).unwrap();
                assert(0x61 <= letter <= 0x7a ==> letter & 0x1f == letter - 0x60) by (bit_vector);
                let v = vec![letter & 0x1f];
                assert(v@ =~= seq![(i + 1) as u8]);
                Some(v)
            },
            None => None,
        }
    } else {
        special_bytes(key)
    }
}


/// Rows scrolled by Shift+PageUp and Shift+PageDown.
pub const PAGE_SCROLL_ROWS: usize = 10;

/// Rows scrolled by Shift+Home: far enough to reach the top of any scrollback.
pub const HOME_SCROLL_ROWS: usize = 10_000;

/// What a key press asks the window to do.
#[derive(Debug, PartialEq, Eq)]
pub enum KeyAction {
    NewTab,
    CloseTab,
    Split(SplitDirection),
    ScrollUp(usize),
    ScrollDown(usize),
    ScrollToBottom,
    Send(Vec<u8>),
    Ignore,
}

/// The abstract value of a `KeyAction`.
pub enum KeyActionView {
    NewTab,
    CloseTab,
    Split(SplitDirection),
    ScrollUp(nat),
    ScrollDown(nat),
    ScrollToBottom,
    Send(Seq<u8>),
    Ignore,
}

impl View for KeyAction {
    type V = KeyActionView;

    open spec fn view(&self) -> KeyActionView {
        match self {
            KeyAction::NewTab => KeyActionView::NewTab,
            KeyAction::CloseTab => KeyActionView::CloseTab,
            KeyAction::Split(d) => KeyActionView::Split(*d),
            KeyAction::ScrollUp(n) => KeyActionView::ScrollUp(*n as nat),
            KeyAction::ScrollDown(n) => KeyActionView::ScrollDown(*n as nat),
            KeyAction::ScrollToBottom => KeyActionView::ScrollToBottom,
            KeyAction::Send(bytes) => KeyActionView::Send(bytes@),
            KeyAction::Ignore => KeyActionView::Ignore,
        }
    }
}

/// Sending a key's sequence, or nothing when the key sends none.
pub open spec fn send_or_ignore(key: Key, modifiers: Modifiers) -> KeyActionView {
    match key_sequence(key, modifiers) {
        Some(bytes) => KeyActionView::Send(bytes),
        None => KeyActionView::Ignore,
    }
}

/// The meaning of a key press: Ctrl+Shift+T/W/E/O open a tab, close the tab, and split
/// vertically or horizontally (other keys with Ctrl+Shift do nothing); Shift+PageUp,
/// Shift+PageDown, Shift+Home and Shift+End scroll the view; every other key press
/// sends its byte sequence to the shell, if it has one.
pub open spec fn key_action_of(key: Key, modifiers: Modifiers) -> KeyActionView {
    if modifiers.ctrl && modifiers.shift {
        match key {
            Key::T => KeyActionView::NewTab,
            Key::W => KeyActionView::CloseTab,
            Key::E => KeyActionView::Split(SplitDirection::Vertical),
            Key::O => KeyActionView::Split(SplitDirection::Horizontal),
            _ => KeyActionView::Ignore,
        }
    } else if modifiers.shift {
        match key {
            Key::PageUp => KeyActionView::ScrollUp(PAGE_SCROLL_ROWS as nat),
            Key::PageDown => KeyActionView::ScrollDown(PAGE_SCROLL_ROWS as nat),
            Key::Home => KeyActionView::ScrollUp(HOME_SCROLL_ROWS as nat),
            Key::End => KeyActionView::ScrollToBottom,
            _ => send_or_ignore(key, modifiers),
        }
    } else {
        send_or_ignore(key, modifiers)
    }
}

/// Shift without Ctrl only scrolls with PageUp, PageDown, Home and End: with any other
/// key it does what the same key does without Shift, which is to send the key's
/// sequence (or nothing, for a key without one).
pub proof fn lemma_shift_only_scrolls_with_navigation_keys(key: Key, modifiers: Modifiers)
    requires
        !modifiers.ctrl,
        modifiers.shift,
        key != Key::PageUp,
        key != Key::PageDown,
        key != Key::Home,
        key != Key::End,
    ensures
        key_action_of(key, modifiers) == key_action_of(key, Modifiers { shift: false, ..modifiers }),
        key_action_of(key, modifiers) == (match special_sequence(key) {
            Some(bytes) => KeyActionView::Send(bytes),
            None => KeyActionView::Ignore,
        }),
{
}

/// Without Ctrl and Shift, a key press never manages tabs or scrolls: it sends the
/// key's sequence, or nothing.
pub proof fn lemma_unmodified_keys_send(key: Key, modifiers: Modifiers)
    requires
        !modifiers.ctrl,
        !modifiers.shift,
    ensures
        key_action_of(key, modifiers) == (match special_sequence(key) {
            Some(bytes) => KeyActionView::Send(bytes),
            None => KeyActionView::Ignore,
        }),
{
}

/// Sends the key's bytes, if it has any.
fn send_key(key: Key, modifiers: Modifiers) -> (a: KeyAction)
    ensures
        a@ == send_or_ignore(key, modifiers),
{
    match key_bytes(key, modifiers) {
        Some(bytes) => {
            assert(bytes@ =~= bytes.deep_view());
            KeyAction::Send(bytes)
        },
        None => KeyAction::Ignore,
    }
}

/// Decides what a key press asks the window to do.
pub fn key_action(key: Key, modifiers: Modifiers) -> (a: KeyAction)
    ensures
        a@ == key_action_of(key, modifiers),
{
    if modifiers.ctrl && modifiers.shift {
        match key {
            Key::T => KeyAction::NewTab,
            Key::W => KeyAction::CloseTab,
            Key::E => KeyAction::Split(SplitDirection::Vertical),
            Key::O => KeyAction::Split(SplitDirection::Horizontal),
            _ => KeyAction::Ignore,
        }
    } else if modifiers.shift {
        match key {
            Key::PageUp => KeyAction::ScrollUp(PAGE_SCROLL_ROWS),
            Key::PageDown => KeyAction::ScrollDown(PAGE_SCROLL_ROWS),
            Key::Home => KeyAction::ScrollUp(HOME_SCROLL_ROWS),
            Key::End => KeyAction::ScrollToBottom,
            _ => send_key(key, modifiers),
        }
    } else {
        send_key(key, modifiers)
    }
}

/// Pasted text with every line feed turned into carriage return and line feed.
pub open spec fn paste_encoding(text: Seq<u8>) -> Seq<u8>
    decreases text.len(),
{
    if text.len() == 0 {
        Seq::empty()
    } else {
        paste_encoding(text.drop_last()) + if text.last() == 0x0au8 {
            seq![0x0du8, 0x0au8]
        } else {
            seq![text.last()]
        }
    }
}

/// Encoding a paste piece by piece gives the same bytes as encoding it at once,
/// so a paste may be sent in chunks.
pub proof fn lemma_paste_encoding_concat(a: Seq<u8>, b: Seq<u8>)
    ensures
        paste_encoding(a + b) == paste_encoding(a) + paste_encoding(b),
    decreases b.len(),
{
    if b.len() == 0 {
        assert(a + b =~= a);
        assert(paste_encoding(a) + paste_encoding(b) =~= paste_encoding(a));
    } else {
        lemma_paste_encoding_concat(a, b.drop_last());
        assert((a + b).drop_last() =~= a + b.drop_last());
        assert((a + b).last() == b.last());
        let tail: Seq<u8> = if b.last() == 0x0au8 { seq![0x0du8, 0x0au8] } else { seq![b.last()] };
        assert(paste_encoding(a) + paste_encoding(b.drop_last()) + tail =~= paste_encoding(a) + (
        paste_encoding(b.drop_last()) + tail));
    }
}

/// After encoding, every line feed is preceded by a carriage return.
pub proof fn lemma_paste_encoding_has_no_bare_line_feed(text: Seq<u8>)
    ensures
        forall|i: int|
            0 <= i < paste_encoding(text).len() && #[trigger] paste_encoding(text)[i] == 0x0au8 ==> i >= 1
                && paste_encoding(text)[i - 1] == 0x0du8,
    decreases text.len(),
{
    if text.len() > 0 {
        lemma_paste_encoding_has_no_bare_line_feed(text.drop_last());
        let prev = paste_encoding(text.drop_last());
        let out = paste_encoding(text);
        assert forall|i: int| 0 <= i < out.len() && #[trigger] out[i] == 0x0au8 implies i >= 1 && out[i - 1] == 0x0du8 by {
            if i < prev.len() {
                assert(out[i] == prev[i]);
                assert(out[i - 1] == prev[i - 1]);
            }
        }
    }
}

/// Paste encoding changes nothing but line feeds: a text without a line feed is sent
/// as it is, and a line feed alone becomes carriage return and line feed. With
/// `lemma_paste_encoding_concat` this fixes the encoding of every text.
pub proof fn lemma_paste_encoding_changes_only_line_feeds(text: Seq<u8>)
    ensures
        (forall|i: int| 0 <= i < text.len() ==> text[i] != 0x0au8) ==> paste_encoding(text) == text,
        paste_encoding(seq![0x0au8]) == seq![0x0du8, 0x0au8],
    decreases text.len(),
{
    if text.len() > 0 {
        lemma_paste_encoding_changes_only_line_feeds(text.drop_last());
        if forall|i: int| 0 <= i < text.len() ==> text[i] != 0x0au8 {
            assert(text.last() != 0x0au8);
            assert(forall|i: int| 0 <= i < text.drop_last().len() ==> text.drop_last()[i] != 0x0au8);
            assert(text.drop_last() + seq![text.last()] =~= text);
        }
    }
    let lf: Seq<u8> = seq![0x0au8];
    assert(lf.drop_last() =~= Seq::<u8>::empty());
    assert(paste_encoding(lf.drop_last()) == Seq::<u8>::empty());
    assert(lf.last() == 0x0au8);
    assert(Seq::<u8>::empty() + seq![0x0du8, 0x0au8] =~= seq![0x0du8, 0x0au8]);
}

/// The length of a paste grows by exactly one byte per line feed.
pub open spec fn line_feed_count(text: Seq<u8>) -> nat
    decreases text.len(),
{
    if text.len() == 0 {
        0
    } else {
        line_feed_count(text.drop_last()) + if text.last() == 0x0au8 { 1nat } else { 0nat }
    }
}

/// Encoding a paste adds one carriage return per line feed and nothing else.
pub proof fn lemma_paste_encoding_length(text: Seq<u8>)
    ensures
        paste_encoding(text).len() == text.len() + line_feed_count(text),
    decreases text.len(),
{
    if text.len() > 0 {
        lemma_paste_encoding_length(text.drop_last());
    }
}

/// The bytes a paste sends to the shell: the text with each line feed written as
/// carriage return and line feed, as a terminal's Enter key does.
pub fn paste_bytes(text: &[u8]) -> (out: Vec<u8>)
    ensures
        out@ == paste_encoding(text@),
{
    let mut out: Vec<u8> = Vec::new();
    let mut i: usize = 0;
    while i < text.len()
        invariant
            i <= text@.len(),
            out@ == paste_encoding(text@.take(i as int)),
        decreases text@.len() - i,
    {
        let b = text[i];
        if b == 0x0a {
            out.push(0x0d);
            out.push(0x0a);
        } else {
            out.push(b);
        }
        assert(text@.take(i + 1).drop_last() =~= text@.take(i as int));
        i = i + 1;
    }
    assert(text@.take(text@.len() as int) =~= text@);
    out
}

} // verus!
