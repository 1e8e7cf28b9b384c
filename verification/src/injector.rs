//! Text injection through a virtual keyboard: which key (and whether Shift)
//! types each character on a US QWERTY layout, and the key actions that type a
//! whole text.

use vstd::prelude::*;

verus! {

/// A key of the virtual keyboard. `code` gives its Linux input event code.
#[derive(Debug, Clone, Copy, PartialEq, Eq, Structural)]
pub enum KeyCode {
    A, B, C, D, E, F, G, H, I, J, K, L, M,
    N, O, P, Q, R, S, T, U, V, W, X, Y, Z,
    Digit0, Digit1, Digit2, Digit3, Digit4,
    Digit5, Digit6, Digit7, Digit8, Digit9,
    Space, Enter, Backspace, Tab,
    Dot, Comma, Semicolon, Apostrophe,
    LeftBrace, RightBrace, Minus, Equal,
    Slash, Backslash, Grave,
    LeftShift, RightShift,
}

/// The letter keys in alphabetical order.
pub open spec fn letter_keys() -> Seq<KeyCode> {
    seq![
        KeyCode::A, KeyCode::B, KeyCode::C, KeyCode::D, KeyCode::E, KeyCode::F, KeyCode::G,
        KeyCode::H, KeyCode::I, KeyCode::J, KeyCode::K, KeyCode::L, KeyCode::M, KeyCode::N,
        KeyCode::O, KeyCode::P, KeyCode::Q, KeyCode::R, KeyCode::S, KeyCode::T, KeyCode::U,
        KeyCode::V, KeyCode::W, KeyCode::X, KeyCode::Y, KeyCode::Z,
    ]
}

/// The digit keys, `Digit0` first.
pub open spec fn digit_keys() -> Seq<KeyCode> {
    seq![
        KeyCode::Digit0, KeyCode::Digit1, KeyCode::Digit2, KeyCode::Digit3, KeyCode::Digit4,
        KeyCode::Digit5, KeyCode::Digit6, KeyCode::Digit7, KeyCode::Digit8, KeyCode::Digit9,
    ]
}

/// Which key, and whether Shift, types `c` on a US QWERTY keyboard; `None` for
/// a character that the virtual keyboard cannot type.
pub open spec fn key_for_char(c: char) -> Option<(KeyCode, bool)> {
    let n = c as u32;
    if 97 <= n <= 122 {
        Some((letter_keys()[n - 97], false))
    } else if 65 <= n <= 90 {
        Some((letter_keys()[n - 65], true))
    } else if 48 <= n <= 57 {
        Some((digit_keys()[n - 48], false))
    } else {
        match c {
            ' ' => Some((KeyCode::Space, false)),
            '\n' => Some((KeyCode::Enter, false)),
            '\t' => Some((KeyCode::Tab, false)),
            '.' => Some((KeyCode::Dot, false)),
            ',' => Some((KeyCode::Comma, false)),
            ';' => Some((KeyCode::Semicolon, false)),
            '\'' => Some((KeyCode::Apostrophe, false)),
            '-' => Some((KeyCode::Minus, false)),
            '=' => Some((KeyCode::Equal, false)),
            '/' => Some((KeyCode::Slash, false)),
            '\\' => Some((KeyCode::Backslash, false)),
            '`' => Some((KeyCode::Grave, false)),
            '[' => Some((KeyCode::LeftBrace, false)),
            ']' => Some((KeyCode::RightBrace, false)),
            '!' => Some((KeyCode::Digit1, true)),
            '@' => Some((KeyCode::Digit2, true)),
            '#' => Some((KeyCode::Digit3, true)),
            '$' => Some((KeyCode::Digit4, true)),
            '%' => Some((KeyCode::Digit5, true)),
            '^' => Some((KeyCode::Digit6, true)),
            '&' => Some((KeyCode::Digit7, true)),
            '*' => Some((KeyCode::Digit8, true)),
            '(' => Some((KeyCode::Digit9, true)),
            ')' => Some((KeyCode::Digit0, true)),
            '_' => Some((KeyCode::Minus, true)),
            '+' => Some((KeyCode::Equal, true)),
            '{' => Some((KeyCode::LeftBrace, true)),
            '}' => Some((KeyCode::RightBrace, true)),
            ':' => Some((KeyCode::Semicolon, true)),
            '"' => Some((KeyCode::Apostrophe, true)),
            '<' => Some((KeyCode::Comma, true)),
            '>' => Some((KeyCode::Dot, true)),
            '?' => Some((KeyCode::Slash, true)),
            '|' => Some((KeyCode::Backslash, true)),
            '~' => Some((KeyCode::Grave, true)),
            _ => None,
        }
    }
}

/// Maps a character to its (key, needs shift) pair for the US QWERTY layout.
pub fn char_to_key(ch: char) -> (res: Option<(KeyCode, bool)>)
    ensures
        res == key_for_char(ch),
{
    let result = match ch {
        'a' => (KeyCode::A, false),
        'b' => (KeyCode::B, false),
        'c' => (KeyCode::C, false),
        'd' => (KeyCode::D, false),
        'e' => (KeyCode::E, false),
        'f' => (KeyCode::F, false),
        'g' => (KeyCode::G, false),
        'h' => (KeyCode::H, false),
        'i' => (KeyCode::I, false),
        'j' => (KeyCode::J, false),
        'k' => (KeyCode::K, false),
        'l' => (KeyCode::L, false),
        'm' => (KeyCode::M, false),
        'n' => (KeyCode::N, false),
        'o' => (KeyCode::O, false),
        'p' => (KeyCode::P, false),
        'q' => (KeyCode::Q, false),
        'r' => (KeyCode::R, false),
        's' => (KeyCode::S, false),
        't' => (KeyCode::T, false),
        'u' => (KeyCode::U, false),
        'v' => (KeyCode::V, false),
        'w' => (KeyCode::W, false),
        'x' => (KeyCode::X, false),
        'y' => (KeyCode::Y, false),
        'z' => (KeyCode::Z, false),
        'A' => (KeyCode::A, true),
        'B' => (KeyCode::B, true),
        'C' => (KeyCode::C, true),
        'D' => (KeyCode::D, true),
        'E' => (KeyCode::E, true),
        'F' => (KeyCode::F, true),
        'G' => (KeyCode::G, true),
        'H' => (KeyCode::H, true),
        'I' => (KeyCode::I, true),
        'J' => (KeyCode::J, true),
        'K' => (KeyCode::K, true),
        'L' => (KeyCode::L, true),
        'M' => (KeyCode::M, true),
        'N' => (KeyCode::N, true),
        'O' => (KeyCode::O, true),
        'P' => (KeyCode::P, true),
        'Q' => (KeyCode::Q, true),
        'R' => (KeyCode::R, true),
        'S' => (KeyCode::S, true),
        'T' => (KeyCode::T, true),
        'U' => (KeyCode::U, true),
        'V' => (KeyCode::V, true),
        'W' => (KeyCode::W, true),
        'X' => (KeyCode::X, true),
        'Y' => (KeyCode::Y, true),
        'Z' => (KeyCode::Z, true),
        '0' => (KeyCode::Digit0, false),
        '1' => (KeyCode::Digit1, false),
        '2' => (KeyCode::Digit2, false),
        '3' => (KeyCode::Digit3, false),
        '4' => (KeyCode::Digit4, false),
        '5' => (KeyCode::Digit5, false),
        '6' => (KeyCode::Digit6, false),
        '7' => (KeyCode::Digit7, false),
        '8' => (KeyCode::Digit8, false),
        '9' => (KeyCode::Digit9, false),
        ' ' => (KeyCode::Space, false),
        '\n' => (KeyCode::Enter, false),
        '\t' => (KeyCode::Tab, false),
        '.' => (KeyCode::Dot, false),
        ',' => (KeyCode::Comma, false),
        ';' => (KeyCode::Semicolon, false),
        '\'' => (KeyCode::Apostrophe, false),
        '-' => (KeyCode::Minus, false),
        '=' => (KeyCode::Equal, false),
        '/' => (KeyCode::Slash, false),
        '\\' => (KeyCode::Backslash, false),
        '`' => (KeyCode::Grave, false),
        '[' => (KeyCode::LeftBrace, false),
        ']' => (KeyCode::RightBrace, false),
        '!' => (KeyCode::Digit1, true),
        '@' => (KeyCode::Digit2, true),
        '#' => (KeyCode::Digit3, true),
        '$' => (KeyCode::Digit4, true),
        '%' => (KeyCode::Digit5, true),
        '^' => (KeyCode::Digit6, true),
        '&' => (KeyCode::Digit7, true),
        '*' => (KeyCode::Digit8, true),
        '(' => (KeyCode::Digit9, true),
        ')' => (KeyCode::Digit0, true),
        '_' => (KeyCode::Minus, true),
        '+' => (KeyCode::Equal, true),
        '{' => (KeyCode::LeftBrace, true),
        '}' => (KeyCode::RightBrace, true),
        ':' => (KeyCode::Semicolon, true),
        '"' => (KeyCode::Apostrophe, true),
        '<' => (KeyCode::Comma, true),
        '>' => (KeyCode::Dot, true),
        '?' => (KeyCode::Slash, true),
        '|' => (KeyCode::Backslash, true),
        '~' => (KeyCode::Grave, true),
        _ => return None,
    };
    Some(result)
}

/// The Linux input event code of a key (`linux/input-event-codes.h`).
pub open spec fn key_code(k: KeyCode) -> u16 {
    match k {
        KeyCode::Digit1 => 2, KeyCode::Digit2 => 3, KeyCode::Digit3 => 4, KeyCode::Digit4 => 5,
        KeyCode::Digit5 => 6, KeyCode::Digit6 => 7, KeyCode::Digit7 => 8, KeyCode::Digit8 => 9,
        KeyCode::Digit9 => 10, KeyCode::Digit0 => 11, KeyCode::Minus => 12, KeyCode::Equal => 13,
        KeyCode::Backspace => 14, KeyCode::Tab => 15, KeyCode::Q => 16, KeyCode::W => 17,
        KeyCode::E => 18, KeyCode::R => 19, KeyCode::T => 20, KeyCode::Y => 21, KeyCode::U => 22,
        KeyCode::I => 23, KeyCode::O => 24, KeyCode::P => 25, KeyCode::LeftBrace => 26,
        KeyCode::RightBrace => 27, KeyCode::Enter => 28, KeyCode::A => 30, KeyCode::S => 31,
        KeyCode::D => 32, KeyCode::F => 33, KeyCode::G => 34, KeyCode::H => 35, KeyCode::J => 36,
        KeyCode::K => 37, KeyCode::L => 38, KeyCode::Semicolon => 39, KeyCode::Apostrophe => 40,
        KeyCode::Grave => 41, KeyCode::LeftShift => 42, KeyCode::Backslash => 43, KeyCode::Z => 44,
        KeyCode::X => 45, KeyCode::C => 46, KeyCode::V => 47, KeyCode::B => 48, KeyCode::N => 49,
        KeyCode::M => 50, KeyCode::Comma => 51, KeyCode::Dot => 52, KeyCode::Slash => 53,
        KeyCode::RightShift => 54, KeyCode::Space => 57,
    }
}

impl KeyCode {
    /// The Linux input event code of this key, as the kernel's uinput device expects it.
    pub fn code(&self) -> (c: u16)
        ensures
            c == key_code(*self),
    {
        match self {
            KeyCode::Digit1 => 2, KeyCode::Digit2 => 3, KeyCode::Digit3 => 4, KeyCode::Digit4 => 5,
            KeyCode::Digit5 => 6, KeyCode::Digit6 => 7, KeyCode::Digit7 => 8, KeyCode::Digit8 => 9,
            KeyCode::Digit9 => 10, KeyCode::Digit0 => 11, KeyCode::Minus => 12, KeyCode::Equal => 13,
            KeyCode::Backspace => 14, KeyCode::Tab => 15, KeyCode::Q => 16, KeyCode::W => 17,
            KeyCode::E => 18, KeyCode::R => 19, KeyCode::T => 20, KeyCode::Y => 21, KeyCode::U => 22,
            KeyCode::I => 23, KeyCode::O => 24, KeyCode::P => 25, KeyCode::LeftBrace => 26,
            KeyCode::RightBrace => 27, KeyCode::Enter => 28, KeyCode::A => 30, KeyCode::S => 31,
            KeyCode::D => 32, KeyCode::F => 33, KeyCode::G => 34, KeyCode::H => 35, KeyCode::J => 36,
            KeyCode::K => 37, KeyCode::L => 38, KeyCode::Semicolon => 39, KeyCode::Apostrophe => 40,
            KeyCode::Grave => 41, KeyCode::LeftShift => 42, KeyCode::Backslash => 43, KeyCode::Z => 44,
            KeyCode::X => 45, KeyCode::C => 46, KeyCode::V => 47, KeyCode::B => 48, KeyCode::N => 49,
            KeyCode::M => 50, KeyCode::Comma => 51, KeyCode::Dot => 52, KeyCode::Slash => 53,
            KeyCode::RightShift => 54, KeyCode::Space => 57,
        }
    }
}

/// Whether a key is one of the two Shift keys.
pub open spec fn is_shift(k: KeyCode) -> bool {
    k == KeyCode::LeftShift || k == KeyCode::RightShift
}

/// The characters that a key types on a US QWERTY keyboard, without and with
/// Shift held; `None` where the key types no character.
pub open spec fn layout_chars(k: KeyCode) -> (Option<char>, Option<char>) {
    match k {
        KeyCode::A => (Some('a'), Some('A')), KeyCode::B => (Some('b'), Some('B')),
        KeyCode::C => (Some('c'), Some('C')), KeyCode::D => (Some('d'), Some('D')),
        KeyCode::E => (Some('e'), Some('E')), KeyCode::F => (Some('f'), Some('F')),
        KeyCode::G => (Some('g'), Some('G')), KeyCode::H => (Some('h'), Some('H')),
        KeyCode::I => (Some('i'), Some('I')), KeyCode::J => (Some('j'), Some('J')),
        KeyCode::K => (Some('k'), Some('K')), KeyCode::L => (Some('l'), Some('L')),
        KeyCode::M => (Some('m'), Some('M')), KeyCode::N => (Some('n'), Some('N')),
        KeyCode::O => (Some('o'), Some('O')), KeyCode::P => (Some('p'), Some('P')),
        KeyCode::Q => (Some('q'), Some('Q')), KeyCode::R => (Some('r'), Some('R')),
        KeyCode::S => (Some('s'), Some('S')), KeyCode::T => (Some('t'), Some('T')),
        KeyCode::U => (Some('u'), Some('U')), KeyCode::V => (Some('v'), Some('V')),
        KeyCode::W => (Some('w'), Some('W')), KeyCode::X => (Some('x'), Some('X')),
        KeyCode::Y => (Some('y'), Some('Y')), KeyCode::Z => (Some('z'), Some('Z')),
        KeyCode::Digit0 => (Some('0'), Some(')')), KeyCode::Digit1 => (Some('1'), Some('!')),
        KeyCode::Digit2 => (Some('2'), Some('@')), KeyCode::Digit3 => (Some('3'), Some('#')),
        KeyCode::Digit4 => (Some('4'), Some('$')), KeyCode::Digit5 => (Some('5'), Some('%')),
        KeyCode::Digit6 => (Some('6'), Some('^')), KeyCode::Digit7 => (Some('7'), Some('&')),
        KeyCode::Digit8 => (Some('8'), Some('*')), KeyCode::Digit9 => (Some('9'), Some('(')),
        KeyCode::Space => (Some(' '), None),
        KeyCode::Enter => (Some('\n'), None),
        KeyCode::Tab => (Some('\t'), None),
        KeyCode::Backspace => (None, None),
        KeyCode::Dot => (Some('.'), Some('>')), KeyCode::Comma => (Some(','), Some('<')),
        KeyCode::Semicolon => (Some(';'), Some(':')), KeyCode::Apostrophe => (Some('\''), Some('"')),
        KeyCode::LeftBrace => (Some('['), Some('{')), KeyCode::RightBrace => (Some(']'), Some('}')),
        KeyCode::Minus => (Some('-'), Some('_')), KeyCode::Equal => (Some('='), Some('+')),
        KeyCode::Slash => (Some('/'), Some('?')), KeyCode::Backslash => (Some('\\'), Some('|')),
        KeyCode::Grave => (Some('`'), Some('~')),
        KeyCode::LeftShift => (None, None), KeyCode::RightShift => (None, None),
    }
}

/// The character that pressing `k` types, with or without Shift held.
pub open spec fn layout_char(k: KeyCode, shifted: bool) -> Option<char> {
    if shifted { layout_chars(k).1 } else { layout_chars(k).0 }
}

/// Every keystroke chosen for a character types exactly that character on a
/// US QWERTY keyboard, and never uses a Shift key as the key itself.
pub proof fn lemma_keystroke_types_its_char(c: char)
    ensures
        key_for_char(c) matches Some((k, shifted)) ==> layout_char(k, shifted) == Some(c) && !is_shift(k),
{
}

/// Conversely, every character that a key of the virtual keyboard types on a
/// US QWERTY keyboard is typed with that very key and Shift state.
pub proof fn lemma_every_layout_char_is_typeable(k: KeyCode, shifted: bool)
    ensures
        layout_char(k, shifted) matches Some(c) ==> key_for_char(c) == Some((k, shifted)),
{
}

/// Two different characters are never typed by the same keystroke.
pub proof fn lemma_keystrokes_are_distinct(a: char, b: char)
    requires
        key_for_char(a) is Some,
        key_for_char(a) == key_for_char(b),
    ensures
        a == b,
{
    lemma_keystroke_types_its_char(a);
    lemma_keystroke_types_its_char(b);
}

/// Delay between a key's press and its release, in milliseconds.
pub const KEY_DELAY_MS: u64 = 5;

/// Delay after each injected character, in milliseconds.
pub const CHAR_DELAY_MS: u64 = 10;

/// One step of typing a text on the virtual keyboard.
#[derive(Debug, Clone, Copy, PartialEq, Eq, Structural)]
pub enum KeyAction {
    /// Emit a key-down event.
    Press(KeyCode),
    /// Emit a key-up event.
    Release(KeyCode),
    /// Wait this many milliseconds.
    Pause(u64),
    /// The character has no key on the layout: it is reported and skipped.
    Unmapped(char),
}

/// The actions that type one character.
pub open spec fn char_actions(c: char) -> Seq<KeyAction> {
    match key_for_char(c) {
        Some((k, shifted)) => {
            let stroke = seq![KeyAction::Press(k), KeyAction::Pause(KEY_DELAY_MS), KeyAction::Release(k)];
            if shifted {
                seq![KeyAction::Press(KeyCode::LeftShift)] + stroke
                    + seq![KeyAction::Release(KeyCode::LeftShift), KeyAction::Pause(CHAR_DELAY_MS)]
            } else {
                stroke + seq![KeyAction::Pause(CHAR_DELAY_MS)]
            }
        },
        None => seq![KeyAction::Unmapped(c)],
    }
}

/// The actions that type a text, character after character.
pub open spec fn text_actions(s: Seq<char>) -> Seq<KeyAction>
    decreases s.len(),
{
    if s.len() == 0 {
        Seq::empty()
    } else {
        text_actions(s.drop_last()) + char_actions(s.last())
    }
}

/// Appends the actions that type `c`.
fn push_char_actions(actions: &mut Vec<KeyAction>, c: char)
    ensures
        final(actions)@ == old(actions)@ + char_actions(c),
{
    match char_to_key(c) {
        Some((key, shifted)) => {
            if shifted {
                actions.push(KeyAction::Press(KeyCode::LeftShift));
            }
            actions.push(KeyAction::Press(key));
            actions.push(KeyAction::Pause(KEY_DELAY_MS));
            actions.push(KeyAction::Release(key));
            if shifted {
                actions.push(KeyAction::Release(KeyCode::LeftShift));
            }
            actions.push(KeyAction::Pause(CHAR_DELAY_MS));
        },
        None => {
            actions.push(KeyAction::Unmapped(c));
        },
    }
    assert(final(actions)@ =~= old(actions)@ + char_actions(c));
}

/// The key actions that inject `text`: for each character, Shift (when
/// needed) around a press and release of its key, with the delays between
/// them; a character without a key is reported as unmapped and skipped.
pub fn keystrokes(text: &str) -> (actions: Vec<KeyAction>)
    ensures
        actions@ == text_actions(text@),
{
    let mut actions: Vec<KeyAction> = Vec::new();
    for c in it: text.chars()
        invariant
            it.seq() == text@,
            actions@ == text_actions(text@.take(it.index() as int)),
    {
        push_char_actions(&mut actions, c);
        assert(text@.take(it.index() + 1).drop_last() =~= text@.take(it.index() as int));
    }
    assert(text@.take(text@.len() as int) =~= text@);
    actions
}

/// Whether a Shift key is held in the set of held keys.
pub open spec fn shift_held(held: Set<KeyCode>) -> bool {
    held.contains(KeyCode::LeftShift) || held.contains(KeyCode::RightShift)
}

/// What a US QWERTY keyboard does on one action: the keys it holds down and the
/// text it has typed so far. A press of Backspace deletes the last typed
/// character; a press of another non-Shift key types that key's character for
/// the current Shift state.
pub open spec fn apply_key_action(state: (Set<KeyCode>, Seq<char>), action: KeyAction) -> (Set<KeyCode>, Seq<char>) {
    let (held, typed) = state;
    match action {
        KeyAction::Press(k) => {
            let typed2 = if is_shift(k) {
                typed
            } else if k == KeyCode::Backspace {
                if typed.len() > 0 { typed.drop_last() } else { typed }
            } else {
                match layout_char(k, shift_held(held)) {
                    Some(ch) => typed.push(ch),
                    None => typed,
                }
            };
            (held.insert(k), typed2)
        },
        KeyAction::Release(k) => (held.remove(k), typed),
        _ => (held, typed),
    }
}

/// The keyboard's state after a sequence of actions.
pub open spec fn run_keyboard(state: (Set<KeyCode>, Seq<char>), actions: Seq<KeyAction>) -> (Set<KeyCode>, Seq<char>)
    decreases actions.len(),
{
    if actions.len() == 0 {
        state
    } else {
        apply_key_action(run_keyboard(state, actions.drop_last()), actions.last())
    }
}

/// The characters of `s` that have a key on the virtual keyboard, in order.
pub open spec fn typeable_chars(s: Seq<char>) -> Seq<char>
    decreases s.len(),
{
    if s.len() == 0 {
        Seq::empty()
    } else if key_for_char(s.last()) is Some {
        typeable_chars(s.drop_last()).push(s.last())
    } else {
        typeable_chars(s.drop_last())
    }
}

proof fn lemma_run_keyboard_append(state: (Set<KeyCode>, Seq<char>), a: Seq<KeyAction>, b: Seq<KeyAction>)
    ensures
        run_keyboard(state, a + b) == run_keyboard(run_keyboard(state, a), b),
    decreases b.len(),
{
    if b.len() == 0 {
        assert(a + b =~= a);
    } else {
        assert((a + b).drop_last() =~= a + b.drop_last());
        assert((a + b).last() == b.last());
        lemma_run_keyboard_append(state, a, b.drop_last());
    }
}

proof fn lemma_char_typing(typed: Seq<char>, c: char)
    ensures
        run_keyboard((Set::empty(), typed), char_actions(c)) == (
            Set::<KeyCode>::empty(),
            if key_for_char(c) is Some { typed.push(c) } else { typed },
        ),
{
    lemma_keystroke_types_its_char(c);
    let st0 = (Set::<KeyCode>::empty(), typed);
    let acts = char_actions(c);
    reveal_with_fuel(run_keyboard, 8);
    match key_for_char(c) {
        Some((k, shifted)) => {
            if shifted {
                let s1 = apply_key_action(st0, acts[0]);
                let s2 = apply_key_action(s1, acts[1]);
                assert(s2.1 == typed.push(c));
                let s3 = apply_key_action(s2, acts[2]);
                let s4 = apply_key_action(s3, acts[3]);
                let s5 = apply_key_action(s4, acts[4]);
                let s6 = apply_key_action(s5, acts[5]);
                assert(s6.0 =~= Set::<KeyCode>::empty());
                assert(acts.len() == 6);
                assert(acts.drop_last().drop_last().drop_last().drop_last().drop_last().drop_last() =~= Seq::<KeyAction>::empty());
                assert(run_keyboard(st0, acts) == s6);
            } else {
                let s1 = apply_key_action(st0, acts[0]);
                let s2 = apply_key_action(s1, acts[1]);
                let s3 = apply_key_action(s2, acts[2]);
                let s4 = apply_key_action(s3, acts[3]);
                assert(s4.0 =~= Set::<KeyCode>::empty());
                assert(acts.len() == 4);
                assert(acts.drop_last().drop_last().drop_last().drop_last() =~= Seq::<KeyAction>::empty());
                assert(run_keyboard(st0, acts) == s4);
            }
        },
        None => {
            assert(acts.drop_last() =~= Seq::<KeyAction>::empty());
        },
    }
}

/// Typing a text on a keyboard that starts with no key held types exactly the
/// text's typeable characters, in order, and leaves no key held down.
pub proof fn lemma_typing_reproduces_text(s: Seq<char>)
    ensures
        run_keyboard((Set::empty(), Seq::empty()), text_actions(s)) == (Set::<KeyCode>::empty(), typeable_chars(s)),
    decreases s.len(),
{
    if s.len() == 0 {
        assert(run_keyboard((Set::empty(), Seq::empty()), text_actions(s)) == (Set::<KeyCode>::empty(), Seq::<char>::empty()));
    } else {
        lemma_typing_reproduces_text(s.drop_last());
        lemma_run_keyboard_append((Set::empty(), Seq::empty()), text_actions(s.drop_last()), char_actions(s.last()));
        lemma_char_typing(typeable_chars(s.drop_last()), s.last());
    }
}

/// A text made only of characters that have a key is typed exactly.
pub proof fn lemma_typeable_text_is_typed_exactly(s: Seq<char>)
    requires
        forall|i: int| 0 <= i < s.len() ==> #[trigger] key_for_char(s[i]) is Some,
    ensures
        run_keyboard((Set::empty(), Seq::empty()), text_actions(s)) == (Set::<KeyCode>::empty(), s),
    decreases s.len(),
{
    lemma_typing_reproduces_text(s);
    lemma_typeable_chars_identity(s);
}

proof fn lemma_typeable_chars_identity(s: Seq<char>)
    requires
        forall|i: int| 0 <= i < s.len() ==> #[trigger] key_for_char(s[i]) is Some,
    ensures
        typeable_chars(s) == s,
    decreases s.len(),
{
    if s.len() > 0 {
        assert(key_for_char(s[s.len() - 1]) is Some);
        let t = s.drop_last();
        assert forall|i: int| 0 <= i < t.len() implies #[trigger] key_for_char(t[i]) is Some by {
            assert(t[i] == s[i]);
        }
        lemma_typeable_chars_identity(t);
        assert(t.push(s.last()) =~= s);
    }
}

/// The keys that the virtual keyboard device registers, in registration order.
pub open spec fn registered_keys() -> Seq<KeyCode> {
    seq![
        KeyCode::A,
        KeyCode::B,
        KeyCode::C,
        KeyCode::D,
        KeyCode::E,
        KeyCode::F,
        KeyCode::G,
        KeyCode::H,
        KeyCode::I,
        KeyCode::J,
        KeyCode::K,
        KeyCode::L,
        KeyCode::M,
        KeyCode::N,
        KeyCode::O,
        KeyCode::P,
        KeyCode::Q,
        KeyCode::R,
        KeyCode::S,
        KeyCode::T,
        KeyCode::U,
        KeyCode::V,
        KeyCode::W,
        KeyCode::X,
        KeyCode::Y,
        KeyCode::Z,
        KeyCode::Digit0,
        KeyCode::Digit1,
        KeyCode::Digit2,
        KeyCode::Digit3,
        KeyCode::Digit4,
        KeyCode::Digit5,
        KeyCode::Digit6,
        KeyCode::Digit7,
        KeyCode::Digit8,
        KeyCode::Digit9,
        KeyCode::Space,
        KeyCode::Enter,
        KeyCode::Backspace,
        KeyCode::Tab,
        KeyCode::Dot,
        KeyCode::Comma,
        KeyCode::Semicolon,
        KeyCode::Apostrophe,
        KeyCode::LeftBrace,
        KeyCode::RightBrace,
        KeyCode::Minus,
        KeyCode::Equal,
        KeyCode::Slash,
        KeyCode::Backslash,
        KeyCode::Grave,
        KeyCode::LeftShift,
        KeyCode::RightShift,
    ]
}

/// The position of a key in `registered_keys`.
pub open spec fn registered_position(k: KeyCode) -> int {
    match k {
        KeyCode::A => 0,
        KeyCode::B => 1,
        KeyCode::C => 2,
        KeyCode::D => 3,
        KeyCode::E => 4,
        KeyCode::F => 5,
        KeyCode::G => 6,
        KeyCode::H => 7,
        KeyCode::I => 8,
        KeyCode::J => 9,
        KeyCode::K => 10,
        KeyCode::L => 11,
        KeyCode::M => 12,
        KeyCode::N => 13,
        KeyCode::O => 14,
        KeyCode::P => 15,
        KeyCode::Q => 16,
        KeyCode::R => 17,
        KeyCode::S => 18,
        KeyCode::T => 19,
        KeyCode::U => 20,
        KeyCode::V => 21,
        KeyCode::W => 22,
        KeyCode::X => 23,
        KeyCode::Y => 24,
        KeyCode::Z => 25,
        KeyCode::Digit0 => 26,
        KeyCode::Digit1 => 27,
        KeyCode::Digit2 => 28,
        KeyCode::Digit3 => 29,
        KeyCode::Digit4 => 30,
        KeyCode::Digit5 => 31,
        KeyCode::Digit6 => 32,
        KeyCode::Digit7 => 33,
        KeyCode::Digit8 => 34,
        KeyCode::Digit9 => 35,
        KeyCode::Space => 36,
        KeyCode::Enter => 37,
        KeyCode::Backspace => 38,
        KeyCode::Tab => 39,
        KeyCode::Dot => 40,
        KeyCode::Comma => 41,
        KeyCode::Semicolon => 42,
        KeyCode::Apostrophe => 43,
        KeyCode::LeftBrace => 44,
        KeyCode::RightBrace => 45,
        KeyCode::Minus => 46,
        KeyCode::Equal => 47,
        KeyCode::Slash => 48,
        KeyCode::Backslash => 49,
        KeyCode::Grave => 50,
        KeyCode::LeftShift => 51,
        KeyCode::RightShift => 52,
    }
}

/// Every key, Shift included, is registered on the virtual keyboard, so every
/// key action that typing produces can be emitted.
pub proof fn lemma_every_key_is_registered(k: KeyCode)
    ensures
        0 <= registered_position(k) < registered_keys().len(),
        registered_keys()[registered_position(k)] == k,
        registered_keys().contains(k),
{
    assert(registered_keys()[registered_position(k)] == k);
}

/// The keys to register on the virtual keyboard device: letters, digits,
/// punctuation, Space, Enter, Backspace, Tab and both Shift keys.
pub fn supported_keys() -> (keys: Vec<KeyCode>)
    ensures
        keys@ == registered_keys(),
{
    let keys: Vec<KeyCode> = vec![
        KeyCode::A,
        KeyCode::B,
        KeyCode::C,
        KeyCode::D,
        KeyCode::E,
        KeyCode::F,
        KeyCode::G,
        KeyCode::H,
        KeyCode::I,
        KeyCode::J,
        KeyCode::K,
        KeyCode::L,
        KeyCode::M,
        KeyCode::N,
        KeyCode::O,
        KeyCode::P,
        KeyCode::Q,
        KeyCode::R,
        KeyCode::S,
        KeyCode::T,
        KeyCode::U,
        KeyCode::V,
        KeyCode::W,
        KeyCode::X,
        KeyCode::Y,
        KeyCode::Z,
        KeyCode::Digit0,
        KeyCode::Digit1,
        KeyCode::Digit2,
        KeyCode::Digit3,
        KeyCode::Digit4,
        KeyCode::Digit5,
        KeyCode::Digit6,
        KeyCode::Digit7,
        KeyCode::Digit8,
        KeyCode::Digit9,
        KeyCode::Space,
        KeyCode::Enter,
        KeyCode::Backspace,
        KeyCode::Tab,
        KeyCode::Dot,
        KeyCode::Comma,
        KeyCode::Semicolon,
        KeyCode::Apostrophe,
        KeyCode::LeftBrace,
        KeyCode::RightBrace,
        KeyCode::Minus,
        KeyCode::Equal,
        KeyCode::Slash,
        KeyCode::Backslash,
        KeyCode::Grave,
        KeyCode::LeftShift,
        KeyCode::RightShift,
    ];
    assert(keys@ =~= registered_keys());
    keys
}

/// The value of a key event: 1 for a press, 0 for a release.
pub fn key_event_value(pressed: bool) -> (value: i32)
    ensures
        value == (if pressed { 1i32 } else { 0i32 }),
{
    if pressed { 1 } else { 0 }
}

/// The keystrokes for a character press and release nothing but the
/// character's own key and, when it needs Shift, the left Shift key; its key is
/// pressed exactly once, and Shift only when the character needs it. A
/// character without a key presses nothing.
pub proof fn lemma_char_presses_only_its_key(c: char, i: int)
    requires
        0 <= i < char_actions(c).len(),
    ensures
        match key_for_char(c) {
            Some((k, shifted)) => {
                &&& (char_actions(c)[i] matches KeyAction::Press(p) ==> p == k || (shifted && p == KeyCode::LeftShift))
                &&& (char_actions(c)[i] matches KeyAction::Release(r) ==> r == k || (shifted && r == KeyCode::LeftShift))
                &&& (char_actions(c)[i] == KeyAction::Press(k) ==> forall|j: int|
                    0 <= j < char_actions(c).len() && j != i ==> char_actions(c)[j] != KeyAction::Press(k))
            },
            None => !(char_actions(c)[i] is Press) && !(char_actions(c)[i] is Release),
        },
{
    lemma_keystroke_types_its_char(c);
}

/// No keystroke that typing produces is a Backspace: typed text is never
/// erased.
pub proof fn lemma_typing_never_erases(s: Seq<char>, i: int)
    requires
        0 <= i < text_actions(s).len(),
    ensures
        text_actions(s)[i] != KeyAction::Press(KeyCode::Backspace),
    decreases s.len(),
{
    if s.len() > 0 {
        let prev = text_actions(s.drop_last());
        let last = char_actions(s.last());
        if i < prev.len() {
            assert(text_actions(s)[i] == prev[i]);
            lemma_typing_never_erases(s.drop_last(), i);
        } else {
            assert(text_actions(s)[i] == last[i - prev.len()]);
            lemma_char_presses_only_its_key(s.last(), i - prev.len());
        }
    }
}

} // verus!
