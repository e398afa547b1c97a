//! Keyboard input and its translation into navigation events.
use vstd::prelude::*;

verus! {

/// Bit of the Shift modifier in a modifier set.
pub const SHIFT: u8 = 0b0000_0001;

/// Bit of the Control modifier in a modifier set.
pub const CONTROL: u8 = 0b0000_0010;

/// Bit of the Alt modifier in a modifier set.
pub const ALT: u8 = 0b0000_0100;

/// Bit of the Super modifier in a modifier set.
pub const SUPER: u8 = 0b0000_1000;

/// Bit of the Hyper modifier in a modifier set.
pub const HYPER: u8 = 0b0001_0000;

/// Bit of the Meta modifier in a modifier set.
pub const META: u8 = 0b0010_0000;

/// The closed set of navigation actions the application state understands.
#[derive(Clone, Copy, Debug, PartialEq, Eq, Structural)]
pub enum NavigationEvent {
    Quit,
    Up,
    Down,
    Left,
    Right,
}

/// The key of a keyboard event. Keys the viewer never reacts to are `Other`.
#[derive(Clone, Copy, Debug, PartialEq, Eq, Structural)]
pub enum KeyCode {
    Char(char),
    Esc,
    Enter,
    Left,
    Right,
    Up,
    Down,
    Other,
}

/// Whether a key went down, is held down, or went up.
#[derive(Clone, Copy, Debug, PartialEq, Eq, Structural)]
pub enum KeyEventKind {
    Press,
    Repeat,
    Release,
}

/// The set of modifier keys held during a key event, one bit per modifier.
#[derive(Clone, Copy, Debug, PartialEq, Eq, Structural)]
pub struct KeyModifiers {
    pub bits: u8,
}

/// One keyboard event: key, modifiers and kind.
#[derive(Clone, Copy, Debug, PartialEq, Eq, Structural)]
pub struct KeyInput {
    pub code: KeyCode,
    pub modifiers: KeyModifiers,
    pub kind: KeyEventKind,
}

/// One event read from the terminal. Mouse, paste, focus and resize events
/// are all `NonKey`: the viewer consumes none of them.
#[derive(Clone, Copy, Debug, PartialEq, Eq, Structural)]
pub enum TermInput {
    Key(KeyInput),
    NonKey,
}

impl KeyModifiers {
    /// The empty modifier set.
    pub fn none() -> (r: KeyModifiers)
        ensures
            r.bits == 0,
    {
        KeyModifiers { bits: 0 }
    }

    /// The modifier set with the given bits.
    pub fn from_bits(bits: u8) -> (r: KeyModifiers)
        ensures
            r.bits == bits,
    {
        KeyModifiers { bits }
    }

    /// The set that holds Control and nothing else.
    pub fn control() -> (r: KeyModifiers)
        ensures
            r.bits == CONTROL,
    {
        KeyModifiers { bits: CONTROL }
    }
}

impl KeyInput {
    /// A key press of `code` with the modifiers `modifiers`.
    pub fn press(code: KeyCode, modifiers: KeyModifiers) -> (r: KeyInput)
        ensures
            r.code == code,
            r.modifiers == modifiers,
            r.kind == KeyEventKind::Press,
    {
        KeyInput { code, modifiers, kind: KeyEventKind::Press }
    }
}

/// The navigation event a pressed key stands for, if any.
///
/// `q` and Escape quit whatever modifiers are held; `c` quits with Control
/// alone; `h`/Left, `j`/Down, `k`/Up and `l`/Right/Enter move, with no
/// modifier held. Letters are case-sensitive. Every other key is ignored.
pub open spec fn key_meaning(code: KeyCode, modifiers: KeyModifiers) -> Option<NavigationEvent> {
    let plain = modifiers.bits == 0;
    match code {
        KeyCode::Esc => Some(NavigationEvent::Quit),
        KeyCode::Char(c) => {
            if c == 'q' {
                Some(NavigationEvent::Quit)
            } else if c == 'c' && modifiers.bits == CONTROL {
                Some(NavigationEvent::Quit)
            } else if !plain {
                None
            } else if c == 'h' {
                Some(NavigationEvent::Left)
            } else if c == 'j' {
                Some(NavigationEvent::Down)
            } else if c == 'k' {
                Some(NavigationEvent::Up)
            } else if c == 'l' {
                Some(NavigationEvent::Right)
            } else {
                None
            }
        },
        KeyCode::Left => if plain { Some(NavigationEvent::Left) } else { None },
        KeyCode::Down => if plain { Some(NavigationEvent::Down) } else { None },
        KeyCode::Up => if plain { Some(NavigationEvent::Up) } else { None },
        KeyCode::Right => if plain { Some(NavigationEvent::Right) } else { None },
        KeyCode::Enter => if plain { Some(NavigationEvent::Right) } else { None },
        KeyCode::Other => None,
    }
}

/// The navigation event a keyboard event produces: only presses count.
pub open spec fn key_event_meaning(key: KeyInput) -> Option<NavigationEvent> {
    if key.kind == KeyEventKind::Press {
        key_meaning(key.code, key.modifiers)
    } else {
        None
    }
}

/// The navigation event a terminal event produces.
pub open spec fn input_meaning(input: TermInput) -> Option<NavigationEvent> {
    match input {
        TermInput::Key(key) => key_event_meaning(key),
        TermInput::NonKey => None,
    }
}

/// Translates one keyboard event; `None` means it is to be ignored.
pub fn translate_key(key: &KeyInput) -> (r: Option<NavigationEvent>)
    ensures
        r == key_event_meaning(*key),
{
    match key.kind {
        KeyEventKind::Press => {},
        _ => return None,
    }
    let plain = key.modifiers.bits == 0;
    match key.code {
        KeyCode::Esc => Some(NavigationEvent::Quit),
        KeyCode::Char(c) => {
            if c == 'q' {
                Some(NavigationEvent::Quit)
            } else if c == 'c' && key.modifiers.bits == CONTROL {
                Some(NavigationEvent::Quit)
            } else if !plain {
                None
            } else if c == 'h' {
                Some(NavigationEvent::Left)
            } else if c == 'j' {
                Some(NavigationEvent::Down)
            } else if c == 'k' {
                Some(NavigationEvent::Up)
            } else if c == 'l' {
                Some(NavigationEvent::Right)
            } else {
                None
            }
        },
        KeyCode::Left => if plain { Some(NavigationEvent::Left) } else { None },
        KeyCode::Down => if plain { Some(NavigationEvent::Down) } else { None },
        KeyCode::Up => if plain { Some(NavigationEvent::Up) } else { None },
        KeyCode::Right => if plain { Some(NavigationEvent::Right) } else { None },
        KeyCode::Enter => if plain { Some(NavigationEvent::Right) } else { None },
        KeyCode::Other => None,
    }
}

/// Translates one terminal event; everything but a mapped key press is ignored.
pub fn translate_input(input: &TermInput) -> (r: Option<NavigationEvent>)
    ensures
        r == input_meaning(*input),
{
    match input {
        TermInput::Key(key) => translate_key(key),
        TermInput::NonKey => None,
    }
}


/// Whether a key and modifier set form one row of the key table: a quit
/// key with any modifiers, Control+`c`, or a movement key with no modifier.
pub open spec fn in_key_table(code: KeyCode, modifiers: KeyModifiers) -> bool {
    ||| code == KeyCode::Char('q')
    ||| code == KeyCode::Esc
    ||| code == KeyCode::Char('c') && modifiers.bits == CONTROL
    ||| modifiers.bits == 0 && {
        ||| code == KeyCode::Char('h')
        ||| code == KeyCode::Char('j')
        ||| code == KeyCode::Char('k')
        ||| code == KeyCode::Char('l')
        ||| code == KeyCode::Left
        ||| code == KeyCode::Down
        ||| code == KeyCode::Up
        ||| code == KeyCode::Right
        ||| code == KeyCode::Enter
    }
}

/// A key press produces a navigation event exactly when its key and
/// modifiers are a row of the key table; any other press is ignored.
pub proof fn lemma_unmapped_press_ignored(key: KeyInput)
    requires
        key.kind == KeyEventKind::Press,
    ensures
        key_event_meaning(key) is Some <==> in_key_table(key.code, key.modifiers),
        !in_key_table(key.code, key.modifiers) ==> key_event_meaning(key) is None,
{
}

/// Each mapped key gives its event: `q` and Escape quit under any modifiers,
/// Control+`c` quits like them, and each movement alias gives its direction
/// when no modifier is held.
pub proof fn lemma_mapped_keys(modifiers: KeyModifiers)
    ensures
        key_meaning(KeyCode::Char('q'), modifiers) == Some(NavigationEvent::Quit),
        key_meaning(KeyCode::Esc, modifiers) == Some(NavigationEvent::Quit),
        key_meaning(KeyCode::Char('c'), KeyModifiers { bits: CONTROL })
            == key_meaning(KeyCode::Char('q'), modifiers),
        key_meaning(KeyCode::Char('c'), KeyModifiers { bits: CONTROL })
            == key_meaning(KeyCode::Esc, modifiers),
        modifiers.bits == 0 ==> {
            &&& key_meaning(KeyCode::Char('h'), modifiers) == Some(NavigationEvent::Left)
            &&& key_meaning(KeyCode::Left, modifiers) == Some(NavigationEvent::Left)
            &&& key_meaning(KeyCode::Char('j'), modifiers) == Some(NavigationEvent::Down)
            &&& key_meaning(KeyCode::Down, modifiers) == Some(NavigationEvent::Down)
            &&& key_meaning(KeyCode::Char('k'), modifiers) == Some(NavigationEvent::Up)
            &&& key_meaning(KeyCode::Up, modifiers) == Some(NavigationEvent::Up)
            &&& key_meaning(KeyCode::Char('l'), modifiers) == Some(NavigationEvent::Right)
            &&& key_meaning(KeyCode::Right, modifiers) == Some(NavigationEvent::Right)
            &&& key_meaning(KeyCode::Enter, modifiers) == Some(NavigationEvent::Right)
        },
{
}

/// Releases and repeats never produce a navigation event, whatever the key.
pub proof fn lemma_only_presses_count(key: KeyInput)
    requires
        key.kind != KeyEventKind::Press,
    ensures
        key_event_meaning(key) is None,
        input_meaning(TermInput::Key(key)) is None,
{
}

} // verus!
