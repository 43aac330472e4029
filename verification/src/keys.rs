//! Keys, the modes they are pressed in, and what a sequence of them is bound to.

use vstd::prelude::*;

verus! {

/// A key.
#[derive(Debug, Clone, Copy, PartialEq, Eq, Structural)]
pub enum KeyCode {
    /// A key that types a character.
    Char(char),
    Enter,
    Esc,
    Backspace,
    Delete,
    Tab,
    BackTab,
    Left,
    Right,
    Up,
    Down,
    Home,
    End,
    /// Any other key.
    Other,
}

/// The keys that are held while another is pressed.
#[derive(Debug, Clone, Copy, PartialEq, Eq, Structural)]
pub struct KeyModifiers {
    /// Whether Control is held.
    pub control: bool,
    /// Whether Alt is held.
    pub alt: bool,
    /// Whether Shift is held.
    pub shift: bool,
    /// Whether anything else is held.
    pub other: bool,
}

impl KeyModifiers {
    /// Whether nothing is held.
    #[must_use]
    pub fn is_empty(self) -> (r: bool)
        ensures
            r == self.none(),
    {
        !self.control && !self.alt && !self.shift && !self.other
    }

    /// Whether nothing is held.
    pub open spec fn none(self) -> bool {
        !self.control && !self.alt && !self.shift && !self.other
    }

    /// Whether nothing but Shift is held.
    pub open spec fn shift_at_most(self) -> bool {
        !self.control && !self.alt && !self.other
    }

    /// Whether Control and nothing else is held.
    pub open spec fn only_control(self) -> bool {
        self.control && !self.alt && !self.shift && !self.other
    }

    /// Whether Control or Alt is held, which makes a character a command rather than text.
    pub open spec fn commanding(self) -> bool {
        self.control || self.alt
    }

    /// Whether a character is text, because nothing but Shift is held.
    #[must_use]
    pub fn is_text(self) -> (r: bool)
        ensures
            r == self.shift_at_most(),
    {
        !self.control && !self.alt && !self.other
    }

    /// Whether Control and nothing else is held.
    #[must_use]
    pub fn is_control(self) -> (r: bool)
        ensures
            r == self.only_control(),
    {
        self.control && !self.alt && !self.shift && !self.other
    }

    /// Whether Control or Alt is held.
    #[must_use]
    pub fn is_command(self) -> (r: bool)
        ensures
            r == self.commanding(),
    {
        self.control || self.alt
    }
}

/// A key with what is held while it is pressed.
#[derive(Debug, Clone, Copy, PartialEq, Eq, Structural)]
pub struct KeyCombo {
    /// The key.
    pub code: KeyCode,
    /// What is held.
    pub modifiers: KeyModifiers,
}

impl KeyCombo {
    /// The combination as bindings name it: a character tells by itself whether Shift is held, and
    /// so does the back tab.
    pub open spec fn normal(self) -> KeyCombo {
        if self.code is Char || self.code is BackTab {
            KeyCombo { modifiers: KeyModifiers { shift: false, ..self.modifiers }, ..self }
        } else {
            self
        }
    }

    /// The combination as bindings name it.
    #[must_use]
    pub fn normalized(self) -> (r: Self)
        ensures
            r == self.normal(),
            r.normal() == r,
    {
        match self.code {
            KeyCode::Char(_) | KeyCode::BackTab => KeyCombo {
                modifiers: KeyModifiers { shift: false, ..self.modifiers },
                ..self
            },
            _ => self,
        }
    }
}

/// What keys mean at the moment.
#[derive(Debug, Clone, Copy, PartialEq, Eq, Structural)]
pub enum Mode {
    /// Keys are commands.
    Normal,
    /// Keys are text for the compose box.
    Insert,
    /// Keys extend a selection.
    Visual,
    /// Keys are text for the command line.
    Command,
    /// Keys are text for the search box.
    Search,
    /// Keys belong to a popup.
    Popup,
}

impl Mode {
    /// The name of a mode.
    pub open spec fn name(self) -> Seq<char> {
        match self {
            Mode::Normal => "NORMAL"@,
            Mode::Insert => "INSERT"@,
            Mode::Visual => "VISUAL"@,
            Mode::Command => "COMMAND"@,
            Mode::Search => "SEARCH"@,
            Mode::Popup => "POPUP"@,
        }
    }

    /// What the settings call a mode.
    pub open spec fn key(self) -> Seq<char> {
        match self {
            Mode::Normal => "normal"@,
            Mode::Insert => "insert"@,
            Mode::Visual => "visual"@,
            Mode::Command => "command"@,
            Mode::Search => "search"@,
            Mode::Popup => "popup"@,
        }
    }

    /// What the settings call the mode.
    #[must_use]
    pub fn as_str(self) -> (r: &'static str)
        ensures
            r@ == self.key(),
    {
        match self {
            Mode::Normal => "normal",
            Mode::Insert => "insert",
            Mode::Visual => "visual",
            Mode::Command => "command",
            Mode::Search => "search",
            Mode::Popup => "popup",
        }
    }

    /// The mode's name, as the status line shows it.
    #[must_use]
    pub fn label(self) -> (r: &'static str)
        ensures
            r@ == self.name(),
    {
        match self {
            Mode::Normal => "NORMAL",
            Mode::Insert => "INSERT",
            Mode::Visual => "VISUAL",
            Mode::Command => "COMMAND",
            Mode::Search => "SEARCH",
            Mode::Popup => "POPUP",
        }
    }
}

/// What a mouse did.
#[derive(Debug, Clone, Copy, PartialEq, Eq, Structural)]
pub enum MouseAction {
    /// The wheel turned towards the hand.
    ScrollDown,
    /// The wheel turned away from the hand.
    ScrollUp,
    /// The left button went down.
    Click,
    /// Anything else.
    Other,
}

/// What a mouse did, and where.
#[derive(Debug, Clone, Copy, PartialEq, Eq, Structural)]
pub struct MouseEvent {
    /// What it did.
    pub action: MouseAction,
    /// The column of the pointer.
    pub column: u16,
    /// The row of the pointer.
    pub row: u16,
}

/// A sequence of keys and what it is bound to.
#[derive(Debug, PartialEq, Eq)]
pub struct Binding {
    /// The sequence in words.
    pub keys: String,
    /// The mode it is bound in; without one it is bound in every mode.
    pub mode: Option<Mode>,
    /// The action.
    pub action: String,
}

/// What a sequence of keys is bound to.
#[derive(Debug, PartialEq, Eq)]
pub enum Resolution {
    /// An action, and nothing longer.
    Match(String),
    /// An action, and the start of a longer sequence.
    Ambiguous(String),
    /// The start of a longer sequence only.
    Prefix,
    /// Nothing.
    Unbound,
}

} // verus!
