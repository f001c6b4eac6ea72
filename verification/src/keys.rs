//! Key events and key binds, as plain values.
//!
//! A front end turns what its terminal library reports into an [`Event`];
//! everything that decides what a key does works on these values.
use vstd::prelude::*;
use vstd::string::StringExecFns;
use crate::text::same_text;

verus! {

/// A key of the keyboard.
#[derive(Clone, Copy, Debug, PartialEq, Eq, Structural)]
pub enum KeyCode {
    /// The backspace key.
    Backspace,
    /// The enter key.
    Enter,
    /// The left arrow.
    Left,
    /// The right arrow.
    Right,
    /// The up arrow.
    Up,
    /// The down arrow.
    Down,
    /// The home key.
    Home,
    /// The end key.
    End,
    /// The page-up key.
    PageUp,
    /// The page-down key.
    PageDown,
    /// The tab key.
    Tab,
    /// The delete key.
    Delete,
    /// The insert key.
    Insert,
    /// The escape key.
    Esc,
    /// A function key, by its number.
    F(u8),
    /// A key that produces a character.
    Char(char),
    /// Any other key.
    Other,
}

/// The modifier keys that are held with a key: a set of bits, with
/// [`KeyModifiers::shift`], [`KeyModifiers::control`] and
/// [`KeyModifiers::alt`] as its members.
#[derive(Clone, Copy, Debug, PartialEq, Eq, Structural)]
pub struct KeyModifiers(pub u8);

impl KeyModifiers {
    /// No modifier key.
    pub fn none() -> (r: Self)
        ensures
            r == KeyModifiers(0),
    {
        KeyModifiers(0)
    }

    /// The shift key.
    pub fn shift() -> (r: Self)
        ensures
            r == KeyModifiers(1),
    {
        KeyModifiers(1)
    }

    /// The control key.
    pub fn control() -> (r: Self)
        ensures
            r == KeyModifiers(2),
    {
        KeyModifiers(2)
    }

    /// The alt key.
    pub fn alt() -> (r: Self)
        ensures
            r == KeyModifiers(4),
    {
        KeyModifiers(4)
    }
}

/// What happened to a key.
#[derive(Clone, Copy, Debug, PartialEq, Eq, Structural)]
pub enum KeyEventKind {
    /// The key went down.
    Press,
    /// The key is held and repeats.
    Repeat,
    /// The key went up.
    Release,
}

/// One event of a key.
#[derive(Clone, Copy, Debug, PartialEq, Eq, Structural)]
pub struct KeyEvent {
    /// The key.
    pub code: KeyCode,
    /// The modifier keys that were held.
    pub modifiers: KeyModifiers,
    /// What happened to the key.
    pub kind: KeyEventKind,
}

/// An event of the terminal.
#[derive(Clone, Copy, Debug, PartialEq, Eq, Structural)]
pub enum Event {
    /// An event of a key.
    Key(KeyEvent),
    /// Any other event, such as a resize.
    Other,
}

/// A key bind: a key with its modifiers, the name of what it does, and the
/// texts that show it.
pub struct KeyBind {
    /// The name by which the bind is handled.
    pub name: String,
    /// The text that shows the key.
    pub display_key: String,
    /// The text that shows what the key does.
    pub display_name: String,
    /// The key.
    pub key_code: KeyCode,
    /// The modifier keys that have to be held.
    pub modifiers: KeyModifiers,
}

impl KeyBind {
    /// A bind named `name` for the key `key_code` with `modifiers`, shown
    /// as `display_key` and `display_name`.
    pub fn new(
        name: &str,
        display_key: &str,
        display_name: &str,
        key_code: KeyCode,
        modifiers: KeyModifiers,
    ) -> (r: Self)
        ensures
            r.name@ == name@,
            r.display_key@ == display_key@,
            r.display_name@ == display_name@,
            r.key_code == key_code,
            r.modifiers == modifiers,
    {
        KeyBind {
            name: String::from_str(name),
            display_key: String::from_str(display_key),
            display_name: String::from_str(display_name),
            key_code,
            modifiers,
        }
    }

    /// Whether the bind has this name, these texts, this key and these
    /// modifiers.
    pub open spec fn holds(
        &self,
        name: Seq<char>,
        display_key: Seq<char>,
        display_name: Seq<char>,
        key_code: KeyCode,
        modifiers: KeyModifiers,
    ) -> bool {
        &&& self.name@ == name
        &&& self.display_key@ == display_key
        &&& self.display_name@ == display_name
        &&& self.key_code == key_code
        &&& self.modifiers == modifiers
    }

    /// Whether the bind is for the key `code` with exactly `modifiers`.
    pub open spec fn fits(&self, code: KeyCode, modifiers: KeyModifiers) -> bool {
        self.key_code == code && self.modifiers == modifiers
    }

    /// How the bind is shown: the key between angle brackets, a space, and
    /// what the key does.
    pub open spec fn display(&self) -> Seq<char> {
        "<"@ + self.display_key@ + ">"@ + " "@ + self.display_name@
    }

    /// Computes [`KeyBind::display`].
    pub fn display_text(&self) -> (r: String)
        ensures
            r@ == self.display(),
    {
        let mut r = String::from_str("<");
        r.append(self.display_key.as_str());
        r.append(">");
        r.append(" ");
        r.append(self.display_name.as_str());
        r
    }
}

/// The key and modifiers of `event`, if it is the press of a key.
pub open spec fn pressed(event: Event) -> Option<(KeyCode, KeyModifiers)> {
    match event {
        Event::Key(key) => if key.kind == KeyEventKind::Press {
            Some((key.code, key.modifiers))
        } else {
            None
        },
        Event::Other => None,
    }
}

/// The position of the first bind of `binds` for the key `code` with
/// exactly `modifiers`.
pub open spec fn bind_position(binds: Seq<KeyBind>, code: KeyCode, modifiers: KeyModifiers) -> Option<
    int,
>
    decreases binds.len(),
{
    if binds.len() == 0 {
        None
    } else if binds[0].fits(code, modifiers) {
        Some(0)
    } else {
        match bind_position(binds.skip(1), code, modifiers) {
            Some(i) => Some(i + 1),
            None => None,
        }
    }
}

/// The position of the bind that `event` selects among `binds`: the first
/// bind for the key that `event` presses. An event that presses no key
/// selects nothing.
pub open spec fn selected_bind(event: Event, binds: Seq<KeyBind>) -> Option<int> {
    match pressed(event) {
        Some((code, modifiers)) => bind_position(binds, code, modifiers),
        None => None,
    }
}

proof fn lemma_bind_position(binds: Seq<KeyBind>, code: KeyCode, modifiers: KeyModifiers, k: int)
    requires
        0 <= k <= binds.len(),
        forall|j: int| 0 <= j < k ==> !(#[trigger] binds[j]).fits(code, modifiers),
        k < binds.len() ==> binds[k].fits(code, modifiers),
    ensures
        bind_position(binds, code, modifiers) == if k < binds.len() {
            Some(k)
        } else {
            None::<int>
        },
    decreases binds.len(),
{
    if binds.len() == 0 {
    } else if k == 0 {
    } else {
        assert(!binds[0].fits(code, modifiers));
        let rest = binds.skip(1);
        assert forall|j: int| 0 <= j < k - 1 implies !(#[trigger] rest[j]).fits(code, modifiers) by {
            assert(rest[j] == binds[j + 1]);
        }
        lemma_bind_position(rest, code, modifiers, k - 1);
    }
}

/// The bind that `event` selects among `keybinds`: see [`selected_bind`].
pub fn event_to_key_bind(event: Event, keybinds: &Vec<KeyBind>) -> (r: Option<usize>)
    ensures
        match r {
            Some(i) => selected_bind(event, keybinds@) == Some(i as int) && i < keybinds@.len(),
            None => selected_bind(event, keybinds@).is_none(),
        },
{
    let (code, modifiers) = match event {
        Event::Key(key) => {
            if key.kind == KeyEventKind::Press {
                (key.code, key.modifiers)
            } else {
                return None;
            }
        },
        Event::Other => {
            return None;
        },
    };
    let mut i: usize = 0;
    while i < keybinds.len()
        invariant
            i <= keybinds@.len(),
            pressed(event) == Some((code, modifiers)),
            forall|j: int| 0 <= j < i ==> !(#[trigger] keybinds@[j]).fits(code, modifiers),
        decreases keybinds@.len() - i,
    {
        if keybinds[i].key_code == code && keybinds[i].modifiers == modifiers {
            proof {
                lemma_bind_position(keybinds@, code, modifiers, i as int);
            }
            return Some(i);
        }
        i += 1;
    }
    proof {
        lemma_bind_position(keybinds@, code, modifiers, i as int);
    }
    None
}

/// Whether `binds` are the global binds: `quit` on `q`, and with the
/// control key `prev_tab` on the left arrow, `next_tab` on the right
/// arrow, `new_tab` on `t`, `close_tab` on `e` and `clear_tab` on `r`,
/// each with the texts that show it.
pub open spec fn are_global_binds(binds: Seq<KeyBind>) -> bool {
    &&& binds.len() == 6
    &&& binds[0].holds("quit"@, "Q"@, "Quit"@, KeyCode::Char('q'), KeyModifiers(0))
    &&& binds[1].holds("prev_tab"@, "Ctrl+Left"@, "Prev Tab"@, KeyCode::Left, KeyModifiers(2))
    &&& binds[2].holds("next_tab"@, "Ctrl+Right"@, "Next Tab"@, KeyCode::Right, KeyModifiers(2))
    &&& binds[3].holds("new_tab"@, "Ctrl+T"@, "New Tab"@, KeyCode::Char('t'), KeyModifiers(2))
    &&& binds[4].holds("close_tab"@, "Ctrl+E"@, "Close Tab"@, KeyCode::Char('e'), KeyModifiers(2))
    &&& binds[5].holds("clear_tab"@, "Ctrl+R"@, "Clear Tab"@, KeyCode::Char('r'), KeyModifiers(2))
}

/// The global binds: see [`are_global_binds`].
pub fn global_keybinds() -> (r: Vec<KeyBind>)
    ensures
        are_global_binds(r@),
{
    let mut r: Vec<KeyBind> = Vec::new();
    r.push(KeyBind::new("quit", "Q", "Quit", KeyCode::Char('q'), KeyModifiers::none()));
    r.push(
        KeyBind::new("prev_tab", "Ctrl+Left", "Prev Tab", KeyCode::Left, KeyModifiers::control()),
    );
    r.push(
        KeyBind::new("next_tab", "Ctrl+Right", "Next Tab", KeyCode::Right, KeyModifiers::control()),
    );
    r.push(KeyBind::new("new_tab", "Ctrl+T", "New Tab", KeyCode::Char('t'), KeyModifiers::control()));
    r.push(
        KeyBind::new("close_tab", "Ctrl+E", "Close Tab", KeyCode::Char('e'), KeyModifiers::control()),
    );
    r.push(
        KeyBind::new("clear_tab", "Ctrl+R", "Clear Tab", KeyCode::Char('r'), KeyModifiers::control()),
    );
    r
}

/// What a key event asks of a session.
#[derive(Clone, Copy, Debug, PartialEq, Eq, Structural)]
pub enum KeyAction {
    /// End the session.
    Quit,
    /// Select the tab before the selected one.
    PrevTab,
    /// Select the tab after the selected one.
    NextTab,
    /// Open a new tab.
    NewTab,
    /// Close the selected tab.
    CloseTab,
    /// Empty the selected tab.
    ClearTab,
    /// Hand the bind at this position of the selected tab's binds to the
    /// tab.
    Tab(usize),
    /// Nothing.
    Ignored,
}

/// What the global bind named `name` asks for.
pub open spec fn global_action(name: Seq<char>) -> KeyAction {
    if name == "quit"@ {
        KeyAction::Quit
    } else if name == "prev_tab"@ {
        KeyAction::PrevTab
    } else if name == "next_tab"@ {
        KeyAction::NextTab
    } else if name == "new_tab"@ {
        KeyAction::NewTab
    } else if name == "close_tab"@ {
        KeyAction::CloseTab
    } else if name == "clear_tab"@ {
        KeyAction::ClearTab
    } else {
        KeyAction::Ignored
    }
}

/// What `event` asks for, given the global binds `global` and the binds
/// `tab` of the selected tab. A global bind wins over a bind of the tab
/// for the same key; an event that selects neither asks for nothing.
pub open spec fn action_of(event: Event, global: Seq<KeyBind>, tab: Seq<KeyBind>) -> KeyAction {
    match selected_bind(event, global) {
        Some(i) => global_action(global[i].name@),
        None => match selected_bind(event, tab) {
            Some(i) => KeyAction::Tab(i as usize),
            None => KeyAction::Ignored,
        },
    }
}

/// Computes [`action_of`].
pub fn decide(event: Event, global: &Vec<KeyBind>, tab: &Vec<KeyBind>) -> (r: KeyAction)
    ensures
        r == action_of(event, global@, tab@),
        r matches KeyAction::Tab(i) ==> i < tab@.len(),
{
    match event_to_key_bind(event, global) {
        Some(i) => {
            let name = global[i].name.as_str();
            if same_text(name, "quit") {
                KeyAction::Quit
            } else if same_text(name, "prev_tab") {
                KeyAction::PrevTab
            } else if same_text(name, "next_tab") {
                KeyAction::NextTab
            } else if same_text(name, "new_tab") {
                KeyAction::NewTab
            } else if same_text(name, "close_tab") {
                KeyAction::CloseTab
            } else if same_text(name, "clear_tab") {
                KeyAction::ClearTab
            } else {
                KeyAction::Ignored
            }
        },
        None => match event_to_key_bind(event, tab) {
            Some(i) => KeyAction::Tab(i),
            None => KeyAction::Ignored,
        },
    }
}

} // verus!
