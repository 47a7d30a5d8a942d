//! The state of the demo page and its transitions.
//!
//! The page owns three cells: a counter, a dark-mode flag and the text of
//! one input. Each changes only on an event of its own, and no transition of
//! one cell reads another. What the page shows of them is derived: the class
//! of the root element from the flag, the greeting from the text.

use vstd::prelude::*;

verus! {

/// Class of the root element while dark mode is on.
pub const DARK: &'static str = "dark";

/// What the greeting reads before the text that was entered.
pub const GREETING_BEFORE: &'static str = "Hello, ";

/// What the greeting reads after the text that was entered.
pub const GREETING_AFTER: &'static str = "! Nice to meet you.";

/// The three cells of the page.
#[derive(Debug, Clone)]
pub struct AppState {
    pub count: i32,
    pub dark_mode: bool,
    pub input_value: String,
}

/// What a user can do to the page.
#[derive(Debug, Clone)]
pub enum AppEvent {
    /// Add one to the counter.
    Increment,
    /// Take one from the counter.
    Decrement,
    /// Set the counter back to zero.
    Reset,
    /// Switch dark mode on or off.
    ToggleDarkMode,
    /// Replace the text by what the input now holds.
    Input(String),
}

/// The page state as mathematics: an unbounded counter, a flag and a
/// sequence of characters.
pub struct Cells {
    pub count: int,
    pub dark_mode: bool,
    pub text: Seq<char>,
}

impl View for AppState {
    type V = Cells;

    open spec fn view(&self) -> Cells {
        Cells { count: self.count as int, dark_mode: self.dark_mode, text: self.input_value@ }
    }
}

/// The state in which a page starts: counter at zero, dark mode off, no text.
pub open spec fn initial() -> Cells {
    Cells { count: 0, dark_mode: false, text: Seq::empty() }
}

/// The state after an event. The text is taken over as it comes, neither
/// trimmed nor cut.
pub open spec fn step(before: Cells, event: AppEvent) -> Cells {
    match event {
        AppEvent::Increment => Cells { count: before.count + 1, ..before },
        AppEvent::Decrement => Cells { count: before.count - 1, ..before },
        AppEvent::Reset => Cells { count: 0, ..before },
        AppEvent::ToggleDarkMode => Cells { dark_mode: !before.dark_mode, ..before },
        AppEvent::Input(text) => Cells { text: text@, ..before },
    }
}

/// The class of the root element: `dark` while dark mode is on, else none.
pub open spec fn root_class_of(dark_mode: bool) -> Seq<char> {
    if dark_mode {
        DARK@
    } else {
        Seq::empty()
    }
}

/// The greeting for a text: none for the empty text, else the text as it
/// is between the two fixed halves of the sentence.
pub open spec fn greeting_of(text: Seq<char>) -> Option<Seq<char>> {
    if text.len() == 0 {
        None
    } else {
        Some(GREETING_BEFORE@ + text + GREETING_AFTER@)
    }
}

/// Each cell goes its own way: what an event makes of a cell depends on
/// that cell and the event alone, not on the other two cells.
pub proof fn lemma_cells_independent(a: Cells, b: Cells, event: AppEvent)
    ensures
        a.count == b.count ==> step(a, event).count == step(b, event).count,
        a.dark_mode == b.dark_mode ==> step(a, event).dark_mode == step(b, event).dark_mode,
        a.text == b.text ==> step(a, event).text == step(b, event).text,
{
}

/// An event changes at most the cell it is meant for.
pub proof fn lemma_step_changes_one_cell(before: Cells, event: AppEvent)
    ensures
        event is Increment || event is Decrement || event is Reset || step(before, event).count
            == before.count,
        event is ToggleDarkMode || step(before, event).dark_mode == before.dark_mode,
        event is Input || step(before, event).text == before.text,
{
}

impl AppState {
    /// Whether the counter has room for the event: the state after it can be
    /// held. Only a step past either end of `i32` cannot.
    pub open spec fn has_room(&self, event: &AppEvent) -> bool {
        i32::MIN <= step(self@, *event).count <= i32::MAX
    }

    /// The state in which a page starts.
    pub fn new() -> (state: Self)
        ensures
            state@ == initial(),
    {
        AppState { count: 0, dark_mode: false, input_value: String::new() }
    }

    /// Decides whether the counter has room for the event.
    pub fn accepts(&self, event: &AppEvent) -> (ok: bool)
        ensures
            ok == self.has_room(event),
    {
        match event {
            AppEvent::Increment => self.count < i32::MAX,
            AppEvent::Decrement => self.count > i32::MIN,
            _ => true,
        }
    }

    /// Takes the state through one event.
    pub fn apply(&mut self, event: AppEvent)
        requires
            old(self).has_room(&event),
        ensures
            final(self)@ == step(old(self)@, event),
    {
        match event {
            AppEvent::Increment => {
                self.count = self.count + 1;
            },
            AppEvent::Decrement => {
                self.count = self.count - 1;
            },
            AppEvent::Reset => {
                self.count = 0;
            },
            AppEvent::ToggleDarkMode => {
                self.dark_mode = !self.dark_mode;
            },
            AppEvent::Input(text) => {
                self.input_value = text;
            },
        }
    }

    /// The class of the root element.
    pub fn root_class(&self) -> (class: &'static str)
        ensures
            class@ == root_class_of(self.dark_mode),
    {
        if self.dark_mode {
            DARK
        } else {
            proof {
                reveal_strlit("");
            }
            ""
        }
    }

    /// The greeting to show, if any.
    pub fn greeting(&self) -> (greeting: Option<String>)
        ensures
            match greeting_of(self.input_value@) {
                Some(text) => greeting matches Some(shown) && shown@ == text,
                None => greeting is None,
            },
    {
        if self.input_value.as_str().is_empty() {
            return None;
        }
        let mut shown = GREETING_BEFORE.to_owned();
        shown.append(self.input_value.as_str());
        shown.append(GREETING_AFTER);
        Some(shown)
    }
}

} // verus!
