//! The colour theme of the page and the global display state.

use vstd::prelude::*;
use vstd::string::*;
use crate::text::same_text;

verus! {

/// The two colour themes the page can be shown in.
#[derive(Clone, Copy, Debug, PartialEq, Eq, Structural)]
pub enum Theme {
    Dark,
    White,
}

impl Theme {
    /// The other theme.
    pub open spec fn toggled(self) -> Theme {
        match self {
            Theme::Dark => Theme::White,
            Theme::White => Theme::Dark,
        }
    }

    /// The name under which the theme is stored and shown.
    pub open spec fn name(self) -> Seq<char> {
        match self {
            Theme::Dark => "dark"@,
            Theme::White => "white"@,
        }
    }

    /// The theme that a text names, if it names one.
    pub open spec fn named(text: Seq<char>) -> Option<Theme> {
        if text == "dark"@ {
            Some(Theme::Dark)
        } else if text == "white"@ {
            Some(Theme::White)
        } else {
            None
        }
    }

    /// What is said of a text that names no theme.
    pub open spec fn complaint(text: Seq<char>) -> Seq<char> {
        "Invalid theme '"@ + text + "'"@
    }

    /// Switches to the other theme.
    pub fn toggle(&mut self)
        ensures
            *final(self) == old(self).toggled(),
    {
        match self {
            Theme::Dark => *self = Theme::White,
            Theme::White => *self = Theme::Dark,
        }
    }

    /// Reads a theme from its name. Any other text is refused with a
    /// message that quotes it.
    pub fn from_str(s: &str) -> (result: Result<Theme, String>)
        ensures
            result is Ok <==> Theme::named(s@) is Some,
            result matches Ok(theme) ==> Theme::named(s@) == Some(theme),
            result matches Err(message) ==> message@ == Theme::complaint(s@),
    {
        if same_text(s, "dark") {
            Ok(Theme::Dark)
        } else if same_text(s, "white") {
            Ok(Theme::White)
        } else {
            let message = "Invalid theme '".to_owned().concat(s).concat("'");
            Err(message)
        }
    }

    /// The name of the theme.
    pub fn to_string(&self) -> (text: String)
        ensures
            text@ == self.name(),
    {
        match self {
            Theme::Dark => "dark".to_owned(),
            Theme::White => "white".to_owned(),
        }
    }
}

impl Default for Theme {
    /// The dark theme.
    fn default() -> (theme: Theme)
        ensures
            theme == Theme::Dark,
    {
        Theme::Dark
    }
}

/// Each theme is read back from its own name.
pub proof fn name_is_read_back(theme: Theme)
    ensures
        Theme::named(theme.name()) == Some(theme),
{
    reveal_strlit("dark");
    reveal_strlit("white");
    assert("dark"@.len() != "white"@.len());
}

/// Toggling twice gives the theme that was there.
pub proof fn toggle_twice_restores(theme: Theme)
    ensures
        theme.toggled().toggled() == theme,
        theme.toggled() != theme,
{
}

/// What the user can ask of the global display state.
#[derive(Clone, Copy, Debug, PartialEq, Eq, Structural)]
pub enum CtxAction {
    ToggleTheme,
    ToggleEdit,
}

/// The global display state: the theme, and whether the page is in edit
/// mode.
#[derive(Clone, Copy, Debug, PartialEq, Eq, Structural)]
pub struct GlobalData {
    pub theme: Theme,
    pub editable: bool,
}

impl GlobalData {
    /// The state that `action` makes of this one.
    pub open spec fn reduced(self, action: CtxAction) -> GlobalData {
        match action {
            CtxAction::ToggleTheme => GlobalData {
                theme: self.theme.toggled(),
                editable: self.editable,
            },
            CtxAction::ToggleEdit => GlobalData { theme: self.theme, editable: !self.editable },
        }
    }

    /// The theme that has to be written to storage after `action`: the new
    /// theme where the action changed it, else none.
    pub open spec fn theme_to_store(self, action: CtxAction) -> Option<Theme> {
        match action {
            CtxAction::ToggleTheme => Some(self.theme.toggled()),
            CtxAction::ToggleEdit => None,
        }
    }

    /// Applies `action`: hands out the next state and, where the theme
    /// changed, the theme to write to storage.
    pub fn reduce(&self, action: CtxAction) -> (out: (GlobalData, Option<Theme>))
        ensures
            out.0 == self.reduced(action),
            out.1 == self.theme_to_store(action),
    {
        let mut data = *self;
        match action {
            CtxAction::ToggleTheme => {
                data.theme.toggle();
                (data, Some(data.theme))
            },
            CtxAction::ToggleEdit => {
                data.editable = !data.editable;
                (data, None)
            },
        }
    }
}

} // verus!
