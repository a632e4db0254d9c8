//! What the page starts with.
//!
//! Three values are kept in storage between visits, each under a key of its
//! own: the collection of cards, the theme and the user name. Each may be
//! missing or unreadable on a visit; the page then starts with a value that is
//! fixed here. Reading the storage and decoding what it holds is left to the
//! page, which hands in what it found, if anything.

use vstd::prelude::*;
use vstd::string::*;
use crate::cards::{CardView, Cards};
use crate::text::text_view;
use crate::theme::Theme;

verus! {

/// The key under which the collection of cards is stored.
pub const CARDS_KEY: &'static str = "cards";

/// The key under which the theme is stored.
pub const THEME_KEY: &'static str = "theme";

/// The key under which the user name is stored.
pub const USER_NAME_KEY: &'static str = "user_name";

/// The user name that is shown until the user sets one.
pub const PLACEHOLDER_NAME: &'static str = "UserName";

/// The collection that the page starts with, given what the storage holds.
pub open spec fn cards_at_start(stored: Option<Cards>) -> Seq<CardView> {
    match stored {
        Some(cards) => cards@,
        None => Seq::empty(),
    }
}

/// The theme that a stored text names, if there is a text and it names one.
pub open spec fn stored_theme(stored: Option<Seq<char>>) -> Option<Theme> {
    match stored {
        Some(text) => Theme::named(text),
        None => None,
    }
}

/// The theme that the page starts with, given what the storage holds.
pub open spec fn theme_at_start(stored: Option<Seq<char>>) -> Theme {
    match stored_theme(stored) {
        Some(theme) => theme,
        None => Theme::Dark,
    }
}

/// The user name that the page starts with, given what the storage holds.
pub open spec fn user_name_at_start(stored: Option<Seq<char>>) -> Seq<char> {
    match stored {
        Some(name) => name,
        None => PLACEHOLDER_NAME@,
    }
}

/// The first snapshot: the stored collection, or the collection without
/// cards where none was found or it could not be read.
pub fn initialize(stored: Option<Cards>) -> (cards: Cards)
    ensures
        cards@ == cards_at_start(stored),
{
    match stored {
        Some(cards) => cards,
        None => Cards::default(),
    }
}

/// The first theme, and the theme to write to storage. A stored text that
/// names a theme gives that theme and nothing to write. Without a text, or
/// with one that names no theme, the default theme is both taken and
/// written.
pub fn initial_theme(stored: Option<String>) -> (out: (Theme, Option<Theme>))
    ensures
        out.0 == theme_at_start(text_view(stored)),
        out.1 == if stored_theme(text_view(stored)) is Some {
            None
        } else {
            Some(Theme::Dark)
        },
{
    let read = match stored {
        Some(text) => match Theme::from_str(text.as_str()) {
            Ok(theme) => Some(theme),
            Err(_) => None,
        },
        None => None,
    };
    match read {
        Some(theme) => (theme, None),
        None => {
            let theme = Theme::default();
            (theme, Some(theme))
        },
    }
}

/// The first user name: the stored one, or the placeholder where none was
/// found.
pub fn initial_user_name(stored: Option<String>) -> (name: String)
    ensures
        name@ == user_name_at_start(text_view(stored)),
{
    match stored {
        Some(name) => name,
        None => PLACEHOLDER_NAME.to_owned(),
    }
}

} // verus!
