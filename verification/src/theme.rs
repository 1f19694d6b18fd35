//! Colours and the built-in colour themes.
use vstd::prelude::*;

verus! {

/// An RGB colour with one byte per channel.
#[derive(Debug, Clone, Copy, PartialEq, Eq, Structural)]
pub struct Rgb(pub u8, pub u8, pub u8);

/// The colours a renderer needs for a terminal grid.
#[derive(Debug, Clone, Copy, PartialEq, Eq, Structural)]
pub struct Theme {
    pub foreground: Rgb,
    pub background: Rgb,
    pub cursor: Rgb,
}

/// The built-in themes a user can choose from.
#[derive(Debug, Clone, Copy, PartialEq, Eq, Structural)]
pub enum ThemeChoice {
    Midnight,
    Light,
    Matrix,
}

/// The palette of a built-in theme.
pub open spec fn spec_theme(choice: ThemeChoice) -> Theme {
    match choice {
        ThemeChoice::Midnight => Theme {
            foreground: Rgb(204, 211, 224),
            background: Rgb(13, 17, 23),
            cursor: Rgb(110, 168, 254),
        },
        ThemeChoice::Light => Theme {
            foreground: Rgb(31, 35, 40),
            background: Rgb(246, 248, 250),
            cursor: Rgb(9, 105, 218),
        },
        ThemeChoice::Matrix => Theme {
            foreground: Rgb(95, 255, 135),
            background: Rgb(3, 18, 8),
            cursor: Rgb(190, 255, 205),
        },
    }
}

/// The display name of a built-in theme.
pub open spec fn spec_theme_name(choice: ThemeChoice) -> Seq<char> {
    match choice {
        ThemeChoice::Midnight => "Midnight"@,
        ThemeChoice::Light => "Light"@,
        ThemeChoice::Matrix => "Matrix"@,
    }
}

/// `ThemeChoice::ALL` lists every built-in theme exactly once.
pub proof fn lemma_all_lists_every_theme_once(choice: ThemeChoice)
    ensures
        exists|i: int| 0 <= i < 3 && ThemeChoice::ALL@[i] == choice,
        forall|i: int, j: int| 0 <= i < j < 3 ==> ThemeChoice::ALL@[i] != ThemeChoice::ALL@[j],
{
    assert(ThemeChoice::ALL@ =~= seq![ThemeChoice::Midnight, ThemeChoice::Light, ThemeChoice::Matrix]);
    match choice {
        ThemeChoice::Midnight => assert(ThemeChoice::ALL@[0] == choice),
        ThemeChoice::Light => assert(ThemeChoice::ALL@[1] == choice),
        ThemeChoice::Matrix => assert(ThemeChoice::ALL@[2] == choice),
    }
}

impl ThemeChoice {
    /// Every built-in theme, in the order a settings menu lists them.
    pub const ALL: [ThemeChoice; 3] = [ThemeChoice::Midnight, ThemeChoice::Light, ThemeChoice::Matrix];

    /// The display name of this theme.
    pub fn name(self) -> (n: &'static str)
        ensures
            n@ == spec_theme_name(self),
    {
        match self {
            ThemeChoice::Midnight => "Midnight",
            ThemeChoice::Light => "Light",
            ThemeChoice::Matrix => "Matrix",
        }
    }

    /// The palette of this theme.
    pub fn theme(self) -> (t: Theme)
        ensures
            t == spec_theme(self),
    {
        match self {
            ThemeChoice::Midnight => Theme {
                foreground: Rgb(204, 211, 224),
                background: Rgb(13, 17, 23),
                cursor: Rgb(110, 168, 254),
            },
            ThemeChoice::Light => Theme {
                foreground: Rgb(31, 35, 40),
                background: Rgb(246, 248, 250),
                cursor: Rgb(9, 105, 218),
            },
            ThemeChoice::Matrix => Theme {
                foreground: Rgb(95, 255, 135),
                background: Rgb(3, 18, 8),
                cursor: Rgb(190, 255, 205),
            },
        }
    }
}

} // verus!
