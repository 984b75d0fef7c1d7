//! The syntax-highlighting palettes the user can choose from, and the
//! window appearance that follows from the choice.

use vstd::prelude::*;

verus! {

/// The fixed set of syntax-highlighting palettes.
#[derive(Clone, Copy, Debug, PartialEq, Eq, Structural)]
pub enum Theme {
    SolarizedDark,
    Base16Eighties,
    Base16Mocha,
    Base16Ocean,
    InspiredGitHub,
}

/// The overall window appearance derived from the chosen palette.
#[derive(Clone, Copy, Debug, PartialEq, Eq, Structural)]
pub enum WindowTheme {
    Dark,
    Light,
}

impl Theme {
    /// Whether this palette has a dark background.
    pub open spec fn is_dark_spec(&self) -> bool {
        match self {
            Theme::InspiredGitHub => false,
            _ => true,
        }
    }

    pub fn is_dark(&self) -> (r: bool)
        ensures
            r == self.is_dark_spec(),
    {
        match self {
            Theme::InspiredGitHub => false,
            _ => true,
        }
    }

    /// The palette every document starts with.
    pub open spec fn initial_spec() -> Theme {
        Theme::SolarizedDark
    }

    pub fn initial() -> (r: Theme)
        ensures
            r == Theme::initial_spec(),
    {
        Theme::SolarizedDark
    }

    /// Every palette, in the order offered for selection.
    pub fn all() -> (r: Vec<Theme>)
        ensures
            r@ == seq![
                Theme::SolarizedDark,
                Theme::Base16Eighties,
                Theme::Base16Mocha,
                Theme::Base16Ocean,
                Theme::InspiredGitHub,
            ],
    {
        let mut r: Vec<Theme> = Vec::new();
        r.push(Theme::SolarizedDark);
        r.push(Theme::Base16Eighties);
        r.push(Theme::Base16Mocha);
        r.push(Theme::Base16Ocean);
        r.push(Theme::InspiredGitHub);
        proof {
            assert(r@ =~= seq![
                Theme::SolarizedDark,
                Theme::Base16Eighties,
                Theme::Base16Mocha,
                Theme::Base16Ocean,
                Theme::InspiredGitHub,
            ]);
        }
        r
    }

    /// The palette's name as shown in the selection list.
    pub open spec fn name_spec(&self) -> Seq<char> {
        match self {
            Theme::SolarizedDark => "Solarized Dark"@,
            Theme::Base16Eighties => "Base16 Eighties"@,
            Theme::Base16Mocha => "Base16 Mocha"@,
            Theme::Base16Ocean => "Base16 Ocean"@,
            Theme::InspiredGitHub => "Inspired GitHub"@,
        }
    }

    pub fn name(&self) -> (r: String)
        ensures
            r@ == self.name_spec(),
    {
        match self {
            Theme::SolarizedDark => String::from_str("Solarized Dark"),
            Theme::Base16Eighties => String::from_str("Base16 Eighties"),
            Theme::Base16Mocha => String::from_str("Base16 Mocha"),
            Theme::Base16Ocean => String::from_str("Base16 Ocean"),
            Theme::InspiredGitHub => String::from_str("Inspired GitHub"),
        }
    }

    /// The window appearance that this palette calls for.
    pub fn window_theme(&self) -> (r: WindowTheme)
        ensures
            r == (if self.is_dark_spec() {
                WindowTheme::Dark
            } else {
                WindowTheme::Light
            }),
    {
        if self.is_dark() {
            WindowTheme::Dark
        } else {
            WindowTheme::Light
        }
    }
}

} // verus!
