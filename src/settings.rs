use vstd::prelude::*;
use vstd::string::*;

verus! {

/// The theme choice offered on the settings screen.
#[derive(Clone, Copy, Debug, PartialEq, Eq, Structural)]
pub enum Theme {
    Light,
    Dark,
    System,
}

/// The configuration value stored for a theme choice.
pub open spec fn setting_of(t: Theme) -> Seq<char> {
    match t {
        Theme::Light => "light"@,
        Theme::Dark => "dark"@,
        Theme::System => "system"@,
    }
}

/// The theme choice a configuration value selects: anything but "light"
/// and "dark" selects the system's.
pub open spec fn theme_of_setting(s: Seq<char>) -> Theme {
    if s == "light"@ {
        Theme::Light
    } else if s == "dark"@ {
        Theme::Dark
    } else {
        Theme::System
    }
}

impl Theme {
    /// The name shown for this choice.
    pub fn name(&self) -> (r: String)
        ensures
            r@ == match *self {
                Theme::Light => "Light"@,
                Theme::Dark => "Dark"@,
                Theme::System => "System"@,
            },
    {
        match self {
            Theme::Light => String::from_str("Light"),
            Theme::Dark => String::from_str("Dark"),
            Theme::System => String::from_str("System"),
        }
    }

    /// The configuration value stored for this choice.
    pub fn setting(&self) -> (r: String)
        ensures
            r@ == setting_of(*self),
    {
        match self {
            Theme::Light => String::from_str("light"),
            Theme::Dark => String::from_str("dark"),
            Theme::System => String::from_str("system"),
        }
    }

    /// The choice a stored configuration value selects.
    pub fn from_setting(s: &str) -> (r: Theme)
        ensures
            r == theme_of_setting(s@),
    {
        let s = String::from_str(s);
        if s == String::from_str("light") {
            Theme::Light
        } else if s == String::from_str("dark") {
            Theme::Dark
        } else {
            Theme::System
        }
    }
}

/// Storing a theme choice and reading it back gives the same choice.
pub proof fn lemma_setting_round_trip(t: Theme)
    ensures
        theme_of_setting(setting_of(t)) == t,
{
    reveal_strlit("light");
    reveal_strlit("dark");
    reveal_strlit("system");
    assert("dark"@.len() != "light"@.len());
    assert("system"@.len() != "light"@.len());
    assert("system"@.len() != "dark"@.len());
}

} // verus!
