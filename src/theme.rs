use vstd::prelude::*;
use vstd::string::StringExecFns;

verus! {

/// A visual theme that a window can be asked to take.
#[derive(Clone, Copy, Debug, PartialEq, Eq, Structural)]
pub enum ThemeChoice {
    Dark,
    Light,
}

/// The theme that a requested name selects: `"dark"` and `"light"`, matched
/// exactly and case-sensitively, select their theme; every other name selects
/// none, which leaves the choice to the platform's default.
pub open spec fn theme_for_name(name: Seq<char>) -> Option<ThemeChoice> {
    if name == "dark"@ {
        Some(ThemeChoice::Dark)
    } else if name == "light"@ {
        Some(ThemeChoice::Light)
    } else {
        None
    }
}

/// Reads a requested theme name. No name is refused: one that is not
/// recognised gives `None`, the platform's default.
pub fn theme_from_name(name: &str) -> (r: Option<ThemeChoice>)
    ensures
        r == theme_for_name(name@),
{
    let requested = String::from_str(name);
    if requested == String::from_str("dark") {
        Some(ThemeChoice::Dark)
    } else if requested == String::from_str("light") {
        Some(ThemeChoice::Light)
    } else {
        None
    }
}

} // verus!
