//! Semantic color roles and their canonical lowercase class suffixes.

use vstd::prelude::*;

verus! {

/// A semantic color role. Components turn a role into a class suffix
/// (`text-bg-primary`, `border-danger`, ...) rather than into raw styling.
#[derive(Clone, Copy, PartialEq, Eq, Structural, Debug)]
pub enum Color {
    Primary,
    Secondary,
    Success,
    Danger,
    Warning,
    Info,
    Light,
    Dark,
}

impl Color {
    /// The canonical lowercase name of the role, as it appears in class
    /// suffixes.
    pub open spec fn spec_name(self) -> Seq<char> {
        match self {
            Color::Primary => "primary"@,
            Color::Secondary => "secondary"@,
            Color::Success => "success"@,
            Color::Danger => "danger"@,
            Color::Warning => "warning"@,
            Color::Info => "info"@,
            Color::Light => "light"@,
            Color::Dark => "dark"@,
        }
    }

    /// The canonical lowercase name of the role.
    pub fn name(&self) -> (r: &'static str)
        ensures
            r@ == self.spec_name(),
            r@.len() > 0,
    {
        proof {
            reveal_strlit("primary");
            reveal_strlit("secondary");
            reveal_strlit("success");
            reveal_strlit("danger");
            reveal_strlit("warning");
            reveal_strlit("info");
            reveal_strlit("light");
            reveal_strlit("dark");
        }
        match self {
            Color::Primary => "primary",
            Color::Secondary => "secondary",
            Color::Success => "success",
            Color::Danger => "danger",
            Color::Warning => "warning",
            Color::Info => "info",
            Color::Light => "light",
            Color::Dark => "dark",
        }
    }
}

} // verus!
