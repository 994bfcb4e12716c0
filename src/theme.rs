use vstd::prelude::*;

verus! {

/// The colour scheme of the interface.
#[derive(Debug, Clone, Copy, PartialEq, Eq, Structural)]
pub enum Theme {
    Light,
    Dark,
}

/// The label of the menu entry that switches away from `t`.
pub open spec fn switch_label(t: Theme) -> Seq<char> {
    match t {
        Theme::Light => "Switch to Dark Mode"@,
        Theme::Dark => "Switch to Light Mode"@,
    }
}

impl Theme {
    /// The interface starts light.
    pub fn initial() -> (r: Theme)
        ensures
            r == Theme::Light,
    {
        Theme::Light
    }

    /// The other scheme.
    pub fn toggled(self) -> (r: Theme)
        ensures
            r != self,
    {
        match self {
            Theme::Light => Theme::Dark,
            Theme::Dark => Theme::Light,
        }
    }

    /// Whether this is the dark scheme.
    pub fn is_dark(self) -> (r: bool)
        ensures
            r == (self == Theme::Dark),
    {
        match self {
            Theme::Light => false,
            Theme::Dark => true,
        }
    }

    /// The label of the menu entry that switches to the other scheme.
    pub fn switch_label(self) -> (r: &'static str)
        ensures
            r@ == switch_label(self),
    {
        proof {
            reveal_strlit("Switch to Dark Mode");
            reveal_strlit("Switch to Light Mode");
        }
        match self {
            Theme::Light => "Switch to Dark Mode",
            Theme::Dark => "Switch to Light Mode",
        }
    }
}

} // verus!
