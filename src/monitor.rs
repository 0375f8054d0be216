//! How prominently a status monitor asks to be shown, and where it ends up.
use vstd::prelude::*;

verus! {

/// How much a monitor's current reading matters to the user.
#[derive(Clone, Copy, Debug, PartialEq, Eq, Structural)]
pub enum Relevance {
    Urgent,
    Background,
}

/// Where a monitor's reading is displayed.
#[derive(Clone, Copy, Debug, PartialEq, Eq, Structural)]
pub enum DisplayLocation {
    Bar,
    Popup,
    Hidden,
}

impl DisplayLocation {
    /// Urgent readings go on the bar itself, background ones into the popup.
    pub fn for_relevance(r: Relevance) -> (l: DisplayLocation)
        ensures
            l == (match r {
                Relevance::Urgent => DisplayLocation::Bar,
                Relevance::Background => DisplayLocation::Popup,
            }),
    {
        match r {
            Relevance::Urgent => DisplayLocation::Bar,
            Relevance::Background => DisplayLocation::Popup,
        }
    }
}

} // verus!
