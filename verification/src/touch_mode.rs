//! What a finger on the canvas leaves behind.

use vstd::prelude::*;

verus! {

/// The style in which touches on the canvas are drawn. `OnlyUI` draws nothing:
/// fingers then only operate the widgets.
#[derive(Copy, Clone, PartialEq, Eq, Debug, Structural)]
pub enum TouchMode {
    OnlyUI,
    Bezier,
    Circles,
    Diamonds,
    FillDiamonds,
}

impl TouchMode {
    /// The style that follows `self` when the styles are cycled through.
    pub open spec fn spec_next(self) -> TouchMode {
        match self {
            TouchMode::OnlyUI => TouchMode::Bezier,
            TouchMode::Bezier => TouchMode::Circles,
            TouchMode::Circles => TouchMode::Diamonds,
            TouchMode::Diamonds => TouchMode::FillDiamonds,
            TouchMode::FillDiamonds => TouchMode::OnlyUI,
        }
    }

    /// Moves on to the next style; after the last one comes `OnlyUI` again.
    pub fn next(self) -> (mode: TouchMode)
        ensures
            mode == self.spec_next(),
    {
        match self {
            TouchMode::OnlyUI => TouchMode::Bezier,
            TouchMode::Bezier => TouchMode::Circles,
            TouchMode::Circles => TouchMode::Diamonds,
            TouchMode::Diamonds => TouchMode::FillDiamonds,
            TouchMode::FillDiamonds => TouchMode::OnlyUI,
        }
    }

    /// The style's name, as shown to the user.
    pub fn name(self) -> (name: String)
        ensures
            name@ == self.spec_name(),
    {
        match self {
            TouchMode::OnlyUI => "OnlyUI".to_owned(),
            TouchMode::Bezier => "Bezier".to_owned(),
            TouchMode::Circles => "Circles".to_owned(),
            TouchMode::Diamonds => "Diamonds".to_owned(),
            TouchMode::FillDiamonds => "FillDiamonds".to_owned(),
        }
    }

    /// The characters of the style's name.
    pub open spec fn spec_name(self) -> Seq<char> {
        match self {
            TouchMode::OnlyUI => "OnlyUI"@,
            TouchMode::Bezier => "Bezier"@,
            TouchMode::Circles => "Circles"@,
            TouchMode::Diamonds => "Diamonds"@,
            TouchMode::FillDiamonds => "FillDiamonds"@,
        }
    }
}

/// Cycling visits every style: five steps lead back to where they began, and
/// no fewer do.
pub proof fn lemma_cycle_of_five(mode: TouchMode)
    ensures
        mode.spec_next().spec_next().spec_next().spec_next().spec_next() == mode,
        mode.spec_next() != mode,
        mode.spec_next().spec_next() != mode,
        mode.spec_next().spec_next().spec_next() != mode,
        mode.spec_next().spec_next().spec_next().spec_next() != mode,
{
}

} // verus!
