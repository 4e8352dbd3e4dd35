//! The display variants of a card image and the style class each one selects.

use vstd::prelude::*;

verus! {

/// Controls where a card image sits inside its card.
#[derive(Copy, Clone, Debug, PartialEq, Eq, Structural)]
pub enum ImageVariant {
    /// Default display. Nothing special.
    Default,
    /// Image at the top of a card.
    Top,
    /// Image at the bottom of a card.
    Bottom,
}

/// The style class that a variant stands for, as a sequence of characters.
pub open spec fn base_class(variant: ImageVariant) -> Seq<char> {
    match variant {
        ImageVariant::Default => "card-img"@,
        ImageVariant::Top => "card-img-top"@,
        ImageVariant::Bottom => "card-img-bottom"@,
    }
}

/// Returns the style class of `variant`.
///
/// The match is exhaustive: a new variant does not compile until it is given
/// a class here and in [`base_class`].
pub fn resolve(variant: ImageVariant) -> (class: &'static str)
    ensures
        class@ == base_class(variant),
{
    match variant {
        ImageVariant::Default => "card-img",
        ImageVariant::Top => "card-img-top",
        ImageVariant::Bottom => "card-img-bottom",
    }
}

} // verus!
