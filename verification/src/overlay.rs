//! The overlay that puts content on top of a card image.

use vstd::prelude::*;
use yew::html::Children;
use yew::virtual_dom::VNode;

use crate::children::{child_nodes, clone_children, no_children};
use crate::class_set::{compose, composed, ClassSet};
use crate::markup::{Attribute, MarkupNode, MarkupNodeView};

verus! {

/// The style class that marks an overlay.
pub const OVERLAY_CLASS: &'static str = "card-img-overlay";

/// Properties of [`CardImageOverlay`].
#[derive(Debug, PartialEq)]
pub struct CardImageOverlayProps {
    /// Inner components, displayed in the overlay.
    pub children: Children,
    /// Extra style classes to include, in addition to the one of the overlay.
    pub class: ClassSet,
}

/// What [`CardImageOverlayProps`] hold, as mathematical values.
pub struct CardImageOverlayPropsView {
    pub children: Seq<VNode>,
    pub class: Seq<Seq<char>>,
}

impl View for CardImageOverlayProps {
    type V = CardImageOverlayPropsView;

    open spec fn view(&self) -> CardImageOverlayPropsView {
        CardImageOverlayPropsView { children: child_nodes(self.children), class: self.class@ }
    }
}

impl Default for CardImageOverlayProps {
    /// Properties of an overlay without content and without extra classes.
    fn default() -> (props: CardImageOverlayProps)
        ensures
            props@ == (CardImageOverlayPropsView { children: Seq::empty(), class: Seq::empty() }),
    {
        CardImageOverlayProps { children: no_children(), class: ClassSet::new() }
    }
}

/// The element that an overlay with the given properties is: a `div` around
/// the caller's content.
///
/// Its classes are the extra classes followed by the class of the overlay:
/// here the caller's classes come first. It has no other attribute.
pub open spec fn overlay_markup(props: CardImageOverlayPropsView) -> MarkupNodeView {
    MarkupNodeView {
        tag: "div"@,
        class: composed(props.class, seq![OVERLAY_CLASS@]),
        attributes: Seq::empty(),
        children: props.children,
    }
}

/// Every overlay carries the caller's classes first, each in the place where
/// the caller put it, and the class of the overlay last: no class is dropped,
/// merged or moved. Its content is the caller's content.
pub proof fn lemma_overlay_classes_in_order(props: CardImageOverlayPropsView)
    ensures
        overlay_markup(props).class.len() == props.class.len() + 1,
        overlay_markup(props).class[props.class.len() as int] == OVERLAY_CLASS@,
        forall|i: int|
            0 <= i < props.class.len() ==> overlay_markup(props).class[i] == props.class[i],
        overlay_markup(props).children == props.children,
{
}

/// Used in combination with a card image to create content overlayed on the
/// image.
///
/// See [`CardImageOverlayProps`] for a list of properties.
#[allow(non_snake_case)]
pub fn CardImageOverlay(props: &CardImageOverlayProps) -> (node: MarkupNode)
    ensures
        node@ == overlay_markup(props@),
{
    let mut mark = ClassSet::new();
    mark.push(OVERLAY_CLASS);
    let class = compose(props.class.clone(), mark);

    let attributes: Vec<Attribute> = Vec::new();
    let node = MarkupNode { tag: "div", class, attributes, children: clone_children(&props.children) };
    assert(node@.attributes =~= overlay_markup(props@).attributes);
    node
}

} // verus!
