//! The image of a card.

use vstd::prelude::*;

use crate::children::no_children;
use crate::class_set::{compose, composed, ClassSet};
use crate::markup::{Attribute, AttributeView, MarkupNode, MarkupNodeView};
use crate::variant::{base_class, resolve, ImageVariant};

verus! {

/// The inline style of every card image: a fixed box of 180 pixels by the
/// full width of the card.
pub const IMAGE_STYLE: &'static str = "height: 180px; width: 100%; display: block;";

/// Properties of [`CardImage`].
#[derive(Debug, PartialEq)]
pub struct CardImageProps {
    /// The display variant to use. See [`ImageVariant`] for more details.
    pub variant: ImageVariant,
    /// Extra style classes to include, in addition to the one of the variant.
    pub class: ClassSet,
    /// The image source. It is handed on as it is; an empty source is allowed.
    pub src: String,
    /// Descriptive text for screen reader users.
    pub alt: String,
}

/// What [`CardImageProps`] hold, as mathematical values.
pub struct CardImagePropsView {
    pub variant: ImageVariant,
    pub class: Seq<Seq<char>>,
    pub src: Seq<char>,
    pub alt: Seq<char>,
}

impl View for CardImageProps {
    type V = CardImagePropsView;

    open spec fn view(&self) -> CardImagePropsView {
        CardImagePropsView {
            variant: self.variant,
            class: self.class@,
            src: self.src@,
            alt: self.alt@,
        }
    }
}

impl CardImageProps {
    /// Properties for the image at `src` with every other property at its
    /// default: the default variant, no extra classes and an empty
    /// description.
    pub fn new(src: String) -> (props: CardImageProps)
        ensures
            props@ == (CardImagePropsView {
                variant: ImageVariant::Default,
                class: Seq::empty(),
                src: src@,
                alt: Seq::empty(),
            }),
    {
        CardImageProps {
            variant: ImageVariant::Default,
            class: ClassSet::new(),
            src,
            alt: String::new(),
        }
    }
}

/// The element that a card image with the given properties is: an `img`
/// without content.
///
/// Its classes are the class of the variant followed by the extra classes.
/// The source is taken over as it is, and deliberately not into `src` but
/// into `data-source`, from where a script may promote it once the element is
/// in the document. The style is fixed, and the description is taken over as
/// it is.
pub open spec fn image_markup(props: CardImagePropsView) -> MarkupNodeView {
    MarkupNodeView {
        tag: "img"@,
        class: composed(seq![base_class(props.variant)], props.class),
        attributes: seq![
            AttributeView { name: "data-source"@, value: props.src },
            AttributeView { name: "style"@, value: IMAGE_STYLE@ },
            AttributeView { name: "alt"@, value: props.alt },
        ],
        children: Seq::empty(),
    }
}

/// Every card image carries the class of its variant first and the caller's
/// classes behind it, each in the place where the caller put it: no class is
/// dropped, merged or moved.
pub proof fn lemma_image_classes_in_order(props: CardImagePropsView)
    ensures
        image_markup(props).class.len() == props.class.len() + 1,
        image_markup(props).class[0] == base_class(props.variant),
        forall|i: int|
            0 <= i < props.class.len() ==> image_markup(props).class[i + 1] == props.class[i],
{
}

/// An image contained within a card. It can be styled to match with being on
/// the top or bottom using [`ImageVariant`].
///
/// See [`CardImageProps`] for a list of properties.
#[allow(non_snake_case)]
pub fn CardImage(props: &CardImageProps) -> (node: MarkupNode)
    ensures
        node@ == image_markup(props@),
{
    let mut base = ClassSet::new();
    base.push(resolve(props.variant));
    let class = compose(base, props.class.clone());

    let mut attributes: Vec<Attribute> = Vec::new();
    attributes.push(Attribute { name: "data-source", value: props.src.clone() });
    attributes.push(Attribute { name: "style", value: IMAGE_STYLE.to_owned() });
    attributes.push(Attribute { name: "alt", value: props.alt.clone() });

    let node = MarkupNode { tag: "img", class, attributes, children: no_children() };
    assert(node@.attributes =~= image_markup(props@).attributes);
    node
}

} // verus!
