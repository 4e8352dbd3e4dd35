//! Bootstrap card images for component-based web interfaces.
//!
//! A card image and its overlay are described here as plain data: the style
//! classes, the attributes and the nested content of the element that a view
//! layer has to emit.

pub mod children;
pub mod class_set;
pub mod image;
pub mod markup;
pub mod overlay;
pub mod variant;

pub use children::child_nodes;
pub use class_set::{compose, composed, ClassSet};
pub use image::{image_markup, CardImage, CardImageProps, CardImagePropsView, IMAGE_STYLE};
pub use markup::{Attribute, AttributeView, MarkupNode, MarkupNodeView};
pub use overlay::{
    overlay_markup, CardImageOverlay, CardImageOverlayProps, CardImageOverlayPropsView,
    OVERLAY_CLASS,
};
pub use variant::{base_class, resolve, ImageVariant};
