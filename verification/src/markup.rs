//! Elements as plain data: what a view layer needs in order to emit them.

use vstd::prelude::*;
use yew::html::Children;
use yew::virtual_dom::VNode;

use crate::children::child_nodes;
use crate::class_set::ClassSet;

verus! {

/// One attribute of an element, other than `class`.
#[derive(Debug, PartialEq, Eq)]
pub struct Attribute {
    /// The name of the attribute.
    pub name: &'static str,
    /// Its value, written out as it is.
    pub value: String,
}

/// What an [`Attribute`] holds, as mathematical values.
pub struct AttributeView {
    pub name: Seq<char>,
    pub value: Seq<char>,
}

impl View for Attribute {
    type V = AttributeView;

    open spec fn view(&self) -> AttributeView {
        AttributeView { name: self.name@, value: self.value@ }
    }
}

/// One element of markup.
#[derive(Debug, PartialEq)]
pub struct MarkupNode {
    /// The name of the element.
    pub tag: &'static str,
    /// The `class` attribute, token by token. It is written first.
    pub class: ClassSet,
    /// The other attributes, in the order in which they are written.
    pub attributes: Vec<Attribute>,
    /// The content of the element.
    pub children: Children,
}

/// What a [`MarkupNode`] holds, as mathematical values.
pub struct MarkupNodeView {
    pub tag: Seq<char>,
    pub class: Seq<Seq<char>>,
    pub attributes: Seq<AttributeView>,
    pub children: Seq<VNode>,
}

impl View for MarkupNode {
    type V = MarkupNodeView;

    open spec fn view(&self) -> MarkupNodeView {
        MarkupNodeView {
            tag: self.tag@,
            class: self.class@,
            attributes: self.attributes@.map_values(|a: Attribute| a@),
            children: child_nodes(self.children),
        }
    }
}

} // verus!
