//! The nested content of a component, as yew holds it.
//!
//! Content is carried through and never looked into. What this crate relies
//! on is said here, in the contracts of the two calls it makes, and nowhere
//! proved.

use vstd::prelude::*;
use yew::html::{Children, ChildrenRenderer};
use yew::virtual_dom::VNode;

verus! {

/// yew's `ChildrenRenderer`, the nested content of a component. `Children`
/// is its instance for `VNode`.
#[verifier::external_type_specification]
#[verifier::external_body]
#[verifier::reject_recursive_types(T)]
pub struct ExChildrenRenderer<T>(ChildrenRenderer<T>);

/// yew's `VNode`, one node of content.
#[verifier::external_type_specification]
#[verifier::external_body]
pub struct ExVNode(VNode);

/// The nodes that `children` holds, in their order.
pub uninterp spec fn child_nodes(children: Children) -> Seq<VNode>;

/// `Default::default` of yew's `ChildrenRenderer`: it makes the renderer over
/// an empty list of nodes.
#[verifier::external_body]
pub(crate) fn no_children() -> (children: Children)
    ensures
        child_nodes(children) == Seq::<VNode>::empty(),
{
    Children::default()
}

/// `Clone::clone` of yew's `ChildrenRenderer`: it clones the list of nodes,
/// so the copy holds the same nodes in the same order.
#[verifier::external_body]
pub(crate) fn clone_children(children: &Children) -> (copy: Children)
    ensures
        child_nodes(copy) == child_nodes(*children),
{
    children.clone()
}

} // verus!
