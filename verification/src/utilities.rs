//! Helpers shared by the node kinds.

use crate::base::Value;
use crate::graph::{Component, ComponentView, ReleaseNode, Variant};
use crate::named::NamedMap;
use vstd::prelude::*;

verus! {

/// The constant node of batch `batch`: it takes no arguments.
pub open spec fn literal_node(batch: u32) -> ComponentView {
    ComponentView { variant: Variant::Constant, arguments: Map::empty(), batch }
}

/// The constant node that stands for `value` in the graph, and the release
/// that holds `value` for it.
pub fn get_literal(value: Value, batch: u32) -> (r: (Component, ReleaseNode))
    ensures
        r.0@ == literal_node(batch),
        r.1.value == value,
{
    let node = Component { variant: Variant::Constant, arguments: NamedMap::new(), batch };
    assert(node@.arguments =~= Map::empty());
    (node, ReleaseNode { value })
}

} // verus!
