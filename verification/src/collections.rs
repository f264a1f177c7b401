//! The persistent append log: an immutable, reference-shared,
//! backward-linked chain of emission items.

use crate::write_item::ItemModel;
use crate::write_item::WriteItem;
use std::rc::Rc;
use vstd::prelude::*;

verus! {

/// One immutable node of the log: an item plus a shared handle to the
/// previous node, or `None` at the root. Restoring an earlier snapshot and
/// emitting again branches the chain; branches share their common suffix.
pub struct GraphNode {
    pub item: WriteItem,
    pub previous: Option<Rc<GraphNode>>,
}

impl GraphNode {
    pub fn new(item: WriteItem, previous: Option<Rc<GraphNode>>) -> (r: GraphNode)
        ensures
            r.item == item,
            r.previous == previous,
    {
        GraphNode { item, previous }
    }
}

/// The emission-ordered item sequence reachable from a log handle: oldest
/// first, the handle's own item last.
pub open spec fn log_items(node: Option<Rc<GraphNode>>) -> Seq<ItemModel>
    decreases node,
{
    match node {
        None => Seq::empty(),
        Some(n) => log_items(n.previous).push(n.item@),
    }
}

} // verus!
