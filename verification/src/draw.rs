//! The draw assembler.
//!
//! Walks the persistent tree in child order — which, for a tree stored
//! in declaration order, is exactly index order: every parent precedes
//! its children and siblings keep their order — and emits one
//! backend-agnostic primitive per node carrying its resolved size.

use vstd::prelude::*;
use crate::dom::Dom;
use crate::geometry::UVec2;
use crate::layout::LayoutDom;

verus! {

/// One draw primitive: the node it came from and the node's resolved
/// size.
#[derive(Clone, Copy, Debug, PartialEq, Eq, Structural)]
pub struct PaintRect {
    pub node: usize,
    pub size: UVec2,
}

/// The ordered, backend-agnostic output of one frame.
pub struct Output {
    pub primitives: Vec<PaintRect>,
}

impl Output {
    /// Assembles one primitive per node, in pre-order, carrying the
    /// node's size from the last layout pass.
    pub fn draw(dom: &Dom, layout: &LayoutDom) -> (out: Output)
        requires
            layout.sizes@.len() == dom.entries_seq().len(),
        ensures
            out.primitives@.len() == dom.entries_seq().len(),
            forall|i: int|
                0 <= i < dom.entries_seq().len() ==> #[trigger] out.primitives@[i] == (PaintRect {
                    node: i as usize,
                    size: layout.sizes@[i],
                }),
    {
        let n = dom.node_count();
        let mut primitives: Vec<PaintRect> = Vec::new();
        let mut i: usize = 0;
        while i < n
            invariant
                n == dom.entries_seq().len(),
                layout.sizes@.len() == n,
                i <= n,
                primitives@.len() == i,
                forall|j: int|
                    0 <= j < i ==> #[trigger] primitives@[j] == (PaintRect {
                        node: j as usize,
                        size: layout.sizes@[j],
                    }),
            decreases n - i,
        {
            primitives.push(PaintRect { node: i, size: layout.sizes[i] });
            i = i + 1;
        }
        Output { primitives }
    }
}

} // verus!
