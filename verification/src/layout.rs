//! The layout engine.
//!
//! After a frame is applied, `calculate_all` walks the persistent tree
//! and assigns every node a resolved size under the constraint protocol:
//! a node receives a constraint box, derives the box it hands its
//! children, and combines the children's reported sizes by its own
//! policy. The root constraint is the current viewport.

use vstd::prelude::*;
use crate::dom::Dom;
use crate::dom::WidgetEntry;
use crate::dom::WidgetState;
use crate::dom::NO_PARENT;
use crate::geometry::Constraints;
use crate::geometry::UVec2;

verus! {

/// The constraint box a node hands its children: the max-width box
/// tightens the horizontal upper bound, everything else passes its own
/// box through.
pub open spec fn spec_child_constraints(widget: WidgetState, c: Constraints) -> Constraints {
    match widget {
        WidgetState::MaxWidth(w) => Constraints {
            min: c.min,
            max: UVec2 {
                x: if c.max.x <= w.props.max_width {
                    c.max.x
                } else {
                    w.props.max_width
                },
                y: c.max.y,
            },
        },
        _ => c,
    }
}

/// The size a node reports, given the component-wise maximum of its
/// children's sizes: a fixed-size leaf asks for its natural size clamped
/// into its box; the max-width box reports its children's maximum as is;
/// a flex participant defers sizing, so outside a flex distributor it
/// reports its children's maximum clamped into its box.
pub open spec fn spec_own_size(widget: WidgetState, c: Constraints, kid_max: UVec2) -> UVec2 {
    match widget {
        WidgetState::FixedSize(w) => c.spec_constrain(w.props.size),
        WidgetState::MaxWidth(_) => kid_max,
        WidgetState::Flexible(_) => c.spec_constrain(kid_max),
    }
}

/// Lays out node `id` under constraints `c`: its children first, then
/// its own size, recorded at index `id`. Returns the size and the
/// updated size table.
pub open spec fn spec_lay_node(
    entries: Seq<WidgetEntry>,
    id: int,
    c: Constraints,
    sizes: Seq<UVec2>,
) -> (UVec2, Seq<UVec2>)
    decreases entries.len() - id, entries.len() - id,
        when 0 <= id < entries.len()
{
    let cc = spec_child_constraints(entries[id].widget, c);
    let (kid_max, sizes1) = spec_lay_scan(
        entries,
        id,
        id + 1,
        cc,
        sizes,
        UVec2 { x: 0, y: 0 },
    );
    let size = spec_own_size(entries[id].widget, c, kid_max);
    (size, sizes1.update(id, size))
}

/// Scans indices `i..` for children of `p` (in declaration order) and
/// lays each out, folding their sizes into `acc` component-wise.
pub open spec fn spec_lay_scan(
    entries: Seq<WidgetEntry>,
    p: int,
    i: int,
    cc: Constraints,
    sizes: Seq<UVec2>,
    acc: UVec2,
) -> (UVec2, Seq<UVec2>)
    decreases entries.len() - p, entries.len() - i,
        when 0 <= p < i
{
    if i >= entries.len() {
        (acc, sizes)
    } else if entries[i].parent == p {
        let (s, sizes1) = spec_lay_node(entries, i, cc, sizes);
        spec_lay_scan(entries, p, i + 1, cc, sizes1, acc.spec_max(s))
    } else {
        spec_lay_scan(entries, p, i + 1, cc, sizes, acc)
    }
}

/// Lays out every root under the viewport constraint, scanning the tree
/// in order.
pub open spec fn spec_calc_roots(
    entries: Seq<WidgetEntry>,
    i: int,
    c: Constraints,
    sizes: Seq<UVec2>,
) -> Seq<UVec2>
    decreases entries.len() - i + 1, 0int,
        when 0 <= i
{
    if i >= entries.len() {
        sizes
    } else if entries[i].parent == NO_PARENT {
        spec_calc_roots(entries, i + 1, c, spec_lay_node(entries, i, c, sizes).1)
    } else {
        spec_calc_roots(entries, i + 1, c, sizes)
    }
}

/// The whole size table a layout pass computes: every entry starts at
/// zero, then each root's subtree is laid out under a loose viewport
/// constraint.
pub open spec fn spec_calculate_all(entries: Seq<WidgetEntry>, viewport: UVec2) -> Seq<UVec2> {
    spec_calc_roots(
        entries,
        0,
        Constraints { min: UVec2 { x: 0, y: 0 }, max: viewport },
        Seq::new(entries.len(), |i: int| UVec2 { x: 0, y: 0 }),
    )
}

/// Per-node layout results: the resolved size of every node of the last
/// pass, and the viewport used as the root constraint of the next one.
pub struct LayoutDom {
    pub viewport: UVec2,
    pub sizes: Vec<UVec2>,
}

impl LayoutDom {
    pub fn new() -> (r: LayoutDom)
        ensures
            r.viewport == (UVec2 { x: 0, y: 0 }),
            r.sizes@.len() == 0,
    {
        LayoutDom { viewport: UVec2 { x: 0, y: 0 }, sizes: Vec::new() }
    }

    /// Recomputes the whole size table from the tree and the current
    /// viewport.
    pub fn calculate_all(&mut self, dom: &Dom)
        requires
            dom.wf(),
        ensures
            final(self).viewport == old(self).viewport,
            final(self).sizes@.len() == dom.entries_seq().len(),
            final(self).sizes@ == spec_calculate_all(dom.entries_seq(), old(self).viewport),
    {
        let n = dom.node_count();
        let mut fresh: Vec<UVec2> = Vec::new();
        while fresh.len() < n
            invariant
                fresh.len() <= n,
                forall|j: int| 0 <= j < fresh.len() ==> fresh@[j] == (UVec2 { x: 0, y: 0 }),
            decreases n - fresh.len(),
        {
            fresh.push(UVec2 { x: 0, y: 0 });
        }
        self.sizes = fresh;
        let c = Constraints { min: UVec2 { x: 0, y: 0 }, max: self.viewport };
        proof {
            assert(self.sizes@ =~= Seq::new(
                dom.entries_seq().len(),
                |i: int| UVec2 { x: 0, y: 0 },
            ));
        }
        let ghost start_sizes = self.sizes@;
        let mut i: usize = 0;
        while i < n
            invariant
                dom.wf(),
                n == dom.entries_seq().len(),
                i <= n,
                self.viewport == old(self).viewport,
                self.sizes@.len() == n,
                c == (Constraints { min: UVec2 { x: 0, y: 0 }, max: old(self).viewport }),
                spec_calc_roots(dom.entries_seq(), i as int, c, self.sizes@) == spec_calc_roots(
                    dom.entries_seq(),
                    0,
                    c,
                    start_sizes,
                ),
                start_sizes == Seq::new(dom.entries_seq().len(), |j: int| UVec2 { x: 0, y: 0 }),
            decreases n - i,
        {
            let ghost pre = self.sizes@;
            if self.entry_parent(dom, i) == NO_PARENT {
                let _ = self.layout_node(dom, i, c);
                proof {
                    assert(spec_calc_roots(dom.entries_seq(), i as int, c, pre)
                        == spec_calc_roots(dom.entries_seq(), i as int + 1, c, self.sizes@));
                }
            } else {
                proof {
                    assert(spec_calc_roots(dom.entries_seq(), i as int, c, pre)
                        == spec_calc_roots(dom.entries_seq(), i as int + 1, c, self.sizes@));
                }
            }
            i = i + 1;
        }
    }

    /// The parent index of node `i`.
    fn entry_parent(&self, dom: &Dom, i: usize) -> (r: usize)
        requires
            i < dom.entries_seq().len(),
        ensures
            r == dom.entries_seq()[i as int].parent,
    {
        dom.entry(i).parent
    }

    /// Lays out the subtree rooted at `id` under constraints `c`,
    /// recording each node's size in the table, and returns `id`'s size.
    pub fn layout_node(&mut self, dom: &Dom, id: usize, c: Constraints) -> (size: UVec2)
        requires
            dom.wf(),
            id < dom.entries_seq().len(),
            old(self).sizes@.len() == dom.entries_seq().len(),
        ensures
            final(self).viewport == old(self).viewport,
            final(self).sizes@.len() == old(self).sizes@.len(),
            size == spec_lay_node(dom.entries_seq(), id as int, c, old(self).sizes@).0,
            final(self).sizes@ == spec_lay_node(dom.entries_seq(), id as int, c, old(self).sizes@).1,
        decreases dom.entries_seq().len() - id,
    {
        let entry = *dom.entry(id);
        let cc = match entry.widget {
            WidgetState::MaxWidth(w) => w.child_constraints(c),
            _ => c,
        };
        proof {
            assert(cc == spec_child_constraints(dom.entries_seq()[id as int].widget, c));
        }
        let n = dom.node_count();
        let ghost entry_sizes = self.sizes@;
        let ghost target = spec_lay_scan(
            dom.entries_seq(),
            id as int,
            id as int + 1,
            cc,
            entry_sizes,
            UVec2 { x: 0, y: 0 },
        );
        let mut acc = UVec2 { x: 0, y: 0 };
        let mut i: usize = id + 1;
        while i < n
            invariant
                dom.wf(),
                n == dom.entries_seq().len(),
                id < i <= n,
                self.viewport == old(self).viewport,
                self.sizes@.len() == n,
                spec_lay_scan(dom.entries_seq(), id as int, i as int, cc, self.sizes@, acc)
                    == target,
            decreases n - i,
        {
            let ghost pre = self.sizes@;
            let ghost pre_acc = acc;
            if self.entry_parent(dom, i) == id {
                let s = self.layout_node(dom, i, cc);
                acc = acc.max(s);
                proof {
                    assert(spec_lay_scan(dom.entries_seq(), id as int, i as int, cc, pre, pre_acc)
                        == spec_lay_scan(
                        dom.entries_seq(),
                        id as int,
                        i as int + 1,
                        cc,
                        self.sizes@,
                        acc,
                    ));
                }
            } else {
                proof {
                    assert(spec_lay_scan(dom.entries_seq(), id as int, i as int, cc, pre, pre_acc)
                        == spec_lay_scan(
                        dom.entries_seq(),
                        id as int,
                        i as int + 1,
                        cc,
                        self.sizes@,
                        acc,
                    ));
                }
            }
            i = i + 1;
        }
        proof {
            assert(spec_lay_scan(dom.entries_seq(), id as int, n as int, cc, self.sizes@, acc)
                == (acc, self.sizes@));
        }
        let size = match entry.widget {
            WidgetState::FixedSize(w) => w.layout(c),
            WidgetState::MaxWidth(_) => acc,
            WidgetState::Flexible(_) => c.constrain(acc),
        };
        self.sizes.set(id, size);
        proof {
            assert(size == spec_own_size(dom.entries_seq()[id as int].widget, c, target.0));
            assert(self.sizes@ =~= spec_lay_node(
                dom.entries_seq(),
                id as int,
                c,
                entry_sizes,
            ).1);
        }
        size
    }
}

} // verus!
