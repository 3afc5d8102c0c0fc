//! The persistent widget tree and the per-frame snapshot.
//!
//! Nodes are stored flat, in declaration order, each holding its typed
//! widget state and the index of its parent (`NO_PARENT` for a root).
//! Because a snapshot is built by nested `begin`/`end` declarations,
//! declaration order is exactly a pre-order walk of the tree: a parent
//! always precedes its children, and siblings appear in declaration
//! order.

use vstd::prelude::*;
use crate::flexible::Flexible;
use crate::flexible::FlexibleWidget;
use crate::max_width::MaxWidth;
use crate::max_width::MaxWidthWidget;
use crate::fixed_size::FixedSize;
use crate::fixed_size::FixedSizeWidget;

verus! {

/// The parent index of a root node.
pub const NO_PARENT: usize = usize::MAX;

/// What a frame declares for one node.
#[derive(Clone, Copy, Debug, PartialEq, Eq, Structural)]
pub enum WidgetProps {
    Flexible(Flexible),
    MaxWidth(MaxWidth),
    FixedSize(FixedSize),
}

/// The typed state a tree node holds.
#[derive(Clone, Copy, Debug, PartialEq, Eq, Structural)]
pub enum WidgetState {
    Flexible(FlexibleWidget),
    MaxWidth(MaxWidthWidget),
    FixedSize(FixedSizeWidget),
}

/// The widget state a first declaration with `props` produces: a fresh
/// widget brought up to date with the declared props.
pub open spec fn initial_widget(props: WidgetProps) -> WidgetState {
    match props {
        WidgetProps::Flexible(p) => WidgetState::Flexible(FlexibleWidget { props: p }),
        WidgetProps::MaxWidth(p) => WidgetState::MaxWidth(MaxWidthWidget { props: p }),
        WidgetProps::FixedSize(p) => WidgetState::FixedSize(FixedSizeWidget { props: p }),
    }
}

/// One node of the tree: its widget state and its parent's index.
#[derive(Clone, Copy, Debug, PartialEq, Eq, Structural)]
pub struct WidgetEntry {
    pub widget: WidgetState,
    pub parent: usize,
}

/// A parent reference is sound when it points at an earlier node, so the
/// entries form a forest in pre-order.
pub open spec fn parent_ok(parent: usize, i: int) -> bool {
    parent == NO_PARENT || parent < i
}

/// The transient declaration buffer of one frame. `begin` appends a node
/// under the innermost open node and opens it; `end` closes the
/// innermost open node. The buffer is consumed whole by `Dom::apply`.
pub struct Snapshot {
    entries: Vec<WidgetEntry>,
    stack: Vec<usize>,
}

impl Snapshot {
    /// The declared nodes, in declaration (pre-)order.
    pub closed spec fn entries_seq(self) -> Seq<WidgetEntry> {
        self.entries@
    }

    /// The indices of the currently open nodes, outermost first.
    pub closed spec fn stack_seq(self) -> Seq<usize> {
        self.stack@
    }

    pub open spec fn wf(self) -> bool {
        &&& forall|i: int|
            0 <= i < self.entries_seq().len() ==> parent_ok(
                (#[trigger] self.entries_seq()[i]).parent,
                i,
            )
        &&& forall|j: int|
            0 <= j < self.stack_seq().len() ==> (#[trigger] self.stack_seq()[j])
                < self.entries_seq().len()
    }

    /// The parent the next declaration will receive.
    pub open spec fn spec_parent(self) -> usize {
        if self.stack_seq().len() == 0 {
            NO_PARENT
        } else {
            self.stack_seq().last()
        }
    }

    /// The exact effect of declaring `props`: one node appended under
    /// the innermost open node, and that node opened.
    pub open spec fn declared(self, post: Snapshot, props: WidgetProps) -> bool {
        &&& post.entries_seq() == self.entries_seq().push(
            WidgetEntry { widget: initial_widget(props), parent: self.spec_parent() },
        )
        &&& post.stack_seq() == self.stack_seq().push(self.entries_seq().len() as usize)
    }

    pub fn new() -> (r: Snapshot)
        ensures
            r.entries_seq().len() == 0,
            r.stack_seq().len() == 0,
            r.wf(),
    {
        Snapshot { entries: Vec::new(), stack: Vec::new() }
    }

    /// Empties the buffer for a new frame.
    pub fn clear(&mut self)
        ensures
            final(self).entries_seq().len() == 0,
            final(self).stack_seq().len() == 0,
            final(self).wf(),
    {
        self.entries.clear();
        self.stack.clear();
    }

    /// Declares a node under the innermost open node and opens it,
    /// returning its index.
    pub fn begin(&mut self, props: WidgetProps) -> (id: usize)
        requires
            old(self).wf(),
            old(self).entries_seq().len() < usize::MAX,
        ensures
            id == old(self).entries_seq().len(),
            old(self).declared(*final(self), props),
            final(self).wf(),
    {
        let id = self.entries.len();
        let parent: usize = if self.stack.len() == 0 {
            NO_PARENT
        } else {
            self.stack[self.stack.len() - 1]
        };
        let widget = match props {
            WidgetProps::Flexible(p) => {
                let mut w = FlexibleWidget::new();
                w.update(p);
                WidgetState::Flexible(w)
            },
            WidgetProps::MaxWidth(p) => {
                let mut w = MaxWidthWidget::new();
                w.update(p);
                WidgetState::MaxWidth(w)
            },
            WidgetProps::FixedSize(p) => {
                let mut w = FixedSizeWidget::new();
                w.update(p);
                WidgetState::FixedSize(w)
            },
        };
        self.entries.push(WidgetEntry { widget, parent });
        self.stack.push(id);
        id
    }

    /// Closes the innermost open node; does nothing when none is open.
    pub fn end(&mut self)
        requires
            old(self).wf(),
        ensures
            final(self).entries_seq() == old(self).entries_seq(),
            old(self).stack_seq().len() > 0 ==> final(self).stack_seq() == old(
                self,
            ).stack_seq().drop_last(),
            old(self).stack_seq().len() == 0 ==> final(self).stack_seq() == old(self).stack_seq(),
            final(self).wf(),
    {
        if self.stack.len() > 0 {
            let _ = self.stack.pop();
        }
    }
}

/// The persistent widget tree. It owns one snapshot buffer: a frame
/// takes it with `take_snapshot`, fills it, and hands it back through
/// `apply`, which replaces the tree's contents with the declarations.
pub struct Dom {
    entries: Vec<WidgetEntry>,
    snapshot_taken: bool,
}

impl Dom {
    /// The tree's nodes, in pre-order.
    pub closed spec fn entries_seq(self) -> Seq<WidgetEntry> {
        self.entries@
    }

    /// Whether the snapshot buffer is currently handed out.
    pub closed spec fn snapshot_out(self) -> bool {
        self.snapshot_taken
    }

    pub open spec fn wf(self) -> bool {
        forall|i: int|
            0 <= i < self.entries_seq().len() ==> parent_ok(
                (#[trigger] self.entries_seq()[i]).parent,
                i,
            )
    }

    pub fn new() -> (r: Dom)
        ensures
            r.entries_seq().len() == 0,
            !r.snapshot_out(),
            r.wf(),
    {
        Dom { entries: Vec::new(), snapshot_taken: false }
    }

    /// Hands out the snapshot buffer, or `None` when it is already out.
    pub fn take_snapshot(&mut self) -> (r: Option<Snapshot>)
        ensures
            old(self).snapshot_out() ==> r is None && *final(self) == *old(self),
            !old(self).snapshot_out() ==> {
                &&& r matches Some(s) && s.entries_seq().len() == 0 && s.stack_seq().len() == 0
                    && s.wf()
                &&& final(self).snapshot_out()
                &&& final(self).entries_seq() == old(self).entries_seq()
            },
    {
        if self.snapshot_taken {
            None
        } else {
            self.snapshot_taken = true;
            Some(Snapshot::new())
        }
    }

    /// Reconciles the declarations onto the tree — the tree's nodes
    /// become exactly the snapshot's — and returns the buffer to the
    /// tree, ready to be taken again.
    pub fn apply(&mut self, snapshot: Snapshot)
        requires
            snapshot.wf(),
        ensures
            final(self).entries_seq() == snapshot.entries_seq(),
            !final(self).snapshot_out(),
            final(self).wf(),
    {
        let Snapshot { entries, .. } = snapshot;
        self.entries = entries;
        self.snapshot_taken = false;
    }

    pub fn node_count(&self) -> (r: usize)
        ensures
            r == self.entries_seq().len(),
    {
        self.entries.len()
    }

    pub fn entry(&self, i: usize) -> (r: &WidgetEntry)
        requires
            i < self.entries_seq().len(),
        ensures
            *r == self.entries_seq()[i as int],
    {
        &self.entries[i]
    }
}

} // verus!
