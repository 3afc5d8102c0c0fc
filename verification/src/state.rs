//! The frame lifecycle.
//!
//! `State` owns the persistent tree, the layout results and — while a
//! frame is being built — the active snapshot. A frame runs `start`
//! (hand out a cleared snapshot), declarations, `finish` (apply the
//! snapshot onto the tree and recompute layout under the current
//! viewport), and `draw`. Starting while already building, or finishing
//! without building, is a contract violation reported as a fatal error
//! value, never acted on.

use vstd::prelude::*;
use crate::dom::Dom;
use crate::dom::Snapshot;
use crate::dom::WidgetProps;
use crate::draw::Output;
use crate::draw::PaintRect;
use crate::geometry::UVec2;
use crate::layout::LayoutDom;
use crate::layout::spec_calculate_all;

verus! {

/// The events the engine reacts to.
#[derive(Clone, Copy, Debug, PartialEq, Eq, Structural)]
pub enum Event {
    SetViewport(UVec2),
}

/// Caller misuse of the frame lifecycle. Both are programming errors:
/// the state is left untouched so the driver can fail loudly.
#[derive(Clone, Copy, Debug, PartialEq, Eq, Structural)]
pub enum FrameError {
    DoubleStart,
    FinishWithoutStart,
}

/// The per-frame engine state.
pub struct State {
    dom: Dom,
    layout: LayoutDom,
    active: Option<Snapshot>,
}

impl State {
    /// The persistent tree.
    pub closed spec fn spec_dom(self) -> Dom {
        self.dom
    }

    /// The layout results of the last pass.
    pub closed spec fn spec_layout(self) -> LayoutDom {
        self.layout
    }

    /// The snapshot of the frame being built, if one is open.
    pub closed spec fn spec_active(self) -> Option<Snapshot> {
        self.active
    }

    /// Whether a frame is currently being built.
    pub open spec fn building(self) -> bool {
        self.spec_active() is Some
    }

    /// At most one snapshot is live: one is open exactly while the
    /// tree's buffer is out. The open snapshot is well formed, the tree
    /// is well formed, and the size table covers the tree.
    pub open spec fn wf(self) -> bool {
        &&& self.building() <==> self.spec_dom().snapshot_out()
        &&& self.spec_active() matches Some(s) ==> s.wf()
        &&& self.spec_dom().wf()
        &&& self.spec_layout().sizes@.len() == self.spec_dom().entries_seq().len()
    }

    pub fn new() -> (r: State)
        ensures
            r.wf(),
            !r.building(),
            r.spec_dom().entries_seq().len() == 0,
            r.spec_layout().viewport == (UVec2 { x: 0, y: 0 }),
            r.spec_layout().sizes@.len() == 0,
    {
        let dom = Dom::new();
        let layout = LayoutDom::new();
        State { dom, layout, active: None }
    }

    /// Reacts to an event. Setting the viewport only records the root
    /// constraint for the next `finish`; the sizes already computed do
    /// not change.
    pub fn handle_event(&mut self, event: Event)
        requires
            old(self).wf(),
        ensures
            final(self).wf(),
            final(self).spec_dom() == old(self).spec_dom(),
            final(self).spec_active() == old(self).spec_active(),
            final(self).building() == old(self).building(),
            final(self).spec_layout().sizes@ == old(self).spec_layout().sizes@,
            event matches Event::SetViewport(v) ==> final(self).spec_layout().viewport == v,
    {
        match event {
            Event::SetViewport(viewport) => {
                self.layout.viewport = viewport;
            },
        }
    }

    /// Begins a frame: hands out the tree's snapshot buffer, cleared.
    /// Starting while already building fails with `DoubleStart` and
    /// changes nothing.
    pub fn start(&mut self) -> (r: Result<(), FrameError>)
        requires
            old(self).wf(),
        ensures
            final(self).wf(),
            old(self).building() ==> r == Err::<(), FrameError>(FrameError::DoubleStart) && *final(self) == *old(self),
            !old(self).building() ==> {
                &&& r == Ok::<(), FrameError>(())
                &&& final(self).building()
                &&& final(self).spec_active() matches Some(s) && s.entries_seq().len() == 0
                    && s.stack_seq().len() == 0
                &&& final(self).spec_dom().entries_seq() == old(self).spec_dom().entries_seq()
                &&& final(self).spec_layout() == old(self).spec_layout()
            },
    {
        match self.dom.take_snapshot() {
            Some(mut snapshot) => {
                snapshot.clear();
                self.active = Some(snapshot);
                Ok(())
            },
            None => Err(FrameError::DoubleStart),
        }
    }

    /// Declares a node of the frame under construction and opens it;
    /// the declarations that follow become its children until the
    /// matching `end_widget`.
    pub fn begin_widget(&mut self, props: WidgetProps) -> (id: usize)
        requires
            old(self).wf(),
            old(self).building(),
            old(self).spec_active()->Some_0.entries_seq().len() < usize::MAX,
        ensures
            final(self).wf(),
            final(self).building(),
            final(self).spec_dom() == old(self).spec_dom(),
            final(self).spec_layout() == old(self).spec_layout(),
            id == old(self).spec_active()->Some_0.entries_seq().len(),
            old(self).spec_active()->Some_0.declared(final(self).spec_active()->Some_0, props),
    {
        let mut snapshot = match self.active.take() {
            Some(snapshot) => snapshot,
            None => {
                // unreachable: the caller establishes that a frame is
                // being built
                proof {
                    assert(false);
                }
                Snapshot::new()
            },
        };
        let id = snapshot.begin(props);
        self.active = Some(snapshot);
        id
    }

    /// Closes the innermost open node of the frame under construction.
    pub fn end_widget(&mut self)
        requires
            old(self).wf(),
            old(self).building(),
        ensures
            final(self).wf(),
            final(self).building(),
            final(self).spec_dom() == old(self).spec_dom(),
            final(self).spec_layout() == old(self).spec_layout(),
            final(self).spec_active()->Some_0.entries_seq() == old(self).spec_active()->Some_0.entries_seq(),
            old(self).spec_active()->Some_0.stack_seq().len() > 0 ==> final(self).spec_active()->Some_0.stack_seq() == old(self).spec_active()->Some_0.stack_seq().drop_last(),
            old(self).spec_active()->Some_0.stack_seq().len() == 0 ==> final(self).spec_active()->Some_0.stack_seq() == old(self).spec_active()->Some_0.stack_seq(),
    {
        let mut snapshot = match self.active.take() {
            Some(snapshot) => snapshot,
            None => {
                // unreachable: the caller establishes that a frame is
                // being built
                proof {
                    assert(false);
                }
                Snapshot::new()
            },
        };
        snapshot.end();
        self.active = Some(snapshot);
    }

    /// Ends a frame: applies the snapshot onto the tree — the tree's
    /// nodes become exactly the declarations — and recomputes layout
    /// over the whole tree with the current viewport as the root
    /// constraint. Finishing without a frame open fails with
    /// `FinishWithoutStart` and changes nothing.
    pub fn finish(&mut self) -> (r: Result<(), FrameError>)
        requires
            old(self).wf(),
        ensures
            final(self).wf(),
            !old(self).building() ==> r == Err::<(), FrameError>(FrameError::FinishWithoutStart)
                && *final(self) == *old(self),
            old(self).building() ==> {
                &&& r == Ok::<(), FrameError>(())
                &&& !final(self).building()
                &&& final(self).spec_dom().entries_seq() == old(self).spec_active()->Some_0.entries_seq()
                &&& final(self).spec_layout().viewport == old(self).spec_layout().viewport
                &&& final(self).spec_layout().sizes@ == spec_calculate_all(
                    old(self).spec_active()->Some_0.entries_seq(),
                    old(self).spec_layout().viewport,
                )
            },
    {
        match self.active.take() {
            Some(snapshot) => {
                self.dom.apply(snapshot);
                self.layout.calculate_all(&self.dom);
                Ok(())
            },
            None => Err(FrameError::FinishWithoutStart),
        }
    }

    /// Assembles the draw output for the last finished frame: one
    /// primitive per node, in tree order, with its resolved size.
    pub fn draw(&self) -> (out: Output)
        requires
            self.wf(),
        ensures
            out.primitives@.len() == self.spec_dom().entries_seq().len(),
            forall|i: int|
                0 <= i < self.spec_dom().entries_seq().len() ==> #[trigger] out.primitives@[i]
                    == (PaintRect { node: i as usize, size: self.spec_layout().sizes@[i] }),
    {
        Output::draw(&self.dom, &self.layout)
    }

    /// How many nodes the persistent tree holds.
    pub fn node_count(&self) -> (r: usize)
        ensures
            r == self.spec_dom().entries_seq().len(),
    {
        self.dom.node_count()
    }

    /// The resolved size of node `id` from the last layout pass.
    pub fn layout_size(&self, id: usize) -> (r: UVec2)
        requires
            self.wf(),
            id < self.spec_dom().entries_seq().len(),
        ensures
            r == self.spec_layout().sizes@[id as int],
    {
        self.layout.sizes[id]
    }

    /// The viewport that the next `finish` will use as root constraint.
    pub fn viewport(&self) -> (r: UVec2)
        ensures
            r == self.spec_layout().viewport,
    {
        self.layout.viewport
    }

    /// Whether a frame is currently being built.
    pub fn is_building(&self) -> (r: bool)
        ensures
            r == self.building(),
    {
        self.active.is_some()
    }
}

} // verus!
