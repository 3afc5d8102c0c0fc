//! A leaf with a natural size: the simplest participant in the layout
//! protocol. It asks for its natural size and accepts whatever clamp the
//! constraint box imposes.

use vstd::prelude::*;
use crate::geometry::Constraints;
use crate::geometry::UVec2;
use crate::dom::Snapshot;
use crate::dom::WidgetProps;

verus! {

/// Props of the fixed-size leaf: the size it asks for.
#[derive(Clone, Copy, Debug, PartialEq, Eq, Structural)]
pub struct FixedSize {
    pub size: UVec2,
}

impl FixedSize {
    pub fn new(size: UVec2) -> (r: FixedSize)
        ensures
            r.size == size,
    {
        FixedSize { size }
    }

    /// Declares this widget into the open snapshot and leaves it open,
    /// so the declarations that follow become its children until the
    /// matching `Snapshot::end`.
    pub fn show(self, snapshot: &mut Snapshot) -> (id: usize)
        requires
            old(snapshot).wf(),
            old(snapshot).entries_seq().len() < usize::MAX,
        ensures
            id == old(snapshot).entries_seq().len(),
            old(snapshot).declared(*final(snapshot), WidgetProps::FixedSize(self)),
            final(snapshot).wf(),
    {
        snapshot.begin(WidgetProps::FixedSize(self))
    }
}

/// The persistent state of a fixed-size leaf.
#[derive(Clone, Copy, Debug, PartialEq, Eq, Structural)]
pub struct FixedSizeWidget {
    pub props: FixedSize,
}

impl FixedSizeWidget {
    pub fn new() -> (r: FixedSizeWidget)
        ensures
            r.props.size == (UVec2 { x: 0, y: 0 }),
    {
        FixedSizeWidget { props: FixedSize { size: UVec2 { x: 0, y: 0 } } }
    }

    pub fn update(&mut self, props: FixedSize)
        ensures
            final(self).props == props,
    {
        self.props = props;
    }

    /// The leaf policy: the natural size, clamped into the constraints.
    pub fn layout(&self, c: Constraints) -> (r: UVec2)
        ensures
            r == c.spec_constrain(self.props.size),
    {
        c.constrain(self.props.size)
    }
}

} // verus!
