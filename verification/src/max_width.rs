//! A box that enforces a maximum width upon its children.

use vstd::prelude::*;
use crate::geometry::Constraints;
use crate::geometry::UVec2;
use crate::geometry::UNBOUNDED;
use crate::dom::Snapshot;
use crate::dom::WidgetProps;

verus! {

/// Props of the max-width box: the horizontal upper bound it imposes,
/// `UNBOUNDED` for none.
#[derive(Clone, Copy, Debug, PartialEq, Eq, Structural)]
pub struct MaxWidth {
    pub max_width: u32,
}

impl MaxWidth {
    pub fn new(max_width: u32) -> (r: MaxWidth)
        ensures
            r.max_width == max_width,
    {
        MaxWidth { max_width }
    }

    /// Declares this widget into the open snapshot and leaves it open,
    /// so the declarations that follow become its children until the
    /// matching `Snapshot::end`.
    pub fn show(self, snapshot: &mut Snapshot) -> (id: usize)
        requires
            old(snapshot).wf(),
            old(snapshot).entries_seq().len() < usize::MAX,
        ensures
            id == old(snapshot).entries_seq().len(),
            old(snapshot).declared(*final(snapshot), WidgetProps::MaxWidth(self)),
            final(snapshot).wf(),
    {
        snapshot.begin(WidgetProps::MaxWidth(self))
    }
}

/// The persistent state of a max-width box: the props of its latest
/// declaration.
#[derive(Clone, Copy, Debug, PartialEq, Eq, Structural)]
pub struct MaxWidthWidget {
    pub props: MaxWidth,
}

impl MaxWidthWidget {
    pub fn new() -> (r: MaxWidthWidget)
        ensures
            r.props.max_width == UNBOUNDED,
    {
        MaxWidthWidget { props: MaxWidth { max_width: UNBOUNDED } }
    }

    pub fn update(&mut self, props: MaxWidth)
        ensures
            final(self).props == props,
    {
        self.props = props;
    }

    /// The layout policy's first half: tighten only the horizontal upper
    /// bound before delegating to the children. The second half is the
    /// component-wise maximum of the children's sizes, which the layout
    /// walk aggregates.
    pub fn child_constraints(&self, c: Constraints) -> (r: Constraints)
        ensures
            r.min == c.min,
            r.max.y == c.max.y,
            r.max.x == if c.max.x <= self.props.max_width {
                c.max.x
            } else {
                self.props.max_width
            },
    {
        let x = if c.max.x <= self.props.max_width {
            c.max.x
        } else {
            self.props.max_width
        };
        Constraints { min: c.min, max: UVec2 { x, y: c.max.y } }
    }
}

} // verus!
