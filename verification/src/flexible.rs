//! A container that reports configurable flex values.
//!
//! A flex participant does not size itself: it reports a flex weight and
//! a fit preference, and a parent flex distributor divides the available
//! space among its participants by weight.

use vstd::prelude::*;
use crate::geometry::FlexFit;
use crate::dom::Snapshot;
use crate::dom::WidgetProps;

verus! {

/// Props of a flex participant: its weight and how tightly it fills the
/// space it is granted.
#[derive(Clone, Copy, Debug, PartialEq, Eq, Structural)]
pub struct Flexible {
    pub flex: u32,
    pub fit: FlexFit,
}

impl Flexible {
    pub fn new(flex: u32) -> (r: Flexible)
        ensures
            r.flex == flex,
            r.fit == FlexFit::Loose,
    {
        Flexible { flex, fit: FlexFit::Loose }
    }

    /// A participant that expands to fill its whole share.
    pub fn expanded() -> (r: Flexible)
        ensures
            r.flex == 1,
            r.fit == FlexFit::Tight,
    {
        Flexible { flex: 1, fit: FlexFit::Tight }
    }

    /// Declares this widget into the open snapshot and leaves it open,
    /// so the declarations that follow become its children until the
    /// matching `Snapshot::end`.
    pub fn show(self, snapshot: &mut Snapshot) -> (id: usize)
        requires
            old(snapshot).wf(),
            old(snapshot).entries_seq().len() < usize::MAX,
        ensures
            id == old(snapshot).entries_seq().len(),
            old(snapshot).declared(*final(snapshot), WidgetProps::Flexible(self)),
            final(snapshot).wf(),
    {
        snapshot.begin(WidgetProps::Flexible(self))
    }
}

/// The persistent state of a flex participant: the props of its latest
/// declaration.
#[derive(Clone, Copy, Debug, PartialEq, Eq, Structural)]
pub struct FlexibleWidget {
    pub props: Flexible,
}

impl FlexibleWidget {
    pub fn new() -> (r: FlexibleWidget)
        ensures
            r.props.flex == 0,
            r.props.fit == FlexFit::Loose,
    {
        FlexibleWidget { props: Flexible { flex: 0, fit: FlexFit::Loose } }
    }

    pub fn update(&mut self, props: Flexible)
        ensures
            final(self).props == props,
    {
        self.props = props;
    }

    /// What this node reports to a parent flex distributor.
    pub fn flex(&self) -> (r: (u32, FlexFit))
        ensures
            r.0 == self.props.flex,
            r.1 == self.props.fit,
    {
        (self.props.flex, self.props.fit)
    }
}

} // verus!
