//! Tests for the frame lifecycle, viewport handling, layout and draw
//! output.

use frame_atlas::dom::{Dom, WidgetProps};
use frame_atlas::fixed_size::FixedSize;
use frame_atlas::flexible::Flexible;
use frame_atlas::geometry::{FlexFit, UVec2, UNBOUNDED};
use frame_atlas::layout::LayoutDom;
use frame_atlas::max_width::{MaxWidth, MaxWidthWidget};
use frame_atlas::flexible::FlexibleWidget;
use frame_atlas::draw::Output;
use frame_atlas::state::{Event, FrameError, State};

fn props_fixed(x: u32, y: u32) -> WidgetProps {
    WidgetProps::FixedSize(FixedSize::new(UVec2 { x, y }))
}

#[test]
fn start_twice_fails_fatally() {
    let mut state = State::new();
    assert_eq!(state.start(), Ok(()));
    assert_eq!(state.start(), Err(FrameError::DoubleStart));
    // the open frame is still usable after the misuse was reported
    assert!(state.is_building());
    assert_eq!(state.finish(), Ok(()));
}

#[test]
fn finish_without_start_fails_fatally() {
    let mut state = State::new();
    assert_eq!(state.finish(), Err(FrameError::FinishWithoutStart));
    assert_eq!(state.node_count(), 0);
    assert_eq!(state.start(), Ok(()));
    assert_eq!(state.finish(), Ok(()));
    assert_eq!(state.finish(), Err(FrameError::FinishWithoutStart));
}

#[test]
fn repeated_frames_leak_no_state() {
    let mut state = State::new();
    for _ in 0..4 {
        assert_eq!(state.start(), Ok(()));
        let container = state.begin_widget(WidgetProps::MaxWidth(MaxWidth::new(50)));
        let leaf = state.begin_widget(props_fixed(30, 10));
        state.end_widget();
        state.end_widget();
        assert_eq!(state.finish(), Ok(()));
        assert_eq!(container, 0);
        assert_eq!(leaf, 1);
        assert_eq!(state.node_count(), 2);
    }
}

#[test]
fn set_viewport_affects_only_the_next_finish() {
    let mut state = State::new();
    state.handle_event(Event::SetViewport(UVec2 { x: 200, y: 100 }));
    assert_eq!(state.viewport(), UVec2 { x: 200, y: 100 });

    assert_eq!(state.start(), Ok(()));
    let leaf = state.begin_widget(props_fixed(500, 500));
    state.end_widget();
    assert_eq!(state.finish(), Ok(()));
    // the frame's layout used the viewport set before finish
    assert_eq!(state.layout_size(leaf), UVec2 { x: 200, y: 100 });

    // setting the viewport after finish has no retroactive effect
    state.handle_event(Event::SetViewport(UVec2 { x: 90, y: 40 }));
    assert_eq!(state.layout_size(leaf), UVec2 { x: 200, y: 100 });

    // it takes effect on the next finish
    assert_eq!(state.start(), Ok(()));
    let leaf2 = state.begin_widget(props_fixed(500, 500));
    state.end_widget();
    assert_eq!(state.finish(), Ok(()));
    assert_eq!(state.layout_size(leaf2), UVec2 { x: 90, y: 40 });
}

#[test]
fn max_width_clamps_children_and_reports_their_maximum() {
    let mut state = State::new();
    state.handle_event(Event::SetViewport(UVec2 { x: UNBOUNDED, y: UNBOUNDED }));
    assert_eq!(state.start(), Ok(()));
    let container = state.begin_widget(WidgetProps::MaxWidth(MaxWidth::new(100)));
    let narrow = state.begin_widget(props_fixed(80, 10));
    state.end_widget();
    let wide = state.begin_widget(props_fixed(120, 10));
    state.end_widget();
    state.end_widget();
    assert_eq!(state.finish(), Ok(()));

    let narrow_size = state.layout_size(narrow);
    let wide_size = state.layout_size(wide);
    let container_size = state.layout_size(container);
    assert_eq!(narrow_size, UVec2 { x: 80, y: 10 });
    // the wide child was re-clamped to the container's bound
    assert_eq!(wide_size, UVec2 { x: 100, y: 10 });
    assert!(container_size.x <= 100);
    assert_eq!(container_size.x, narrow_size.x.max(wide_size.x));
    assert_eq!(container_size, UVec2 { x: 100, y: 10 });
}

#[test]
fn draw_emits_one_primitive_per_node_in_tree_order() {
    let mut state = State::new();
    state.handle_event(Event::SetViewport(UVec2 { x: 300, y: 300 }));
    assert_eq!(state.start(), Ok(()));
    let root = state.begin_widget(WidgetProps::MaxWidth(MaxWidth::new(60)));
    let child = state.begin_widget(props_fixed(40, 20));
    state.end_widget();
    state.end_widget();
    assert_eq!(state.finish(), Ok(()));

    let output = state.draw();
    assert_eq!(output.primitives.len(), 2);
    assert_eq!(output.primitives[0].node, root);
    assert_eq!(output.primitives[0].size, state.layout_size(root));
    assert_eq!(output.primitives[1].node, child);
    assert_eq!(output.primitives[1].size, UVec2 { x: 40, y: 20 });
}

#[test]
fn flexible_reports_flex_weight_and_fit() {
    let loose = Flexible::new(2);
    assert_eq!(loose.flex, 2);
    assert_eq!(loose.fit, FlexFit::Loose);

    let expanded = Flexible::expanded();
    assert_eq!(expanded.flex, 1);
    assert_eq!(expanded.fit, FlexFit::Tight);

    let mut widget = FlexibleWidget::new();
    assert_eq!(widget.flex(), (0, FlexFit::Loose));
    widget.update(expanded);
    assert_eq!(widget.flex(), (1, FlexFit::Tight));
}

#[test]
fn max_width_widget_defaults_to_unbounded() {
    let mut widget = MaxWidthWidget::new();
    assert_eq!(widget.props.max_width, UNBOUNDED);
    widget.update(MaxWidth::new(64));
    assert_eq!(widget.props.max_width, 64);
}

#[test]
fn show_declares_into_a_standalone_snapshot() {
    let mut dom = Dom::new();
    let mut snapshot = dom.take_snapshot().expect("buffer available");
    assert!(dom.take_snapshot().is_none(), "only one snapshot may be out");

    snapshot.clear();
    let container = MaxWidth::new(48).show(&mut snapshot);
    let leaf = FixedSize::new(UVec2 { x: 90, y: 12 }).show(&mut snapshot);
    snapshot.end();
    let flex = Flexible::new(1).show(&mut snapshot);
    snapshot.end();
    snapshot.end();
    assert_eq!((container, leaf, flex), (0, 1, 2));

    dom.apply(snapshot);
    assert_eq!(dom.node_count(), 3);

    let mut layout = LayoutDom::new();
    layout.viewport = UVec2 { x: 1000, y: 1000 };
    layout.calculate_all(&dom);
    assert_eq!(layout.sizes[leaf], UVec2 { x: 48, y: 12 });

    let output = Output::draw(&dom, &layout);
    assert_eq!(output.primitives.len(), 3);
    assert_eq!(output.primitives[leaf].size, UVec2 { x: 48, y: 12 });
}
