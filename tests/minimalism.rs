use minimalism::animation::{Action, Animation, ControlFlow, Event, Step};
use minimalism::frame::{interleave, vertex_colors};
use minimalism::layout::{
    buffer_bytes, color_attribute, position_attribute, stride, COLOR_COMPONENTS,
    POSITION_COMPONENTS, TRIANGLE_VERTICES,
};

#[test]
fn stride_is_six_floats() {
    assert_eq!(stride(), 24);
}

#[test]
fn position_attribute_leads_the_record() {
    let p = position_attribute();
    assert_eq!(p.components, POSITION_COMPONENTS);
    assert_eq!(p.components, 2);
    assert_eq!(p.offset, 0);
    assert_eq!(p.stride, 24);
}

#[test]
fn color_attribute_follows_the_position() {
    let c = color_attribute();
    assert_eq!(c.components, COLOR_COMPONENTS);
    assert_eq!(c.components, 4);
    assert_eq!(c.offset, 8);
    assert_eq!(c.stride, 24);
}

#[test]
fn triangle_buffer_is_72_bytes() {
    assert_eq!(buffer_bytes(TRIANGLE_VERTICES), Some(72));
    assert_eq!(buffer_bytes(0), Some(0));
}

#[test]
fn buffer_size_that_overflows_is_none() {
    assert_eq!(buffer_bytes(usize::MAX), None);
    assert_eq!(buffer_bytes(usize::MAX / 24 + 1), None);
    assert_eq!(buffer_bytes(usize::MAX / 24), Some((usize::MAX / 24) * 24));
}

#[test]
fn colors_rotate_from_vertex_to_vertex() {
    let r = vertex_colors([10u32, 20, 30], 99);
    assert_eq!(r, [[10, 20, 30, 99], [30, 10, 20, 99], [20, 30, 10, 99]]);
}

#[test]
fn colors_rotate_with_floats() {
    let r = vertex_colors([0.25f32, 0.5, 0.75], 1.0);
    assert_eq!(r[0], [0.25, 0.5, 0.75, 1.0]);
    assert_eq!(r[1], [0.75, 0.25, 0.5, 1.0]);
    assert_eq!(r[2], [0.5, 0.75, 0.25, 1.0]);
}

#[test]
fn every_channel_sees_each_phase_once() {
    let r = vertex_colors([1u8, 2, 4], 0);
    for v in 0..3 {
        assert_eq!(r[v][0] | r[v][1] | r[v][2], 7);
    }
    for ch in 0..3 {
        assert_eq!(r[0][ch] | r[1][ch] | r[2][ch], 7);
    }
}

#[test]
fn interleave_puts_position_before_color() {
    let positions = [[1u8, 2], [7, 8]];
    let colors = [[3u8, 4, 5, 6], [9, 10, 11, 12]];
    let out = interleave(&positions, &colors);
    assert_eq!(out, vec![1, 2, 3, 4, 5, 6, 7, 8, 9, 10, 11, 12]);
}

#[test]
fn interleave_of_nothing_is_empty() {
    let positions: [[u8; 2]; 0] = [];
    let colors: [[u8; 4]; 0] = [];
    assert!(interleave(&positions, &colors).is_empty());
}

#[test]
fn interleave_triangle_has_eighteen_components() {
    let positions = [[-0.5f32, -0.5], [0.0, 0.5], [0.5, -0.5]];
    let colors = vertex_colors([0.1f32, 0.2, 0.3], 1.0);
    let out = interleave(&positions, &colors);
    assert_eq!(out.len(), 18);
    assert_eq!(out[6], 0.0);
    assert_eq!(out[7], 0.5);
    assert_eq!(out[8], 0.3);
    assert_eq!(out[17], 1.0);
}

#[test]
fn new_animation_starts_at_zero() {
    let a = Animation::new();
    assert_eq!(a.total_nanos, 0);
    assert_eq!(a.elapsed_millis(), 0);
}

#[test]
fn redraw_accumulates_time_and_draws() {
    let mut a = Animation::new();
    let s = a.step(Event::RedrawRequested { elapsed_nanos: 1_500_000 });
    assert_eq!(s, Step { action: Action::Draw { millis: 1 }, control_flow: ControlFlow::Wait });
    let s = a.step(Event::RedrawRequested { elapsed_nanos: 600_000 });
    assert_eq!(s.action, Action::Draw { millis: 2 });
    assert_eq!(a.total_nanos, 2_100_000);
}

#[test]
fn close_request_exits() {
    let mut a = Animation { total_nanos: 5 };
    let s = a.step(Event::CloseRequested);
    assert_eq!(s, Step { action: Action::Idle, control_flow: ControlFlow::Exit });
    assert_eq!(a.total_nanos, 5);
}

#[test]
fn cleared_events_request_a_redraw_and_poll() {
    let mut a = Animation::new();
    let s = a.step(Event::EventsCleared);
    assert_eq!(s, Step { action: Action::RequestRedraw, control_flow: ControlFlow::Poll });
    assert_eq!(a.total_nanos, 0);
}

#[test]
fn other_events_wait() {
    let mut a = Animation { total_nanos: 42 };
    let s = a.step(Event::Other);
    assert_eq!(s, Step { action: Action::Idle, control_flow: ControlFlow::Wait });
    assert_eq!(a.total_nanos, 42);
}

#[test]
fn clock_holds_at_its_largest_value() {
    let mut a = Animation { total_nanos: u128::MAX - 3 };
    let s = a.step(Event::RedrawRequested { elapsed_nanos: 10 });
    assert_eq!(a.total_nanos, u128::MAX);
    assert_eq!(s.action, Action::Draw { millis: u128::MAX / 1_000_000 });
}
