use wayland_tablet::event::{
    ElementState, EventSink, PenSample, SinkEvent, TabletButton, WindowEvent, AXIS_MAX,
};
use wayland_tablet::tablet::{SeatEvent, TabletState};
use wayland_tablet::tool::{stylus_button, PointerHandoff, ToolData, ToolEvent, ToolKind};
use wayland_tablet::DeviceId;

fn fixed(v: i32) -> i32 {
    v * 256
}

fn state_with_tool(id: u32) -> TabletState {
    let mut state = TabletState::new();
    state.seat_event(SeatEvent::ToolAdded { id });
    state
}

fn motion_of(ev: &SinkEvent) -> (u64, PenSample) {
    match ev {
        SinkEvent::Window { event: WindowEvent::TabletPenMotion { sample, .. }, window } => {
            (*window, *sample)
        }
        other => panic!("not a motion event: {:?}", other),
    }
}

#[test]
fn end_to_end_motion_after_proximity() {
    let mut state = state_with_tool(7);
    let mut sink = EventSink::new();
    state.tool_event(7, ToolEvent::ProximityIn { window: 42, serial: 5 }, &mut sink);
    state.tool_event(7, ToolEvent::Motion { x: fixed(10), y: fixed(20) }, &mut sink);
    state.tool_event(7, ToolEvent::Pressure { pressure: 32767 }, &mut sink);
    let before = sink.len();
    state.tool_event(7, ToolEvent::Frame, &mut sink);
    assert_eq!(sink.len(), before + 1);
    let (window, sample) = motion_of(&sink.events[before]);
    assert_eq!(window, 42);
    assert_eq!((sample.x, sample.y), (fixed(10), fixed(20)));
    assert_eq!(sample.x as f64 / 256.0, 10.0);
    assert_eq!(sample.y as f64 / 256.0, 20.0);
    let pressure = sample.pressure as f64 / AXIS_MAX as f64;
    assert_eq!(pressure, 32767.0 / 65535.0);
    assert!((pressure - 0.5000076).abs() < 1e-4);
    let tool = state.tool(7).unwrap();
    assert_eq!(tool.enter_serial, 5);
    assert_eq!(tool.latest_serial, 5);
}

#[test]
fn frame_carries_latest_of_each_field() {
    let mut state = state_with_tool(1);
    let mut sink = EventSink::new();
    state.tool_event(1, ToolEvent::ProximityIn { window: 3, serial: 1 }, &mut sink);
    let before = sink.len();
    let samples = [
        ToolEvent::Motion { x: 1, y: 2 },
        ToolEvent::Pressure { pressure: 100 },
        ToolEvent::Tilt { tilt_x: 5, tilt_y: 6 },
        ToolEvent::Motion { x: 3, y: 4 },
        ToolEvent::Distance { distance: 9 },
        ToolEvent::Rotation { degrees: 90 },
        ToolEvent::Pressure { pressure: 200 },
        ToolEvent::Pressure { pressure: 200 },
    ];
    for ev in samples {
        state.tool_event(1, ev, &mut sink);
    }
    assert_eq!(sink.len(), before);
    state.tool_event(1, ToolEvent::Frame, &mut sink);
    assert_eq!(sink.len(), before + 1);
    let (_, sample) = motion_of(&sink.events[before]);
    assert_eq!(
        sample,
        PenSample { x: 3, y: 4, pressure: 200, distance: 9, tilt_x: 5, tilt_y: 6, rotation: 90 }
    );
    // Fields not reported since the last frame keep their value.
    state.tool_event(1, ToolEvent::Motion { x: 8, y: 8 }, &mut sink);
    state.tool_event(1, ToolEvent::Frame, &mut sink);
    let (_, next) = motion_of(&sink.events[before + 1]);
    assert_eq!(
        next,
        PenSample { x: 8, y: 8, pressure: 200, distance: 9, tilt_x: 5, tilt_y: 6, rotation: 90 }
    );
}

#[test]
fn frame_without_window_emits_nothing() {
    let mut state = state_with_tool(1);
    let mut sink = EventSink::new();
    state.tool_event(1, ToolEvent::Motion { x: 1, y: 1 }, &mut sink);
    state.tool_event(1, ToolEvent::Frame, &mut sink);
    assert_eq!(sink.len(), 0);
}

#[test]
fn proximity_in_then_out() {
    let mut state = state_with_tool(1);
    let mut sink = EventSink::new();
    let entered = state.tool_event(1, ToolEvent::ProximityIn { window: 9, serial: 11 }, &mut sink);
    assert_eq!(
        entered,
        Some(PointerHandoff::Entered { window: 9, enter_serial: 11, latest_serial: 11 })
    );
    let left = state.tool_event(1, ToolEvent::ProximityOut, &mut sink);
    assert_eq!(left, Some(PointerHandoff::Left { window: 9 }));
    assert_eq!(state.tool(1).unwrap().window, None);
    assert_eq!(
        sink.events,
        vec![
            SinkEvent::Window {
                event: WindowEvent::TabletPenEnter { device_id: DeviceId, inverted: false },
                window: 9,
            },
            SinkEvent::Window { event: WindowEvent::TabletPenLeave { device_id: DeviceId }, window: 9 },
        ]
    );
    // A second leave has nothing to leave.
    assert_eq!(state.tool_event(1, ToolEvent::ProximityOut, &mut sink), None);
    assert_eq!(sink.len(), 2);
}

#[test]
fn stylus_button_codes_map_to_indices() {
    assert_eq!(stylus_button(0x14b), Some(0));
    assert_eq!(stylus_button(0x14c), Some(1));
    assert_eq!(stylus_button(0x14d), None);
    let mut state = state_with_tool(1);
    let mut sink = EventSink::new();
    state.tool_event(1, ToolEvent::ProximityIn { window: 2, serial: 1 }, &mut sink);
    let before = sink.len();
    state.tool_event(
        1,
        ToolEvent::Button { button: 0x14c, state: ElementState::Pressed, serial: 30 },
        &mut sink,
    );
    assert_eq!(
        sink.events[before],
        SinkEvent::Window {
            event: WindowEvent::TabletButton {
                device_id: DeviceId,
                button: TabletButton::Pen(1),
                state: ElementState::Pressed,
            },
            window: 2,
        }
    );
    state.tool_event(
        1,
        ToolEvent::Button { button: 0x110, state: ElementState::Pressed, serial: 31 },
        &mut sink,
    );
    assert_eq!(sink.len(), before + 1);
    assert_eq!(state.tool(1).unwrap().latest_serial, 31);
}

#[test]
fn axis_full_scale_and_zero() {
    let mut sink = EventSink::new();
    let mut tool = ToolData::new();
    tool.handle_event(ToolEvent::ProximityIn { window: 1, serial: 1 }, &mut sink);
    tool.handle_event(ToolEvent::Pressure { pressure: 65535 }, &mut sink);
    tool.handle_event(ToolEvent::Distance { distance: 0 }, &mut sink);
    tool.handle_event(ToolEvent::Frame, &mut sink);
    let (_, sample) = motion_of(&sink.events[1]);
    assert_eq!(sample.pressure as f64 / AXIS_MAX as f64, 1.0);
    assert_eq!(sample.distance as f64 / AXIS_MAX as f64, 0.0);
}

#[test]
fn eraser_contact_reports_eraser_button() {
    let mut state = state_with_tool(1);
    let mut sink = EventSink::new();
    state.tool_event(1, ToolEvent::Type { tool_type: ToolKind::Eraser }, &mut sink);
    state.tool_event(1, ToolEvent::ProximityIn { window: 4, serial: 1 }, &mut sink);
    state.tool_event(1, ToolEvent::Down { serial: 2 }, &mut sink);
    assert!(state.tool(1).unwrap().contact);
    state.tool_event(1, ToolEvent::Up, &mut sink);
    assert!(!state.tool(1).unwrap().contact);
    assert_eq!(
        sink.events,
        vec![
            SinkEvent::Window {
                event: WindowEvent::TabletPenEnter { device_id: DeviceId, inverted: true },
                window: 4,
            },
            SinkEvent::Window {
                event: WindowEvent::TabletButton {
                    device_id: DeviceId,
                    button: TabletButton::Eraser,
                    state: ElementState::Pressed,
                },
                window: 4,
            },
            SinkEvent::Window {
                event: WindowEvent::TabletButton {
                    device_id: DeviceId,
                    button: TabletButton::Eraser,
                    state: ElementState::Released,
                },
                window: 4,
            },
        ]
    );
}

#[test]
fn contact_without_window_is_ignored() {
    let mut state = state_with_tool(1);
    let mut sink = EventSink::new();
    state.tool_event(1, ToolEvent::Down { serial: 3 }, &mut sink);
    assert_eq!(sink.len(), 0);
    assert!(!state.tool(1).unwrap().contact);
}

#[test]
fn removed_tool_ignores_events() {
    let mut state = state_with_tool(1);
    let mut sink = EventSink::new();
    state.tool_event(1, ToolEvent::Removed, &mut sink);
    assert_eq!(state.tool(1), None);
    assert_eq!(state.tool_event(1, ToolEvent::ProximityIn { window: 1, serial: 1 }, &mut sink), None);
    state.tool_event(1, ToolEvent::Frame, &mut sink);
    assert_eq!(sink.len(), 0);
    assert_eq!(state.tool(1), None);
}

#[test]
fn tool_added_twice_keeps_state() {
    let mut state = state_with_tool(1);
    let mut sink = EventSink::new();
    state.tool_event(1, ToolEvent::ProximityIn { window: 6, serial: 1 }, &mut sink);
    state.seat_event(SeatEvent::ToolAdded { id: 1 });
    assert_eq!(state.tool(1).unwrap().window, Some(6));
}
