use wayland_tablet::event::{DeviceEvent, ElementState, EventSink, SinkEvent, TabletButton, WindowEvent};
use wayland_tablet::pad::{GroupEvent, PadError, PadEvent};
use wayland_tablet::tablet::{SeatEvent, TabletEvent, TabletState};
use wayland_tablet::DeviceId;

fn state_with_pad(id: u32) -> TabletState {
    let mut state = TabletState::new();
    state.seat_event(SeatEvent::PadAdded { id });
    state
}

#[test]
fn pad_button_goes_to_entered_window() {
    let mut state = state_with_pad(2);
    let mut sink = EventSink::new();
    let button = PadEvent::Button { button: 3, state: ElementState::Released };
    assert_eq!(state.pad_event(2, button, &mut sink), Ok(()));
    assert_eq!(sink.len(), 0);
    assert_eq!(state.pad_event(2, PadEvent::Enter { window: 77 }, &mut sink), Ok(()));
    assert_eq!(state.pad(2).unwrap().window, Some(77));
    assert_eq!(state.pad_event(2, button, &mut sink), Ok(()));
    assert_eq!(
        sink.events,
        vec![SinkEvent::Window {
            event: WindowEvent::TabletButton {
                device_id: DeviceId,
                button: TabletButton::Tablet(3),
                state: ElementState::Released,
            },
            window: 77,
        }]
    );
}

#[test]
fn pad_leave_of_other_window_is_rejected() {
    let mut state = state_with_pad(2);
    let mut sink = EventSink::new();
    state.pad_event(2, PadEvent::Enter { window: 10 }, &mut sink).unwrap();
    assert_eq!(
        state.pad_event(2, PadEvent::Leave { window: 11 }, &mut sink),
        Err(PadError::LeaveMismatch { window: 11, entered: Some(10) })
    );
    assert_eq!(state.pad(2).unwrap().window, Some(10));
    assert_eq!(state.pad_event(2, PadEvent::Leave { window: 10 }, &mut sink), Ok(()));
    assert_eq!(state.pad(2).unwrap().window, None);
    assert_eq!(
        state.pad_event(2, PadEvent::Leave { window: 10 }, &mut sink),
        Err(PadError::LeaveMismatch { window: 10, entered: None })
    );
}

#[test]
fn groups_rings_and_strips_are_kept_in_order() {
    let mut state = state_with_pad(2);
    let mut sink = EventSink::new();
    state.pad_event(2, PadEvent::Group { group: 20 }, &mut sink).unwrap();
    state.pad_event(2, PadEvent::Group { group: 21 }, &mut sink).unwrap();
    state.group_event(20, GroupEvent::Ring { ring: 30 });
    state.group_event(20, GroupEvent::Strip { strip: 31 });
    state.group_event(20, GroupEvent::Ring { ring: 32 });
    assert_eq!(state.pad(2).unwrap().groups, vec![20, 21]);
    let group = state.group(20).unwrap();
    assert_eq!(group.pad, 2);
    assert_eq!(group.rings, vec![30, 32]);
    assert_eq!(group.strips, vec![31]);
    // A group identity already live is not added again.
    state.pad_event(2, PadEvent::Group { group: 20 }, &mut sink).unwrap();
    assert_eq!(state.pad(2).unwrap().groups, vec![20, 21]);
}

#[test]
fn removing_pad_removes_its_groups() {
    let mut state = state_with_pad(2);
    state.seat_event(SeatEvent::PadAdded { id: 3 });
    let mut sink = EventSink::new();
    state.pad_event(2, PadEvent::Group { group: 20 }, &mut sink).unwrap();
    state.pad_event(2, PadEvent::Group { group: 21 }, &mut sink).unwrap();
    state.pad_event(3, PadEvent::Group { group: 22 }, &mut sink).unwrap();
    state.pad_event(2, PadEvent::Enter { window: 5 }, &mut sink).unwrap();
    assert_eq!(state.pad_event(2, PadEvent::Removed, &mut sink), Ok(()));
    assert!(state.pad(2).is_none());
    assert!(state.group(20).is_none());
    assert!(state.group(21).is_none());
    assert_eq!(state.group(22).unwrap().pad, 3);
    // Later messages for the pad and its groups change nothing.
    let button = PadEvent::Button { button: 1, state: ElementState::Pressed };
    assert_eq!(state.pad_event(2, button, &mut sink), Ok(()));
    assert_eq!(state.pad_event(2, PadEvent::Leave { window: 9 }, &mut sink), Ok(()));
    state.group_event(20, GroupEvent::Ring { ring: 40 });
    assert!(state.group(20).is_none());
    assert!(state.pad(2).is_none());
    assert_eq!(sink.len(), 0);
}

#[test]
fn tablet_lifecycle_events() {
    let mut state = TabletState::new();
    let mut sink = EventSink::new();
    state.seat_event(SeatEvent::TabletAdded { id: 8 });
    assert!(state.has_tablet(8));
    state.tablet_event(8, TabletEvent::Done, &mut sink);
    state.tablet_event(8, TabletEvent::Removed, &mut sink);
    assert!(!state.has_tablet(8));
    state.tablet_event(8, TabletEvent::Done, &mut sink);
    state.tablet_event(8, TabletEvent::Removed, &mut sink);
    assert_eq!(
        sink.events,
        vec![
            SinkEvent::Device { event: DeviceEvent::Added, device_id: DeviceId },
            SinkEvent::Device { event: DeviceEvent::Removed, device_id: DeviceId },
        ]
    );
}

#[test]
fn removing_one_tablet_keeps_others() {
    let mut state = TabletState::new();
    let mut sink = EventSink::new();
    state.seat_event(SeatEvent::TabletAdded { id: 1 });
    state.seat_event(SeatEvent::TabletAdded { id: 2 });
    state.seat_event(SeatEvent::TabletAdded { id: 1 });
    state.tablet_event(1, TabletEvent::Removed, &mut sink);
    assert!(!state.has_tablet(1));
    assert!(state.has_tablet(2));
}

#[test]
fn seats_are_found_by_tablet_seat() {
    let mut state = TabletState::new();
    state.new_seat(100, 1);
    state.new_seat(200, 2);
    assert_eq!(state.seat_of(200), Some(2));
    assert_eq!(state.seat_of(100), Some(1));
    assert_eq!(state.seat_of(300), None);
}

#[test]
fn device_id_is_the_single_identity() {
    assert_eq!(DeviceId::dummy(), DeviceId);
}
