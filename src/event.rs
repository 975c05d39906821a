//! The events this subsystem emits, and the append-only sink that queues them.

use vstd::prelude::*;

verus! {

/// Whether a button went down or up.
#[derive(Debug, Copy, Clone, PartialEq, Eq, Structural)]
pub enum ElementState {
    Pressed,
    Released,
}

/// Which tablet button an event is about.
#[derive(Debug, Copy, Clone, PartialEq, Eq, Structural)]
pub enum TabletButton {
    /// The stylus tip touching the surface.
    Tip,
    /// The eraser end touching the surface.
    Eraser,
    /// A barrel button of the stylus, by logical index.
    Pen(u8),
    /// A pad button, by the code the compositor sent.
    Tablet(u32),
}

/// One coalesced stylus sample, in the protocol's own units: position, tilt
/// and rotation in 24.8 fixed point (1/256 of a unit), pressure and distance
/// as raw values out of `AXIS_MAX`.
#[derive(Debug, Copy, Clone, PartialEq, Eq, Structural)]
pub struct PenSample {
    pub x: i32,
    pub y: i32,
    pub pressure: u32,
    pub distance: u32,
    pub tilt_x: i32,
    pub tilt_y: i32,
    pub rotation: i32,
}

/// Full scale of the pressure and distance axes: a raw value is normalised
/// by dividing it by this.
pub const AXIS_MAX: u32 = 65535;

/// The sample a tool holds before any axis was reported.
pub open spec fn zero_sample() -> PenSample {
    PenSample { x: 0, y: 0, pressure: 0, distance: 0, tilt_x: 0, tilt_y: 0, rotation: 0 }
}

/// Events addressed to a window.
#[derive(Debug, Copy, Clone, PartialEq, Eq, Structural)]
pub enum WindowEvent {
    TabletPenEnter { device_id: crate::DeviceId, inverted: bool },
    TabletPenLeave { device_id: crate::DeviceId },
    TabletPenMotion { device_id: crate::DeviceId, sample: PenSample },
    TabletButton { device_id: crate::DeviceId, button: TabletButton, state: ElementState },
}

/// Events about devices coming and going.
#[derive(Debug, Copy, Clone, PartialEq, Eq, Structural)]
pub enum DeviceEvent {
    Added,
    Removed,
}

/// One entry of the sink: a window event with its window, or a device event.
#[derive(Debug, Copy, Clone, PartialEq, Eq, Structural)]
pub enum SinkEvent {
    Window { event: WindowEvent, window: u64 },
    Device { event: DeviceEvent, device_id: crate::DeviceId },
}

/// Append-only queue of emitted events, read later by the event loop.
pub struct EventSink {
    pub events: Vec<SinkEvent>,
}

impl View for EventSink {
    type V = Seq<SinkEvent>;

    open spec fn view(&self) -> Seq<SinkEvent> {
        self.events@
    }
}

impl EventSink {
    /// An empty sink.
    pub fn new() -> (r: EventSink)
        ensures
            r@ == Seq::<SinkEvent>::empty(),
    {
        EventSink { events: Vec::new() }
    }

    /// Appends a window event for `window`.
    pub fn push_window_event(&mut self, event: WindowEvent, window: u64)
        ensures
            final(self)@ == old(self)@.push(SinkEvent::Window { event, window }),
    {
        self.events.push(SinkEvent::Window { event, window });
    }

    /// Appends a device event for `device_id`.
    pub fn push_device_event(&mut self, event: DeviceEvent, device_id: crate::DeviceId)
        ensures
            final(self)@ == old(self)@.push(SinkEvent::Device { event, device_id }),
    {
        self.events.push(SinkEvent::Device { event, device_id });
    }

    /// Number of queued events.
    pub fn len(&self) -> (r: usize)
        ensures
            r == self@.len(),
    {
        self.events.len()
    }
}

} // verus!
