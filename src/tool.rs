//! Per-stylus state: capability flag, window association, contact, serials,
//! and the pending sample that a frame event turns into one motion event.

use vstd::prelude::*;

use crate::event::{
    zero_sample, ElementState, EventSink, PenSample, SinkEvent, TabletButton, WindowEvent,
};
use crate::DeviceId;

verus! {

/// Input code of the first stylus barrel button.
pub const BTN_STYLUS: u32 = 0x14b;

/// Input code of the second stylus barrel button.
pub const BTN_STYLUS2: u32 = 0x14c;

/// Physical kind of a tool, as the compositor advertises it.
#[derive(Debug, Copy, Clone, PartialEq, Eq, Structural)]
pub enum ToolKind {
    Pen,
    Eraser,
    Brush,
    Pencil,
    Airbrush,
    Finger,
    Mouse,
    Lens,
    /// A kind this library does not know.
    Unknown,
}

/// A message addressed to one tool.
#[derive(Debug, Copy, Clone, PartialEq, Eq, Structural)]
pub enum ToolEvent {
    Type { tool_type: ToolKind },
    ProximityIn { window: u64, serial: u32 },
    ProximityOut,
    Down { serial: u32 },
    Up,
    /// Position in 24.8 fixed point.
    Motion { x: i32, y: i32 },
    /// Raw pressure, full scale `AXIS_MAX`.
    Pressure { pressure: u32 },
    /// Raw distance, full scale `AXIS_MAX`.
    Distance { distance: u32 },
    /// Tilt in degrees, 24.8 fixed point.
    Tilt { tilt_x: i32, tilt_y: i32 },
    /// Rotation in degrees, 24.8 fixed point.
    Rotation { degrees: i32 },
    Button { button: u32, state: ElementState, serial: u32 },
    Frame,
    Removed,
}

/// What the window under the tool is told, so that it can later set the
/// stylus cursor through the tool.
#[derive(Debug, Copy, Clone, PartialEq, Eq, Structural)]
pub enum PointerHandoff {
    Entered { window: u64, enter_serial: u32, latest_serial: u32 },
    Left { window: u64 },
}

/// State of one tool.
#[derive(Debug, Copy, Clone, PartialEq, Eq)]
pub struct ToolData {
    /// Latched from the tool's type: the tool is an eraser.
    pub eraser: bool,
    /// The window the tool is in proximity of.
    pub window: Option<u64>,
    /// The tool touches the surface.
    pub contact: bool,
    /// Serial of the latest event that carried one.
    pub latest_serial: u32,
    /// Serial of the latest proximity-in.
    pub enter_serial: u32,
    /// Latest value of every axis; becomes visible at the next frame.
    pub sample: PenSample,
}

/// Logical index of a stylus barrel button, for the two codes that have one.
pub open spec fn stylus_button_index(code: u32) -> Option<u8> {
    if code == BTN_STYLUS {
        Some(0u8)
    } else if code == BTN_STYLUS2 {
        Some(1u8)
    } else {
        None
    }
}

/// The button that touching the surface presses.
pub open spec fn contact_button(eraser: bool) -> TabletButton {
    if eraser {
        TabletButton::Eraser
    } else {
        TabletButton::Tip
    }
}

/// A window event for window `w`, as the sink holds it.
pub open spec fn to_window(event: WindowEvent, w: u64) -> SinkEvent {
    SinkEvent::Window { event, window: w }
}

/// The state a new tool starts in.
pub open spec fn fresh_tool() -> ToolData {
    ToolData {
        eraser: false,
        window: None,
        contact: false,
        latest_serial: 0,
        enter_serial: 0,
        sample: zero_sample(),
    }
}

/// The tool's state after `ev`.
pub open spec fn tool_next(t: ToolData, ev: ToolEvent) -> ToolData {
    match ev {
        ToolEvent::Type { tool_type } => ToolData { eraser: tool_type == ToolKind::Eraser, ..t },
        ToolEvent::ProximityIn { window, serial } => ToolData {
            window: Some(window),
            enter_serial: serial,
            latest_serial: serial,
            ..t
        },
        ToolEvent::ProximityOut => ToolData { window: None, ..t },
        ToolEvent::Down { serial } => if t.window is Some {
            ToolData { contact: true, latest_serial: serial, ..t }
        } else {
            t
        },
        ToolEvent::Up => if t.window is Some {
            ToolData { contact: false, ..t }
        } else {
            t
        },
        ToolEvent::Motion { x, y } => ToolData { sample: PenSample { x, y, ..t.sample }, ..t },
        ToolEvent::Pressure { pressure } => ToolData {
            sample: PenSample { pressure, ..t.sample },
            ..t
        },
        ToolEvent::Distance { distance } => ToolData {
            sample: PenSample { distance, ..t.sample },
            ..t
        },
        ToolEvent::Tilt { tilt_x, tilt_y } => ToolData {
            sample: PenSample { tilt_x, tilt_y, ..t.sample },
            ..t
        },
        ToolEvent::Rotation { degrees } => ToolData {
            sample: PenSample { rotation: degrees, ..t.sample },
            ..t
        },
        ToolEvent::Button { serial, .. } => if t.window is Some {
            ToolData { latest_serial: serial, ..t }
        } else {
            t
        },
        ToolEvent::Frame => t,
        ToolEvent::Removed => t,
    }
}

/// The events that `ev` sends to the sink from state `t`.
pub open spec fn tool_emits(t: ToolData, ev: ToolEvent) -> Seq<SinkEvent> {
    match (ev, t.window) {
        (ToolEvent::ProximityIn { window, .. }, _) => seq![
            to_window(WindowEvent::TabletPenEnter { device_id: DeviceId, inverted: t.eraser }, window),
        ],
        (ToolEvent::ProximityOut, Some(w)) => seq![
            to_window(WindowEvent::TabletPenLeave { device_id: DeviceId }, w),
        ],
        (ToolEvent::Down { .. }, Some(w)) => seq![
            to_window(
                WindowEvent::TabletButton {
                    device_id: DeviceId,
                    button: contact_button(t.eraser),
                    state: ElementState::Pressed,
                },
                w,
            ),
        ],
        (ToolEvent::Up, Some(w)) => seq![
            to_window(
                WindowEvent::TabletButton {
                    device_id: DeviceId,
                    button: contact_button(t.eraser),
                    state: ElementState::Released,
                },
                w,
            ),
        ],
        (ToolEvent::Button { button, state, .. }, Some(w)) => match stylus_button_index(button) {
            Some(i) => seq![
                to_window(
                    WindowEvent::TabletButton {
                        device_id: DeviceId,
                        button: TabletButton::Pen(i),
                        state,
                    },
                    w,
                ),
            ],
            None => Seq::empty(),
        },
        (ToolEvent::Frame, Some(w)) => seq![
            to_window(WindowEvent::TabletPenMotion { device_id: DeviceId, sample: t.sample }, w),
        ],
        _ => Seq::empty(),
    }
}

/// What the window is handed on `ev`.
pub open spec fn tool_handoff(t: ToolData, ev: ToolEvent) -> Option<PointerHandoff> {
    match (ev, t.window) {
        (ToolEvent::ProximityIn { window, serial }, _) => Some(
            PointerHandoff::Entered { window, enter_serial: serial, latest_serial: serial },
        ),
        (ToolEvent::ProximityOut, Some(w)) => Some(PointerHandoff::Left { window: w }),
        _ => None,
    }
}

/// Logical index of a stylus barrel button; `None` for any other code.
pub fn stylus_button(code: u32) -> (r: Option<u8>)
    ensures
        r == stylus_button_index(code),
{
    if code == BTN_STYLUS {
        Some(0)
    } else if code == BTN_STYLUS2 {
        Some(1)
    } else {
        None
    }
}

impl ToolData {
    /// A tool as it is when first advertised: no window, no contact, all
    /// axes zero.
    pub fn new() -> (r: ToolData)
        ensures
            r == fresh_tool(),
    {
        ToolData {
            eraser: false,
            window: None,
            contact: false,
            latest_serial: 0,
            enter_serial: 0,
            sample: PenSample {
                x: 0,
                y: 0,
                pressure: 0,
                distance: 0,
                tilt_x: 0,
                tilt_y: 0,
                rotation: 0,
            },
        }
    }

    fn contact_button(&self) -> (r: TabletButton)
        ensures
            r == contact_button(self.eraser),
    {
        if self.eraser {
            TabletButton::Eraser
        } else {
            TabletButton::Tip
        }
    }

    /// Applies one message to the tool, queues what it emits, and returns
    /// what the window under the tool is to be handed.
    pub fn handle_event(&mut self, ev: ToolEvent, sink: &mut EventSink) -> (r: Option<
        PointerHandoff,
    >)
        ensures
            *final(self) == tool_next(*old(self), ev),
            final(sink)@ == old(sink)@ + tool_emits(*old(self), ev),
            r == tool_handoff(*old(self), ev),
    {
        match ev {
            ToolEvent::Type { tool_type } => {
                self.eraser = match tool_type {
                    ToolKind::Eraser => true,
                    _ => false,
                };
                None
            },
            ToolEvent::ProximityIn { window, serial } => {
                self.window = Some(window);
                self.enter_serial = serial;
                self.latest_serial = serial;
                sink.push_window_event(
                    WindowEvent::TabletPenEnter { device_id: DeviceId, inverted: self.eraser },
                    window,
                );
                Some(PointerHandoff::Entered { window, enter_serial: serial, latest_serial: serial })
            },
            ToolEvent::ProximityOut => {
                match self.window {
                    Some(w) => {
                        self.window = None;
                        sink.push_window_event(WindowEvent::TabletPenLeave { device_id: DeviceId }, w);
                        Some(PointerHandoff::Left { window: w })
                    },
                    None => None,
                }
            },
            ToolEvent::Down { serial } => {
                if let Some(w) = self.window {
                    self.contact = true;
                    self.latest_serial = serial;
                    let button = self.contact_button();
                    sink.push_window_event(
                        WindowEvent::TabletButton {
                            device_id: DeviceId,
                            button,
                            state: ElementState::Pressed,
                        },
                        w,
                    );
                }
                None
            },
            ToolEvent::Up => {
                if let Some(w) = self.window {
                    self.contact = false;
                    let button = self.contact_button();
                    sink.push_window_event(
                        WindowEvent::TabletButton {
                            device_id: DeviceId,
                            button,
                            state: ElementState::Released,
                        },
                        w,
                    );
                }
                None
            },
            ToolEvent::Motion { x, y } => {
                self.sample.x = x;
                self.sample.y = y;
                None
            },
            ToolEvent::Pressure { pressure } => {
                self.sample.pressure = pressure;
                None
            },
            ToolEvent::Distance { distance } => {
                self.sample.distance = distance;
                None
            },
            ToolEvent::Tilt { tilt_x, tilt_y } => {
                self.sample.tilt_x = tilt_x;
                self.sample.tilt_y = tilt_y;
                None
            },
            ToolEvent::Rotation { degrees } => {
                self.sample.rotation = degrees;
                None
            },
            ToolEvent::Button { button, state, serial } => {
                if let Some(w) = self.window {
                    self.latest_serial = serial;
                    if let Some(i) = stylus_button(button) {
                        sink.push_window_event(
                            WindowEvent::TabletButton {
                                device_id: DeviceId,
                                button: TabletButton::Pen(i),
                                state,
                            },
                            w,
                        );
                    }
                }
                None
            },
            ToolEvent::Frame => {
                if let Some(w) = self.window {
                    sink.push_window_event(
                        WindowEvent::TabletPenMotion { device_id: DeviceId, sample: self.sample },
                        w,
                    );
                }
                None
            },
            ToolEvent::Removed => None,
        }
    }
}

/// An axis report: buffered by the tool, visible only at the next frame.
pub open spec fn is_sample_event(ev: ToolEvent) -> bool {
    ||| ev is Motion
    ||| ev is Pressure
    ||| ev is Distance
    ||| ev is Tilt
    ||| ev is Rotation
}

/// The tool's state after the messages `evs`, in order.
pub open spec fn run_tool(t: ToolData, evs: Seq<ToolEvent>) -> ToolData
    decreases evs.len(),
{
    if evs.len() == 0 {
        t
    } else {
        tool_next(run_tool(t, evs.drop_last()), evs.last())
    }
}

/// Everything the messages `evs` send to the sink, in order.
pub open spec fn run_emits(t: ToolData, evs: Seq<ToolEvent>) -> Seq<SinkEvent>
    decreases evs.len(),
{
    if evs.len() == 0 {
        Seq::empty()
    } else {
        run_emits(t, evs.drop_last()) + tool_emits(run_tool(t, evs.drop_last()), evs.last())
    }
}

/// The value of one field in the last message of `evs` that reports it, or
/// `before` when none does.
pub open spec fn latest<A>(evs: Seq<ToolEvent>, field: spec_fn(ToolEvent) -> Option<A>, before: A) -> A
    decreases evs.len(),
{
    if evs.len() == 0 {
        before
    } else {
        match field(evs.last()) {
            Some(v) => v,
            None => latest(evs.drop_last(), field, before),
        }
    }
}

/// The position that `ev` reports, if it is a position report.
pub open spec fn reported_position(ev: ToolEvent) -> Option<(i32, i32)> {
    match ev {
        ToolEvent::Motion { x, y } => Some((x, y)),
        _ => None,
    }
}

/// The pressure that `ev` reports, if it is a pressure report.
pub open spec fn reported_pressure(ev: ToolEvent) -> Option<u32> {
    match ev {
        ToolEvent::Pressure { pressure } => Some(pressure),
        _ => None,
    }
}

/// The distance that `ev` reports, if it is a distance report.
pub open spec fn reported_distance(ev: ToolEvent) -> Option<u32> {
    match ev {
        ToolEvent::Distance { distance } => Some(distance),
        _ => None,
    }
}

/// The tilt that `ev` reports, if it is a tilt report.
pub open spec fn reported_tilt(ev: ToolEvent) -> Option<(i32, i32)> {
    match ev {
        ToolEvent::Tilt { tilt_x, tilt_y } => Some((tilt_x, tilt_y)),
        _ => None,
    }
}

/// The rotation that `ev` reports, if it is a rotation report.
pub open spec fn reported_rotation(ev: ToolEvent) -> Option<i32> {
    match ev {
        ToolEvent::Rotation { degrees } => Some(degrees),
        _ => None,
    }
}

/// Sample `s` with each field replaced by the latest value `evs` reports for it.
pub open spec fn latest_sample(s: PenSample, evs: Seq<ToolEvent>) -> PenSample {
    let pos = latest(evs, |e: ToolEvent| reported_position(e), (s.x, s.y));
    let tilt = latest(evs, |e: ToolEvent| reported_tilt(e), (s.tilt_x, s.tilt_y));
    PenSample {
        x: pos.0,
        y: pos.1,
        pressure: latest(evs, |e: ToolEvent| reported_pressure(e), s.pressure),
        distance: latest(evs, |e: ToolEvent| reported_distance(e), s.distance),
        tilt_x: tilt.0,
        tilt_y: tilt.1,
        rotation: latest(evs, |e: ToolEvent| reported_rotation(e), s.rotation),
    }
}

proof fn lemma_samples_only_update_sample(t: ToolData, evs: Seq<ToolEvent>)
    requires
        forall|i: int| 0 <= i < evs.len() ==> is_sample_event(#[trigger] evs[i]),
    ensures
        run_tool(t, evs) == (ToolData { sample: latest_sample(t.sample, evs), ..t }),
        run_emits(t, evs) == Seq::<SinkEvent>::empty(),
    decreases evs.len(),
{
    if evs.len() > 0 {
        let init = evs.drop_last();
        assert forall|i: int| 0 <= i < init.len() implies is_sample_event(#[trigger] init[i]) by {
            assert(init[i] == evs[i]);
        }
        lemma_samples_only_update_sample(t, init);
        assert(is_sample_event(evs[evs.len() - 1]));
        assert(tool_emits(run_tool(t, init), evs.last()) == Seq::<SinkEvent>::empty());
        assert(run_emits(t, evs) =~= Seq::<SinkEvent>::empty());
    }
}

/// Axis reports followed by one frame, with a window associated: nothing is
/// emitted before the frame, and the frame emits exactly one motion event
/// that carries, for every field, the latest value reported for it (the
/// value from before the reports where none was).
pub proof fn frame_emits_latest_sample(t: ToolData, evs: Seq<ToolEvent>)
    requires
        t.window is Some,
        forall|i: int| 0 <= i < evs.len() ==> is_sample_event(#[trigger] evs[i]),
    ensures
        run_emits(t, evs) == Seq::<SinkEvent>::empty(),
        tool_emits(run_tool(t, evs), ToolEvent::Frame) == seq![
            to_window(
                WindowEvent::TabletPenMotion {
                    device_id: DeviceId,
                    sample: latest_sample(t.sample, evs),
                },
                t.window->0,
            ),
        ],
{
    lemma_samples_only_update_sample(t, evs);
}

/// A frame with no window associated emits nothing and changes nothing.
pub proof fn frame_without_window_is_silent(t: ToolData)
    requires
        t.window is None,
    ensures
        tool_emits(t, ToolEvent::Frame) == Seq::<SinkEvent>::empty(),
        tool_next(t, ToolEvent::Frame) == t,
{
}

/// Proximity in then out leaves no window associated, and emits one enter
/// and then one leave, both for the window entered.
pub proof fn proximity_in_then_out(t: ToolData, window: u64, serial: u32)
    ensures
        tool_next(tool_next(t, ToolEvent::ProximityIn { window, serial }), ToolEvent::ProximityOut).window is None,
        tool_emits(t, ToolEvent::ProximityIn { window, serial }) + tool_emits(
            tool_next(t, ToolEvent::ProximityIn { window, serial }),
            ToolEvent::ProximityOut,
        ) == seq![
            to_window(WindowEvent::TabletPenEnter { device_id: DeviceId, inverted: t.eraser }, window),
            to_window(WindowEvent::TabletPenLeave { device_id: DeviceId }, window),
        ],
{
    let t1 = tool_next(t, ToolEvent::ProximityIn { window, serial });
    assert(tool_emits(t, ToolEvent::ProximityIn { window, serial }) + tool_emits(
        t1,
        ToolEvent::ProximityOut,
    ) =~= seq![
        to_window(WindowEvent::TabletPenEnter { device_id: DeviceId, inverted: t.eraser }, window),
        to_window(WindowEvent::TabletPenLeave { device_id: DeviceId }, window),
    ]);
}

/// The two stylus button codes map to indices 0 and 1; a barrel button with
/// any other code emits nothing.
pub proof fn stylus_button_codes(t: ToolData, button: u32, state: ElementState, serial: u32)
    ensures
        stylus_button_index(BTN_STYLUS) == Some(0u8),
        stylus_button_index(BTN_STYLUS2) == Some(1u8),
        button != BTN_STYLUS && button != BTN_STYLUS2 ==> tool_emits(
            t,
            ToolEvent::Button { button, state, serial },
        ) == Seq::<SinkEvent>::empty(),
        t.window is Some && stylus_button_index(button) is Some ==> tool_emits(
            t,
            ToolEvent::Button { button, state, serial },
        ) == seq![
            to_window(
                WindowEvent::TabletButton {
                    device_id: DeviceId,
                    button: TabletButton::Pen(stylus_button_index(button)->0),
                    state,
                },
                t.window->0,
            ),
        ],
{
}

} // verus!
