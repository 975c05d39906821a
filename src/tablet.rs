//! The seat's tablet registry: live tablets, tools, pads and pad groups keyed
//! by protocol identity, and the routing of each message to its object.

use vstd::prelude::*;

use ahash::AHashMap;

use crate::event::EventSink;
use crate::event::{DeviceEvent, SinkEvent, TabletButton, WindowEvent};
use crate::pad::{
    fresh_group, fresh_pad, GroupEvent, GroupView, PadData, PadError, PadEvent, PadGroup, PadView,
};
use crate::table::{
    group_entries, group_table_get, group_table_insert, group_table_remove, new_group_table,
    new_pad_table, new_tool_table, pad_entries, pad_table_get, pad_table_insert, pad_table_remove,
    tool_entries, tool_table_get, tool_table_insert, tool_table_remove,
};
use crate::tool::{
    fresh_tool, to_window, tool_emits, tool_handoff, tool_next, PointerHandoff, ToolData,
    ToolEvent,
};
use crate::DeviceId;

verus! {

/// Each group is listed by the pad it names as owner, and each group a pad
/// lists exists and names that pad.
pub open spec fn groups_consistent(pads: Map<u32, PadView>, groups: Map<u32, GroupView>) -> bool {
    &&& forall|g: u32| #[trigger]
        groups.contains_key(g) ==> pads.contains_key(groups[g].pad) && pads[groups[g].pad].groups.contains(g)
    &&& forall|p: u32, g: u32|
        pads.contains_key(p) && #[trigger] pads[p].groups.contains(g) ==> groups.contains_key(g)
            && groups[g].pad == p
}

/// A message addressed to a tablet seat: a new object was advertised.
#[derive(Debug, Copy, Clone, PartialEq, Eq, Structural)]
pub enum SeatEvent {
    TabletAdded { id: u32 },
    ToolAdded { id: u32 },
    PadAdded { id: u32 },
}

/// A message addressed to one tablet.
#[derive(Debug, Copy, Clone, PartialEq, Eq, Structural)]
pub enum TabletEvent {
    /// The tablet's description is complete.
    Done,
    Removed,
}

/// The live tablets after `ev`; an identity already live is not added again.
pub open spec fn seat_tablets_after(s: Set<u32>, ev: SeatEvent) -> Set<u32> {
    match ev {
        SeatEvent::TabletAdded { id } => s.insert(id),
        _ => s,
    }
}

/// The tool table after `ev`; an identity already live keeps its state.
pub open spec fn seat_tools_after(m: Map<u32, ToolData>, ev: SeatEvent) -> Map<u32, ToolData> {
    match ev {
        SeatEvent::ToolAdded { id } => if m.contains_key(id) {
            m
        } else {
            m.insert(id, fresh_tool())
        },
        _ => m,
    }
}

/// The pad table after `ev`; an identity already live keeps its state.
pub open spec fn seat_pads_after(m: Map<u32, PadView>, ev: SeatEvent) -> Map<u32, PadView> {
    match ev {
        SeatEvent::PadAdded { id } => if m.contains_key(id) {
            m
        } else {
            m.insert(id, fresh_pad())
        },
        _ => m,
    }
}

/// The live tablets after `ev` reaches tablet `id`.
pub open spec fn tablets_after(s: Set<u32>, id: u32, ev: TabletEvent) -> Set<u32> {
    match ev {
        TabletEvent::Removed => s.remove(id),
        TabletEvent::Done => s,
    }
}

/// What `ev` sends to the sink when it reaches tablet `id`: nothing for a
/// tablet that is not live.
pub open spec fn tablets_emit(s: Set<u32>, id: u32, ev: TabletEvent) -> Seq<SinkEvent> {
    if !s.contains(id) {
        Seq::empty()
    } else {
        match ev {
            TabletEvent::Done => seq![
                SinkEvent::Device { event: DeviceEvent::Added, device_id: DeviceId },
            ],
            TabletEvent::Removed => seq![
                SinkEvent::Device { event: DeviceEvent::Removed, device_id: DeviceId },
            ],
        }
    }
}

/// The group table after `ev` reaches group `g`: a new ring or strip joins
/// it; a message for an absent group changes nothing.
pub open spec fn group_after(groups: Map<u32, GroupView>, g: u32, ev: GroupEvent) -> Map<
    u32,
    GroupView,
> {
    if !groups.contains_key(g) {
        groups
    } else {
        match ev {
            GroupEvent::Ring { ring } => groups.insert(
                g,
                GroupView { rings: groups[g].rings.push(ring), ..groups[g] },
            ),
            GroupEvent::Strip { strip } => groups.insert(
                g,
                GroupView { strips: groups[g].strips.push(strip), ..groups[g] },
            ),
        }
    }
}

/// The tool table after `ev` reaches tool `id`: a message for an absent tool
/// changes nothing, a removal drops the tool.
pub open spec fn tools_after(m: Map<u32, ToolData>, id: u32, ev: ToolEvent) -> Map<u32, ToolData> {
    if !m.contains_key(id) {
        m
    } else if ev is Removed {
        m.remove(id)
    } else {
        m.insert(id, tool_next(m[id], ev))
    }
}

/// What `ev` sends to the sink when it reaches tool `id`.
pub open spec fn tools_emit(m: Map<u32, ToolData>, id: u32, ev: ToolEvent) -> Seq<SinkEvent> {
    if m.contains_key(id) {
        tool_emits(m[id], ev)
    } else {
        Seq::empty()
    }
}

/// The pad table after `ev` reaches pad `p`: a message for an absent pad
/// changes nothing; a group already live is not added again; a leave that
/// names another window than the entered one changes nothing.
pub open spec fn pads_after(
    pads: Map<u32, PadView>,
    groups: Map<u32, GroupView>,
    p: u32,
    ev: PadEvent,
) -> Map<u32, PadView> {
    if !pads.contains_key(p) {
        pads
    } else {
        let d = pads[p];
        match ev {
            PadEvent::Group { group } => if groups.contains_key(group) {
                pads
            } else {
                pads.insert(p, PadView { groups: d.groups.push(group), ..d })
            },
            PadEvent::Button { .. } => pads,
            PadEvent::Enter { window } => pads.insert(p, PadView { window: Some(window), ..d }),
            PadEvent::Leave { window } => if d.window == Some(window) {
                pads.insert(p, PadView { window: None, ..d })
            } else {
                pads
            },
            PadEvent::Removed => pads.remove(p),
        }
    }
}

/// The group table after `ev` reaches pad `p`: a new group joins it, and a
/// removal takes every group of the pad with it.
pub open spec fn groups_after(
    pads: Map<u32, PadView>,
    groups: Map<u32, GroupView>,
    p: u32,
    ev: PadEvent,
) -> Map<u32, GroupView> {
    if !pads.contains_key(p) {
        groups
    } else {
        match ev {
            PadEvent::Group { group } => if groups.contains_key(group) {
                groups
            } else {
                groups.insert(group, fresh_group(p))
            },
            PadEvent::Removed => groups.remove_keys(pads[p].groups.to_set()),
            _ => groups,
        }
    }
}

/// What `ev` sends to the sink when it reaches pad `p`: a button event for
/// the entered window, if any.
pub open spec fn pads_emit(pads: Map<u32, PadView>, p: u32, ev: PadEvent) -> Seq<SinkEvent> {
    match ev {
        PadEvent::Button { button, state } => if pads.contains_key(p) && pads[p].window is Some {
            seq![
                to_window(
                    WindowEvent::TabletButton {
                        device_id: DeviceId,
                        button: TabletButton::Tablet(button),
                        state,
                    },
                    pads[p].window->0,
                ),
            ]
        } else {
            Seq::empty()
        },
        _ => Seq::empty(),
    }
}

/// Whether `ev` is accepted by pad `p`: only a leave naming another window
/// than the entered one is refused.
pub open spec fn pads_outcome(pads: Map<u32, PadView>, p: u32, ev: PadEvent) -> Result<
    (),
    PadError,
> {
    match ev {
        PadEvent::Leave { window } => if pads.contains_key(p) && pads[p].window != Some(window) {
            Err(PadError::LeaveMismatch { window, entered: pads[p].window })
        } else {
            Ok(())
        },
        _ => Ok(()),
    }
}

/// Removing a pad takes all of its groups with it: afterwards no live group
/// names the pad as owner, and the tables stay consistent.
pub proof fn removed_pad_leaves_no_groups(
    pads: Map<u32, PadView>,
    groups: Map<u32, GroupView>,
    p: u32,
)
    requires
        groups_consistent(pads, groups),
        pads.contains_key(p),
    ensures
        !pads_after(pads, groups, p, PadEvent::Removed).contains_key(p),
        forall|g: u32| #[trigger]
            groups_after(pads, groups, p, PadEvent::Removed).contains_key(g) ==> groups_after(
                pads,
                groups,
                p,
                PadEvent::Removed,
            )[g].pad != p,
        groups_consistent(
            pads_after(pads, groups, p, PadEvent::Removed),
            groups_after(pads, groups, p, PadEvent::Removed),
        ),
{
    let pads1 = pads.remove(p);
    let groups1 = groups.remove_keys(pads[p].groups.to_set());
    assert forall|g: u32| #[trigger] groups1.contains_key(g) implies groups1[g].pad != p
        && pads1.contains_key(groups1[g].pad) && pads1[groups1[g].pad].groups.contains(g) by {
        assert(!pads[p].groups.to_set().contains(g));
    }
    assert forall|q: u32, g: u32|
        pads1.contains_key(q) && #[trigger] pads1[q].groups.contains(g) implies groups1.contains_key(g)
        && groups1[g].pad == q by {
        assert(groups.contains_key(g) && groups[g].pad == q);
        if pads[p].groups.to_set().contains(g) {
            assert(pads[p].groups.contains(g));
        }
    }
}

/// A leave that names another window than the one a live pad is entered in
/// is refused and changes neither table; a leave that names it clears the
/// association.
pub proof fn pad_leave_must_match(
    pads: Map<u32, PadView>,
    groups: Map<u32, GroupView>,
    p: u32,
    window: u64,
)
    requires
        pads.contains_key(p),
    ensures
        pads[p].window != Some(window) ==> pads_outcome(pads, p, PadEvent::Leave { window })
            == Err::<(), PadError>(PadError::LeaveMismatch { window, entered: pads[p].window }),
        pads[p].window != Some(window) ==> pads_after(pads, groups, p, PadEvent::Leave { window })
            == pads,
        pads[p].window == Some(window) ==> pads_outcome(pads, p, PadEvent::Leave { window }) is Ok
            && pads_after(pads, groups, p, PadEvent::Leave { window })[p].window is None,
        groups_after(pads, groups, p, PadEvent::Leave { window }) == groups,
{
}

/// A tool that was removed ignores every later message: its table stays as
/// the removal left it and nothing is emitted.
pub proof fn removed_tool_ignores_events(m: Map<u32, ToolData>, id: u32, ev: ToolEvent)
    ensures
        !tools_after(m, id, ToolEvent::Removed).contains_key(id),
        tools_after(tools_after(m, id, ToolEvent::Removed), id, ev) == tools_after(
            m,
            id,
            ToolEvent::Removed,
        ),
        tools_emit(tools_after(m, id, ToolEvent::Removed), id, ev) == Seq::<SinkEvent>::empty(),
{
}

/// A pad that was removed ignores every later message: its tables stay as
/// the removal left them, nothing is emitted and nothing is refused.
pub proof fn removed_pad_ignores_events(
    pads: Map<u32, PadView>,
    groups: Map<u32, GroupView>,
    p: u32,
    ev: PadEvent,
)
    ensures
        ({
            let pads1 = pads_after(pads, groups, p, PadEvent::Removed);
            let groups1 = groups_after(pads, groups, p, PadEvent::Removed);
            &&& pads_after(pads1, groups1, p, ev) == pads1
            &&& groups_after(pads1, groups1, p, ev) == groups1
            &&& pads_emit(pads1, p, ev) == Seq::<SinkEvent>::empty()
            &&& pads_outcome(pads1, p, ev) == Ok::<(), PadError>(())
        }),
{
}

/// A tablet that was removed ignores every later message: it stays absent
/// and nothing is emitted.
pub proof fn removed_tablet_ignores_events(s: Set<u32>, id: u32, ev: TabletEvent)
    ensures
        !tablets_after(s, id, TabletEvent::Removed).contains(id),
        tablets_after(tablets_after(s, id, TabletEvent::Removed), id, ev) == tablets_after(
            s,
            id,
            TabletEvent::Removed,
        ),
        tablets_emit(tablets_after(s, id, TabletEvent::Removed), id, ev) == Seq::<SinkEvent>::empty(),
{
    assert(tablets_after(tablets_after(s, id, TabletEvent::Removed), id, ev) =~= tablets_after(
        s,
        id,
        TabletEvent::Removed,
    ));
}

/// Changing the window of a live pad keeps the tables consistent.
proof fn lemma_window_change_consistent(
    pads: Map<u32, PadView>,
    groups: Map<u32, GroupView>,
    p: u32,
    w: Option<u64>,
)
    requires
        groups_consistent(pads, groups),
        pads.contains_key(p),
    ensures
        groups_consistent(pads.insert(p, PadView { window: w, ..pads[p] }), groups),
{
    let pads1 = pads.insert(p, PadView { window: w, ..pads[p] });
    assert forall|g: u32| #[trigger] groups.contains_key(g) implies pads1.contains_key(groups[g].pad)
        && pads1[groups[g].pad].groups.contains(g) by {}
    assert forall|q: u32, g: u32|
        pads1.contains_key(q) && #[trigger] pads1[q].groups.contains(g) implies groups.contains_key(g)
        && groups[g].pad == q by {
        assert(pads[q].groups.contains(g));
    }
}

/// Adding a group that is not yet live to a live pad keeps the tables
/// consistent.
proof fn lemma_group_added_consistent(
    pads: Map<u32, PadView>,
    groups: Map<u32, GroupView>,
    p: u32,
    g: u32,
)
    requires
        groups_consistent(pads, groups),
        pads.contains_key(p),
        !groups.contains_key(g),
    ensures
        groups_consistent(
            pads.insert(p, PadView { groups: pads[p].groups.push(g), ..pads[p] }),
            groups.insert(g, fresh_group(p)),
        ),
{
    let pads1 = pads.insert(p, PadView { groups: pads[p].groups.push(g), ..pads[p] });
    let groups1 = groups.insert(g, fresh_group(p));
    assert forall|h: u32| #[trigger] groups1.contains_key(h) implies pads1.contains_key(groups1[h].pad)
        && pads1[groups1[h].pad].groups.contains(h) by {
        if h == g {
            assert(pads1[p].groups[pads1[p].groups.len() - 1] == g);
        } else {
            let q = groups[h].pad;
            assert(pads[q].groups.contains(h));
            if q == p {
                let k = choose|k: int| 0 <= k < pads[p].groups.len() && pads[p].groups[k] == h;
                assert(pads1[p].groups[k] == h);
            }
        }
    }
    assert forall|q: u32, h: u32|
        pads1.contains_key(q) && #[trigger] pads1[q].groups.contains(h) implies groups1.contains_key(h)
        && groups1[h].pad == q by {
        if q == p {
            let k = choose|k: int| 0 <= k < pads1[p].groups.len() && pads1[p].groups[k] == h;
            if k < pads[p].groups.len() {
                assert(pads[p].groups[k] == h);
                assert(pads[p].groups.contains(h));
            }
        } else {
            assert(pads[q].groups.contains(h));
        }
    }
}

/// The tablet registry of a seat.
pub struct TabletState {
    seats: Vec<(u32, u32)>,
    tablets: Vec<u32>,
    pads: AHashMap<u32, PadData>,
    tools: AHashMap<u32, ToolData>,
    groups: AHashMap<u32, PadGroup>,
}

impl TabletState {
    /// Bound tablet seats, each with the seat it belongs to.
    pub closed spec fn seat_list(&self) -> Seq<(u32, u32)> {
        self.seats@
    }

    /// Live tablets.
    pub closed spec fn tablet_set(&self) -> Set<u32> {
        self.tablets@.to_set()
    }

    /// Live tools.
    pub closed spec fn tool_map(&self) -> Map<u32, ToolData> {
        tool_entries(self.tools)
    }

    /// Live pads.
    pub closed spec fn pad_map(&self) -> Map<u32, PadView> {
        pad_entries(self.pads).map_values(|d: PadData| d@)
    }

    /// Live pad groups.
    pub closed spec fn group_map(&self) -> Map<u32, GroupView> {
        group_entries(self.groups).map_values(|g: PadGroup| g@)
    }

    /// The registry's invariant: groups are consistent with the pads that
    /// own them.
    pub closed spec fn wf(&self) -> bool {
        groups_consistent(self.pad_map(), self.group_map())
    }

    /// An empty registry.
    pub fn new() -> (r: TabletState)
        ensures
            r.wf(),
            r.seat_list() == Seq::<(u32, u32)>::empty(),
            r.tablet_set() == Set::<u32>::empty(),
            r.tool_map() == Map::<u32, ToolData>::empty(),
            r.pad_map() == Map::<u32, PadView>::empty(),
            r.group_map() == Map::<u32, GroupView>::empty(),
    {
        let r = TabletState {
            seats: Vec::new(),
            tablets: Vec::new(),
            pads: new_pad_table(),
            tools: new_tool_table(),
            groups: new_group_table(),
        };
        assert(r.tablet_set() =~= Set::<u32>::empty());
        assert(r.tool_map() =~= Map::<u32, ToolData>::empty());
        assert(r.pad_map() =~= Map::<u32, PadView>::empty());
        assert(r.group_map() =~= Map::<u32, GroupView>::empty());
        r
    }

    /// Records a bound tablet seat and the seat it belongs to.
    pub fn new_seat(&mut self, tablet_seat: u32, seat: u32)
        requires
            old(self).wf(),
        ensures
            final(self).wf(),
            final(self).seat_list() == old(self).seat_list().push((tablet_seat, seat)),
            final(self).tablet_set() == old(self).tablet_set(),
            final(self).tool_map() == old(self).tool_map(),
            final(self).pad_map() == old(self).pad_map(),
            final(self).group_map() == old(self).group_map(),
    {
        self.seats.push((tablet_seat, seat));
    }

    /// The seat that `tablet_seat` was bound for, at its first record.
    pub fn seat_of(&self, tablet_seat: u32) -> (r: Option<u32>)
        ensures
            r is None <==> forall|i: int|
                0 <= i < self.seat_list().len() ==> (#[trigger] self.seat_list()[i]).0 != tablet_seat,
            r is Some ==> exists|i: int|
                0 <= i < self.seat_list().len() && self.seat_list()[i] == (tablet_seat, r->0) && forall|
                    j: int,
                | 0 <= j < i ==> (#[trigger] self.seat_list()[j]).0 != tablet_seat,
    {
        let mut i: usize = 0;
        while i < self.seats.len()
            invariant
                0 <= i <= self.seats@.len(),
                forall|j: int| 0 <= j < i ==> (#[trigger] self.seats@[j]).0 != tablet_seat,
            decreases self.seats@.len() - i,
        {
            if self.seats[i].0 == tablet_seat {
                let seat = self.seats[i].1;
                assert(self.seat_list()[i as int] == (tablet_seat, seat));
                return Some(seat);
            }
            i = i + 1;
        }
        None
    }

    /// The state of tool `id`, if it is live.
    pub fn tool(&self, id: u32) -> (r: Option<ToolData>)
        ensures
            r == (if self.tool_map().contains_key(id) {
                Some(self.tool_map()[id])
            } else {
                None
            }),
    {
        match tool_table_get(&self.tools, id) {
            Some(t) => Some(*t),
            None => None,
        }
    }

    /// Routes one message to tool `id`; a message for an absent tool is
    /// ignored. Returns what the window under the tool is to be handed.
    pub fn tool_event(&mut self, id: u32, ev: ToolEvent, sink: &mut EventSink) -> (r: Option<
        PointerHandoff,
    >)
        requires
            old(self).wf(),
        ensures
            final(self).wf(),
            final(self).tool_map() == tools_after(old(self).tool_map(), id, ev),
            final(sink)@ == old(sink)@ + tools_emit(old(self).tool_map(), id, ev),
            r == (if old(self).tool_map().contains_key(id) {
                tool_handoff(old(self).tool_map()[id], ev)
            } else {
                None
            }),
            final(self).seat_list() == old(self).seat_list(),
            final(self).tablet_set() == old(self).tablet_set(),
            final(self).pad_map() == old(self).pad_map(),
            final(self).group_map() == old(self).group_map(),
    {
        match tool_table_remove(&mut self.tools, id) {
            None => {
                assert(self.tool_map() =~= old(self).tool_map());
                assert(sink@ =~= old(sink)@ + tools_emit(old(self).tool_map(), id, ev));
                None
            },
            Some(mut t) => {
                if let ToolEvent::Removed = ev {
                    assert(sink@ =~= old(sink)@ + tools_emit(old(self).tool_map(), id, ev));
                    None
                } else {
                    let r = t.handle_event(ev, sink);
                    tool_table_insert(&mut self.tools, id, t);
                    assert(self.tool_map() =~= tools_after(old(self).tool_map(), id, ev));
                    r
                }
            },
        }
    }

    /// Puts pad `p` back after it was taken out to be changed.
    fn put_pad(&mut self, p: u32, d: PadData)
        ensures
            final(self).pad_map() == old(self).pad_map().insert(p, d@),
            final(self).seats == old(self).seats,
            final(self).tablets == old(self).tablets,
            final(self).tools == old(self).tools,
            final(self).groups == old(self).groups,
    {
        let _ = pad_table_insert(&mut self.pads, p, d);
        assert(self.pad_map() =~= old(self).pad_map().insert(p, d@));
    }

    /// Drops the groups listed in `d`, which was the data of a removed pad.
    fn drop_groups(&mut self, d: &PadData)
        ensures
            final(self).group_map() == old(self).group_map().remove_keys(d.groups@.to_set()),
            final(self).seats == old(self).seats,
            final(self).tablets == old(self).tablets,
            final(self).tools == old(self).tools,
            final(self).pads == old(self).pads,
    {
        let mut i: usize = 0;
        while i < d.groups.len()
            invariant
                0 <= i <= d.groups@.len(),
                self.group_map() == old(self).group_map().remove_keys(
                    d.groups@.subrange(0, i as int).to_set(),
                ),
                self.seats == old(self).seats,
                self.tablets == old(self).tablets,
                self.tools == old(self).tools,
                self.pads == old(self).pads,
            decreases d.groups@.len() - i,
        {
            let g = d.groups[i];
            let ghost before = self.group_map();
            let _ = group_table_remove(&mut self.groups, g);
            assert(d.groups@.subrange(0, i + 1) == d.groups@.subrange(0, i as int).push(g));
            proof {
                d.groups@.subrange(0, i as int).lemma_push_to_set_commute(g);
            }
            assert(d.groups@.subrange(0, i + 1).to_set() =~= d.groups@.subrange(
                0,
                i as int,
            ).to_set().insert(g));
            assert(self.group_map() =~= before.remove(g));
            assert(self.group_map() =~= old(self).group_map().remove_keys(
                d.groups@.subrange(0, i + 1).to_set(),
            ));
            i = i + 1;
        }
        assert(d.groups@.subrange(0, d.groups@.len() as int) == d.groups@);
    }

    /// Routes one message to pad `p`; a message for an absent pad is ignored.
    /// A leave that names another window than the entered one is refused and
    /// changes nothing.
    pub fn pad_event(&mut self, p: u32, ev: PadEvent, sink: &mut EventSink) -> (r: Result<
        (),
        PadError,
    >)
        requires
            old(self).wf(),
        ensures
            final(self).wf(),
            final(self).pad_map() == pads_after(old(self).pad_map(), old(self).group_map(), p, ev),
            final(self).group_map() == groups_after(
                old(self).pad_map(),
                old(self).group_map(),
                p,
                ev,
            ),
            final(sink)@ == old(sink)@ + pads_emit(old(self).pad_map(), p, ev),
            r == pads_outcome(old(self).pad_map(), p, ev),
            final(self).seat_list() == old(self).seat_list(),
            final(self).tablet_set() == old(self).tablet_set(),
            final(self).tool_map() == old(self).tool_map(),
    {
        let ghost pads0 = self.pad_map();
        let ghost groups0 = self.group_map();
        match pad_table_remove(&mut self.pads, p) {
            None => {
                assert(self.pad_map() =~= pads0);
                assert(sink@ =~= old(sink)@ + pads_emit(pads0, p, ev));
                Ok(())
            },
            Some(mut d) => {
                assert(d@ == pads0[p]);
                match ev {
                    PadEvent::Group { group } => {
                        if group_table_get(&self.groups, group).is_some() {
                            self.put_pad(p, d);
                            assert(self.pad_map() =~= pads0);
                        } else {
                            proof {
                                lemma_group_added_consistent(pads0, groups0, p, group);
                            }
                            d.groups.push(group);
                            assert(d@ == PadView { groups: pads0[p].groups.push(group), ..pads0[p] });
                            self.put_pad(p, d);
                            assert(self.pad_map() =~= pads0.insert(
                                p,
                                PadView { groups: pads0[p].groups.push(group), ..pads0[p] },
                            ));
                            let _ = group_table_insert(&mut self.groups, group, PadGroup::new(p));
                            assert(self.group_map() =~= groups0.insert(group, fresh_group(p)));
                        }
                        assert(sink@ =~= old(sink)@ + pads_emit(pads0, p, ev));
                        Ok(())
                    },
                    PadEvent::Button { button, state } => {
                        if let Some(w) = d.window {
                            sink.push_window_event(
                                WindowEvent::TabletButton {
                                    device_id: DeviceId,
                                    button: TabletButton::Tablet(button),
                                    state,
                                },
                                w,
                            );
                        } else {
                            assert(sink@ =~= old(sink)@ + pads_emit(pads0, p, ev));
                        }
                        self.put_pad(p, d);
                        assert(self.pad_map() =~= pads0);
                        Ok(())
                    },
                    PadEvent::Enter { window } => {
                        proof {
                            lemma_window_change_consistent(pads0, groups0, p, Some(window));
                        }
                        d.window = Some(window);
                        self.put_pad(p, d);
                        assert(self.pad_map() =~= pads0.insert(
                            p,
                            PadView { window: Some(window), ..pads0[p] },
                        ));
                        assert(sink@ =~= old(sink)@ + pads_emit(pads0, p, ev));
                        Ok(())
                    },
                    PadEvent::Leave { window } => {
                        let entered = d.window;
                        let matches_entered = match entered {
                            Some(w) => w == window,
                            None => false,
                        };
                        assert(sink@ =~= old(sink)@ + pads_emit(pads0, p, ev));
                        if matches_entered {
                            proof {
                                lemma_window_change_consistent(pads0, groups0, p, None);
                            }
                            d.window = None;
                            self.put_pad(p, d);
                            assert(self.pad_map() =~= pads0.insert(
                                p,
                                PadView { window: None, ..pads0[p] },
                            ));
                            Ok(())
                        } else {
                            self.put_pad(p, d);
                            assert(self.pad_map() =~= pads0);
                            Err(PadError::LeaveMismatch { window, entered })
                        }
                    },
                    PadEvent::Removed => {
                        assert(self.pad_map() =~= pads0.remove(p));
                        proof {
                            removed_pad_leaves_no_groups(pads0, groups0, p);
                        }
                        self.drop_groups(&d);
                        assert(sink@ =~= old(sink)@ + pads_emit(pads0, p, ev));
                        Ok(())
                    },
                }
            },
        }
    }

    /// Whether tablet `id` is live.
    pub fn has_tablet(&self, id: u32) -> (r: bool)
        ensures
            r == self.tablet_set().contains(id),
    {
        let mut i: usize = 0;
        while i < self.tablets.len()
            invariant
                0 <= i <= self.tablets@.len(),
                forall|j: int| 0 <= j < i ==> self.tablets@[j] != id,
            decreases self.tablets@.len() - i,
        {
            if self.tablets[i] == id {
                assert(self.tablets@[i as int] == id);
                return true;
            }
            i = i + 1;
        }
        false
    }

    /// The state of pad `p`, if it is live.
    pub fn pad(&self, p: u32) -> (r: Option<&PadData>)
        ensures
            r is Some <==> self.pad_map().contains_key(p),
            r is Some ==> r->0@ == self.pad_map()[p],
    {
        pad_table_get(&self.pads, p)
    }

    /// The state of pad group `g`, if it is live.
    pub fn group(&self, g: u32) -> (r: Option<&PadGroup>)
        ensures
            r is Some <==> self.group_map().contains_key(g),
            r is Some ==> r->0@ == self.group_map()[g],
    {
        group_table_get(&self.groups, g)
    }

    /// Registers a newly advertised tablet, tool or pad. An identity that is
    /// already live is left as it is.
    pub fn seat_event(&mut self, ev: SeatEvent)
        requires
            old(self).wf(),
        ensures
            final(self).wf(),
            final(self).tablet_set() == seat_tablets_after(old(self).tablet_set(), ev),
            final(self).tool_map() == seat_tools_after(old(self).tool_map(), ev),
            final(self).pad_map() == seat_pads_after(old(self).pad_map(), ev),
            final(self).group_map() == old(self).group_map(),
            final(self).seat_list() == old(self).seat_list(),
    {
        let ghost pads0 = self.pad_map();
        let ghost groups0 = self.group_map();
        match ev {
            SeatEvent::TabletAdded { id } => {
                if !self.has_tablet(id) {
                    proof {
                        self.tablets@.lemma_push_to_set_commute(id);
                    }
                    self.tablets.push(id);
                } else {
                    assert(self.tablet_set() =~= self.tablet_set().insert(id));
                }
            },
            SeatEvent::ToolAdded { id } => {
                if tool_table_get(&self.tools, id).is_none() {
                    let _ = tool_table_insert(&mut self.tools, id, ToolData::new());
                }
            },
            SeatEvent::PadAdded { id } => {
                if pad_table_get(&self.pads, id).is_none() {
                    let _ = pad_table_insert(&mut self.pads, id, PadData::new());
                    assert(self.pad_map() =~= pads0.insert(id, fresh_pad()));
                    assert forall|q: u32, g: u32|
                        self.pad_map().contains_key(q) && #[trigger] self.pad_map()[q].groups.contains(
                            g,
                        ) implies groups0.contains_key(g) && groups0[g].pad == q by {
                        if q != id {
                            assert(pads0[q].groups.contains(g));
                        }
                    }
                }
            },
        }
    }

    /// Routes one message to tablet `id`; a message for a tablet that is not
    /// live is ignored.
    pub fn tablet_event(&mut self, id: u32, ev: TabletEvent, sink: &mut EventSink)
        requires
            old(self).wf(),
        ensures
            final(self).wf(),
            final(self).tablet_set() == tablets_after(old(self).tablet_set(), id, ev),
            final(sink)@ == old(sink)@ + tablets_emit(old(self).tablet_set(), id, ev),
            final(self).tool_map() == old(self).tool_map(),
            final(self).pad_map() == old(self).pad_map(),
            final(self).group_map() == old(self).group_map(),
            final(self).seat_list() == old(self).seat_list(),
    {
        if !self.has_tablet(id) {
            assert(sink@ =~= old(sink)@ + tablets_emit(old(self).tablet_set(), id, ev));
            assert(self.tablet_set() =~= self.tablet_set().remove(id));
            return ;
        }
        match ev {
            TabletEvent::Done => {
                sink.push_device_event(DeviceEvent::Added, DeviceId);
            },
            TabletEvent::Removed => {
                sink.push_device_event(DeviceEvent::Removed, DeviceId);
                let mut kept: Vec<u32> = Vec::new();
                let mut i: usize = 0;
                while i < self.tablets.len()
                    invariant
                        0 <= i <= self.tablets@.len(),
                        kept@.to_set() == self.tablets@.subrange(0, i as int).to_set().remove(id),
                    decreases self.tablets@.len() - i,
                {
                    let t = self.tablets[i];
                    proof {
                        assert(self.tablets@.subrange(0, i + 1) == self.tablets@.subrange(
                            0,
                            i as int,
                        ).push(t));
                        self.tablets@.subrange(0, i as int).lemma_push_to_set_commute(t);
                        kept@.lemma_push_to_set_commute(t);
                    }
                    if t != id {
                        kept.push(t);
                    }
                    assert(kept@.to_set() =~= self.tablets@.subrange(0, i + 1).to_set().remove(id));
                    i = i + 1;
                }
                assert(self.tablets@.subrange(0, self.tablets@.len() as int) == self.tablets@);
                self.tablets = kept;
            },
        }
    }

    /// Routes one message to pad group `g`; a message for an absent group is
    /// ignored.
    pub fn group_event(&mut self, g: u32, ev: GroupEvent)
        requires
            old(self).wf(),
        ensures
            final(self).wf(),
            final(self).group_map() == group_after(old(self).group_map(), g, ev),
            final(self).pad_map() == old(self).pad_map(),
            final(self).tablet_set() == old(self).tablet_set(),
            final(self).tool_map() == old(self).tool_map(),
            final(self).seat_list() == old(self).seat_list(),
    {
        let ghost groups0 = self.group_map();
        match group_table_remove(&mut self.groups, g) {
            None => {
                assert(self.group_map() =~= groups0);
            },
            Some(mut grp) => {
                match ev {
                    GroupEvent::Ring { ring } => grp.rings.push(ring),
                    GroupEvent::Strip { strip } => grp.strips.push(strip),
                }
                let _ = group_table_insert(&mut self.groups, g, grp);
                assert(self.group_map() =~= group_after(groups0, g, ev));
            },
        }
    }
}

} // verus!
