//! Pads, their control groups, and the rings and strips of each group.

use vstd::prelude::*;

use crate::event::ElementState;

verus! {

/// A message addressed to one pad.
#[derive(Debug, Copy, Clone, PartialEq, Eq, Structural)]
pub enum PadEvent {
    /// A new control group, by identity.
    Group { group: u32 },
    Button { button: u32, state: ElementState },
    Enter { window: u64 },
    Leave { window: u64 },
    Removed,
}

/// A message addressed to one pad group.
#[derive(Debug, Copy, Clone, PartialEq, Eq, Structural)]
pub enum GroupEvent {
    /// A new ring of the group, by identity.
    Ring { ring: u32 },
    /// A new strip of the group, by identity.
    Strip { strip: u32 },
}

/// A pad message that breaks the protocol's contract.
#[derive(Debug, Copy, Clone, PartialEq, Eq, Structural)]
pub enum PadError {
    /// A leave named `window` while the pad was entered in `entered`.
    LeaveMismatch { window: u64, entered: Option<u64> },
}

/// State of one pad.
#[derive(Debug, Clone, PartialEq, Eq)]
pub struct PadData {
    /// The window the pad is entered in.
    pub window: Option<u64>,
    /// Identities of its control groups, in the order they were advertised.
    pub groups: Vec<u32>,
}

/// State of one pad group.
#[derive(Debug, Clone, PartialEq, Eq)]
pub struct PadGroup {
    /// Identity of the pad that owns the group.
    pub pad: u32,
    /// Identities of its rings, in the order they were advertised.
    pub rings: Vec<u32>,
    /// Identities of its strips, in the order they were advertised.
    pub strips: Vec<u32>,
}

/// What a pad holds, as plain values.
pub struct PadView {
    pub window: Option<u64>,
    pub groups: Seq<u32>,
}

/// What a pad group holds, as plain values.
pub struct GroupView {
    pub pad: u32,
    pub rings: Seq<u32>,
    pub strips: Seq<u32>,
}

impl View for PadData {
    type V = PadView;

    open spec fn view(&self) -> PadView {
        PadView { window: self.window, groups: self.groups@ }
    }
}

impl View for PadGroup {
    type V = GroupView;

    open spec fn view(&self) -> GroupView {
        GroupView { pad: self.pad, rings: self.rings@, strips: self.strips@ }
    }
}

/// A pad as it is when first advertised.
pub open spec fn fresh_pad() -> PadView {
    PadView { window: None, groups: Seq::empty() }
}

/// A group of `pad` as it is when first advertised.
pub open spec fn fresh_group(pad: u32) -> GroupView {
    GroupView { pad, rings: Seq::empty(), strips: Seq::empty() }
}

impl PadData {
    /// A pad as it is when first advertised: no window, no groups.
    pub fn new() -> (r: PadData)
        ensures
            r@ == fresh_pad(),
    {
        PadData { window: None, groups: Vec::new() }
    }
}

impl PadGroup {
    /// An empty group owned by `pad`.
    pub fn new(pad: u32) -> (r: PadGroup)
        ensures
            r@ == fresh_group(pad),
    {
        PadGroup { pad, rings: Vec::new(), strips: Vec::new() }
    }
}

} // verus!
