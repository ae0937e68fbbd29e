//! The base state of a boss bar, without its viewers, and the packets that
//! tell clients about it.
//!
//! The progress of a boss bar is an `f32`; the library holds it as the
//! float's bit pattern (`f32::to_bits`) and leaves float arithmetic
//! (comparing and clamping) to its caller.
use crate::boss_bar_properties::{BossBarColor, BossBarFlags, BossBarOverlay};
use text_components::TextComponent;
use uuid::Uuid;
use vstd::prelude::*;

verus! {

/// Represents the operation the boss bar packet should do to the client.
#[derive(Debug, Clone, Copy, PartialEq, Eq, Structural)]
pub enum BossBarOperation {
    /// Adds this boss bar as a new one to the client, with its current state.
    Add,
    /// Removes this boss bar from the client.
    Remove,
    /// Updates the progress of this boss bar for the client.
    UpdateProgress,
    /// Updates the name of this boss bar for the client.
    UpdateName,
    /// Updates the style of this boss bar for the client.
    UpdateStyle,
    /// Updates the properties of this boss bar for the client.
    UpdateProperties,
}

/// Tells the client what action to perform relating to a boss bar.
pub enum BossEventOperation {
    /// Tells the client to add a new boss bar.
    Add {
        name: TextComponent,
        progress: u32,
        color: BossBarColor,
        overlay: BossBarOverlay,
        flags: BossBarFlags,
    },
    /// Tells the client to remove a boss bar.
    Remove,
    /// Tells the client to update the progress of a boss bar.
    UpdateProgress { progress: u32 },
    /// Tells the client to update the name of a boss bar.
    UpdateName { name: TextComponent },
    /// Tells the client to update the style of a boss bar.
    UpdateStyle { color: BossBarColor, overlay: BossBarOverlay },
    /// Tells the client to update the properties of a boss bar.
    UpdateProperties { flags: BossBarFlags },
}

/// Tells the client to add, remove, or update something about a boss bar.
pub struct CBossEvent {
    pub id: Uuid,
    pub operation: BossEventOperation,
}

/// The fields of a boss bar's state.
pub struct BossBarStateView {
    pub id: Uuid,
    pub name: TextComponent,
    /// The bit pattern of the progress.
    pub progress: u32,
    pub color: BossBarColor,
    pub overlay: BossBarOverlay,
    pub flags: BossBarFlags,
}

/// The operation that a packet carries for a state and an operation kind.
pub open spec fn packet_operation(s: BossBarStateView, op: BossBarOperation) -> BossEventOperation {
    match op {
        BossBarOperation::Add => BossEventOperation::Add {
            name: s.name,
            progress: s.progress,
            color: s.color,
            overlay: s.overlay,
            flags: s.flags,
        },
        BossBarOperation::Remove => BossEventOperation::Remove,
        BossBarOperation::UpdateProgress => BossEventOperation::UpdateProgress {
            progress: s.progress,
        },
        BossBarOperation::UpdateName => BossEventOperation::UpdateName { name: s.name },
        BossBarOperation::UpdateStyle => BossEventOperation::UpdateStyle {
            color: s.color,
            overlay: s.overlay,
        },
        BossBarOperation::UpdateProperties => BossEventOperation::UpdateProperties {
            flags: s.flags,
        },
    }
}

/// A packet tells the client about the operation it was made for, and every
/// field it carries is the boss bar's current value of that field: a style
/// packet carries the current color and overlay, a progress packet the
/// current progress, and so on.
pub proof fn lemma_packet_carries_current_state(s: BossBarStateView, op: BossBarOperation)
    ensures
        (op == BossBarOperation::Add) == (packet_operation(s, op) is Add),
        (op == BossBarOperation::Remove) == (packet_operation(s, op) is Remove),
        (op == BossBarOperation::UpdateProgress) == (packet_operation(s, op) is UpdateProgress),
        (op == BossBarOperation::UpdateName) == (packet_operation(s, op) is UpdateName),
        (op == BossBarOperation::UpdateStyle) == (packet_operation(s, op) is UpdateStyle),
        (op == BossBarOperation::UpdateProperties) == (packet_operation(s, op) is UpdateProperties),
        packet_operation(s, op) matches BossEventOperation::Add { name, progress, color, overlay, flags }
            ==> name == s.name && progress == s.progress && color == s.color && overlay == s.overlay
            && flags == s.flags,
        packet_operation(s, op) matches BossEventOperation::UpdateProgress { progress } ==> progress
            == s.progress,
        packet_operation(s, op) matches BossEventOperation::UpdateName { name } ==> name == s.name,
        packet_operation(s, op) matches BossEventOperation::UpdateStyle { color, overlay } ==> color
            == s.color && overlay == s.overlay,
        packet_operation(s, op) matches BossEventOperation::UpdateProperties { flags } ==> flags
            == s.flags,
{
}

/// After the color and overlay are set, the style packet carries the new
/// color and overlay.
pub proof fn lemma_style_packet_after_change(
    s: BossBarStateView,
    color: BossBarColor,
    overlay: BossBarOverlay,
)
    ensures
        ({
            let t = BossBarStateView { color, overlay, ..s };
            packet_operation(t, BossBarOperation::UpdateStyle) matches BossEventOperation::UpdateStyle {
                color: c,
                overlay: o,
            } && c == color && o == overlay
        }),
{
    lemma_packet_carries_current_state(
        BossBarStateView { color, overlay, ..s },
        BossBarOperation::UpdateStyle,
    );
}

/// Represents the state of a boss bar, without considering its viewers:
/// its name, progress, color, overlay, and flags.
///
/// A boss bar's ID is its identity for clients; it is not persistent, and a
/// copy gets a new random one.
pub struct BossBarState {
    id: Uuid,
    name: TextComponent,
    progress: u32,
    color: BossBarColor,
    overlay: BossBarOverlay,
    flags: BossBarFlags,
}

impl View for BossBarState {
    type V = BossBarStateView;

    closed spec fn view(&self) -> BossBarStateView {
        BossBarStateView {
            id: self.id,
            name: self.name,
            progress: self.progress,
            color: self.color,
            overlay: self.overlay,
            flags: self.flags,
        }
    }
}

impl BossBarState {
    /// Creates a new boss bar state with a new random ID.
    pub fn new(
        name: TextComponent,
        progress: u32,
        color: BossBarColor,
        overlay: BossBarOverlay,
        flags: BossBarFlags,
    ) -> (r: Self)
        ensures
            r@.name == name,
            r@.progress == progress,
            r@.color == color,
            r@.overlay == overlay,
            r@.flags == flags,
    {
        BossBarState { id: Uuid::new_v4(), name, progress, color, overlay, flags }
    }

    /// A copy of this state with a new random ID.
    pub fn duplicate(&self) -> (r: Self)
        ensures
            r@.name == self@.name,
            r@.progress == self@.progress,
            r@.color == self@.color,
            r@.overlay == self@.overlay,
            r@.flags == self@.flags,
    {
        BossBarState {
            id: Uuid::new_v4(),
            name: self.name.clone(),
            progress: self.progress,
            color: self.color,
            overlay: self.overlay,
            flags: self.flags,
        }
    }

    /// Returns the ID of this boss bar.
    pub fn id(&self) -> (r: Uuid)
        ensures
            r == self@.id,
    {
        self.id
    }

    /// Returns the displayed name of this boss bar.
    pub fn name(&self) -> (r: &TextComponent)
        ensures
            *r == self@.name,
    {
        &self.name
    }

    /// Sets the displayed name of this boss bar.
    pub fn set_name(&mut self, name: TextComponent)
        ensures
            final(self)@ == (BossBarStateView { name, ..old(self)@ }),
    {
        self.name = name;
    }

    /// Returns the bit pattern of the progress of this boss bar.
    pub fn progress(&self) -> (r: u32)
        ensures
            r == self@.progress,
    {
        self.progress
    }

    /// Sets the progress of this boss bar to the bit pattern of a progress
    /// that the caller has clamped to between `0.0` and `1.0`.
    pub fn set_progress(&mut self, progress: u32)
        ensures
            final(self)@ == (BossBarStateView { progress, ..old(self)@ }),
    {
        self.progress = progress;
    }

    /// Returns the color of this boss bar.
    pub fn color(&self) -> (r: BossBarColor)
        ensures
            r == self@.color,
    {
        self.color
    }

    /// Sets the color of this boss bar.
    pub fn set_color(&mut self, color: BossBarColor)
        ensures
            final(self)@ == (BossBarStateView { color, ..old(self)@ }),
    {
        self.color = color;
    }

    /// Returns the overlay of this boss bar.
    pub fn overlay(&self) -> (r: BossBarOverlay)
        ensures
            r == self@.overlay,
    {
        self.overlay
    }

    /// Sets the overlay of this boss bar.
    pub fn set_overlay(&mut self, overlay: BossBarOverlay)
        ensures
            final(self)@ == (BossBarStateView { overlay, ..old(self)@ }),
    {
        self.overlay = overlay;
    }

    /// Returns the flags of this boss bar.
    pub fn flags(&self) -> (r: BossBarFlags)
        ensures
            r == self@.flags,
    {
        self.flags
    }

    /// Sets the flags of this boss bar.
    pub fn set_flags(&mut self, flags: BossBarFlags)
        ensures
            final(self)@ == (BossBarStateView { flags, ..old(self)@ }),
    {
        self.flags = flags;
    }

    /// Adds one or more flags to this boss bar.
    pub fn add_flags(&mut self, flags: BossBarFlags)
        ensures
            final(self)@.flags@ == old(self)@.flags@ | flags@,
            final(self)@ == (BossBarStateView { flags: final(self)@.flags, ..old(self)@ }),
    {
        self.flags.insert(flags);
    }

    /// Removes one or more flags from this boss bar.
    pub fn remove_flags(&mut self, flags: BossBarFlags)
        ensures
            final(self)@.flags@ == old(self)@.flags@ & !flags@,
            final(self)@ == (BossBarStateView { flags: final(self)@.flags, ..old(self)@ }),
    {
        self.flags.remove(flags);
    }

    /// Creates a packet from the boss bar and operation type.
    pub fn create_packet(&self, operation: BossBarOperation) -> (r: CBossEvent)
        ensures
            r.id == self@.id,
            r.operation == packet_operation(self@, operation),
    {
        let operation = match operation {
            BossBarOperation::Add => BossEventOperation::Add {
                name: self.name.clone(),
                progress: self.progress,
                color: self.color,
                overlay: self.overlay,
                flags: self.flags,
            },
            BossBarOperation::Remove => BossEventOperation::Remove,
            BossBarOperation::UpdateProgress => BossEventOperation::UpdateProgress {
                progress: self.progress,
            },
            BossBarOperation::UpdateName => BossEventOperation::UpdateName {
                name: self.name.clone(),
            },
            BossBarOperation::UpdateStyle => BossEventOperation::UpdateStyle {
                color: self.color,
                overlay: self.overlay,
            },
            BossBarOperation::UpdateProperties => BossEventOperation::UpdateProperties {
                flags: self.flags,
            },
        };
        CBossEvent { id: self.id, operation }
    }
}

} // verus!
