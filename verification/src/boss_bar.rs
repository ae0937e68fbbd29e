//! Boss bars with their viewers: the decisions of which packets to send and
//! to whom. Sending is the caller's: each operation says what to send.
use crate::boss_bar_properties::{BossBarColor, BossBarFlags, BossBarOverlay};
use crate::boss_bar_state::{
    packet_operation, BossBarOperation, BossBarState, BossBarStateView, BossEventOperation,
    CBossEvent,
};
use crate::viewers::{
    address_position, entry_handles, kept, swap_removed, viewer_addresses, Viewers,
};
use text_components::TextComponent;
use uuid::Uuid;
use vstd::prelude::*;

verus! {

/// The operation to send to every viewer when a property changed from
/// `before` to `after`.
pub open spec fn broadcast_if<T>(before: T, after: T, op: BossBarOperation) -> Option<
    BossBarOperation,
> {
    if before != after {
        Some(op)
    } else {
        None
    }
}

/// What a boss bar is: its state, its viewers and whether it is visible.
pub struct BossBarView<P> {
    pub state: BossBarStateView,
    pub viewers: Seq<(usize, P)>,
    pub visible: bool,
}

/// Represents an entire boss bar, including its state (name, progress,
/// color, overlay and flags) and its viewers, each a handle of type `P` to a
/// player with the player's address.
pub struct BossBar<P> {
    state: BossBarState,
    viewers: Viewers<P>,
    visible: bool,
}

impl<P> View for BossBar<P> {
    type V = BossBarView<P>;

    closed spec fn view(&self) -> BossBarView<P> {
        BossBarView { state: self.state@, viewers: self.viewers@, visible: self.visible }
    }
}

impl<P> BossBar<P> {
    /// The viewers are well formed.
    pub closed spec fn wf(&self) -> bool {
        self.viewers.wf()
    }

    /// Creates a new, visible boss bar with no viewers and a new random ID.
    pub fn new(
        name: TextComponent,
        progress: u32,
        color: BossBarColor,
        overlay: BossBarOverlay,
        flags: BossBarFlags,
    ) -> (r: Self)
        ensures
            r.wf(),
            r@.state.name == name,
            r@.state.progress == progress,
            r@.state.color == color,
            r@.state.overlay == overlay,
            r@.state.flags == flags,
            r@.viewers == Seq::<(usize, P)>::empty(),
            r@.visible,
    {
        BossBar {
            state: BossBarState::new(name, progress, color, overlay, flags),
            viewers: Viewers::new(),
            visible: true,
        }
    }

    /// Returns the ID of this boss bar.
    pub fn id(&self) -> (r: Uuid)
        ensures
            r == self@.state.id,
    {
        self.state.id()
    }

    /// Returns the displayed name of this boss bar.
    pub fn name(&self) -> (r: &TextComponent)
        ensures
            *r == self@.state.name,
    {
        self.state.name()
    }

    /// Sets the displayed name of this boss bar; every viewer is told.
    pub fn set_name(&mut self, name: TextComponent) -> (r: Option<BossBarOperation>)
        ensures
            final(self)@ == (BossBarView { state: BossBarStateView { name, ..old(self)@.state }, ..old(self)@ }),
            r == Some(BossBarOperation::UpdateName),
            r matches Some(op) && packet_operation(final(self)@.state, op) == (BossEventOperation::UpdateName { name }),
    {
        self.state.set_name(name);
        Some(BossBarOperation::UpdateName)
    }

    /// Returns the bit pattern of the progress of this boss bar.
    pub fn progress(&self) -> (r: u32)
        ensures
            r == self@.state.progress,
    {
        self.state.progress()
    }

    /// Sets the progress of this boss bar to the bit pattern of a clamped
    /// progress; viewers are told when the caller found it `changed`.
    pub fn set_progress(&mut self, progress: u32, changed: bool) -> (r: Option<BossBarOperation>)
        ensures
            final(self)@ == (BossBarView { state: BossBarStateView { progress, ..old(self)@.state }, ..old(self)@ }),
            r == if changed {
                Some(BossBarOperation::UpdateProgress)
            } else {
                None
            },
            r matches Some(op) ==> packet_operation(final(self)@.state, op) == (BossEventOperation::UpdateProgress { progress }),
    {
        self.state.set_progress(progress);
        if changed {
            Some(BossBarOperation::UpdateProgress)
        } else {
            None
        }
    }

    /// Returns the color of this boss bar.
    pub fn color(&self) -> (r: BossBarColor)
        ensures
            r == self@.state.color,
    {
        self.state.color()
    }

    /// Sets the color of this boss bar; viewers are told when it changed.
    pub fn set_color(&mut self, color: BossBarColor) -> (r: Option<BossBarOperation>)
        ensures
            final(self)@ == (BossBarView { state: BossBarStateView { color, ..old(self)@.state }, ..old(self)@ }),
            r == broadcast_if(old(self)@.state.color, color, BossBarOperation::UpdateStyle),
            r matches Some(op) ==> packet_operation(final(self)@.state, op) == (BossEventOperation::UpdateStyle { color, overlay: old(self)@.state.overlay }),
    {
        let changed = self.state.color() != color;
        self.state.set_color(color);
        if changed {
            Some(BossBarOperation::UpdateStyle)
        } else {
            None
        }
    }

    /// Returns the overlay of this boss bar.
    pub fn overlay(&self) -> (r: BossBarOverlay)
        ensures
            r == self@.state.overlay,
    {
        self.state.overlay()
    }

    /// Sets the overlay of this boss bar; viewers are told when it changed.
    pub fn set_overlay(&mut self, overlay: BossBarOverlay) -> (r: Option<BossBarOperation>)
        ensures
            final(self)@ == (BossBarView { state: BossBarStateView { overlay, ..old(self)@.state }, ..old(self)@ }),
            r == broadcast_if(old(self)@.state.overlay, overlay, BossBarOperation::UpdateStyle),
            r matches Some(op) ==> packet_operation(final(self)@.state, op) == (BossEventOperation::UpdateStyle { color: old(self)@.state.color, overlay }),
    {
        let changed = self.state.overlay() != overlay;
        self.state.set_overlay(overlay);
        if changed {
            Some(BossBarOperation::UpdateStyle)
        } else {
            None
        }
    }

    /// Returns the flags of this boss bar.
    pub fn flags(&self) -> (r: BossBarFlags)
        ensures
            r == self@.state.flags,
    {
        self.state.flags()
    }

    /// Sets the flags of this boss bar; viewers are told when they changed.
    pub fn set_flags(&mut self, flags: BossBarFlags) -> (r: Option<BossBarOperation>)
        ensures
            final(self)@ == (BossBarView { state: BossBarStateView { flags, ..old(self)@.state }, ..old(self)@ }),
            r == broadcast_if(old(self)@.state.flags@, flags@, BossBarOperation::UpdateProperties),
            r matches Some(op) ==> packet_operation(final(self)@.state, op) == (BossEventOperation::UpdateProperties { flags }),
    {
        let changed = self.state.flags().bits() != flags.bits();
        self.state.set_flags(flags);
        if changed {
            Some(BossBarOperation::UpdateProperties)
        } else {
            None
        }
    }

    /// Adds one or more flags to this boss bar; viewers are told when the
    /// flags changed.
    pub fn add_flags(&mut self, flags: BossBarFlags) -> (r: Option<BossBarOperation>)
        ensures
            final(self)@.state.flags@ == old(self)@.state.flags@ | flags@,
            final(self)@ == (BossBarView { state: BossBarStateView { flags: final(self)@.state.flags, ..old(self)@.state }, ..old(self)@ }),
            r == broadcast_if(old(self)@.state.flags@, final(self)@.state.flags@, BossBarOperation::UpdateProperties),
            r matches Some(op) ==> packet_operation(final(self)@.state, op) == (BossEventOperation::UpdateProperties { flags: final(self)@.state.flags }),
    {
        let previous = self.state.flags().bits();
        self.state.add_flags(flags);
        if previous != self.state.flags().bits() {
            Some(BossBarOperation::UpdateProperties)
        } else {
            None
        }
    }

    /// Returns whether this boss bar is visible.
    pub fn visible(&self) -> (r: bool)
        ensures
            r == self@.visible,
    {
        self.visible
    }

    /// Sets whether this boss bar is visible to its viewers; when that
    /// changes, viewers are told to add or remove it.
    pub fn set_visible(&mut self, visible: bool) -> (r: Option<BossBarOperation>)
        ensures
            final(self)@ == (BossBarView { visible, ..old(self)@ }),
            r == if old(self)@.visible != visible {
                Some(if visible { BossBarOperation::Add } else { BossBarOperation::Remove })
            } else {
                None
            },
            r matches Some(op) ==> (visible ==> packet_operation(final(self)@.state, op) == (BossEventOperation::Add {
                name: old(self)@.state.name,
                progress: old(self)@.state.progress,
                color: old(self)@.state.color,
                overlay: old(self)@.state.overlay,
                flags: old(self)@.state.flags,
            })) && (!visible ==> packet_operation(final(self)@.state, op) is Remove),
    {
        let r = if self.visible != visible {
            Some(if visible { BossBarOperation::Add } else { BossBarOperation::Remove })
        } else {
            None
        };
        self.visible = visible;
        r
    }

    /// Starts showing this boss bar to a player: true when the player is
    /// to be sent an `Add` packet (it was not a viewer and the bar is
    /// visible).
    pub fn add_player(&mut self, address: usize, handle: P) -> (send: bool)
        requires
            old(self).wf(),
        ensures
            final(self).wf(),
            final(self)@.state == old(self)@.state,
            final(self)@.visible == old(self)@.visible,
            final(self)@.viewers == if !viewer_addresses(old(self)@.viewers).contains(address) {
                old(self)@.viewers.push((address, handle))
            } else {
                old(self)@.viewers
            },
            send == (!viewer_addresses(old(self)@.viewers).contains(address) && old(self)@.visible),
    {
        self.viewers.add(address, handle) && self.visible
    }

    /// Stops showing this boss bar to a player: true when the player is to
    /// be sent a `Remove` packet (it was a viewer and the bar is visible).
    pub fn remove_player(&mut self, address: usize) -> (send: bool)
        requires
            old(self).wf(),
        ensures
            final(self).wf(),
            final(self)@.state == old(self)@.state,
            final(self)@.visible == old(self)@.visible,
            final(self)@.viewers == if viewer_addresses(old(self)@.viewers).contains(address) {
                swap_removed(old(self)@.viewers, address_position(old(self)@.viewers, address))
            } else {
                old(self)@.viewers
            },
            send == (viewer_addresses(old(self)@.viewers).contains(address) && old(self)@.visible),
    {
        self.viewers.remove(address) && self.visible
    }

    /// Stops showing this boss bar to everyone: gives back the handles of
    /// the viewers, with the operation to send them (`Remove` when the bar
    /// is visible).
    pub fn remove_all_players(&mut self) -> (r: (Option<BossBarOperation>, Vec<P>))
        requires
            old(self).wf(),
        ensures
            final(self).wf(),
            final(self)@ == (BossBarView { viewers: Seq::<(usize, P)>::empty(), ..old(self)@ }),
            r.0 == if old(self)@.visible {
                Some(BossBarOperation::Remove)
            } else {
                None
            },
            r.1@ == entry_handles(old(self)@.viewers),
            r.0 matches Some(op) ==> packet_operation(final(self)@.state, op) is Remove,
    {
        let handles = self.viewers.take_all();
        let op = if self.visible {
            Some(BossBarOperation::Remove)
        } else {
            None
        };
        (op, handles)
    }

    /// The viewers of this boss bar.
    pub fn viewers(&self) -> (r: &Viewers<P>)
        ensures
            r@ == self@.viewers,
            self.wf() ==> r.wf(),
    {
        &self.viewers
    }

    /// Drops the viewers whose flag in `alive` is false (players that are
    /// gone), keeping the order of the others.
    pub fn clean_viewers(&mut self, alive: &Vec<bool>)
        requires
            old(self).wf(),
            alive@.len() == old(self)@.viewers.len(),
        ensures
            final(self).wf(),
            final(self)@ == (BossBarView { viewers: kept(old(self)@.viewers, alive@), ..old(self)@ }),
    {
        self.viewers.clean(alive);
    }

    /// Creates the packet of an operation from this boss bar's state.
    pub fn create_packet(&self, operation: BossBarOperation) -> (r: CBossEvent)
        ensures
            r.id == self@.state.id,
            r.operation == packet_operation(self@.state, operation),
    {
        self.state.create_packet(operation)
    }
}

} // verus!
