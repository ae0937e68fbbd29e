//! Custom boss bars, controlled by the `/bossbar` command: a boss bar with
//! a value, a maximum, and the players allowed to see it.
use crate::boss_bar::{broadcast_if, BossBar, BossBarView};
use crate::boss_bar_properties::{BossBarColor, BossBarFlags, BossBarOverlay};
use crate::boss_bar_state::{
    packet_operation, BossBarOperation, BossBarStateView, BossEventOperation, CBossEvent,
};
use crate::viewers::{
    address_position, entry_handles, kept, swap_removed, viewer_addresses, Viewers,
};
use rustc_hash::FxHashSet;
use text_components::TextComponent;
use uuid::Uuid;
use vstd::prelude::*;

verus! {

/// What a set of player IDs holds.
pub uninterp spec fn uuid_set(s: FxHashSet<Uuid>) -> Set<Uuid>;

/// `HashSet::insert`: adds the ID.
#[verifier::external_body]
fn uuids_insert(s: &mut FxHashSet<Uuid>, id: Uuid)
    ensures
        uuid_set(*final(s)) == uuid_set(*old(s)).insert(id),
{
    s.insert(id);
}

/// `HashSet::remove`: removes the ID.
#[verifier::external_body]
fn uuids_remove(s: &mut FxHashSet<Uuid>, id: Uuid)
    ensures
        uuid_set(*final(s)) == uuid_set(*old(s)).remove(id),
{
    s.remove(&id);
}

/// No IDs.
pub open spec fn no_uuids() -> Set<Uuid> {
    Set::empty()
}

/// `HashSet::clear`: removes every ID.
#[verifier::external_body]
fn uuids_clear(s: &mut FxHashSet<Uuid>)
    ensures
        uuid_set(*final(s)) == no_uuids(),
{
    s.clear();
}

/// `HashSet::iter`, copied into a list: every ID once, in the set's own
/// order, which nothing here fixes.
#[verifier::external_body]
fn uuids_list(s: &FxHashSet<Uuid>) -> (r: Vec<Uuid>)
    ensures
        r@.no_duplicates(),
        r@.to_set() == uuid_set(*s),
{
    s.iter().copied().collect()
}

/// What a custom boss bar is.
pub struct CustomBossBarView<P> {
    pub bar: BossBarView<P>,
    pub value: i32,
    pub max: i32,
    /// The players that can see the boss bar when online.
    pub players: Set<Uuid>,
}

/// A custom boss bar that is controlled by `/bossbar`.
pub struct CustomBossBar<P> {
    bar: BossBar<P>,
    value: i32,
    max: i32,
    players: FxHashSet<Uuid>,
}

impl<P> View for CustomBossBar<P> {
    type V = CustomBossBarView<P>;

    closed spec fn view(&self) -> CustomBossBarView<P> {
        CustomBossBarView {
            bar: self.bar@,
            value: self.value,
            max: self.max,
            players: uuid_set(self.players),
        }
    }
}

impl<P> CustomBossBar<P> {
    /// The viewers are well formed.
    pub closed spec fn wf(&self) -> bool {
        self.bar.wf()
    }

    /// Creates a new, visible boss bar with no viewers and a new random ID;
    /// `progress` is the bit pattern of the progress that the value and
    /// maximum give.
    pub fn new(
        name: TextComponent,
        value: i32,
        max: i32,
        progress: u32,
        color: BossBarColor,
        overlay: BossBarOverlay,
        flags: BossBarFlags,
        players: FxHashSet<Uuid>,
    ) -> (r: Self)
        ensures
            r.wf(),
            r@.bar.state.name == name,
            r@.bar.state.progress == progress,
            r@.bar.state.color == color,
            r@.bar.state.overlay == overlay,
            r@.bar.state.flags == flags,
            r@.bar.viewers == Seq::<(usize, P)>::empty(),
            r@.bar.visible,
            r@.value == value,
            r@.max == max,
            r@.players == uuid_set(players),
    {
        CustomBossBar {
            bar: BossBar::new(name, progress, color, overlay, flags),
            value,
            max,
            players,
        }
    }

    /// Returns the ID of this boss bar.
    pub fn id(&self) -> (r: Uuid)
        ensures
            r == self@.bar.state.id,
    {
        self.bar.id()
    }

    /// Returns the displayed name of this boss bar.
    pub fn name(&self) -> (r: &TextComponent)
        ensures
            *r == self@.bar.state.name,
    {
        self.bar.name()
    }

    /// Sets the displayed name of this boss bar; every viewer is told.
    pub fn set_name(&mut self, name: TextComponent) -> (r: Option<BossBarOperation>)
        ensures
            final(self)@ == (CustomBossBarView { bar: BossBarView { state: BossBarStateView { name, ..old(self)@.bar.state }, ..old(self)@.bar }, ..old(self)@ }),
            r == Some(BossBarOperation::UpdateName),
            r matches Some(op) && packet_operation(final(self)@.bar.state, op) == (BossEventOperation::UpdateName { name }),
    {
        self.bar.set_name(name)
    }

    /// Returns the bit pattern of the progress of this boss bar.
    pub fn progress(&self) -> (r: u32)
        ensures
            r == self@.bar.state.progress,
    {
        self.bar.progress()
    }

    /// Sets the progress to the bit pattern of a clamped progress; viewers
    /// are told when the caller found it `changed`.
    pub fn set_progress(&mut self, progress: u32, changed: bool) -> (r: Option<BossBarOperation>)
        ensures
            final(self)@ == (CustomBossBarView { bar: BossBarView { state: BossBarStateView { progress, ..old(self)@.bar.state }, ..old(self)@.bar }, ..old(self)@ }),
            r == if changed {
                Some(BossBarOperation::UpdateProgress)
            } else {
                None
            },
            r matches Some(op) ==> packet_operation(final(self)@.bar.state, op) == (BossEventOperation::UpdateProgress { progress }),
    {
        self.bar.set_progress(progress, changed)
    }

    /// Returns the color of this boss bar.
    pub fn color(&self) -> (r: BossBarColor)
        ensures
            r == self@.bar.state.color,
    {
        self.bar.color()
    }

    /// Sets the color of this boss bar; viewers are told when it changed.
    pub fn set_color(&mut self, color: BossBarColor) -> (r: Option<BossBarOperation>)
        ensures
            final(self)@ == (CustomBossBarView { bar: BossBarView { state: BossBarStateView { color, ..old(self)@.bar.state }, ..old(self)@.bar }, ..old(self)@ }),
            r == broadcast_if(old(self)@.bar.state.color, color, BossBarOperation::UpdateStyle),
            r matches Some(op) ==> packet_operation(final(self)@.bar.state, op) == (BossEventOperation::UpdateStyle { color, overlay: old(self)@.bar.state.overlay }),
    {
        self.bar.set_color(color)
    }

    /// Returns the overlay of this boss bar.
    pub fn overlay(&self) -> (r: BossBarOverlay)
        ensures
            r == self@.bar.state.overlay,
    {
        self.bar.overlay()
    }

    /// Sets the overlay of this boss bar; viewers are told when it changed.
    pub fn set_overlay(&mut self, overlay: BossBarOverlay) -> (r: Option<BossBarOperation>)
        ensures
            final(self)@ == (CustomBossBarView { bar: BossBarView { state: BossBarStateView { overlay, ..old(self)@.bar.state }, ..old(self)@.bar }, ..old(self)@ }),
            r == broadcast_if(old(self)@.bar.state.overlay, overlay, BossBarOperation::UpdateStyle),
            r matches Some(op) ==> packet_operation(final(self)@.bar.state, op) == (BossEventOperation::UpdateStyle { color: old(self)@.bar.state.color, overlay }),
    {
        self.bar.set_overlay(overlay)
    }

    /// Returns the flags of this boss bar.
    pub fn flags(&self) -> (r: BossBarFlags)
        ensures
            r == self@.bar.state.flags,
    {
        self.bar.flags()
    }

    /// Sets the flags of this boss bar; viewers are told when they changed.
    pub fn set_flags(&mut self, flags: BossBarFlags) -> (r: Option<BossBarOperation>)
        ensures
            final(self)@ == (CustomBossBarView { bar: BossBarView { state: BossBarStateView { flags, ..old(self)@.bar.state }, ..old(self)@.bar }, ..old(self)@ }),
            r == broadcast_if(old(self)@.bar.state.flags@, flags@, BossBarOperation::UpdateProperties),
            r matches Some(op) ==> packet_operation(final(self)@.bar.state, op) == (BossEventOperation::UpdateProperties { flags }),
    {
        self.bar.set_flags(flags)
    }

    /// Adds one or more flags; viewers are told when the flags changed.
    pub fn add_flags(&mut self, flags: BossBarFlags) -> (r: Option<BossBarOperation>)
        ensures
            final(self)@.bar.state.flags@ == old(self)@.bar.state.flags@ | flags@,
            final(self)@ == (CustomBossBarView { bar: BossBarView { state: BossBarStateView { flags: final(self)@.bar.state.flags, ..old(self)@.bar.state }, ..old(self)@.bar }, ..old(self)@ }),
            r == broadcast_if(old(self)@.bar.state.flags@, final(self)@.bar.state.flags@, BossBarOperation::UpdateProperties),
            r matches Some(op) ==> packet_operation(final(self)@.bar.state, op) == (BossEventOperation::UpdateProperties { flags: final(self)@.bar.state.flags }),
    {
        self.bar.add_flags(flags)
    }

    /// Returns whether this boss bar is visible.
    pub fn visible(&self) -> (r: bool)
        ensures
            r == self@.bar.visible,
    {
        self.bar.visible()
    }

    /// Sets whether this boss bar is visible to its viewers; when that
    /// changes, viewers are told to add or remove it.
    pub fn set_visible(&mut self, visible: bool) -> (r: Option<BossBarOperation>)
        ensures
            final(self)@ == (CustomBossBarView { bar: BossBarView { visible, ..old(self)@.bar }, ..old(self)@ }),
            r == if old(self)@.bar.visible != visible {
                Some(if visible { BossBarOperation::Add } else { BossBarOperation::Remove })
            } else {
                None
            },
            r matches Some(op) ==> (visible ==> packet_operation(final(self)@.bar.state, op) == (BossEventOperation::Add {
                name: old(self)@.bar.state.name,
                progress: old(self)@.bar.state.progress,
                color: old(self)@.bar.state.color,
                overlay: old(self)@.bar.state.overlay,
                flags: old(self)@.bar.state.flags,
            })) && (!visible ==> packet_operation(final(self)@.bar.state, op) is Remove),
    {
        self.bar.set_visible(visible)
    }

    /// Fetches the current value of the bossbar.
    pub fn value(&mut self) -> (r: i32)
        ensures
            r == old(self)@.value,
            final(self)@ == old(self)@,
    {
        self.value
    }

    /// Sets the value; the progress becomes the bit pattern of the progress
    /// that the new value and the current maximum give, and viewers are told
    /// when the caller found it `changed`.
    pub fn set_value(&mut self, value: i32, progress: u32, changed: bool) -> (r: Option<
        BossBarOperation,
    >)
        ensures
            final(self)@ == (CustomBossBarView { value, bar: BossBarView { state: BossBarStateView { progress, ..old(self)@.bar.state }, ..old(self)@.bar }, ..old(self)@ }),
            r == if changed {
                Some(BossBarOperation::UpdateProgress)
            } else {
                None
            },
            r matches Some(op) ==> packet_operation(final(self)@.bar.state, op) == (BossEventOperation::UpdateProgress { progress }),
    {
        self.value = value;
        self.bar.set_progress(progress, changed)
    }

    /// Fetches the current maximum of the bossbar.
    pub fn max(&mut self) -> (r: i32)
        ensures
            r == old(self)@.max,
            final(self)@ == old(self)@,
    {
        self.max
    }

    /// Sets the maximum; the progress becomes the bit pattern of the
    /// progress that the current value and the new maximum give, and viewers
    /// are told when the caller found it `changed`.
    pub fn set_max(&mut self, max: i32, progress: u32, changed: bool) -> (r: Option<BossBarOperation>)
        ensures
            final(self)@ == (CustomBossBarView { max, bar: BossBarView { state: BossBarStateView { progress, ..old(self)@.bar.state }, ..old(self)@.bar }, ..old(self)@ }),
            r == if changed {
                Some(BossBarOperation::UpdateProgress)
            } else {
                None
            },
            r matches Some(op) ==> packet_operation(final(self)@.bar.state, op) == (BossEventOperation::UpdateProgress { progress }),
    {
        self.max = max;
        self.bar.set_progress(progress, changed)
    }

    /// Starts showing this boss bar to a player and lets the player see it
    /// from now on: true when the player is to be sent an `Add` packet.
    pub fn add_player(&mut self, address: usize, handle: P, id: Uuid) -> (send: bool)
        requires
            old(self).wf(),
        ensures
            final(self).wf(),
            final(self)@.bar.state == old(self)@.bar.state,
            final(self)@.bar.visible == old(self)@.bar.visible,
            final(self)@.bar.viewers == if !viewer_addresses(old(self)@.bar.viewers).contains(address) {
                old(self)@.bar.viewers.push((address, handle))
            } else {
                old(self)@.bar.viewers
            },
            send == (!viewer_addresses(old(self)@.bar.viewers).contains(address) && old(self)@.bar.visible),
            final(self)@.players == old(self)@.players.insert(id),
            final(self)@.value == old(self)@.value,
            final(self)@.max == old(self)@.max,
    {
        let send = self.bar.add_player(address, handle);
        uuids_insert(&mut self.players, id);
        send
    }

    /// Stops showing this boss bar to a player and forgets the player: true
    /// when the player is to be sent a `Remove` packet.
    pub fn remove_player(&mut self, address: usize, id: Uuid) -> (send: bool)
        requires
            old(self).wf(),
        ensures
            final(self).wf(),
            final(self)@.bar.state == old(self)@.bar.state,
            final(self)@.bar.visible == old(self)@.bar.visible,
            final(self)@.bar.viewers == if viewer_addresses(old(self)@.bar.viewers).contains(address) {
                swap_removed(old(self)@.bar.viewers, address_position(old(self)@.bar.viewers, address))
            } else {
                old(self)@.bar.viewers
            },
            send == (viewer_addresses(old(self)@.bar.viewers).contains(address) && old(self)@.bar.visible),
            final(self)@.players == old(self)@.players.remove(id),
            final(self)@.value == old(self)@.value,
            final(self)@.max == old(self)@.max,
    {
        let send = self.bar.remove_player(address);
        uuids_remove(&mut self.players, id);
        send
    }

    /// Stops showing this boss bar to everyone and forgets every player:
    /// gives back the handles of the viewers, with the operation to send
    /// them (`Remove` when the bar is visible).
    pub fn remove_all_players(&mut self) -> (r: (Option<BossBarOperation>, Vec<P>))
        requires
            old(self).wf(),
        ensures
            final(self).wf(),
            final(self)@ == (CustomBossBarView { bar: BossBarView { viewers: Seq::<(usize, P)>::empty(), ..old(self)@.bar }, players: no_uuids(), ..old(self)@ }),
            r.0 == if old(self)@.bar.visible {
                Some(BossBarOperation::Remove)
            } else {
                None
            },
            r.1@ == entry_handles(old(self)@.bar.viewers),
    {
        let r = self.bar.remove_all_players();
        uuids_clear(&mut self.players);
        r
    }

    /// The viewers of this boss bar.
    pub fn viewers(&self) -> (r: &Viewers<P>)
        ensures
            r@ == self@.bar.viewers,
            self.wf() ==> r.wf(),
    {
        self.bar.viewers()
    }

    /// The players that can see this boss bar when online, each once.
    pub fn players(&self) -> (r: Vec<Uuid>)
        ensures
            r@.no_duplicates(),
            r@.to_set() == self@.players,
    {
        uuids_list(&self.players)
    }

    /// Drops the viewers whose flag in `alive` is false, keeping the order
    /// of the others.
    pub fn clean_viewers(&mut self, alive: &Vec<bool>)
        requires
            old(self).wf(),
            alive@.len() == old(self)@.bar.viewers.len(),
        ensures
            final(self).wf(),
            final(self)@ == (CustomBossBarView { bar: BossBarView { viewers: kept(old(self)@.bar.viewers, alive@), ..old(self)@.bar }, ..old(self)@ }),
    {
        self.bar.clean_viewers(alive);
    }

    /// Creates the packet of an operation from this boss bar's state.
    pub fn create_packet(&self, operation: BossBarOperation) -> (r: CBossEvent)
        ensures
            r.id == self@.bar.state.id,
            r.operation == packet_operation(self@.bar.state, operation),
    {
        self.bar.create_packet(operation)
    }
}

} // verus!
