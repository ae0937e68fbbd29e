//! The earlier boss bar: state and viewers in one type, where dropping a
//! gone viewer moves the last viewer into its place.
use crate::boss_bar::{broadcast_if, BossBarView};
use crate::boss_bar_properties::{BossBarColor, BossBarFlags, BossBarOverlay};
use crate::boss_bar_state::{
    packet_operation, BossBarOperation, BossBarState, BossBarStateView, BossEventOperation,
    CBossEvent,
};
use crate::viewers::{address_position, kept, swap_removed, viewer_addresses, Viewers};
use text_components::TextComponent;
use uuid::Uuid;
use vstd::prelude::*;

verus! {

/// What visiting the viewers from position `i` on leaves: a viewer whose
/// flag is set stays and the visit moves on; a gone viewer's place is taken
/// by the last viewer, which is visited next.
pub open spec fn swap_cleaned<T>(s: Seq<T>, alive: Seq<bool>, i: int) -> Seq<T>
    decreases s.len() - i,
{
    if i < 0 || i >= s.len() || alive.len() != s.len() {
        s
    } else if alive[i] {
        swap_cleaned(s, alive, i + 1)
    } else {
        swap_cleaned(swap_removed(s, i), swap_removed(alive, i), i)
    }
}

/// `x` stands at a position of `s` whose flag is set.
pub open spec fn alive_member<T>(s: Seq<T>, alive: Seq<bool>, x: T) -> bool {
    exists|j: int| 0 <= j < s.len() && s[j] == x && alive[j]
}

/// Visiting and dropping gone viewers keeps exactly the viewers whose flag
/// is set.
pub proof fn lemma_swap_cleaned_members<T>(s: Seq<T>, alive: Seq<bool>, i: int)
    requires
        alive.len() == s.len(),
        0 <= i <= s.len(),
        forall|j: int| 0 <= j < i ==> alive[j],
    ensures
        forall|x: T| #[trigger] swap_cleaned(s, alive, i).contains(x) <==> alive_member(s, alive, x),
    decreases s.len() - i,
{
    if i >= s.len() {
        assert forall|x: T| #[trigger] swap_cleaned(s, alive, i).contains(x) <==> alive_member(s, alive, x) by {
            if s.contains(x) {
                let j = choose|j: int| 0 <= j < s.len() && s[j] == x;
                assert(alive[j]);
            }
        }
    } else if alive[i] {
        lemma_swap_cleaned_members(s, alive, i + 1);
        assert(swap_cleaned(s, alive, i) == swap_cleaned(s, alive, i + 1));
    } else {
        let s2 = swap_removed(s, i);
        let a2 = swap_removed(alive, i);
        assert forall|j: int| 0 <= j < i implies a2[j] by {
            assert(a2[j] == alive[j]);
        }
        lemma_swap_cleaned_members(s2, a2, i);
        let n = s.len() - 1;
        assert forall|x: T| alive_member(s2, a2, x) <==> alive_member(s, alive, x) by {
            if alive_member(s2, a2, x) {
                let j = choose|j: int| 0 <= j < s2.len() && s2[j] == x && a2[j];
                if j == i {
                    assert(s[n] == x && alive[n]);
                } else {
                    assert(s[j] == x && alive[j]);
                }
            }
            if alive_member(s, alive, x) {
                let j = choose|j: int| 0 <= j < s.len() && s[j] == x && alive[j];
                assert(j != i);
                if j == n {
                    assert(s2[i] == x && a2[i]);
                } else {
                    assert(s2[j] == x && a2[j]);
                }
            }
        }
        assert(swap_cleaned(s, alive, i) == swap_cleaned(s2, a2, i));
        assert forall|x: T| #[trigger] swap_cleaned(s, alive, i).contains(x) <==> alive_member(s, alive, x) by {
            assert(swap_cleaned(s2, a2, i).contains(x) <==> alive_member(s2, a2, x));
        }
    }
}

/// Keeping the entries whose flag is set keeps exactly those.
pub proof fn lemma_kept_members<T>(s: Seq<T>, alive: Seq<bool>)
    requires
        alive.len() == s.len(),
    ensures
        forall|x: T| #[trigger] kept(s, alive).contains(x) <==> alive_member(s, alive, x),
    decreases s.len(),
{
    if s.len() > 0 {
        let n = s.len() - 1;
        let s0 = s.drop_last();
        let a0 = alive.take(n);
        lemma_kept_members(s0, a0);
        let k0 = kept(s0, a0);
        assert forall|x: T| alive_member(s0, a0, x) ==> alive_member(s, alive, x) by {
            if alive_member(s0, a0, x) {
                let j = choose|j: int| 0 <= j < s0.len() && s0[j] == x && a0[j];
                assert(s[j] == x && alive[j]);
            }
        }
        assert forall|x: T| alive_member(s, alive, x) ==> alive_member(s0, a0, x) || (x == s[n] && alive[n]) by {
            if alive_member(s, alive, x) {
                let j = choose|j: int| 0 <= j < s.len() && s[j] == x && alive[j];
                if j < n {
                    assert(s0[j] == x && a0[j]);
                }
            }
        }
        if alive[n] {
            assert(kept(s, alive) == k0.push(s[n]));
            assert forall|x: T| #[trigger] kept(s, alive).contains(x) <==> alive_member(s, alive, x) by {
                assert(k0.contains(x) <==> alive_member(s0, a0, x));
                if x == s[n] {
                    assert(kept(s, alive)[k0.len() as int] == x);
                    assert(s[n] == x && alive[n]);
                }
                if kept(s, alive).contains(x) && x != s[n] {
                    let j = choose|j: int| 0 <= j < kept(s, alive).len() && kept(s, alive)[j] == x;
                    assert(k0[j] == x);
                }
                if k0.contains(x) {
                    let j = choose|j: int| 0 <= j < k0.len() && k0[j] == x;
                    assert(kept(s, alive)[j] == x);
                }
            }
        } else {
            assert(kept(s, alive) == k0);
            assert forall|x: T| #[trigger] kept(s, alive).contains(x) <==> alive_member(s, alive, x) by {
                assert(k0.contains(x) <==> alive_member(s0, a0, x));
            }
        }
    } else {
        assert forall|x: T| #[trigger] kept(s, alive).contains(x) <==> alive_member(s, alive, x) by {
        }
    }
}

/// Both boss bars drop the same viewers: the earlier one, which moves the
/// last viewer into each gone viewer's place, keeps the same viewers as the
/// one that keeps the order.
pub proof fn lemma_cleanings_keep_same_viewers<T>(s: Seq<T>, alive: Seq<bool>)
    requires
        alive.len() == s.len(),
    ensures
        forall|x: T| #[trigger] swap_cleaned(s, alive, 0).contains(x) <==> kept(s, alive).contains(x),
{
    lemma_swap_cleaned_members(s, alive, 0);
    lemma_kept_members(s, alive);
    assert forall|x: T| #[trigger] swap_cleaned(s, alive, 0).contains(x) <==> kept(s, alive).contains(x) by {
        assert(swap_cleaned(s, alive, 0).contains(x) <==> alive_member(s, alive, x));
        assert(kept(s, alive).contains(x) <==> alive_member(s, alive, x));
    }
}

/// Represents an entire boss bar, including its state (name, progress,
/// color, overlay and flags) and its viewers, each a handle of type `P` to a
/// player with the player's address.
pub struct BossBar<P> {
    state: BossBarState,
    viewers: Viewers<P>,
    visible: bool,
}

impl<P> View for BossBar<P> {
    type V = BossBarView<P>;

    closed spec fn view(&self) -> BossBarView<P> {
        BossBarView { state: self.state@, viewers: self.viewers@, visible: self.visible }
    }
}

impl<P> BossBar<P> {
    /// The viewers are well formed.
    pub closed spec fn wf(&self) -> bool {
        self.viewers.wf()
    }

    /// Creates a new, visible boss bar with no viewers and a new random ID.
    pub fn new(
        name: TextComponent,
        progress: u32,
        color: BossBarColor,
        overlay: BossBarOverlay,
        flags: BossBarFlags,
    ) -> (r: Self)
        ensures
            r.wf(),
            r@.state.name == name,
            r@.state.progress == progress,
            r@.state.color == color,
            r@.state.overlay == overlay,
            r@.state.flags == flags,
            r@.viewers == Seq::<(usize, P)>::empty(),
            r@.visible,
    {
        BossBar {
            state: BossBarState::new(name, progress, color, overlay, flags),
            viewers: Viewers::new(),
            visible: true,
        }
    }

    /// Returns the ID of this boss bar.
    pub fn id(&self) -> (r: Uuid)
        ensures
            r == self@.state.id,
    {
        self.state.id()
    }

    /// Returns the displayed name of this boss bar.
    pub fn name(&self) -> (r: &TextComponent)
        ensures
            *r == self@.state.name,
    {
        self.state.name()
    }

    /// Sets the displayed name of this boss bar; every viewer is told.
    pub fn set_name(&mut self, name: TextComponent) -> (r: Option<BossBarOperation>)
        ensures
            final(self)@ == (BossBarView { state: BossBarStateView { name, ..old(self)@.state }, ..old(self)@ }),
            r == Some(BossBarOperation::UpdateName),
            r matches Some(op) && packet_operation(final(self)@.state, op) == (BossEventOperation::UpdateName { name }),
    {
        self.state.set_name(name);
        Some(BossBarOperation::UpdateName)
    }

    /// Returns the bit pattern of the progress of this boss bar.
    pub fn progress(&self) -> (r: u32)
        ensures
            r == self@.state.progress,
    {
        self.state.progress()
    }

    /// Sets the progress of this boss bar to the bit pattern of a clamped
    /// progress; viewers are told when the caller found it `changed`.
    pub fn set_progress(&mut self, progress: u32, changed: bool) -> (r: Option<BossBarOperation>)
        ensures
            final(self)@ == (BossBarView { state: BossBarStateView { progress, ..old(self)@.state }, ..old(self)@ }),
            r == if changed {
                Some(BossBarOperation::UpdateProgress)
            } else {
                None
            },
            r matches Some(op) ==> packet_operation(final(self)@.state, op) == (BossEventOperation::UpdateProgress { progress }),
    {
        self.state.set_progress(progress);
        if changed {
            Some(BossBarOperation::UpdateProgress)
        } else {
            None
        }
    }

    /// Returns the color of this boss bar.
    pub fn color(&self) -> (r: BossBarColor)
        ensures
            r == self@.state.color,
    {
        self.state.color()
    }

    /// Sets the color of this boss bar; viewers are told when it changed.
    pub fn set_color(&mut self, color: BossBarColor) -> (r: Option<BossBarOperation>)
        ensures
            final(self)@ == (BossBarView { state: BossBarStateView { color, ..old(self)@.state }, ..old(self)@ }),
            r == broadcast_if(old(self)@.state.color, color, BossBarOperation::UpdateStyle),
            r matches Some(op) ==> packet_operation(final(self)@.state, op) == (BossEventOperation::UpdateStyle { color, overlay: old(self)@.state.overlay }),
    {
        let changed = self.state.color() != color;
        self.state.set_color(color);
        if changed {
            Some(BossBarOperation::UpdateStyle)
        } else {
            None
        }
    }

    /// Returns the overlay of this boss bar.
    pub fn overlay(&self) -> (r: BossBarOverlay)
        ensures
            r == self@.state.overlay,
    {
        self.state.overlay()
    }

    /// Sets the overlay of this boss bar; viewers are told when it changed.
    pub fn set_overlay(&mut self, overlay: BossBarOverlay) -> (r: Option<BossBarOperation>)
        ensures
            final(self)@ == (BossBarView { state: BossBarStateView { overlay, ..old(self)@.state }, ..old(self)@ }),
            r == broadcast_if(old(self)@.state.overlay, overlay, BossBarOperation::UpdateStyle),
            r matches Some(op) ==> packet_operation(final(self)@.state, op) == (BossEventOperation::UpdateStyle { color: old(self)@.state.color, overlay }),
    {
        let changed = self.state.overlay() != overlay;
        self.state.set_overlay(overlay);
        if changed {
            Some(BossBarOperation::UpdateStyle)
        } else {
            None
        }
    }

    /// Returns the flags of this boss bar.
    pub fn flags(&self) -> (r: BossBarFlags)
        ensures
            r == self@.state.flags,
    {
        self.state.flags()
    }

    /// Sets the flags of this boss bar; viewers are told when they changed.
    pub fn set_flags(&mut self, flags: BossBarFlags) -> (r: Option<BossBarOperation>)
        ensures
            final(self)@ == (BossBarView { state: BossBarStateView { flags, ..old(self)@.state }, ..old(self)@ }),
            r == broadcast_if(old(self)@.state.flags@, flags@, BossBarOperation::UpdateProperties),
            r matches Some(op) ==> packet_operation(final(self)@.state, op) == (BossEventOperation::UpdateProperties { flags }),
    {
        let changed = self.state.flags().bits() != flags.bits();
        self.state.set_flags(flags);
        if changed {
            Some(BossBarOperation::UpdateProperties)
        } else {
            None
        }
    }

    /// Adds one or more flags to this boss bar; viewers are told when the
    /// flags changed.
    pub fn add_flags(&mut self, flags: BossBarFlags) -> (r: Option<BossBarOperation>)
        ensures
            final(self)@.state.flags@ == old(self)@.state.flags@ | flags@,
            final(self)@ == (BossBarView { state: BossBarStateView { flags: final(self)@.state.flags, ..old(self)@.state }, ..old(self)@ }),
            r == broadcast_if(old(self)@.state.flags@, final(self)@.state.flags@, BossBarOperation::UpdateProperties),
            r matches Some(op) ==> packet_operation(final(self)@.state, op) == (BossEventOperation::UpdateProperties { flags: final(self)@.state.flags }),
    {
        let previous = self.state.flags().bits();
        self.state.add_flags(flags);
        if previous != self.state.flags().bits() {
            Some(BossBarOperation::UpdateProperties)
        } else {
            None
        }
    }

    /// Returns whether this boss bar is visible.
    pub fn visible(&self) -> (r: bool)
        ensures
            r == self@.visible,
    {
        self.visible
    }

    /// Sets whether this boss bar is visible to its viewers; when that
    /// changes, viewers are told to add or remove it.
    pub fn set_visible(&mut self, visible: bool) -> (r: Option<BossBarOperation>)
        ensures
            final(self)@ == (BossBarView { visible, ..old(self)@ }),
            r == if old(self)@.visible != visible {
                Some(if visible { BossBarOperation::Add } else { BossBarOperation::Remove })
            } else {
                None
            },
            r matches Some(op) ==> (visible ==> packet_operation(final(self)@.state, op) == (BossEventOperation::Add {
                name: old(self)@.state.name,
                progress: old(self)@.state.progress,
                color: old(self)@.state.color,
                overlay: old(self)@.state.overlay,
                flags: old(self)@.state.flags,
            })) && (!visible ==> packet_operation(final(self)@.state, op) is Remove),
    {
        let r = if self.visible != visible {
            Some(if visible { BossBarOperation::Add } else { BossBarOperation::Remove })
        } else {
            None
        };
        self.visible = visible;
        r
    }

    /// Adds a viewer to this boss bar: true when the player is to be sent
    /// an `Add` packet (it was not a viewer and the bar is visible).
    pub fn add_viewer(&mut self, address: usize, handle: P) -> (send: bool)
        requires
            old(self).wf(),
        ensures
            final(self).wf(),
            final(self)@.state == old(self)@.state,
            final(self)@.visible == old(self)@.visible,
            final(self)@.viewers == if !viewer_addresses(old(self)@.viewers).contains(address) {
                old(self)@.viewers.push((address, handle))
            } else {
                old(self)@.viewers
            },
            send == (!viewer_addresses(old(self)@.viewers).contains(address) && old(self)@.visible),
    {
        self.viewers.add(address, handle) && self.visible
    }

    /// Removes a viewer from this boss bar: true when the player is to be
    /// sent a `Remove` packet, which is whenever the bar is visible, viewer
    /// or not.
    pub fn remove_viewer(&mut self, address: usize) -> (send: bool)
        requires
            old(self).wf(),
        ensures
            final(self).wf(),
            final(self)@.state == old(self)@.state,
            final(self)@.visible == old(self)@.visible,
            final(self)@.viewers == if viewer_addresses(old(self)@.viewers).contains(address) {
                swap_removed(old(self)@.viewers, address_position(old(self)@.viewers, address))
            } else {
                old(self)@.viewers
            },
            send == old(self)@.visible,
    {
        self.viewers.remove(address);
        self.visible
    }

    /// Removes one or more flags from this boss bar; viewers are told when
    /// the flags changed.
    pub fn remove_flags(&mut self, flags: BossBarFlags) -> (r: Option<BossBarOperation>)
        ensures
            final(self)@.state.flags@ == old(self)@.state.flags@ & !flags@,
            final(self)@ == (BossBarView { state: BossBarStateView { flags: final(self)@.state.flags, ..old(self)@.state }, ..old(self)@ }),
            r == broadcast_if(old(self)@.state.flags@, final(self)@.state.flags@, BossBarOperation::UpdateProperties),
            r matches Some(op) ==> packet_operation(final(self)@.state, op) == (BossEventOperation::UpdateProperties { flags: final(self)@.state.flags }),
    {
        let previous = self.state.flags().bits();
        self.state.remove_flags(flags);
        if previous != self.state.flags().bits() {
            Some(BossBarOperation::UpdateProperties)
        } else {
            None
        }
    }

    /// Prepares telling every viewer about an operation. With no viewers
    /// there is nothing to send. Otherwise the viewers whose flag in `alive`
    /// is false are dropped, each gone viewer's place taken by the last
    /// viewer, and the packet to send to each remaining viewer, in order,
    /// is given back.
    pub fn update_viewers(&mut self, operation: BossBarOperation, alive: &Vec<bool>) -> (r: Option<
        CBossEvent,
    >)
        requires
            old(self).wf(),
            alive@.len() == old(self)@.viewers.len(),
        ensures
            final(self).wf(),
            old(self)@.viewers.len() == 0 ==> r is None && final(self)@ == old(self)@,
            old(self)@.viewers.len() > 0 ==> {
                &&& r is Some
                &&& r->Some_0.id == old(self)@.state.id
                &&& r->Some_0.operation == packet_operation(old(self)@.state, operation)
                &&& final(self)@ == (BossBarView {
                    viewers: swap_cleaned(old(self)@.viewers, alive@, 0),
                    ..old(self)@
                })
            },
    {
        if self.viewers.len() == 0 {
            return None;
        }
        let packet = self.state.create_packet(operation);
        let mut flags: Vec<bool> = Vec::new();
        let mut j: usize = 0;
        while j < alive.len()
            invariant
                j <= alive@.len(),
                flags@ == alive@.take(j as int),
            decreases alive@.len() - j,
        {
            flags.push(alive[j]);
            assert(flags@ =~= alive@.take(j + 1));
            j = j + 1;
        }
        assert(flags@ =~= alive@);
        let ghost start = self@;
        let mut i: usize = 0;
        while i < self.viewers.len()
            invariant
                self.wf(),
                self@.state == start.state,
                self@.visible == start.visible,
                flags@.len() == self@.viewers.len(),
                i <= self@.viewers.len(),
                swap_cleaned(self@.viewers, flags@, i as int) == swap_cleaned(
                    start.viewers,
                    alive@,
                    0,
                ),
            decreases self@.viewers.len() - i,
        {
            if flags[i] {
                i = i + 1;
            } else {
                self.viewers.remove_at(i);
                flags.swap_remove(i);
            }
        }
        Some(packet)
    }

    /// The viewers of this boss bar.
    pub fn viewers(&self) -> (r: &Viewers<P>)
        ensures
            r@ == self@.viewers,
            self.wf() ==> r.wf(),
    {
        &self.viewers
    }

    /// Creates the packet of an operation from this boss bar's state.
    pub fn create_packet(&self, operation: BossBarOperation) -> (r: CBossEvent)
        ensures
            r.id == self@.state.id,
            r.operation == packet_operation(self@.state, operation),
    {
        self.state.create_packet(operation)
    }
}

} // verus!
