//! The state of a player that the handlers read and write.

use crate::digging::Digging;
use crate::inventory::{all_slots, empty_slots, Area, Inventory, SlotIndex, HOTBAR_SLOTS};
use crate::item::Slot;
use crate::position::Position;
use vstd::prelude::*;

verus! {

/// The name by which the server knows a player, or anything else that lives in
/// its world.
#[derive(Clone, Copy, Debug, PartialEq, Eq, Structural)]
pub struct Entity {
    pub id: u64,
}

/// Which slot of the hotbar a player holds in hand.
pub struct HeldItem {
    index: usize,
}

impl View for HeldItem {
    type V = usize;

    closed spec fn view(&self) -> usize {
        self.index
    }
}

impl HeldItem {
    #[verifier::type_invariant]
    spec fn in_hotbar(&self) -> bool {
        self.index < HOTBAR_SLOTS
    }

    /// The hotbar slot `index` as the slot in hand, if the hotbar has that slot.
    pub fn new(index: usize) -> (held: Option<HeldItem>)
        ensures
            held is Some <==> index < HOTBAR_SLOTS,
            held matches Some(h) ==> h@ == index,
    {
        if index < HOTBAR_SLOTS {
            Some(HeldItem { index })
        } else {
            None
        }
    }

    /// The index of the slot in hand, which the hotbar always has.
    pub fn index(&self) -> (index: usize)
        ensures
            index == self@,
            index < HOTBAR_SLOTS,
    {
        proof {
            use_type_invariant(self);
        }
        self.index
    }
}

/// The record of a use of an item that takes time, such as the drawing of a bow.
#[derive(Clone, Copy, Debug, PartialEq, Eq, Structural)]
pub struct ItemTimedUse {
    /// The tick at which the use began.
    pub tick_start: u64,
}

/// A player, as the handlers see one.
pub struct Player {
    pub entity: Entity,
    /// Whether the player may break blocks at all.
    pub can_break: bool,
    /// Whether the player breaks any block at once.
    pub can_insta_break: bool,
    /// Where the player stands.
    pub position: Position,
    pub held_item: HeldItem,
    pub inventory: Inventory,
    /// The dig under way, if there is one.
    pub digging: Option<Digging>,
    /// The timed use under way, if there is one.
    pub timed_use: Option<ItemTimedUse>,
}

/// The mathematical value of a [`Player`].
pub struct PlayerView {
    pub entity: Entity,
    pub can_break: bool,
    pub can_insta_break: bool,
    pub position: Position,
    pub held_item: usize,
    pub inventory: Map<SlotIndex, Slot>,
    pub digging: Option<Digging>,
    pub timed_use: Option<ItemTimedUse>,
}

impl View for Player {
    type V = PlayerView;

    open spec fn view(&self) -> PlayerView {
        PlayerView {
            entity: self.entity,
            can_break: self.can_break,
            can_insta_break: self.can_insta_break,
            position: self.position,
            held_item: self.held_item@,
            inventory: self.inventory@,
            digging: self.digging,
            timed_use: self.timed_use,
        }
    }
}

impl PlayerView {
    /// The slot that the player holds in hand.
    pub open spec fn hand(self) -> SlotIndex {
        SlotIndex { area: Area::Hotbar, slot: self.held_item }
    }

    /// What the player holds in hand.
    pub open spec fn in_hand(self) -> Slot {
        self.inventory[self.hand()]
    }

    /// Whether the value is that of a player: the slot in hand is one of the hotbar,
    /// and the inventory has exactly the slots that every inventory has.
    pub open spec fn well_formed(self) -> bool {
        &&& self.held_item < HOTBAR_SLOTS
        &&& self.inventory.dom() == all_slots()
    }
}

impl Player {
    /// What the player holds in hand.
    pub fn item_in_main_hand(&self) -> (held: Slot)
        ensures
            held == self@.in_hand(),
            self@.well_formed(),
    {
        let index: usize = self.held_item.index();
        proof {
            self.inventory.lemma_slots();
            assert((SlotIndex { area: Area::Hotbar, slot: index }).in_bounds());
        }
        match self.inventory.item_at(Area::Hotbar, index) {
            Ok(held) => held,
            Err(_) => None,
        }
    }

    /// A player who stands at `position` with empty hands and nothing under way.
    pub fn new(entity: Entity, position: Position) -> (player: Player)
        ensures
            player@.well_formed(),
            player.entity == entity,
            player.position == position,
            !player.can_break,
            !player.can_insta_break,
            player.held_item@ == 0,
            player.inventory@ == empty_slots(),
            player.digging is None,
            player.timed_use is None,
    {
        let inventory = Inventory::new();
        Player {
            entity,
            can_break: false,
            can_insta_break: false,
            position,
            held_item: HeldItem { index: 0 },
            inventory,
            digging: None,
            timed_use: None,
        }
    }
}

} // verus!
