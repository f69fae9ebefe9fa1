//! What the handlers ask of the rest of the server: changes to the world and
//! events for whoever listens.

use crate::digging::{FinishDiggingEvent, StartDiggingEvent};
use crate::inventory::SlotIndex;
use crate::item::{Item, ItemStack};
use crate::player::{Entity, PlayerView};
use crate::position::BlockPosition;
use crate::slot_list::SlotList;
use vstd::prelude::*;

verus! {

/// Told when slots of a player's inventory have changed.
pub struct InventoryUpdateEvent {
    /// The slots that changed.
    pub slots: SlotList,
    pub player: Entity,
}

/// The mathematical value of an [`InventoryUpdateEvent`].
pub struct InventoryUpdate {
    pub slots: Seq<SlotIndex>,
    pub player: Entity,
}

impl View for InventoryUpdateEvent {
    type V = InventoryUpdate;

    open spec fn view(&self) -> InventoryUpdate {
        InventoryUpdate { slots: self.slots@, player: self.player }
    }
}

/// Told when a player drops items.
#[derive(Clone, Copy, Debug, PartialEq, Eq, Structural)]
pub struct ItemDropEvent {
    /// The slot that the items came from, if they came from one.
    pub slot: Option<SlotIndex>,
    /// The items dropped.
    pub stack: ItemStack,
    pub player: Entity,
}

/// The release of a drawn bow.
#[derive(Clone, Copy, Debug, PartialEq, Eq, Structural)]
pub struct BowRelease {
    /// The player who let go.
    pub player: Entity,
    /// The kind of arrow that leaves the bow.
    pub arrow: Item,
    /// For how many ticks the bow was drawn, as far as that adds to the force.
    pub ticks_held: u32,
}

/// One thing that a handler asks for. The server carries the effects of a message
/// out in the order in which the handler gives them.
pub enum Effect {
    /// Put air where the block at `pos` is, on behalf of `player`.
    BreakBlock { player: Entity, pos: BlockPosition },
    StartDigging(StartDiggingEvent),
    FinishDigging(FinishDiggingEvent),
    InventoryUpdate(InventoryUpdateEvent),
    ItemDrop(ItemDropEvent),
    /// Send an arrow on its way.
    ShootArrow(BowRelease),
}

/// The mathematical value of an [`Effect`].
pub enum EffectView {
    BreakBlock { player: Entity, pos: BlockPosition },
    StartDigging(StartDiggingEvent),
    FinishDigging(FinishDiggingEvent),
    InventoryUpdate(InventoryUpdate),
    ItemDrop(ItemDropEvent),
    ShootArrow(BowRelease),
}

impl View for Effect {
    type V = EffectView;

    open spec fn view(&self) -> EffectView {
        match *self {
            Effect::BreakBlock { player, pos } => EffectView::BreakBlock { player, pos },
            Effect::StartDigging(e) => EffectView::StartDigging(e),
            Effect::FinishDigging(e) => EffectView::FinishDigging(e),
            Effect::InventoryUpdate(e) => EffectView::InventoryUpdate(e@),
            Effect::ItemDrop(e) => EffectView::ItemDrop(e),
            Effect::ShootArrow(e) => EffectView::ShootArrow(e),
        }
    }
}

impl DeepView for Effect {
    type V = EffectView;

    open spec fn deep_view(&self) -> EffectView {
        self@
    }
}

/// What a message leads to: the player as the handler leaves them, and the
/// effects it asks for, in order.
pub struct Outcome {
    pub player: PlayerView,
    pub effects: Seq<EffectView>,
}

impl Outcome {
    /// The outcome of a message that is dropped: nothing changes and nothing is asked for.
    pub open spec fn ignored(player: PlayerView) -> Outcome {
        Outcome { player, effects: Seq::empty() }
    }
}

} // verus!
