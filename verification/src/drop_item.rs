//! The dropping of items from the hand.

use crate::event::{Effect, EffectView, InventoryUpdate, InventoryUpdateEvent, ItemDropEvent, Outcome};
use crate::inventory::{slot, Area, SlotIndex};
use crate::item::{ItemStack, Slot};
use crate::packet::{Family, PlayerDigging, PlayerDiggingStatus};
use crate::player::{Player, PlayerView};
use crate::slot_list::SlotList;
use vstd::prelude::*;

verus! {

/// How many items of `stack` leave the hand: for a message that drops one item,
/// one, or none where the stack holds none; for any other, all of them.
pub open spec fn amount_dropped(status: PlayerDiggingStatus, stack: ItemStack) -> u8 {
    if status == PlayerDiggingStatus::DropItem && stack.amount > 1 {
        1
    } else {
        stack.amount
    }
}

/// What stays in the hand of `stack`: a stack with one item less where one item of
/// several is dropped, and nothing otherwise.
pub open spec fn left_in_hand(status: PlayerDiggingStatus, stack: ItemStack) -> Slot {
    if status == PlayerDiggingStatus::DropItem && stack.amount > 1 {
        Some(ItemStack { ty: stack.ty, amount: (stack.amount - 1) as u8 })
    } else {
        None
    }
}

/// What a message that drops items from the hand leads to.
///
/// With an empty hand nothing happens. Otherwise the slot in hand keeps what is
/// left, the change of that slot is told, and, where any item left the hand, the
/// drop is told after it.
pub open spec fn dropped(player: PlayerView, status: PlayerDiggingStatus) -> Outcome {
    match player.in_hand() {
        None => Outcome::ignored(player),
        Some(stack) => {
            let update = EffectView::InventoryUpdate(
                InventoryUpdate { slots: seq![player.hand()], player: player.entity },
            );
            let drop = EffectView::ItemDrop(
                ItemDropEvent {
                    slot: Some(player.hand()),
                    stack: ItemStack { ty: stack.ty, amount: amount_dropped(status, stack) },
                    player: player.entity,
                },
            );
            Outcome {
                player: PlayerView {
                    inventory: player.inventory.insert(player.hand(), left_in_hand(status, stack)),
                    ..player
                },
                effects: if amount_dropped(status, stack) != 0 {
                    seq![update, drop]
                } else {
                    seq![update]
                },
            }
        },
    }
}

/// Handles a message that drops one item, or the whole stack, from the hand.
pub fn handle_drop_item_stack(player: &mut Player, packet: &PlayerDigging) -> (effects: Vec<Effect>)
    requires
        packet.status.spec_family() == Family::DropItem,
    ensures
        final(player)@ == dropped(old(player)@, packet.status).player,
        effects.deep_view() == dropped(old(player)@, packet.status).effects,
{
    let mut effects: Vec<Effect> = Vec::new();
    let held_item: usize = player.held_item.index();
    let stack = match player.item_in_main_hand() {
        Some(stack) => stack,
        None => {
            assert(effects.deep_view() =~= Seq::<EffectView>::empty());
            return effects;
        },
    };
    let one_of_several: bool = match packet.status {
        PlayerDiggingStatus::DropItem => stack.amount > 1,
        _ => false,
    };
    let amnt: u8 = if one_of_several {
        let _ = player.inventory.set_item_at(
            Area::Hotbar,
            held_item,
            ItemStack::new(stack.ty, stack.amount - 1),
        );
        1
    } else {
        let _ = player.inventory.remove_item_at(Area::Hotbar, held_item);
        stack.amount
    };
    let idx = slot(Area::Hotbar, held_item);
    assert(idx.in_bounds());
    effects.push(
        Effect::InventoryUpdate(
            InventoryUpdateEvent { slots: SlotList::single(idx), player: player.entity },
        ),
    );
    if amnt != 0 {
        effects.push(
            Effect::ItemDrop(
                ItemDropEvent {
                    slot: Some(idx),
                    stack: ItemStack::new(stack.ty, amnt),
                    player: player.entity,
                },
            ),
        );
    }
    assert(effects.deep_view() =~= dropped(old(player)@, packet.status).effects);
    effects
}

/// The two things that dropping from a full hand may tell: that the slot in hand
/// changed, and that `amount` items of the kind `stack` holds were dropped from it.
pub open spec fn told_of_drop(player: PlayerView, stack: ItemStack, amount: u8) -> Seq<
    EffectView,
> {
    seq![
        EffectView::InventoryUpdate(
            InventoryUpdate { slots: seq![player.hand()], player: player.entity },
        ),
        EffectView::ItemDrop(
            ItemDropEvent {
                slot: Some(player.hand()),
                stack: ItemStack { ty: stack.ty, amount },
                player: player.entity,
            },
        ),
    ]
}

/// Dropping one item of a stack leaves the rest in hand. A stack of one goes
/// whole: the slot is emptied, and its change and the drop of one item are told.
/// A stack of none goes too, but only the change of the slot is told. Of a larger
/// stack one item less stays, and the change and the drop of one item are told.
pub proof fn law_drop_one(player: PlayerView, stack: ItemStack)
    requires
        player.well_formed(),
        player.in_hand() == Some(stack),
    ensures
        ({
            let after = dropped(player, PlayerDiggingStatus::DropItem);
            &&& after.player == (PlayerView { inventory: after.player.inventory, ..player })
            &&& forall|idx: SlotIndex|
                idx != player.hand() ==> after.player.inventory[idx] == player.inventory[idx]
            &&& stack.amount == 0 ==> after.player.in_hand() is None && after.effects
                == told_of_drop(player, stack, 0).take(1)
            &&& stack.amount == 1 ==> after.player.in_hand() is None && after.effects
                == told_of_drop(player, stack, 1)
            &&& stack.amount > 1 ==> after.player.in_hand() == Some(
                ItemStack { ty: stack.ty, amount: (stack.amount - 1) as u8 },
            ) && after.effects == told_of_drop(player, stack, 1)
        }),
{
    let after = dropped(player, PlayerDiggingStatus::DropItem);
    if stack.amount == 0 {
        assert(after.effects =~= told_of_drop(player, stack, 0).take(1));
    }
}

/// Dropping the stack in hand empties the slot, and tells its change and, for a
/// stack that holds any item, the drop of all of them.
pub proof fn law_drop_stack(player: PlayerView, stack: ItemStack)
    requires
        player.well_formed(),
        player.in_hand() == Some(stack),
    ensures
        ({
            let after = dropped(player, PlayerDiggingStatus::DropItemStack);
            &&& after.player == (PlayerView { inventory: after.player.inventory, ..player })
            &&& forall|idx: SlotIndex|
                idx != player.hand() ==> after.player.inventory[idx] == player.inventory[idx]
            &&& after.player.in_hand() is None
            &&& stack.amount > 0 ==> after.effects == told_of_drop(player, stack, stack.amount)
            &&& stack.amount == 0 ==> after.effects == told_of_drop(player, stack, 0).take(1)
        }),
{
    let after = dropped(player, PlayerDiggingStatus::DropItemStack);
    if stack.amount == 0 {
        assert(after.effects =~= told_of_drop(player, stack, 0).take(1));
    }
}

/// With an empty hand a message that drops items changes nothing and tells nothing.
pub proof fn law_drop_from_empty_hand(player: PlayerView, status: PlayerDiggingStatus)
    requires
        player.in_hand() is None,
    ensures
        dropped(player, status) == Outcome::ignored(player),
{
}

} // verus!
