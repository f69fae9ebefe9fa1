use player_digging::digging::handle_player_digging;
use player_digging::drop_item::handle_drop_item_stack;
use player_digging::event::Effect;
use player_digging::inventory::{slot, Area, SlotIndex};
use player_digging::item::{Item, ItemStack};
use player_digging::packet::{Face, PlayerDigging, PlayerDiggingStatus};
use player_digging::player::{Entity, HeldItem, Player};
use player_digging::position::{BlockPosition, Position};

const ME: Entity = Entity { id: 11 };

fn message(status: PlayerDiggingStatus) -> PlayerDigging {
    PlayerDigging { status, location: BlockPosition { x: 0, y: 0, z: 0 }, face: Face::Bottom }
}

fn cobble() -> Item {
    Item::Other { id: 4, tool: None, dig_multiplier: None }
}

/// A player who holds hotbar slot 3, with `amount` cobblestone in it.
fn holder(amount: u8) -> Player {
    let mut player = Player::new(ME, Position { x: 0, y: 0, z: 0 });
    player.held_item = HeldItem::new(3).unwrap();
    player.inventory.set_item_at(Area::Hotbar, 3, ItemStack::new(cobble(), amount)).unwrap();
    player.inventory.set_item_at(Area::Hotbar, 0, ItemStack::new(Item::Arrow, 9)).unwrap();
    player
}

fn assert_update_of_hand(effect: &Effect) {
    match effect {
        Effect::InventoryUpdate(event) => {
            assert_eq!(event.player, ME);
            assert_eq!(event.slots.to_vec(), vec![SlotIndex { area: Area::Hotbar, slot: 3 }]);
        }
        _ => panic!("the change of the slot was not told"),
    }
}

fn assert_drop(effect: &Effect, amount: u8) {
    match effect {
        Effect::ItemDrop(event) => {
            assert_eq!(event.player, ME);
            assert_eq!(event.slot, Some(slot(Area::Hotbar, 3)));
            assert_eq!(event.stack, ItemStack { ty: cobble(), amount });
        }
        _ => panic!("the drop was not told"),
    }
}

#[test]
fn drop_one_of_a_single_item_empties_the_slot() {
    let mut player = holder(1);
    let effects = handle_drop_item_stack(&mut player, &message(PlayerDiggingStatus::DropItem));
    assert_eq!(player.item_in_main_hand(), None);
    assert_eq!(effects.len(), 2);
    assert_update_of_hand(&effects[0]);
    assert_drop(&effects[1], 1);
}

#[test]
fn drop_one_of_an_empty_stack_tells_only_the_update() {
    let mut player = holder(0);
    let effects = handle_drop_item_stack(&mut player, &message(PlayerDiggingStatus::DropItem));
    assert_eq!(player.item_in_main_hand(), None);
    assert_eq!(effects.len(), 1);
    assert_update_of_hand(&effects[0]);
}

#[test]
fn drop_one_of_several_leaves_the_rest() {
    let mut player = holder(5);
    let effects = handle_drop_item_stack(&mut player, &message(PlayerDiggingStatus::DropItem));
    assert_eq!(player.item_in_main_hand(), Some(ItemStack { ty: cobble(), amount: 4 }));
    assert_eq!(effects.len(), 2);
    assert_update_of_hand(&effects[0]);
    assert_drop(&effects[1], 1);
    let mut pair = holder(2);
    let _ = handle_drop_item_stack(&mut pair, &message(PlayerDiggingStatus::DropItem));
    assert_eq!(pair.item_in_main_hand(), Some(ItemStack { ty: cobble(), amount: 1 }));
}

#[test]
fn drop_stack_drops_all_of_it() {
    for amount in [1u8, 2, 64, 255] {
        let mut player = holder(amount);
        let effects =
            handle_drop_item_stack(&mut player, &message(PlayerDiggingStatus::DropItemStack));
        assert_eq!(player.item_in_main_hand(), None);
        assert_eq!(effects.len(), 2);
        assert_update_of_hand(&effects[0]);
        assert_drop(&effects[1], amount);
    }
}

#[test]
fn drop_stack_of_an_empty_stack_tells_only_the_update() {
    let mut player = holder(0);
    let effects = handle_drop_item_stack(&mut player, &message(PlayerDiggingStatus::DropItemStack));
    assert_eq!(player.item_in_main_hand(), None);
    assert_eq!(effects.len(), 1);
    assert_update_of_hand(&effects[0]);
}

#[test]
fn drop_with_an_empty_hand_does_nothing() {
    for status in [PlayerDiggingStatus::DropItem, PlayerDiggingStatus::DropItemStack] {
        let mut player = Player::new(ME, Position { x: 0, y: 0, z: 0 });
        player.inventory.set_item_at(Area::Hotbar, 1, ItemStack::new(cobble(), 3)).unwrap();
        let effects = handle_drop_item_stack(&mut player, &message(status));
        assert!(effects.is_empty());
        assert_eq!(
            player.inventory.item_at(Area::Hotbar, 1),
            Ok(Some(ItemStack::new(cobble(), 3)))
        );
    }
}

#[test]
fn drop_touches_no_other_slot() {
    let mut player = holder(5);
    player.inventory.set_item_at(Area::Main, 27, ItemStack::new(Item::Bow, 1)).unwrap();
    player.inventory.set_item_at(Area::Offhand, 0, ItemStack::new(Item::TippedArrow, 2)).unwrap();
    let _ = handle_drop_item_stack(&mut player, &message(PlayerDiggingStatus::DropItemStack));
    assert_eq!(player.inventory.item_at(Area::Hotbar, 0), Ok(Some(ItemStack::new(Item::Arrow, 9))));
    assert_eq!(player.inventory.item_at(Area::Main, 27), Ok(Some(ItemStack::new(Item::Bow, 1))));
    assert_eq!(
        player.inventory.item_at(Area::Offhand, 0),
        Ok(Some(ItemStack::new(Item::TippedArrow, 2)))
    );
    assert_eq!(player.inventory.item_at(Area::Hotbar, 3), Ok(None));
}

#[test]
fn drop_needs_no_break_capability() {
    let mut player = holder(2);
    assert!(!player.can_break);
    let effects =
        handle_player_digging(&mut player, &message(PlayerDiggingStatus::DropItem), None, 0);
    assert_eq!(effects.len(), 2);
    assert_eq!(player.item_in_main_hand(), Some(ItemStack { ty: cobble(), amount: 1 }));
}
