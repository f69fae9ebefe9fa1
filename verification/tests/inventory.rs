use player_digging::inventory::{
    slot, Area, Inventory, InventoryError, SlotIndex, HOTBAR_SLOTS, MAIN_SLOTS,
};
use player_digging::item::{Item, ItemStack, Tool};
use player_digging::player::{Entity, HeldItem, Player};
use player_digging::position::{BlockPosition, Position, UNITS_PER_BLOCK};
use player_digging::slot_list::SlotList;

#[test]
fn new_inventory_is_empty() {
    let inventory = Inventory::new();
    for index in 0..HOTBAR_SLOTS {
        assert_eq!(inventory.item_at(Area::Hotbar, index), Ok(None));
    }
    for index in 0..MAIN_SLOTS {
        assert_eq!(inventory.item_at(Area::Main, index), Ok(None));
    }
    assert_eq!(inventory.item_at(Area::Offhand, 0), Ok(None));
}

#[test]
fn areas_have_their_sizes() {
    assert_eq!(Area::Hotbar.size(), 9);
    assert_eq!(Area::Offhand.size(), 1);
    assert_eq!(Area::Main.size(), 28);
}

#[test]
fn slots_out_of_bounds_are_refused() {
    let mut inventory = Inventory::new();
    let stack = ItemStack::new(Item::Arrow, 1);
    for (area, index) in [(Area::Hotbar, 9), (Area::Offhand, 1), (Area::Main, 28), (Area::Main, usize::MAX)]
    {
        assert_eq!(inventory.item_at(area, index), Err(InventoryError::SlotOutOfBounds));
        assert_eq!(inventory.set_item_at(area, index, stack), Err(InventoryError::SlotOutOfBounds));
        assert_eq!(inventory.remove_item_at(area, index), Err(InventoryError::SlotOutOfBounds));
    }
    assert_eq!(inventory.item_at(Area::Hotbar, 8), Ok(None));
    assert_eq!(inventory.item_at(Area::Main, 27), Ok(None));
}

#[test]
fn set_then_read_then_remove() {
    let mut inventory = Inventory::new();
    let bow = ItemStack::new(Item::Bow, 1);
    let arrows = ItemStack::new(Item::Arrow, 64);
    assert_eq!(inventory.set_item_at(Area::Main, 5, bow), Ok(()));
    assert_eq!(inventory.set_item_at(Area::Hotbar, 5, arrows), Ok(()));
    assert_eq!(inventory.item_at(Area::Main, 5), Ok(Some(bow)));
    assert_eq!(inventory.item_at(Area::Hotbar, 5), Ok(Some(arrows)));
    assert_eq!(inventory.item_at(Area::Main, 4), Ok(None));
    assert_eq!(inventory.set_item_at(Area::Main, 5, arrows), Ok(()));
    assert_eq!(inventory.remove_item_at(Area::Main, 5), Ok(Some(arrows)));
    assert_eq!(inventory.item_at(Area::Main, 5), Ok(None));
    assert_eq!(inventory.remove_item_at(Area::Main, 5), Ok(None));
    assert_eq!(inventory.item_at(Area::Hotbar, 5), Ok(Some(arrows)));
}

#[test]
fn slot_names_area_and_index() {
    assert_eq!(slot(Area::Main, 7), SlotIndex { area: Area::Main, slot: 7 });
}

#[test]
fn held_item_stays_within_the_hotbar() {
    for index in 0..9 {
        assert_eq!(HeldItem::new(index).unwrap().index(), index);
    }
    assert!(HeldItem::new(9).is_none());
    assert!(HeldItem::new(usize::MAX).is_none());
}

#[test]
fn new_player_has_nothing() {
    let player = Player::new(Entity { id: 1 }, Position { x: 1, y: 2, z: 3 });
    assert_eq!(player.entity, Entity { id: 1 });
    assert_eq!(player.position, Position { x: 1, y: 2, z: 3 });
    assert!(!player.can_break);
    assert!(!player.can_insta_break);
    assert_eq!(player.held_item.index(), 0);
    assert_eq!(player.digging, None);
    assert_eq!(player.timed_use, None);
    assert_eq!(player.item_in_main_hand(), None);
}

#[test]
fn item_in_main_hand_follows_the_held_slot() {
    let mut player = Player::new(Entity { id: 1 }, Position { x: 0, y: 0, z: 0 });
    player.inventory.set_item_at(Area::Hotbar, 8, ItemStack::new(Item::Bow, 1)).unwrap();
    player.inventory.set_item_at(Area::Main, 8, ItemStack::new(Item::Arrow, 1)).unwrap();
    assert_eq!(player.item_in_main_hand(), None);
    player.held_item = HeldItem::new(8).unwrap();
    assert_eq!(player.item_in_main_hand(), Some(ItemStack::new(Item::Bow, 1)));
}

#[test]
fn items_tell_their_tool_and_multiplier() {
    let axe = Item::Other { id: 9, tool: Some(Tool::Axe), dig_multiplier: Some(4) };
    assert_eq!(axe.tool(), Some(Tool::Axe));
    assert_eq!(axe.dig_multiplier(), Some(4));
    let stick = Item::Other { id: 10, tool: None, dig_multiplier: None };
    assert_eq!(stick.tool(), None);
    assert_eq!(stick.dig_multiplier(), None);
    for item in [Item::Bow, Item::Arrow, Item::SpectralArrow, Item::TippedArrow] {
        assert_eq!(item.tool(), None);
        assert_eq!(item.dig_multiplier(), None);
    }
    assert_eq!(ItemStack::new(axe, 3), ItemStack { ty: axe, amount: 3 });
}

#[test]
fn block_position_is_its_low_corner() {
    assert_eq!(UNITS_PER_BLOCK, 4096);
    assert_eq!(
        BlockPosition { x: 1, y: -2, z: 0 }.position(),
        Position { x: 4096, y: -8192, z: 0 }
    );
    assert_eq!(
        BlockPosition { x: i32::MAX, y: i32::MIN, z: 0 }.position(),
        Position { x: i32::MAX as i64 * 4096, y: i32::MIN as i64 * 4096, z: 0 }
    );
}

#[test]
fn farther_than_compares_squared_distance() {
    let origin = Position { x: 0, y: 0, z: 0 };
    let point = Position { x: 3, y: -4, z: 12 };
    assert!(!point.farther_than(&origin, 169));
    assert!(point.farther_than(&origin, 168));
    assert!(!origin.farther_than(&origin, 0));
    assert!(origin.farther_than(&point, 0));
    let far = Position { x: i64::MAX, y: i64::MIN, z: i64::MAX };
    let opposite = Position { x: i64::MIN, y: i64::MAX, z: i64::MIN };
    assert!(far.farther_than(&opposite, u64::MAX));
    assert!(!Position { x: 0xffff_ffff, y: 0, z: 0 }.farther_than(&origin, u64::MAX));
    assert!(Position { x: 0x1_0000_0000, y: 0, z: 0 }.farther_than(&origin, u64::MAX));
}

#[test]
fn slot_list_holds_what_it_was_given() {
    let list = SlotList::single(slot(Area::Offhand, 0));
    assert_eq!(list.to_vec(), vec![SlotIndex { area: Area::Offhand, slot: 0 }]);
}
