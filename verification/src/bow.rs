//! The release of a drawn bow.

use crate::event::{BowRelease, Effect, EffectView, Outcome};
use crate::inventory::{slot, Area, Inventory, SlotIndex, HOTBAR_SLOTS, MAIN_SLOTS};
use crate::item::{Item, ItemStack, Slot};
use crate::packet::{PlayerDigging, PlayerDiggingStatus};
use crate::player::{Player, PlayerView};
use vstd::prelude::*;

verus! {

/// Drawing a bow for longer than this many ticks adds nothing to the force.
pub const MAX_CHARGE_TICKS: u64 = 20;

/// The number of slots that are searched for an arrow: the off hand, the hotbar
/// and the main inventory.
pub const SEARCHED_SLOTS: usize = 38;

/// Whether an item is an arrow of any kind.
pub open spec fn spec_is_arrow_item(item: Item) -> bool {
    item == Item::Arrow || item == Item::SpectralArrow || item == Item::TippedArrow
}

/// Whether an item is an arrow of any kind.
#[verifier::when_used_as_spec(spec_is_arrow_item)]
pub fn is_arrow_item(item: Item) -> (arrow: bool)
    ensures
        arrow == spec_is_arrow_item(item),
{
    match item {
        Item::Arrow | Item::SpectralArrow | Item::TippedArrow => true,
        _ => false,
    }
}

/// The slot that the search for an arrow looks into in place `k`: first the off
/// hand, then the hotbar from its first slot on, then the main inventory likewise.
pub open spec fn search_slot(k: int) -> SlotIndex {
    if k == 0 {
        SlotIndex { area: Area::Offhand, slot: 0 }
    } else if k <= HOTBAR_SLOTS {
        SlotIndex { area: Area::Hotbar, slot: (k - 1) as usize }
    } else {
        SlotIndex { area: Area::Main, slot: (k - 1 - HOTBAR_SLOTS) as usize }
    }
}

/// Whether the slot `idx` of an inventory holds arrows.
pub open spec fn holds_arrow(inventory: Map<SlotIndex, Slot>, idx: SlotIndex) -> bool {
    inventory[idx] matches Some(stack) && spec_is_arrow_item(stack.ty)
}

/// The first slot that holds arrows among those searched from place `k` on, with
/// the stack in it.
pub open spec fn first_arrow_from(inventory: Map<SlotIndex, Slot>, k: int) -> Option<
    (SlotIndex, ItemStack),
>
    decreases SEARCHED_SLOTS - k,
{
    if k < 0 || k >= SEARCHED_SLOTS {
        None
    } else if holds_arrow(inventory, search_slot(k)) {
        Some((search_slot(k), inventory[search_slot(k)]->Some_0))
    } else {
        first_arrow_from(inventory, k + 1)
    }
}

/// The first slot of an inventory that holds arrows, in the order of the search,
/// with the stack in it.
pub open spec fn first_arrow(inventory: Map<SlotIndex, Slot>) -> Option<(SlotIndex, ItemStack)> {
    first_arrow_from(inventory, 0)
}

/// Looks for arrows: in the off hand, then through the hotbar, then through the
/// main inventory.
pub fn find_arrow(inventory: &Inventory) -> (found: Option<(SlotIndex, ItemStack)>)
    ensures
        found == first_arrow(inventory@),
{
    proof {
        inventory.lemma_slots();
        assert(search_slot(0).in_bounds());
    }
    if let Ok(Some(offhand)) = inventory.item_at(Area::Offhand, 0) {
        if is_arrow_item(offhand.ty) {
            return Some((slot(Area::Offhand, 0), offhand));
        }
    }
    let mut hotbar_slot: usize = 0;
    while hotbar_slot < HOTBAR_SLOTS
        invariant
            hotbar_slot <= HOTBAR_SLOTS,
            first_arrow(inventory@) == first_arrow_from(inventory@, 1 + hotbar_slot),
            inventory@.dom() == crate::inventory::all_slots(),
        decreases HOTBAR_SLOTS - hotbar_slot,
    {
        assert(search_slot(1 + hotbar_slot) == (SlotIndex { area: Area::Hotbar, slot: hotbar_slot }));
        assert(search_slot(1 + hotbar_slot).in_bounds());
        if let Ok(Some(hotbar_stack)) = inventory.item_at(Area::Hotbar, hotbar_slot) {
            if is_arrow_item(hotbar_stack.ty) {
                return Some((slot(Area::Hotbar, hotbar_slot), hotbar_stack));
            }
        }
        hotbar_slot += 1;
    }
    let mut inv_slot: usize = 0;
    while inv_slot < MAIN_SLOTS
        invariant
            inv_slot <= MAIN_SLOTS,
            first_arrow(inventory@) == first_arrow_from(inventory@, 1 + HOTBAR_SLOTS + inv_slot),
            inventory@.dom() == crate::inventory::all_slots(),
        decreases MAIN_SLOTS - inv_slot,
    {
        assert(search_slot(1 + HOTBAR_SLOTS + inv_slot) == (SlotIndex {
            area: Area::Main,
            slot: inv_slot,
        }));
        assert(search_slot(1 + HOTBAR_SLOTS + inv_slot).in_bounds());
        if let Ok(Some(inv_stack)) = inventory.item_at(Area::Main, inv_slot) {
            if is_arrow_item(inv_stack.ty) {
                return Some((slot(Area::Main, inv_slot), inv_stack));
            }
        }
        inv_slot += 1;
    }
    None
}

/// For how many ticks a bow drawn at tick `start` counts as held at tick `now`:
/// the ticks gone by, and no more than [`MAX_CHARGE_TICKS`].
pub open spec fn spec_ticks_held(now: u64, start: u64) -> u32 {
    if now - start > MAX_CHARGE_TICKS {
        MAX_CHARGE_TICKS as u32
    } else {
        (now - start) as u32
    }
}

/// For how many ticks a bow drawn at tick `start` counts as held at tick `now`.
#[verifier::when_used_as_spec(spec_ticks_held)]
pub fn ticks_held(now: u64, start: u64) -> (held: u32)
    requires
        start <= now,
    ensures
        held == spec_ticks_held(now, start),
        held == now - start || (held == MAX_CHARGE_TICKS && now - start > MAX_CHARGE_TICKS),
{
    let mut time_held: u64 = now - start;
    if time_held > MAX_CHARGE_TICKS {
        time_held = MAX_CHARGE_TICKS;
    }
    time_held as u32
}

/// The kind of arrow that leaves the bow: that of the arrows found, and the plain
/// arrow where none were.
pub open spec fn arrow_to_shoot(found: Option<(SlotIndex, ItemStack)>) -> Item {
    match found {
        Some((_, stack)) => stack.ty,
        None => Item::Arrow,
    }
}

/// What letting go of a bow at tick `now` leads to.
///
/// Without a record of the draw nothing happens. Otherwise the record goes and an
/// arrow is sent off; no arrow leaves the inventory.
pub open spec fn bow_released(player: PlayerView, now: u64) -> Outcome {
    match player.timed_use {
        None => Outcome::ignored(player),
        Some(timed_use) => Outcome {
            player: PlayerView { timed_use: None, ..player },
            effects: seq![
                EffectView::ShootArrow(
                    BowRelease {
                        player: player.entity,
                        arrow: arrow_to_shoot(first_arrow(player.inventory)),
                        ticks_held: spec_ticks_held(now, timed_use.tick_start),
                    },
                ),
            ],
        },
    }
}

/// Whether the player holds a bow in hand.
pub open spec fn holds_bow(player: PlayerView) -> bool {
    player.in_hand() matches Some(stack) && stack.ty == Item::Bow
}

/// What a message that ends the use of the item in hand leads to at tick `now`:
/// with a bow in hand, its release; with anything else, nothing.
pub open spec fn consumed(player: PlayerView, now: u64) -> Outcome {
    if holds_bow(player) {
        bow_released(player, now)
    } else {
        Outcome::ignored(player)
    }
}

/// Whether no use of an item that the player has under way began after tick `now`.
pub open spec fn use_began_by(player: PlayerView, now: u64) -> bool {
    player.timed_use matches Some(timed_use) ==> timed_use.tick_start <= now
}

/// Handles the release of the bow in a player's hand at tick `tick_count`.
pub fn handle_shoot_bow(player: &mut Player, tick_count: u64) -> (effects: Vec<Effect>)
    requires
        use_began_by(old(player)@, tick_count),
    ensures
        final(player)@ == bow_released(old(player)@, tick_count).player,
        effects.deep_view() == bow_released(old(player)@, tick_count).effects,
{
    let mut effects: Vec<Effect> = Vec::new();
    let arrow_to_consume = find_arrow(&player.inventory);
    let arrow_type: Item = match arrow_to_consume {
        None => Item::Arrow,
        Some((_, arrow_stack)) => arrow_stack.ty,
    };
    let timed_use = match player.timed_use {
        Some(timed_use) => timed_use,
        None => {
            assert(effects.deep_view() =~= Seq::<EffectView>::empty());
            return effects;
        },
    };
    let time_held: u32 = ticks_held(tick_count, timed_use.tick_start);
    player.timed_use = None;
    effects.push(
        Effect::ShootArrow(
            BowRelease { player: player.entity, arrow: arrow_type, ticks_held: time_held },
        ),
    );
    assert(effects.deep_view() =~= bow_released(old(player)@, tick_count).effects);
    effects
}

/// Handles a message that ends the use of the item in hand, at tick `tick_count`.
pub fn handle_consume_item(player: &mut Player, packet: &PlayerDigging, tick_count: u64) -> (effects:
    Vec<Effect>)
    requires
        packet.status == PlayerDiggingStatus::ConsumeItem,
        use_began_by(old(player)@, tick_count),
    ensures
        final(player)@ == consumed(old(player)@, tick_count).player,
        effects.deep_view() == consumed(old(player)@, tick_count).effects,
{
    if let Some(item) = player.item_in_main_hand() {
        if let Item::Bow = item.ty {
            return handle_shoot_bow(player, tick_count);
        }
    }
    let effects: Vec<Effect> = Vec::new();
    assert(effects.deep_view() =~= Seq::<EffectView>::empty());
    effects
}

/// Where no slot searched from place `k` up to place `upto` holds arrows, the
/// search from `k` finds what the search from `upto` finds.
proof fn lemma_search_skips(inventory: Map<SlotIndex, Slot>, k: int, upto: int)
    requires
        0 <= k <= upto <= SEARCHED_SLOTS,
        forall|j: int| k <= j < upto ==> !holds_arrow(inventory, search_slot(j)),
    ensures
        first_arrow_from(inventory, k) == first_arrow_from(inventory, upto),
    decreases upto - k,
{
    if k < upto {
        lemma_search_skips(inventory, k + 1, upto);
    }
}

/// The search finds the arrows of the first slot, in its order, that holds any:
/// those in place `k` where no earlier place holds arrows.
pub proof fn law_first_arrow_wins(inventory: Map<SlotIndex, Slot>, k: int)
    requires
        0 <= k < SEARCHED_SLOTS,
        holds_arrow(inventory, search_slot(k)),
        forall|j: int| 0 <= j < k ==> !holds_arrow(inventory, search_slot(j)),
    ensures
        first_arrow(inventory) == Some((search_slot(k), inventory[search_slot(k)]->Some_0)),
{
    lemma_search_skips(inventory, 0, k);
}

/// The search finds nothing exactly where no slot searched holds arrows.
pub proof fn law_no_arrow(inventory: Map<SlotIndex, Slot>)
    ensures
        first_arrow(inventory) is None <==> forall|j: int|
            0 <= j < SEARCHED_SLOTS ==> !holds_arrow(inventory, search_slot(j)),
{
    if forall|j: int| 0 <= j < SEARCHED_SLOTS ==> !holds_arrow(inventory, search_slot(j)) {
        lemma_search_skips(inventory, 0, SEARCHED_SLOTS as int);
    } else {
        lemma_found_from(inventory, 0);
    }
}

/// The search from place `k` finds something where a slot from there on holds arrows.
proof fn lemma_found_from(inventory: Map<SlotIndex, Slot>, k: int)
    requires
        0 <= k,
        exists|j: int| k <= j < SEARCHED_SLOTS && holds_arrow(inventory, search_slot(j)),
    ensures
        first_arrow_from(inventory, k) is Some,
    decreases SEARCHED_SLOTS - k,
{
    if !holds_arrow(inventory, search_slot(k)) {
        lemma_found_from(inventory, k + 1);
    }
}

/// Arrows in the off hand are found before any others, whatever the hotbar and
/// the main inventory hold.
pub proof fn law_off_hand_first(inventory: Map<SlotIndex, Slot>, stack: ItemStack)
    requires
        inventory[SlotIndex { area: Area::Offhand, slot: 0 }] == Some(stack),
        spec_is_arrow_item(stack.ty),
    ensures
        first_arrow(inventory) == Some((SlotIndex { area: Area::Offhand, slot: 0 }, stack)),
{
}

/// A bow drawn for more than [`MAX_CHARGE_TICKS`] ticks counts as held for that
/// many, however long it was drawn.
pub proof fn law_charge_capped(now: u64, start: u64)
    requires
        now - start > MAX_CHARGE_TICKS,
    ensures
        spec_ticks_held(now, start) == MAX_CHARGE_TICKS,
{
}

/// Letting go of a bow that was never drawn does nothing: no arrow is sent off, and
/// no record is made or taken away.
pub proof fn law_release_without_draw(player: PlayerView, now: u64)
    requires
        player.timed_use is None,
    ensures
        consumed(player, now) == Outcome::ignored(player),
{
}

/// Letting go of a drawn bow sends off one arrow and takes nothing from the
/// inventory: only the record of the draw goes.
pub proof fn law_release_sends_one_arrow(player: PlayerView, now: u64, timed_use: crate::player::ItemTimedUse)
    requires
        holds_bow(player),
        player.timed_use == Some(timed_use),
    ensures
        consumed(player, now).player == (PlayerView { timed_use: None, ..player }),
        consumed(player, now).effects.len() == 1,
        consumed(player, now).effects[0] == EffectView::ShootArrow(
            BowRelease {
                player: player.entity,
                arrow: arrow_to_shoot(first_arrow(player.inventory)),
                ticks_held: spec_ticks_held(now, timed_use.tick_start),
            },
        ),
{
}

} // verus!
