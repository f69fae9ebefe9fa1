//! A player's inventory: the slots that the handlers read and write.

use crate::item::{ItemStack, Slot};
use vstd::prelude::*;

verus! {

/// The number of slots in the hotbar.
pub const HOTBAR_SLOTS: usize = 9;

/// The number of slots in the main inventory.
pub const MAIN_SLOTS: usize = 28;

/// The areas of a player's inventory.
#[derive(Clone, Copy, Debug, PartialEq, Eq, Structural)]
pub enum Area {
    Hotbar,
    Offhand,
    Main,
}

impl Area {
    pub open spec fn spec_size(&self) -> usize {
        match *self {
            Area::Hotbar => HOTBAR_SLOTS,
            Area::Offhand => 1,
            Area::Main => MAIN_SLOTS,
        }
    }

    /// The number of slots in this area.
    #[verifier::when_used_as_spec(spec_size)]
    pub fn size(&self) -> (n: usize)
        ensures
            n == self.spec_size(),
    {
        match *self {
            Area::Hotbar => HOTBAR_SLOTS,
            Area::Offhand => 1,
            Area::Main => MAIN_SLOTS,
        }
    }
}

/// A slot of a player's inventory: the area it lies in and its index there.
#[derive(Clone, Copy, Debug, PartialEq, Eq, Structural)]
pub struct SlotIndex {
    pub area: Area,
    pub slot: usize,
}

impl SlotIndex {
    /// Whether the index names a slot that an inventory has.
    pub open spec fn in_bounds(self) -> bool {
        self.slot < self.area.spec_size()
    }
}

/// The slots that every inventory has: those in bounds of their areas.
pub open spec fn all_slots() -> Set<SlotIndex> {
    Set::new(|idx: SlotIndex| idx.in_bounds())
}

/// The slots of an inventory that holds nothing.
pub open spec fn empty_slots() -> Map<SlotIndex, Slot> {
    Map::new(|idx: SlotIndex| idx.in_bounds(), |idx: SlotIndex| None)
}

/// The index of the slot numbered `index` in `area`.
pub fn slot(area: Area, index: usize) -> (idx: SlotIndex)
    ensures
        idx == (SlotIndex { area, slot: index }),
{
    SlotIndex { area, slot: index }
}

/// Why an inventory refused an operation.
#[derive(Clone, Copy, Debug, PartialEq, Eq, Structural)]
pub enum InventoryError {
    /// The area has no slot of that index.
    SlotOutOfBounds,
}

/// A player's inventory.
///
/// Its view maps every slot in bounds to what the slot holds.
pub struct Inventory {
    offhand: Slot,
    hotbar: Vec<Slot>,
    main: Vec<Slot>,
}

impl View for Inventory {
    type V = Map<SlotIndex, Slot>;

    closed spec fn view(&self) -> Map<SlotIndex, Slot> {
        Map::new(
            |idx: SlotIndex| idx.in_bounds(),
            |idx: SlotIndex|
                match idx.area {
                    Area::Hotbar => self.hotbar@[idx.slot as int],
                    Area::Offhand => self.offhand,
                    Area::Main => self.main@[idx.slot as int],
                },
        )
    }
}

impl Inventory {
    #[verifier::type_invariant]
    spec fn sized(&self) -> bool {
        self.hotbar@.len() == HOTBAR_SLOTS && self.main@.len() == MAIN_SLOTS
    }

    /// The slots of an inventory are those in bounds of their areas.
    pub proof fn lemma_slots(&self)
        ensures
            self@.dom() == all_slots(),
    {
        assert(self@.dom() =~= all_slots());
    }

    /// An inventory whose slots are all empty.
    pub fn new() -> (inventory: Inventory)
        ensures
            inventory@ == empty_slots(),
    {
        let mut hotbar: Vec<Slot> = Vec::new();
        while hotbar.len() < HOTBAR_SLOTS
            invariant
                hotbar@.len() <= HOTBAR_SLOTS,
                forall|i: int| 0 <= i < hotbar@.len() ==> hotbar@[i] == None::<ItemStack>,
            decreases HOTBAR_SLOTS - hotbar@.len(),
        {
            hotbar.push(None);
        }
        let mut main: Vec<Slot> = Vec::new();
        while main.len() < MAIN_SLOTS
            invariant
                main@.len() <= MAIN_SLOTS,
                forall|i: int| 0 <= i < main@.len() ==> main@[i] == None::<ItemStack>,
            decreases MAIN_SLOTS - main@.len(),
        {
            main.push(None);
        }
        let inventory = Inventory { offhand: None, hotbar, main };
        assert(inventory@ =~= empty_slots());
        inventory
    }

    /// What the slot `slot` of `area` holds.
    pub fn item_at(&self, area: Area, slot: usize) -> (found: Result<Slot, InventoryError>)
        ensures
            found == if self@.contains_key(SlotIndex { area, slot }) {
                Ok::<Slot, InventoryError>(self@[SlotIndex { area, slot }])
            } else {
                Err::<Slot, InventoryError>(InventoryError::SlotOutOfBounds)
            },
    {
        proof {
            use_type_invariant(self);
        }
        if slot >= area.size() {
            return Err(InventoryError::SlotOutOfBounds);
        }
        match area {
            Area::Hotbar => Ok(self.hotbar[slot]),
            Area::Offhand => Ok(self.offhand),
            Area::Main => Ok(self.main[slot]),
        }
    }

    /// Puts `stack` into the slot `slot` of `area`, in place of what it held.
    pub fn set_item_at(&mut self, area: Area, slot: usize, stack: ItemStack) -> (done: Result<
        (),
        InventoryError,
    >)
        ensures
            old(self)@.contains_key(SlotIndex { area, slot }) ==> done == Ok::<(), InventoryError>(
                (),
            ) && final(self)@ == old(self)@.insert(SlotIndex { area, slot }, Some(stack)),
            !old(self)@.contains_key(SlotIndex { area, slot }) ==> done == Err::<
                (),
                InventoryError,
            >(InventoryError::SlotOutOfBounds) && final(self)@ == old(self)@,
    {
        match self.put(area, slot, Some(stack)) {
            Ok(_) => Ok(()),
            Err(e) => Err(e),
        }
    }

    /// Empties the slot `slot` of `area` and returns what it held.
    pub fn remove_item_at(&mut self, area: Area, slot: usize) -> (removed: Result<
        Slot,
        InventoryError,
    >)
        ensures
            old(self)@.contains_key(SlotIndex { area, slot }) ==> removed == Ok::<
                Slot,
                InventoryError,
            >(old(self)@[SlotIndex { area, slot }]) && final(self)@ == old(self)@.insert(
                SlotIndex { area, slot },
                None,
            ),
            !old(self)@.contains_key(SlotIndex { area, slot }) ==> removed == Err::<
                Slot,
                InventoryError,
            >(InventoryError::SlotOutOfBounds) && final(self)@ == old(self)@,
    {
        self.put(area, slot, None)
    }

    /// Replaces what a slot holds by `content` and returns what it held before.
    fn put(&mut self, area: Area, slot: usize, content: Slot) -> (before: Result<
        Slot,
        InventoryError,
    >)
        ensures
            old(self)@.contains_key(SlotIndex { area, slot }) ==> before == Ok::<
                Slot,
                InventoryError,
            >(old(self)@[SlotIndex { area, slot }]) && final(self)@ == old(self)@.insert(
                SlotIndex { area, slot },
                content,
            ),
            !old(self)@.contains_key(SlotIndex { area, slot }) ==> before == Err::<
                Slot,
                InventoryError,
            >(InventoryError::SlotOutOfBounds) && final(self)@ == old(self)@,
    {
        proof {
            use_type_invariant(&*self);
        }
        if slot >= area.size() {
            return Err(InventoryError::SlotOutOfBounds);
        }
        let before: Slot;
        match area {
            Area::Hotbar => {
                before = self.hotbar[slot];
                self.hotbar[slot] = content;
            },
            Area::Offhand => {
                before = self.offhand;
                self.offhand = content;
            },
            Area::Main => {
                before = self.main[slot];
                self.main[slot] = content;
            },
        }
        assert(self@ =~= old(self)@.insert(SlotIndex { area, slot }, content));
        Ok(before)
    }
}

} // verus!
