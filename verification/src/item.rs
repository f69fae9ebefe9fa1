//! Items, as far as the handlers read them.

use vstd::prelude::*;

verus! {

/// The categories of tools.
#[derive(Clone, Copy, Debug, PartialEq, Eq, Structural)]
pub enum Tool {
    Axe,
    Hoe,
    Pickaxe,
    Shears,
    Shovel,
    Sword,
}

/// A kind of item.
///
/// The bow and the arrows are told apart by name. Of every other item the
/// handlers read only whether it is a tool, and how fast its material digs.
#[derive(Clone, Copy, Debug, PartialEq, Eq, Structural)]
pub enum Item {
    Bow,
    Arrow,
    SpectralArrow,
    TippedArrow,
    Other {
        /// The item's numeric id.
        id: u32,
        /// The category of tool the item is, if it is one.
        tool: Option<Tool>,
        /// The dig-speed multiplier of the material the item is made of, if it has one.
        dig_multiplier: Option<u32>,
    },
}

impl Item {
    pub open spec fn spec_tool(&self) -> Option<Tool> {
        match *self {
            Item::Other { tool, .. } => tool,
            _ => None,
        }
    }

    /// The category of tool this item is, if it is one.
    #[verifier::when_used_as_spec(spec_tool)]
    pub fn tool(&self) -> (tool: Option<Tool>)
        ensures
            tool == self.spec_tool(),
    {
        match *self {
            Item::Other { tool, .. } => tool,
            _ => None,
        }
    }

    pub open spec fn spec_dig_multiplier(&self) -> Option<u32> {
        match *self {
            Item::Other { dig_multiplier, .. } => dig_multiplier,
            _ => None,
        }
    }

    /// The dig-speed multiplier of this item's material, if it has one.
    #[verifier::when_used_as_spec(spec_dig_multiplier)]
    pub fn dig_multiplier(&self) -> (multiplier: Option<u32>)
        ensures
            multiplier == self.spec_dig_multiplier(),
    {
        match *self {
            Item::Other { dig_multiplier, .. } => dig_multiplier,
            _ => None,
        }
    }
}

/// A number of items of one kind.
#[derive(Clone, Copy, Debug, PartialEq, Eq, Structural)]
pub struct ItemStack {
    pub ty: Item,
    pub amount: u8,
}

impl ItemStack {
    pub fn new(ty: Item, amount: u8) -> (stack: ItemStack)
        ensures
            stack == (ItemStack { ty, amount }),
    {
        ItemStack { ty, amount }
    }
}

/// What an inventory slot holds: a stack, or nothing.
pub type Slot = Option<ItemStack>;

} // verus!
