//! Blocks, as far as the handlers read them.

use crate::item::Tool;
use vstd::prelude::*;

verus! {

/// What the handlers read of a kind of block.
#[derive(Clone, Copy, Debug, PartialEq, Eq, Structural)]
pub struct Block {
    /// The time it takes to dig the block, in milliseconds. It is negative for a
    /// block that digging never wears down.
    pub hardness: i64,
    /// The category of tool that digs the block fastest, if there is one.
    pub best_tool: Option<Tool>,
    /// Whether only the best tool harvests the block.
    pub best_tool_required: bool,
}

impl Block {
    pub open spec fn spec_air() -> Block {
        Block { hardness: 0, best_tool: None, best_tool_required: false }
    }

    /// Air: what stands where no block is known.
    #[verifier::when_used_as_spec(spec_air)]
    pub fn air() -> (block: Block)
        ensures
            block == Block::spec_air(),
    {
        Block { hardness: 0, best_tool: None, best_tool_required: false }
    }

    pub open spec fn spec_or_air(known: Option<Block>) -> Block {
        match known {
            Some(block) => block,
            None => Block::spec_air(),
        }
    }

    /// The block itself where one is known, and air where none is.
    #[verifier::when_used_as_spec(spec_or_air)]
    pub fn or_air(known: Option<Block>) -> (block: Block)
        ensures
            block == Block::spec_or_air(known),
    {
        match known {
            Some(block) => block,
            None => Block::air(),
        }
    }
}

} // verus!
