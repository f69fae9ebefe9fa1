//! The player-action message.

use crate::position::BlockPosition;
use vstd::prelude::*;

verus! {

/// What a player-action message asks for.
#[derive(Clone, Copy, Debug, PartialEq, Eq, Structural)]
pub enum PlayerDiggingStatus {
    StartedDigging,
    CancelledDigging,
    FinishedDigging,
    DropItemStack,
    DropItem,
    ConsumeItem,
    SwapItemInHand,
}

/// A face of a block.
#[derive(Clone, Copy, Debug, PartialEq, Eq, Structural)]
pub enum Face {
    Bottom,
    Top,
    North,
    South,
    West,
    East,
}

/// The player-action message. Despite its name it also reports dropping items
/// and releasing a bow.
#[derive(Clone, Copy, Debug, PartialEq, Eq, Structural)]
pub struct PlayerDigging {
    pub status: PlayerDiggingStatus,
    pub location: BlockPosition,
    pub face: Face,
}

/// The families of handlers that a message can go to.
#[derive(Clone, Copy, Debug, PartialEq, Eq, Structural)]
pub enum Family {
    /// Starting, finishing and cancelling a dig.
    Digging,
    /// Dropping one item or the whole stack in hand.
    DropItem,
    /// Releasing a drawn bow, and other uses of the item in hand.
    ConsumeItem,
    /// A status that no handler takes.
    Unhandled,
}

impl PlayerDiggingStatus {
    pub open spec fn spec_family(&self) -> Family {
        match *self {
            PlayerDiggingStatus::StartedDigging
            | PlayerDiggingStatus::FinishedDigging
            | PlayerDiggingStatus::CancelledDigging => Family::Digging,
            PlayerDiggingStatus::DropItem | PlayerDiggingStatus::DropItemStack => Family::DropItem,
            PlayerDiggingStatus::ConsumeItem => Family::ConsumeItem,
            PlayerDiggingStatus::SwapItemInHand => Family::Unhandled,
        }
    }

    /// The family of handlers that a message of this status goes to.
    #[verifier::when_used_as_spec(spec_family)]
    pub fn family(&self) -> (family: Family)
        ensures
            family == self.spec_family(),
    {
        match *self {
            PlayerDiggingStatus::StartedDigging
            | PlayerDiggingStatus::FinishedDigging
            | PlayerDiggingStatus::CancelledDigging => Family::Digging,
            PlayerDiggingStatus::DropItem | PlayerDiggingStatus::DropItemStack => Family::DropItem,
            PlayerDiggingStatus::ConsumeItem => Family::ConsumeItem,
            PlayerDiggingStatus::SwapItemInHand => Family::Unhandled,
        }
    }
}

} // verus!
