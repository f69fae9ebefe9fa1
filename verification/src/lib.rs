//! Server-side handling of the player-action message: digging blocks,
//! dropping held items and releasing a drawn bow.

pub mod block;
pub mod bow;
pub mod digging;
pub mod drop_item;
pub mod event;
pub mod inventory;
pub mod item;
pub mod packet;
pub mod player;
pub mod position;
pub mod progress;
pub mod slot_list;
