//! The progress of digs from tick to tick.

use crate::block::Block;
use crate::digging::Digging;
use crate::item::{Slot, Tool};
use crate::player::{Player, PlayerView};
use vstd::prelude::*;

verus! {

/// Progress is counted in units of which a tick of digging at full speed with
/// bare hands makes this many.
pub const UNITS_PER_TICK: u64 = 15;

/// The units that a tick adds where no tool helps: the full speed over 1.5.
pub const UNAIDED_GAIN: u64 = 10;

/// The units that a tick adds where the block asks for a tool that is not in hand:
/// the full speed over 5.
pub const HINDERED_GAIN: u64 = 3;

/// The category of tool that a slot holds, if it holds a tool.
pub open spec fn held_tool(held: Slot) -> Option<Tool> {
    match held {
        Some(stack) => stack.ty.spec_tool(),
        None => None,
    }
}

/// Whether the tool in hand is the one that digs the block fastest.
pub open spec fn tool_helps(block: Block, held: Slot) -> bool {
    block.best_tool == held_tool(held) && block.best_tool is Some
}

/// The units of progress that one tick of digging at `block` adds for a player
/// with `held` in hand.
///
/// With the block's best tool in hand it is the unaided gain times the dig-speed
/// multiplier of the tool's material; there is none where such a tool has no
/// multiplier. Without it, it is the hindered gain where the block asks for its
/// best tool and the unaided gain where it does not.
pub open spec fn progress_gain(block: Block, held: Slot) -> Option<u64> {
    if tool_helps(block, held) {
        match held->Some_0.ty.spec_dig_multiplier() {
            Some(multiplier) => Some((UNAIDED_GAIN * multiplier) as u64),
            None => None,
        }
    } else if block.best_tool_required {
        Some(HINDERED_GAIN)
    } else {
        Some(UNAIDED_GAIN)
    }
}

/// Computes [`progress_gain`].
pub fn gain_per_tick(block: &Block, held: &Slot) -> (gain: Option<u64>)
    ensures
        gain == progress_gain(*block, *held),
{
    let tool: Option<Tool> = match held {
        Some(stack) => stack.ty.tool(),
        None => None,
    };
    let helps: bool = match (block.best_tool, tool) {
        (Some(best), Some(in_hand)) => best == in_hand,
        _ => false,
    };
    if helps {
        match held {
            Some(stack) => match stack.ty.dig_multiplier() {
                Some(multiplier) => Some(UNAIDED_GAIN * (multiplier as u64)),
                None => None,
            },
            None => None,
        }
    } else if block.best_tool_required {
        Some(HINDERED_GAIN)
    } else {
        Some(UNAIDED_GAIN)
    }
}

/// The record of a dig after a tick that adds `gain` units. Progress stops at the
/// largest number that the record can hold.
pub open spec fn dug_on(digging: Digging, gain: u64) -> Digging {
    Digging {
        progress: if digging.progress + gain > u64::MAX {
            u64::MAX
        } else {
            (digging.progress + gain) as u64
        },
        ..digging
    }
}

/// Whether a tick can pass for the player: no dig is under way, or the gain of a
/// tick at the block being dug, known to the world as `block`, is defined.
pub open spec fn can_advance(player: PlayerView, block: Option<Block>) -> bool {
    player.digging is Some ==> progress_gain(Block::spec_or_air(block), player.in_hand()) is Some
}

/// The player after a tick. A dig under way gains what the tool in hand gives at
/// the block being dug, known to the world as `block`; nothing else changes.
pub open spec fn advanced(player: PlayerView, block: Option<Block>) -> PlayerView {
    match player.digging {
        Some(digging) => PlayerView {
            digging: Some(
                dug_on(
                    digging,
                    progress_gain(Block::spec_or_air(block), player.in_hand())->Some_0,
                ),
            ),
            ..player
        },
        None => player,
    }
}

/// Lets one tick pass for a player; `block` is the block being dug, as the world
/// knows it.
pub fn advance(player: &mut Player, block: Option<Block>)
    requires
        can_advance(old(player)@, block),
    ensures
        final(player)@ == advanced(old(player)@, block),
{
    if let Some(digging) = player.digging {
        let found = Block::or_air(block);
        let held = player.item_in_main_hand();
        let gain: u64 = match gain_per_tick(&found, &held) {
            Some(gain) => gain,
            None => {
                return ;
            },
        };
        let progress: u64 = if gain > u64::MAX - digging.progress {
            u64::MAX
        } else {
            digging.progress + gain
        };
        player.digging = Some(Digging { pos: digging.pos, time: digging.time, progress });
    }
}

/// Lets one tick pass for all players: every dig under way gains what the tool
/// in its player's hand gives. `blocks` holds for each player, in the order of
/// `players`, the block being dug as the world knows it; for a player who is not
/// digging it is not read.
pub fn advance_dig_progress(players: &mut Vec<Player>, blocks: &Vec<Option<Block>>)
    requires
        blocks@.len() == old(players)@.len(),
        forall|i: int|
            0 <= i < blocks@.len() ==> can_advance(#[trigger] old(players)@[i]@, blocks@[i]),
    ensures
        final(players)@.len() == old(players)@.len(),
        forall|i: int|
            0 <= i < blocks@.len() ==> #[trigger] final(players)@[i]@ == advanced(
                old(players)@[i]@,
                blocks@[i],
            ),
{
    let mut i: usize = 0;
    while i < players.len()
        invariant
            i <= players@.len(),
            players@.len() == old(players)@.len(),
            blocks@.len() == players@.len(),
            forall|j: int| 0 <= j < i ==> #[trigger] players@[j]@ == advanced(old(players)@[j]@, blocks@[j]),
            forall|j: int| i <= j < players@.len() ==> players@[j] == old(players)@[j],
            forall|j: int|
                0 <= j < blocks@.len() ==> can_advance(#[trigger] old(players)@[j]@, blocks@[j]),
        decreases players@.len() - i,
    {
        advance(&mut players[i], blocks[i]);
        i += 1;
    }
}

/// Whether `units` of progress amount to `num / den` seconds where `tick_rate`
/// ticks pass in a second: a second is `UNITS_PER_TICK * tick_rate` units.
pub open spec fn is_seconds(units: int, tick_rate: int, num: int, den: int) -> bool {
    units * den == num * (UNITS_PER_TICK * tick_rate)
}

/// The progress that a tick adds, in seconds, at `tick_rate` ticks to the second.
///
/// With the block's best tool in hand, of a material with dig-speed multiplier
/// `m`, it is `1 / tick_rate * (1 / 1.5) * m`, which is `2 m / (3 tick_rate)`.
/// Without it, where the block asks for its best tool, it is `1 / tick_rate *
/// (1 / 5)`. In every other case it is `1 / tick_rate * (1 / 1.5)`.
pub proof fn law_gain_per_tick(block: Block, held: Slot, tick_rate: int)
    requires
        tick_rate > 0,
    ensures
        match progress_gain(block, held) {
            Some(gain) => if tool_helps(block, held) {
                held->Some_0.ty.spec_dig_multiplier() matches Some(m) && is_seconds(
                    gain as int,
                    tick_rate,
                    2 * m,
                    3 * tick_rate,
                )
            } else if block.best_tool_required {
                is_seconds(gain as int, tick_rate, 1, 5 * tick_rate)
            } else {
                is_seconds(gain as int, tick_rate, 2, 3 * tick_rate)
            },
            None => tool_helps(block, held) && held->Some_0.ty.spec_dig_multiplier() is None,
        },
{
    if tool_helps(block, held) {
        if let Some(m) = held->Some_0.ty.spec_dig_multiplier() {
            let gain = progress_gain(block, held)->Some_0;
            assert(gain == 10 * m);
            assert((10 * m) * (3 * tick_rate) == (2 * m) * (15 * tick_rate)) by (nonlinear_arith);
        }
    } else if block.best_tool_required {
        assert(3 * (5 * tick_rate) == 1 * (15 * tick_rate));
    } else {
        assert(10 * (3 * tick_rate) == 2 * (15 * tick_rate));
    }
}

/// A tick leaves a dig what it is and never takes progress back: the player who
/// was digging still is, at the same block and with the same time to dig, and has
/// gained what the tick gives, up to the largest number the record holds. Nothing
/// else about the player changes.
pub proof fn law_tick_keeps_dig(player: PlayerView, block: Option<Block>)
    requires
        can_advance(player, block),
    ensures
        advanced(player, block) == (PlayerView {
            digging: advanced(player, block).digging,
            ..player
        }),
        player.digging is None ==> advanced(player, block).digging is None,
        player.digging matches Some(before) ==> (advanced(player, block).digging matches Some(
            after,
        ) && after.pos == before.pos && after.time == before.time && after.progress
            >= before.progress && (after.progress == before.progress + progress_gain(
            Block::spec_or_air(block),
            player.in_hand(),
        )->Some_0 || after.progress == u64::MAX)),
{
}

} // verus!
