//! The digging of blocks.

use crate::block::Block;
use crate::bow::{consumed, handle_consume_item, use_began_by};
use crate::drop_item::{dropped, handle_drop_item_stack};
use crate::event::{Effect, EffectView, Outcome};
use crate::packet::{Family, PlayerDigging, PlayerDiggingStatus};
use crate::player::{Entity, Player, PlayerView};
use crate::position::BlockPosition;
use vstd::prelude::*;

verus! {

/// The dig that a player has under way.
///
/// A player who has such a record is digging the block at `pos`.
#[derive(Clone, Copy, Debug, PartialEq, Eq, Structural)]
pub struct Digging {
    /// The position of the block being dug.
    pub pos: BlockPosition,
    /// The time that the block takes to dig, in milliseconds.
    pub time: i64,
    /// The progress made, in the units of [`crate::progress::UNITS_PER_TICK`]:
    /// fifteen of them make one tick's worth of digging at full speed. It never
    /// goes down while the dig lasts.
    pub progress: u64,
}

/// Told when a player takes up a dig. A block that breaks at once gives none.
#[derive(Clone, Copy, Debug, PartialEq, Eq, Structural)]
pub struct StartDiggingEvent {
    pub player: Entity,
}

/// Told when a player's dig ends, whether the block broke or the dig was given up.
#[derive(Clone, Copy, Debug, PartialEq, Eq, Structural)]
pub struct FinishDiggingEvent {
    /// The player whose dig ended.
    pub player: Entity,
    /// The record of the dig as it stood when it ended.
    pub digging: Digging,
}

/// The square of the greatest distance over which a player can dig: six blocks,
/// of 4096 position units each, squared.
pub const MAX_DIG_RADIUS_SQUARED: u64 = 36 * 4096 * 4096;

/// A block whose hardness lies below this many milliseconds breaks at once.
pub const INSTANT_HARDNESS: i64 = 10;

/// Whether a block at `location` is too far from the player to dig.
pub open spec fn out_of_reach(player: PlayerView, location: BlockPosition) -> bool {
    location.spec_position().distance_squared_to(player.position) > MAX_DIG_RADIUS_SQUARED
}

/// Whether the player breaks `block` without digging at it.
pub open spec fn breaks_at_once(player: PlayerView, block: Block) -> bool {
    player.can_insta_break || block.hardness < INSTANT_HARDNESS
}

/// What a message that starts a dig leads to.
///
/// The record of an earlier dig goes first, whatever follows. A block out of reach
/// is left alone. A block that breaks at once is broken, and no dig is taken up.
/// Any other block gets a fresh record, and the start is told.
pub open spec fn started_digging(
    player: PlayerView,
    location: BlockPosition,
    block: Option<Block>,
) -> Outcome {
    let idle = PlayerView { digging: None, ..player };
    let block = Block::spec_or_air(block);
    if out_of_reach(player, location) {
        Outcome::ignored(idle)
    } else if breaks_at_once(player, block) {
        Outcome {
            player: idle,
            effects: seq![EffectView::BreakBlock { player: player.entity, pos: location }],
        }
    } else {
        Outcome {
            player: PlayerView {
                digging: Some(Digging { pos: location, time: block.hardness, progress: 0 }),
                ..player
            },
            effects: seq![EffectView::StartDigging(StartDiggingEvent { player: player.entity })],
        }
    }
}

/// What a message that cancels a dig leads to: the record goes, and its end is told.
/// Without a record nothing happens.
pub open spec fn cancelled_digging(player: PlayerView) -> Outcome {
    match player.digging {
        Some(digging) => Outcome {
            player: PlayerView { digging: None, ..player },
            effects: seq![
                EffectView::FinishDigging(FinishDiggingEvent { player: player.entity, digging }),
            ],
        },
        None => Outcome::ignored(player),
    }
}

/// The record that a message which finishes a dig at `location` goes by: the one
/// under way, or, for a player who breaks blocks at once and has none, a record
/// of a dig at `location` that took no time.
pub open spec fn finishing_record(player: PlayerView, location: BlockPosition) -> Option<Digging> {
    match player.digging {
        Some(digging) => Some(digging),
        None => if player.can_insta_break {
            Some(Digging { pos: location, time: 0, progress: 0 })
        } else {
            None
        },
    }
}

/// What a message that finishes a dig leads to.
///
/// Where there is a record to go by and it names the block that the message names,
/// the record goes, the block is broken and the end of the dig is told. Otherwise
/// nothing happens: a record of a dig elsewhere stays as it is.
pub open spec fn finished_digging(player: PlayerView, location: BlockPosition) -> Outcome {
    match finishing_record(player, location) {
        Some(digging) => if digging.pos == location {
            Outcome {
                player: PlayerView { digging: None, ..player },
                effects: seq![
                    EffectView::BreakBlock { player: player.entity, pos: location },
                    EffectView::FinishDigging(
                        FinishDiggingEvent { player: player.entity, digging },
                    ),
                ],
            }
        } else {
            Outcome::ignored(player)
        },
        None => Outcome::ignored(player),
    }
}

/// What a message about a dig leads to. A player who may not break blocks is not
/// heard.
pub open spec fn digging_outcome(
    player: PlayerView,
    packet: PlayerDigging,
    block: Option<Block>,
) -> Outcome {
    if !player.can_break {
        Outcome::ignored(player)
    } else {
        match packet.status {
            PlayerDiggingStatus::StartedDigging => started_digging(player, packet.location, block),
            PlayerDiggingStatus::CancelledDigging => cancelled_digging(player),
            PlayerDiggingStatus::FinishedDigging => finished_digging(player, packet.location),
            _ => Outcome::ignored(player),
        }
    }
}

/// Handles a message that starts a dig at the block `packet.location`, which
/// the world knows as `block`.
pub fn handle_started_digging(
    player: &mut Player,
    packet: &PlayerDigging,
    block: Option<Block>,
) -> (effects: Vec<Effect>)
    ensures
        final(player)@ == started_digging(old(player)@, packet.location, block).player,
        effects.deep_view() == started_digging(old(player)@, packet.location, block).effects,
{
    let mut effects: Vec<Effect> = Vec::new();
    player.digging = None;
    if packet.location.position().farther_than(&player.position, MAX_DIG_RADIUS_SQUARED) {
        assert(effects.deep_view() =~= Seq::<EffectView>::empty());
        return effects;
    }
    let found = Block::or_air(block);
    if player.can_insta_break || found.hardness < INSTANT_HARDNESS {
        effects.push(dig(player.entity, packet.location));
    } else {
        player.digging = Some(Digging { pos: packet.location, time: found.hardness, progress: 0 });
        effects.push(Effect::StartDigging(StartDiggingEvent { player: player.entity }));
    }
    assert(effects.deep_view() =~= started_digging(old(player)@, packet.location, block).effects);
    effects
}

/// Handles a message that cancels the dig under way.
pub fn handle_cancelled_digging(player: &mut Player) -> (effects: Vec<Effect>)
    ensures
        final(player)@ == cancelled_digging(old(player)@).player,
        effects.deep_view() == cancelled_digging(old(player)@).effects,
{
    let mut effects: Vec<Effect> = Vec::new();
    let digging = player.digging;
    player.digging = None;
    if let Some(digging) = digging {
        effects.push(Effect::FinishDigging(FinishDiggingEvent { player: player.entity, digging }));
    }
    assert(effects.deep_view() =~= cancelled_digging(old(player)@).effects);
    effects
}

/// Handles a message that finishes a dig at the block `packet.location`.
pub fn handle_finished_digging(player: &mut Player, packet: &PlayerDigging) -> (effects: Vec<
    Effect,
>)
    ensures
        final(player)@ == finished_digging(old(player)@, packet.location).player,
        effects.deep_view() == finished_digging(old(player)@, packet.location).effects,
{
    let mut effects: Vec<Effect> = Vec::new();
    let digging = match player.digging {
        Some(digging) => digging,
        None => {
            if player.can_insta_break {
                Digging { pos: packet.location, time: 0, progress: 0 }
            } else {
                assert(effects.deep_view() =~= Seq::<EffectView>::empty());
                return effects;
            }
        },
    };
    if digging.pos != packet.location {
        assert(effects.deep_view() =~= Seq::<EffectView>::empty());
        return effects;
    }
    player.digging = None;
    effects.push(dig(player.entity, digging.pos));
    effects.push(Effect::FinishDigging(FinishDiggingEvent { player: player.entity, digging }));
    assert(effects.deep_view() =~= finished_digging(old(player)@, packet.location).effects);
    effects
}

/// Handles a message about a dig: one that starts, cancels or finishes it.
pub fn handle_digging(player: &mut Player, packet: &PlayerDigging, block: Option<Block>) -> (effects:
    Vec<Effect>)
    requires
        packet.status.spec_family() == Family::Digging,
    ensures
        final(player)@ == digging_outcome(old(player)@, *packet, block).player,
        effects.deep_view() == digging_outcome(old(player)@, *packet, block).effects,
{
    if !player.can_break {
        let effects: Vec<Effect> = Vec::new();
        assert(effects.deep_view() =~= Seq::<EffectView>::empty());
        return effects;
    }
    match packet.status {
        PlayerDiggingStatus::StartedDigging => handle_started_digging(player, packet, block),
        PlayerDiggingStatus::CancelledDigging => handle_cancelled_digging(player),
        _ => handle_finished_digging(player, packet),
    }
}

/// The request to break the block at `pos` on behalf of `player`.
pub fn dig(player: Entity, pos: BlockPosition) -> (effect: Effect)
    ensures
        effect@ == (EffectView::BreakBlock { player, pos }),
{
    Effect::BreakBlock { player, pos }
}

/// Why the server lets go of a player.
#[derive(Clone, Copy, Debug, PartialEq, Eq, Structural)]
pub enum DisconnectReason {
    /// The player tried to break a block in a part of the world that is not loaded.
    UnloadedChunk { pos: BlockPosition },
}

/// The order to let go of a player.
#[derive(Clone, Copy, Debug, PartialEq, Eq, Structural)]
pub struct Disconnect {
    pub player: Entity,
    pub reason: DisconnectReason,
}

/// What follows the attempt to break the block at `pos` on behalf of `player`;
/// `changed` says whether the world took the change. It does not where that part
/// of the world is not loaded, and the player is then let go.
pub fn after_dig(player: Entity, pos: BlockPosition, changed: bool) -> (order: Option<Disconnect>)
    ensures
        order == if changed {
            None::<Disconnect>
        } else {
            Some(Disconnect { player, reason: DisconnectReason::UnloadedChunk { pos } })
        },
{
    if !changed {
        Some(Disconnect { player, reason: DisconnectReason::UnloadedChunk { pos } })
    } else {
        None
    }
}

/// What a player-action message leads to at tick `now`, where the world knows the
/// block that the message names as `block`: what its family of handlers makes of
/// it, and nothing for a status that no handler takes.
pub open spec fn outcome(
    player: PlayerView,
    packet: PlayerDigging,
    block: Option<Block>,
    now: u64,
) -> Outcome {
    match packet.status.spec_family() {
        Family::Digging => digging_outcome(player, packet, block),
        Family::DropItem => dropped(player, packet.status),
        Family::ConsumeItem => consumed(player, now),
        Family::Unhandled => Outcome::ignored(player),
    }
}

/// Handles one player-action message from `player`.
///
/// `block` is the block at `packet.location` as the world knows it, and
/// `tick_count` the number of the tick under way.
pub fn handle_player_digging(
    player: &mut Player,
    packet: &PlayerDigging,
    block: Option<Block>,
    tick_count: u64,
) -> (effects: Vec<Effect>)
    requires
        use_began_by(old(player)@, tick_count),
    ensures
        final(player)@ == outcome(old(player)@, *packet, block, tick_count).player,
        effects.deep_view() == outcome(old(player)@, *packet, block, tick_count).effects,
{
    match packet.status.family() {
        Family::Digging => handle_digging(player, packet, block),
        Family::DropItem => handle_drop_item_stack(player, packet),
        Family::ConsumeItem => handle_consume_item(player, packet, tick_count),
        Family::Unhandled => {
            let effects: Vec<Effect> = Vec::new();
            assert(effects.deep_view() =~= Seq::<EffectView>::empty());
            effects
        },
    }
}

/// Whether `effects` tell the end of a dig exactly once, and tell it as `event`.
pub open spec fn tells_finish_once(effects: Seq<EffectView>, event: FinishDiggingEvent) -> bool {
    exists|i: int|
        0 <= i < effects.len() && effects[i] == EffectView::FinishDigging(event) && forall|j: int|
            0 <= j < effects.len() && effects[j] is FinishDigging ==> j == i
}

/// Whether `effects` tell the end of no dig.
pub open spec fn tells_no_finish(effects: Seq<EffectView>) -> bool {
    forall|j: int| 0 <= j < effects.len() ==> !(effects[j] is FinishDigging)
}

/// A player who may not break blocks is not heard on digging: whatever the
/// message says of a dig, nothing changes and nothing is asked for.
pub proof fn law_no_break_no_effect(
    player: PlayerView,
    packet: PlayerDigging,
    block: Option<Block>,
    now: u64,
)
    requires
        !player.can_break,
        packet.status.spec_family() == Family::Digging,
    ensures
        outcome(player, packet, block, now).player == player,
        outcome(player, packet, block, now).effects == Seq::<EffectView>::empty(),
{
}

/// Starting a dig forgets the dig under way before anything else: the outcome is
/// that of the same message for a player with no dig under way, and the record
/// that it leaves, if any, is a fresh one at the block named.
pub proof fn law_start_discards_record(
    player: PlayerView,
    location: BlockPosition,
    block: Option<Block>,
)
    ensures
        started_digging(player, location, block) == started_digging(
            PlayerView { digging: None, ..player },
            location,
            block,
        ),
        started_digging(player, location, block).player.digging matches Some(digging) ==> digging
            == (Digging { pos: location, time: Block::spec_or_air(block).hardness, progress: 0 }),
{
}

/// A dig started at a block out of reach is turned down: no record is left, and
/// nothing is asked for.
pub proof fn law_out_of_reach_rejected(
    player: PlayerView,
    packet: PlayerDigging,
    block: Option<Block>,
    now: u64,
)
    requires
        packet.status == PlayerDiggingStatus::StartedDigging,
        packet.location.spec_position().distance_squared_to(player.position)
            > MAX_DIG_RADIUS_SQUARED,
    ensures
        outcome(player, packet, block, now).player.digging == if player.can_break {
            None
        } else {
            player.digging
        },
        outcome(player, packet, block, now).effects == Seq::<EffectView>::empty(),
{
}

/// Where the block is softer than [`INSTANT_HARDNESS`], or the player breaks blocks
/// at once, starting a dig within reach breaks the block: no record is left, the
/// one effect is the breaking of the block, and no start is told.
pub proof fn law_instant_break(
    player: PlayerView,
    packet: PlayerDigging,
    block: Option<Block>,
    now: u64,
)
    requires
        packet.status == PlayerDiggingStatus::StartedDigging,
        player.can_break,
        !out_of_reach(player, packet.location),
        player.can_insta_break || Block::spec_or_air(block).hardness < INSTANT_HARDNESS,
    ensures
        outcome(player, packet, block, now).player == (PlayerView { digging: None, ..player }),
        outcome(player, packet, block, now).effects == seq![
            EffectView::BreakBlock { player: player.entity, pos: packet.location },
        ],
{
}

/// A dig that is under way and is cancelled, or finished at its own block, ends
/// with its end told exactly once, with the record as it stood.
pub proof fn law_finish_told_once(
    player: PlayerView,
    packet: PlayerDigging,
    block: Option<Block>,
    now: u64,
    digging: Digging,
)
    requires
        player.can_break,
        player.digging == Some(digging),
        packet.status == PlayerDiggingStatus::CancelledDigging || (packet.status
            == PlayerDiggingStatus::FinishedDigging && packet.location == digging.pos),
    ensures
        outcome(player, packet, block, now).player.digging is None,
        tells_finish_once(
            outcome(player, packet, block, now).effects,
            FinishDiggingEvent { player: player.entity, digging },
        ),
{
    let effects = outcome(player, packet, block, now).effects;
    let event = FinishDiggingEvent { player: player.entity, digging };
    if packet.status == PlayerDiggingStatus::CancelledDigging {
        assert(effects[0] == EffectView::FinishDigging(event));
    } else {
        assert(effects[1] == EffectView::FinishDigging(event));
    }
}

/// No message tells the end of a dig more than once, and one that tells it ends
/// the dig: it leaves no record, and what it tells is the record that was under
/// way, or, where none was, that of a dig at the block named which took no time.
pub proof fn law_finish_told_at_most_once(
    player: PlayerView,
    packet: PlayerDigging,
    block: Option<Block>,
    now: u64,
)
    ensures
        !tells_no_finish(outcome(player, packet, block, now).effects) ==> {
            &&& outcome(player, packet, block, now).player.digging is None
            &&& finishing_record(player, packet.location) is Some
            &&& tells_finish_once(
                outcome(player, packet, block, now).effects,
                FinishDiggingEvent {
                    player: player.entity,
                    digging: finishing_record(player, packet.location)->Some_0,
                },
            )
        },
{
    let effects = outcome(player, packet, block, now).effects;
    if !tells_no_finish(effects) {
        let digging = finishing_record(player, packet.location)->Some_0;
        let event = FinishDiggingEvent { player: player.entity, digging };
        if packet.status == PlayerDiggingStatus::CancelledDigging {
            assert(effects[0] == EffectView::FinishDigging(event));
        } else {
            assert(effects[1] == EffectView::FinishDigging(event));
        }
    }
}

/// A message that finishes a dig at another block than the one being dug neither
/// breaks a block nor touches the record.
pub proof fn law_finish_elsewhere_ignored(
    player: PlayerView,
    packet: PlayerDigging,
    block: Option<Block>,
    now: u64,
    digging: Digging,
)
    requires
        packet.status == PlayerDiggingStatus::FinishedDigging,
        player.digging == Some(digging),
        digging.pos != packet.location,
    ensures
        outcome(player, packet, block, now).player == player,
        outcome(player, packet, block, now).effects == Seq::<EffectView>::empty(),
{
}

/// The record of a dig changes only as a whole: after any message the player has
/// the record that was there, or none, or a fresh one at the block named.
pub proof fn law_record_kept_or_replaced(
    player: PlayerView,
    packet: PlayerDigging,
    block: Option<Block>,
    now: u64,
)
    ensures
        ({
            let after = outcome(player, packet, block, now).player.digging;
            ||| after == player.digging
            ||| after is None
            ||| after == Some(
                Digging {
                    pos: packet.location,
                    time: Block::spec_or_air(block).hardness,
                    progress: 0,
                },
            )
        }),
{
}

} // verus!
