//! What the periodic tasks decide around the snapshot: how a tick gets its
//! snapshot, what housekeeping does to it, and whether the market is scanned.

use vstd::prelude::*;
use crate::risk::{BotMode, RiskEvent, RiskParams, RiskState, RiskView, event_between,
    transition_event};
use crate::state::{PersistedState, SnapshotView, SNAPSHOT_VERSION};

verus! {

/// The day key of a fresh snapshot where today's cannot be had.
pub open spec fn fallback_day_key() -> Seq<char> {
    "1970-01-01"@
}

/// The text of an optional day key.
pub open spec fn key_view(day_key: Option<String>) -> Option<Seq<char>> {
    match day_key {
        Some(key) => Some(key@),
        None => None,
    }
}

/// A snapshot with nothing realized and no position, seeded with `capital`.
pub open spec fn fresh_snapshot(day_key: Option<Seq<char>>, capital: int) -> SnapshotView {
    SnapshotView {
        version: SNAPSHOT_VERSION as int,
        mode: BotMode::Trading,
        risk: RiskView {
            mode: BotMode::Trading,
            day_key: match day_key {
                Some(key) => key,
                None => fallback_day_key(),
            },
            realized_pnl: 0,
            starting_balance: capital,
            current_balance: capital,
        },
        positions: Seq::empty(),
    }
}

/// The snapshot with its day rolled over, where the day key is known.
pub open spec fn rolled(snapshot: SnapshotView, day_key: Option<Seq<char>>) -> SnapshotView {
    match day_key {
        Some(key) => SnapshotView { risk: snapshot.risk.rolled_over(key), ..snapshot },
        None => snapshot,
    }
}

/// The snapshot that a tick works on: the one that the store gave, or, on a
/// first run, a fresh one seeded with the configured capital.
pub fn snapshot_or_fresh(
    loaded: Option<PersistedState>,
    day_key: Option<String>,
    params: &RiskParams,
) -> (snapshot: PersistedState)
    ensures
        loaded matches Some(stored) ==> snapshot == stored,
        loaded is None ==> snapshot@ == fresh_snapshot(
            key_view(day_key),
            params.capital_usdc as int,
        ),
{
    match loaded {
        Some(stored) => stored,
        None => {
            let key = match day_key {
                Some(key) => key,
                None => "1970-01-01".to_owned(),
            };
            PersistedState::new(RiskState::new(key, params.capital_usdc))
        },
    }
}

/// Rolls the day over where the day key is known.
pub fn roll_day(snapshot: &mut PersistedState, day_key: Option<String>)
    ensures
        final(snapshot)@ == rolled(old(snapshot)@, key_view(day_key)),
        final(snapshot).risk.mode == old(snapshot).risk.mode,
        final(snapshot)@.positions == old(snapshot)@.positions,
{
    if let Some(key) = day_key {
        snapshot.risk.rollover_day_if_needed(key);
    }
}

/// One round of housekeeping: the day is rolled over and the copied mode is
/// brought in line with the governor's, ready to be saved. The event is the
/// edge between the mode that the snapshot last showed and the governor's, so
/// a breach is alerted once and not at every round.
pub fn housekeeping(snapshot: &mut PersistedState, day_key: Option<String>) -> (edge: RiskEvent)
    ensures
        final(snapshot)@ == (SnapshotView {
            mode: old(snapshot).risk.mode,
            ..rolled(old(snapshot)@, key_view(day_key))
        }),
        final(snapshot).mode == final(snapshot).risk.mode,
        final(snapshot).risk.mode == old(snapshot).risk.mode,
        edge == transition_event(old(snapshot).mode, old(snapshot).risk.mode),
        old(snapshot).mode == old(snapshot).risk.mode ==> edge == RiskEvent::NoChange,
{
    let shown = snapshot.mode;
    roll_day(snapshot, day_key);
    snapshot.sync_mode_from_risk();
    event_between(shown, snapshot.risk.mode)
}

/// The start of a market scan: the day is rolled over, and the scan goes
/// ahead only in `Trading`. A scan that goes ahead leaves the snapshot ready
/// to be saved; one that does not leaves the copied mode alone.
pub fn market_scan(snapshot: &mut PersistedState, day_key: Option<String>) -> (proceed: bool)
    ensures
        proceed == (old(snapshot).risk.mode == BotMode::Trading),
        proceed ==> final(snapshot)@ == (SnapshotView {
            mode: BotMode::Trading,
            ..rolled(old(snapshot)@, key_view(day_key))
        }),
        !proceed ==> final(snapshot)@ == rolled(old(snapshot)@, key_view(day_key)),
{
    roll_day(snapshot, day_key);
    if snapshot.risk.mode != BotMode::Trading {
        return false;
    }
    snapshot.sync_mode_from_risk();
    true
}

} // verus!
