//! One tick of the position monitor, as a state machine.
//!
//! The monitor alternates decisions with work that only the outside world can
//! do: asking for a price, submitting a swap, writing the snapshot. The tick
//! says which piece of work comes next; the caller does it and reports how it
//! went; the tick takes that in and says what comes next. A tick that finds
//! the mode at `EmergencyStop` first submits every position for a market exit
//! and saves, then applies the exit rules to whatever could not be sold.

use vstd::prelude::*;
use crate::position::{Position, PositionView, realized_pnl};
use crate::risk::{BotMode, ExitReason, RiskEvent, RiskParams, mode_rank, transition_event};
use crate::state::{PersistedState, SnapshotView, all_valid, ids_unique};

verus! {

/// What a tick is waiting for.
#[derive(Debug, Clone, Copy, PartialEq, Eq, Structural)]
pub enum TickPhase {
    /// Forced liquidation: the market exit of the position at `index`.
    Liquidating { index: usize },
    /// The save that follows forced liquidation.
    SavingLiquidation,
    /// The price of the position at `index`.
    Pricing { index: usize },
    /// The swap that closes the position at `index`, which `reason` asked for
    /// when the price was `price`.
    Exiting { index: usize, reason: ExitReason, price: u64 },
    /// The save that ends the tick.
    Saving,
    /// Nothing: the tick is over.
    Done,
}

/// The work that the caller does next.
#[derive(Debug, Clone, Copy, PartialEq, Eq, Structural)]
pub enum MonitorAction {
    /// Sell the whole position at `index` at market, whatever its price.
    Liquidate { index: usize },
    /// Ask for the price of the base of the position at `index` in its quote.
    FetchPrice { index: usize },
    /// Sell the whole position at `index`, which `reason` closes.
    Exit { index: usize, reason: ExitReason },
    /// Write the snapshot to the store.
    Persist,
    /// Stop: the tick is over.
    Finish,
}

/// How the work went.
#[derive(Debug, Clone)]
pub enum MonitorEvent {
    /// The price lookup answered.
    Price { price: u64 },
    /// The price lookup failed.
    PriceFailed,
    /// The swap went through under this transaction reference.
    SwapOk { signature: String },
    /// The swap failed.
    SwapFailed,
    /// The store was written, or the write failed: the tick goes on either
    /// way.
    Persisted,
}

/// An event as mathematics.
pub enum EventView {
    Price { price: u64 },
    PriceFailed,
    SwapOk { signature: Seq<char> },
    SwapFailed,
    Persisted,
}

impl View for MonitorEvent {
    type V = EventView;

    open spec fn view(&self) -> EventView {
        match *self {
            MonitorEvent::Price { price } => EventView::Price { price },
            MonitorEvent::PriceFailed => EventView::PriceFailed,
            MonitorEvent::SwapOk { signature } => EventView::SwapOk { signature: signature@ },
            MonitorEvent::SwapFailed => EventView::SwapFailed,
            MonitorEvent::Persisted => EventView::Persisted,
        }
    }
}

/// A position that a step took out of the book.
#[derive(Debug, Clone)]
pub struct ClosedTrade {
    /// The position as it left the book, with its exit transaction.
    pub position: Position,
    pub reason: ExitReason,
    /// The price that closed it; none for a forced liquidation.
    pub exit_price: Option<u64>,
    /// The profit or loss booked for it.
    pub pnl_usdc: i64,
}

/// A closed trade as mathematics.
pub struct ClosedView {
    pub position: PositionView,
    pub reason: ExitReason,
    pub exit_price: Option<u64>,
    pub pnl: int,
}

impl View for ClosedTrade {
    type V = ClosedView;

    open spec fn view(&self) -> ClosedView {
        ClosedView {
            position: self.position@,
            reason: self.reason,
            exit_price: self.exit_price,
            pnl: self.pnl_usdc as int,
        }
    }
}

/// What one step did and what comes next.
#[derive(Debug, Clone)]
pub struct StepReport {
    pub next: MonitorAction,
    /// The position that this step closed, if it closed one.
    pub closed: Option<ClosedTrade>,
    /// The edge that this step's booking crossed, if any.
    pub risk_event: RiskEvent,
}

/// A report as mathematics.
pub struct ReportView {
    pub next: MonitorAction,
    pub closed: Option<ClosedView>,
    pub risk_event: RiskEvent,
}

impl View for StepReport {
    type V = ReportView;

    open spec fn view(&self) -> ReportView {
        ReportView {
            next: self.next,
            closed: match self.closed {
                Some(trade) => Some(trade@),
                None => None,
            },
            risk_event: self.risk_event,
        }
    }
}

/// A tick in progress: the snapshot it works on and what it waits for.
pub struct MonitorTick {
    state: PersistedState,
    phase: TickPhase,
}

/// A tick as mathematics.
pub struct TickView {
    pub state: SnapshotView,
    pub phase: TickPhase,
}

/// The work that a phase waits for.
pub open spec fn action_of(phase: TickPhase) -> MonitorAction {
    match phase {
        TickPhase::Liquidating { index } => MonitorAction::Liquidate { index },
        TickPhase::SavingLiquidation => MonitorAction::Persist,
        TickPhase::Pricing { index } => MonitorAction::FetchPrice { index },
        TickPhase::Exiting { index, reason, price } => MonitorAction::Exit { index, reason },
        TickPhase::Saving => MonitorAction::Persist,
        TickPhase::Done => MonitorAction::Finish,
    }
}

/// Forced liquidation goes on with the position at `index`, or is over where
/// the book has none there.
pub open spec fn liquidating_from(index: int, open: int) -> TickPhase {
    if 0 <= index < open {
        TickPhase::Liquidating { index: index as usize }
    } else {
        TickPhase::SavingLiquidation
    }
}

/// Monitoring goes on with the position at `index`, or is over where the book
/// has none there.
pub open spec fn pricing_from(index: int, open: int) -> TickPhase {
    if 0 <= index < open {
        TickPhase::Pricing { index: index as usize }
    } else {
        TickPhase::Saving
    }
}

/// A phase that names a position names one that the book holds.
pub open spec fn phase_in_book(phase: TickPhase, open: int) -> bool {
    match phase {
        TickPhase::Liquidating { index } => index < open,
        TickPhase::Pricing { index } => index < open,
        TickPhase::Exiting { index, reason, price } => index < open,
        _ => true,
    }
}

/// The tick that waits in `phase` on `state`. Before either save the copied
/// mode is brought in line with the governor's.
pub open spec fn enter(state: SnapshotView, phase: TickPhase) -> TickView {
    match phase {
        TickPhase::SavingLiquidation | TickPhase::Saving => TickView {
            state: SnapshotView { mode: state.risk.mode, ..state },
            phase,
        },
        _ => TickView { state, phase },
    }
}

/// A report of a step that closed nothing.
pub open spec fn quiet(phase: TickPhase) -> ReportView {
    ReportView { next: action_of(phase), closed: None, risk_event: RiskEvent::NoChange }
}

/// The tick at its start: the day is rolled over where the day key is known,
/// and an `EmergencyStop` sends the tick into forced liquidation.
pub open spec fn begin_view(state: SnapshotView, day_key: Option<Seq<char>>) -> TickView {
    let rolled = match day_key {
        Some(key) => SnapshotView { risk: state.risk.rolled_over(key), ..state },
        None => state,
    };
    if rolled.risk.mode == BotMode::EmergencyStop {
        enter(rolled, liquidating_from(0, rolled.positions.len() as int))
    } else {
        enter(rolled, pricing_from(0, rolled.positions.len() as int))
    }
}

/// One step of the tick: the tick and the report that follow `event`.
///
/// An event that the phase does not wait for changes nothing. A failure moves
/// on to the next position and leaves the snapshot as it is. A successful swap
/// takes the position out of the book, and the position that followed it is
/// looked at next.
pub open spec fn tick_step(tick: TickView, params: RiskParams, event: EventView) -> (
    TickView,
    ReportView,
) {
    let book = tick.state.positions;
    let open = book.len() as int;
    match (tick.phase, event) {
        (TickPhase::Liquidating { index }, EventView::SwapOk { signature }) => {
            let state = SnapshotView { positions: book.remove(index as int), ..tick.state };
            let next = enter(state, liquidating_from(index as int, open - 1));
            let closed = ClosedView {
                position: PositionView { sell_tx: Some(signature), ..book[index as int] },
                reason: ExitReason::HardStop,
                exit_price: None,
                pnl: 0,
            };
            (
                next,
                ReportView {
                    next: action_of(next.phase),
                    closed: Some(closed),
                    risk_event: RiskEvent::NoChange,
                },
            )
        },
        (TickPhase::Liquidating { index }, EventView::SwapFailed) => {
            let next = enter(tick.state, liquidating_from(index + 1, open));
            (next, quiet(next.phase))
        },
        (TickPhase::SavingLiquidation, EventView::Persisted) => {
            let next = enter(tick.state, pricing_from(0, open));
            (next, quiet(next.phase))
        },
        (TickPhase::Pricing { index }, EventView::Price { price }) => {
            let seen = book[index as int].observed(price as int);
            let state = SnapshotView { positions: book.update(index as int, seen), ..tick.state };
            match seen.exit_reason(price as int) {
                Some(reason) => {
                    let phase = TickPhase::Exiting { index, reason, price };
                    (TickView { state, phase }, quiet(phase))
                },
                None => {
                    let next = enter(state, pricing_from(index + 1, open));
                    (next, quiet(next.phase))
                },
            }
        },
        (TickPhase::Pricing { index }, EventView::PriceFailed) => {
            let next = enter(tick.state, pricing_from(index + 1, open));
            (next, quiet(next.phase))
        },
        (TickPhase::Exiting { index, reason, price }, EventView::SwapOk { signature }) => {
            let position = book[index as int];
            let pnl = realized_pnl(position.size, position.entry_price, price as int);
            let risk = tick.state.risk.registered(params, pnl);
            let state = SnapshotView {
                mode: risk.mode,
                risk,
                positions: book.remove(index as int),
                ..tick.state
            };
            let next = enter(state, pricing_from(index as int, open - 1));
            let closed = ClosedView {
                position: PositionView { sell_tx: Some(signature), ..position },
                reason,
                exit_price: Some(price),
                pnl,
            };
            (
                next,
                ReportView {
                    next: action_of(next.phase),
                    closed: Some(closed),
                    risk_event: transition_event(tick.state.risk.mode, risk.mode),
                },
            )
        },
        (TickPhase::Exiting { index, reason, price }, EventView::SwapFailed) => {
            let next = enter(tick.state, pricing_from(index + 1, open));
            (next, quiet(next.phase))
        },
        (TickPhase::Saving, EventView::Persisted) => {
            let next = TickView { state: tick.state, phase: TickPhase::Done };
            (next, quiet(next.phase))
        },
        _ => (tick, quiet(tick.phase)),
    }
}

/// Whether `phase` waits for `event`.
pub open spec fn expects(phase: TickPhase, event: EventView) -> bool {
    match (phase, event) {
        (TickPhase::Liquidating { .. }, EventView::SwapOk { .. }) => true,
        (TickPhase::Liquidating { .. }, EventView::SwapFailed) => true,
        (TickPhase::SavingLiquidation, EventView::Persisted) => true,
        (TickPhase::Pricing { .. }, EventView::Price { .. }) => true,
        (TickPhase::Pricing { .. }, EventView::PriceFailed) => true,
        (TickPhase::Exiting { .. }, EventView::SwapOk { .. }) => true,
        (TickPhase::Exiting { .. }, EventView::SwapFailed) => true,
        (TickPhase::Saving, EventView::Persisted) => true,
        _ => false,
    }
}

/// Whether `event` is a successful swap of the position that `phase` names.
pub open spec fn closes(phase: TickPhase, event: EventView) -> bool {
    match (phase, event) {
        (TickPhase::Liquidating { .. }, EventView::SwapOk { .. }) => true,
        (TickPhase::Exiting { .. }, EventView::SwapOk { .. }) => true,
        _ => false,
    }
}

/// The position that a phase names, where it names one.
pub open spec fn index_of(phase: TickPhase) -> int {
    match phase {
        TickPhase::Liquidating { index } => index as int,
        TickPhase::Pricing { index } => index as int,
        TickPhase::Exiting { index, .. } => index as int,
        _ => 0,
    }
}

/// A bound on the work that a tick still has before it: it falls with every
/// event that the tick waits for.
pub open spec fn remaining(tick: TickView) -> int {
    let open = tick.state.positions.len() as int;
    match tick.phase {
        TickPhase::Liquidating { index } => 4 + 3 * open - index,
        TickPhase::SavingLiquidation => 3 + 2 * open,
        TickPhase::Pricing { index } => 2 + 2 * (open - index),
        TickPhase::Exiting { index, .. } => 1 + 2 * (open - index),
        TickPhase::Saving => 1,
        TickPhase::Done => 0,
    }
}

/// A step keeps the tick within its book, never improves the mode, and keeps
/// a book of distinct identities and of peaks at or above their entries that
/// way.
pub proof fn lemma_step_keeps_book_sound(tick: TickView, params: RiskParams, event: EventView)
    requires
        phase_in_book(tick.phase, tick.state.positions.len() as int),
    ensures
        phase_in_book(
            tick_step(tick, params, event).0.phase,
            tick_step(tick, params, event).0.state.positions.len() as int,
        ),
        tick_step(tick, params, event).0.state.version == tick.state.version,
        mode_rank(tick_step(tick, params, event).0.state.risk.mode) >= mode_rank(
            tick.state.risk.mode,
        ),
        ids_unique(tick.state.positions) ==> ids_unique(
            tick_step(tick, params, event).0.state.positions,
        ),
        all_valid(tick.state.positions) ==> all_valid(
            tick_step(tick, params, event).0.state.positions,
        ),
{
    let book = tick.state.positions;
    let next = tick_step(tick, params, event).0.state.positions;
    let index = index_of(tick.phase);
    if closes(tick.phase, event) {
        assert(next =~= book.remove(index));
        assert forall|k: int| 0 <= k < next.len() implies next[k] == book[if k < index {
            k
        } else {
            k + 1
        }] by {}
        if all_valid(book) {
            assert forall|k: int| 0 <= k < next.len() implies (#[trigger] next[k]).is_valid() by {
                assert(book[if k < index { k } else { k + 1 }].is_valid());
            }
        }
    } else if tick.phase is Pricing && event is Price {
        let price = event->price as int;
        assert(next =~= book.update(index, book[index].observed(price)));
        if all_valid(book) {
            assert forall|k: int| 0 <= k < next.len() implies (#[trigger] next[k]).is_valid() by {
                assert(book[k].is_valid());
            }
        }
    } else {
        assert(next =~= book);
    }
}

/// A position leaves the book exactly once, at the step that takes in the
/// success of its swap: that step removes the position that the phase names
/// and reports it with its exit transaction, and no other step changes which
/// positions the book holds.
pub proof fn lemma_step_closes_on_swap_only(tick: TickView, params: RiskParams, event: EventView)
    requires
        phase_in_book(tick.phase, tick.state.positions.len() as int),
    ensures
        tick_step(tick, params, event).1.closed is Some <==> closes(tick.phase, event),
        closes(tick.phase, event) ==> {
            let closed = tick_step(tick, params, event).1.closed->0;
            let left = tick.state.positions[index_of(tick.phase)];
            &&& tick_step(tick, params, event).0.state.positions
                == tick.state.positions.remove(index_of(tick.phase))
            &&& closed.position == (PositionView { sell_tx: Some(event->signature), ..left })
        },
        !closes(tick.phase, event) ==> {
            let next = tick_step(tick, params, event).0.state;
            &&& next.risk == tick.state.risk
            &&& next.positions.len() == tick.state.positions.len()
            &&& forall|k: int|
                0 <= k < next.positions.len() ==> (#[trigger] next.positions[k]).id
                    == tick.state.positions[k].id
        },
{
    let book = tick.state.positions;
    let next = tick_step(tick, params, event).0.state.positions;
    if !closes(tick.phase, event) {
        if tick.phase is Pricing && event is Price {
            let price = event->price as int;
            assert(next =~= book.update(index_of(tick.phase), book[index_of(tick.phase)].observed(
                price,
            )));
        } else {
            assert(next =~= book);
        }
    }
}

/// Across any step, a position that stays in the book keeps its identity, its
/// entry and its rules; its trailing stop, once armed, stays armed; and its
/// peak does not fall.
pub proof fn lemma_step_never_disarms(tick: TickView, params: RiskParams, event: EventView, k: int)
    requires
        phase_in_book(tick.phase, tick.state.positions.len() as int),
        !closes(tick.phase, event),
        0 <= k < tick.state.positions.len(),
    ensures
        tick_step(tick, params, event).0.state.positions.len() == tick.state.positions.len(),
        ({
            let before = tick.state.positions[k];
            let after = tick_step(tick, params, event).0.state.positions[k];
            &&& after == (PositionView {
                peak_price: after.peak_price,
                trailing_armed: after.trailing_armed,
                ..before
            })
            &&& before.trailing_armed ==> after.trailing_armed
            &&& after.peak_price >= before.peak_price
        }),
{
    let book = tick.state.positions;
    let next = tick_step(tick, params, event).0.state.positions;
    if tick.phase is Pricing && event is Price {
        let price = event->price as int;
        assert(next =~= book.update(index_of(tick.phase), book[index_of(tick.phase)].observed(
            price,
        )));
    } else {
        assert(next =~= book);
    }
}

/// A failed price lookup or swap leaves the risk state and every position as
/// they were.
pub proof fn lemma_failure_changes_nothing(tick: TickView, params: RiskParams, event: EventView)
    requires
        event is PriceFailed || event is SwapFailed,
    ensures
        tick_step(tick, params, event).0.state.risk == tick.state.risk,
        tick_step(tick, params, event).0.state.positions == tick.state.positions,
        tick_step(tick, params, event).0.state.version == tick.state.version,
        tick_step(tick, params, event).1.closed is None,
        tick_step(tick, params, event).1.risk_event == RiskEvent::NoChange,
{
}

/// Whenever the next piece of work is a save, the copied mode equals the
/// governor's: no snapshot is written with the two apart.
pub proof fn lemma_saved_mode_is_synced(tick: TickView, params: RiskParams, event: EventView)
    requires
        expects(tick.phase, event),
    ensures
        tick_step(tick, params, event).1.next == action_of(tick_step(tick, params, event).0.phase),
        tick_step(tick, params, event).1.next == MonitorAction::Persist ==> tick_step(
            tick,
            params,
            event,
        ).0.state.mode == tick_step(tick, params, event).0.state.risk.mode,
{
}

/// The same at the start of a tick.
pub proof fn lemma_begin_is_in_book(state: SnapshotView, day_key: Option<Seq<char>>)
    ensures
        phase_in_book(
            begin_view(state, day_key).phase,
            begin_view(state, day_key).state.positions.len() as int,
        ),
        begin_view(state, day_key).state.positions == state.positions,
        begin_view(state, day_key).state.risk.mode == state.risk.mode,
        action_of(begin_view(state, day_key).phase) == MonitorAction::Persist ==> begin_view(
            state,
            day_key,
        ).state.mode == begin_view(state, day_key).state.risk.mode,
        state.risk.mode == BotMode::EmergencyStop ==> begin_view(state, day_key).phase
            == liquidating_from(0, state.positions.len() as int),
        state.risk.mode != BotMode::EmergencyStop ==> begin_view(state, day_key).phase
            == pricing_from(0, state.positions.len() as int),
{
}

/// A tick ends: every event that it waits for brings it nearer to `Done`, and
/// any other event leaves it where it is.
pub proof fn lemma_step_makes_progress(tick: TickView, params: RiskParams, event: EventView)
    requires
        phase_in_book(tick.phase, tick.state.positions.len() as int),
        tick.state.positions.len() <= usize::MAX,
    ensures
        remaining(tick) >= 0,
        remaining(tick) == 0 <==> tick.phase == TickPhase::Done,
        expects(tick.phase, event) ==> remaining(tick_step(tick, params, event).0) < remaining(
            tick,
        ),
        !expects(tick.phase, event) ==> tick_step(tick, params, event).0 == tick,
{
    let book = tick.state.positions;
    let next = tick_step(tick, params, event).0.state.positions;
    if closes(tick.phase, event) {
        assert(next =~= book.remove(index_of(tick.phase)));
    } else if tick.phase is Pricing && event is Price {
        let price = event->price as int;
        assert(next =~= book.update(index_of(tick.phase), book[index_of(tick.phase)].observed(
            price,
        )));
    } else {
        assert(next =~= book);
    }
}


/// Computes `action_of`.
pub fn action_for(phase: TickPhase) -> (action: MonitorAction)
    ensures
        action == action_of(phase),
{
    match phase {
        TickPhase::Liquidating { index } => MonitorAction::Liquidate { index },
        TickPhase::SavingLiquidation => MonitorAction::Persist,
        TickPhase::Pricing { index } => MonitorAction::FetchPrice { index },
        TickPhase::Exiting { index, reason, price } => MonitorAction::Exit { index, reason },
        TickPhase::Saving => MonitorAction::Persist,
        TickPhase::Done => MonitorAction::Finish,
    }
}

impl View for MonitorTick {
    type V = TickView;

    closed spec fn view(&self) -> TickView {
        TickView { state: self.state@, phase: self.phase }
    }
}

impl MonitorTick {
    #[verifier::type_invariant]
    spec fn in_book(self) -> bool {
        phase_in_book(self.phase, self.state.positions.len() as int)
    }

    /// Puts `state` into `phase`, bringing the copied mode in line before a
    /// save.
    fn entering(state: PersistedState, phase: TickPhase) -> (tick: MonitorTick)
        requires
            phase_in_book(phase, state.positions.len() as int),
        ensures
            tick@ == enter(state@, phase),
    {
        let mut state = state;
        match phase {
            TickPhase::SavingLiquidation | TickPhase::Saving => {
                state.sync_mode_from_risk();
            },
            _ => {},
        }
        MonitorTick { state, phase }
    }

    /// Forced liquidation from the position at `index` on.
    fn liquidating(state: PersistedState, index: usize) -> (tick: MonitorTick)
        ensures
            tick@ == enter(state@, liquidating_from(index as int, state@.positions.len() as int)),
    {
        if index < state.positions.len() {
            MonitorTick::entering(state, TickPhase::Liquidating { index })
        } else {
            MonitorTick::entering(state, TickPhase::SavingLiquidation)
        }
    }

    /// Monitoring from the position at `index` on.
    fn pricing(state: PersistedState, index: usize) -> (tick: MonitorTick)
        ensures
            tick@ == enter(state@, pricing_from(index as int, state@.positions.len() as int)),
    {
        if index < state.positions.len() {
            MonitorTick::entering(state, TickPhase::Pricing { index })
        } else {
            MonitorTick::entering(state, TickPhase::Saving)
        }
    }

    /// Starts a tick on a snapshot. `day_key` is today's day key, where it
    /// could be had.
    pub fn begin(state: PersistedState, day_key: Option<String>) -> (tick: MonitorTick)
        ensures
            tick@ == begin_view(
                state@,
                match day_key {
                    Some(key) => Some(key@),
                    None => None,
                },
            ),
            phase_in_book(tick@.phase, tick@.state.positions.len() as int),
    {
        let mut state = state;
        if let Some(key) = day_key {
            state.risk.rollover_day_if_needed(key);
        }
        let tick = if state.risk.mode == BotMode::EmergencyStop {
            MonitorTick::liquidating(state, 0)
        } else {
            MonitorTick::pricing(state, 0)
        };
        proof {
            use_type_invariant(&tick);
        }
        tick
    }

    /// The snapshot as the tick has it now.
    pub fn state(&self) -> (state: &PersistedState)
        ensures
            state@ == self@.state,
    {
        &self.state
    }

    /// What the tick waits for.
    pub fn phase(&self) -> (phase: TickPhase)
        ensures
            phase == self@.phase,
            phase_in_book(phase, self@.state.positions.len() as int),
    {
        proof {
            use_type_invariant(self);
        }
        self.phase
    }

    /// The work that the caller does next.
    pub fn action(&self) -> (action: MonitorAction)
        ensures
            action == action_of(self@.phase),
            phase_in_book(self@.phase, self@.state.positions.len() as int),
    {
        proof {
            use_type_invariant(self);
        }
        action_for(self.phase)
    }

    /// Whether the tick is over.
    pub fn is_done(&self) -> (done: bool)
        ensures
            done == (self@.phase == TickPhase::Done),
    {
        self.phase == TickPhase::Done
    }

    /// Gives the snapshot back.
    pub fn into_state(self) -> (state: PersistedState)
        ensures
            state@ == self@.state,
    {
        self.state
    }

    /// Takes in how the last piece of work went, and says what that did and
    /// what comes next.
    pub fn advance(self, params: &RiskParams, event: MonitorEvent) -> (stepped: (
        MonitorTick,
        StepReport,
    ))
        ensures
            (stepped.0@, stepped.1@) == tick_step(self@, *params, event@),
            phase_in_book(stepped.0@.phase, stepped.0@.state.positions.len() as int),
    {
        proof {
            use_type_invariant(&self);
        }
        let ghost before = self@;
        let MonitorTick { state, phase } = self;
        let mut state = state;
        let mut closed: Option<ClosedTrade> = None;
        let mut risk_event = RiskEvent::NoChange;
        let next = match (phase, event) {
            (TickPhase::Liquidating { index }, MonitorEvent::SwapOk { signature }) => {
                let mut position = state.positions.remove(index);
                position.sell_tx = Some(signature);
                closed = Some(
                    ClosedTrade {
                        position,
                        reason: ExitReason::HardStop,
                        exit_price: None,
                        pnl_usdc: 0,
                    },
                );
                assert(state@.positions =~= before.state.positions.remove(index as int));
                MonitorTick::liquidating(state, index)
            },
            (TickPhase::Liquidating { index }, MonitorEvent::SwapFailed) => {
                MonitorTick::liquidating(state, index + 1)
            },
            (TickPhase::SavingLiquidation, MonitorEvent::Persisted) => {
                MonitorTick::pricing(state, 0)
            },
            (TickPhase::Pricing { index }, MonitorEvent::Price { price }) => {
                let reason = state.positions[index].observe_price(price);
                assert(state@.positions =~= before.state.positions.update(
                    index as int,
                    before.state.positions[index as int].observed(price as int),
                ));
                match reason {
                    Some(reason) => MonitorTick {
                        state,
                        phase: TickPhase::Exiting { index, reason, price },
                    },
                    None => MonitorTick::pricing(state, index + 1),
                }
            },
            (TickPhase::Pricing { index }, MonitorEvent::PriceFailed) => {
                MonitorTick::pricing(state, index + 1)
            },
            (TickPhase::Exiting { index, reason, price }, MonitorEvent::SwapOk { signature }) => {
                let mut position = state.positions.remove(index);
                let pnl_usdc = position.realized_at(price);
                position.sell_tx = Some(signature);
                risk_event = state.risk.register_realized_pnl(params, pnl_usdc);
                state.sync_mode_from_risk();
                closed = Some(ClosedTrade { position, reason, exit_price: Some(price), pnl_usdc });
                assert(state@.positions =~= before.state.positions.remove(index as int));
                MonitorTick::pricing(state, index)
            },
            (TickPhase::Exiting { index, reason, price }, MonitorEvent::SwapFailed) => {
                MonitorTick::pricing(state, index + 1)
            },
            (TickPhase::Saving, MonitorEvent::Persisted) => {
                MonitorTick { state, phase: TickPhase::Done }
            },
            (phase, _) => MonitorTick { state, phase },
        };
        proof {
            use_type_invariant(&next);
        }
        let report = StepReport { next: action_for(next.phase), closed, risk_event };
        (next, report)
    }
}

} // verus!
