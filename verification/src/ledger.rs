//! Histories of the risk governor: what holds after any sequence of
//! registrations and day rollovers.

use vstd::prelude::*;
use crate::fixed::whole;
use crate::risk::{BotMode, RiskParams, RiskView, daily_limit_hit, hard_stop_hit, mode_rank};

verus! {

/// One operation on the governor.
pub enum RiskOp {
    /// A realized profit or loss is booked.
    Register { pnl: i64 },
    /// The calendar day is found to be `day_key`.
    Rollover { day_key: Seq<char> },
}

/// The state after one operation.
pub open spec fn apply(state: RiskView, params: RiskParams, op: RiskOp) -> RiskView {
    match op {
        RiskOp::Register { pnl } => state.registered(params, pnl as int),
        RiskOp::Rollover { day_key } => state.rolled_over(day_key),
    }
}

/// The state after a sequence of operations, oldest first.
pub open spec fn replay(state: RiskView, params: RiskParams, ops: Seq<RiskOp>) -> RiskView
    decreases ops.len(),
{
    if ops.len() == 0 {
        state
    } else {
        apply(replay(state, params, ops.drop_last()), params, ops.last())
    }
}

/// The sum of a sequence of amounts.
pub open spec fn total(pnls: Seq<i64>) -> int
    decreases pnls.len(),
{
    if pnls.len() == 0 {
        0
    } else {
        total(pnls.drop_last()) + pnls.last()
    }
}

/// The operations that book each of `pnls` in turn.
pub open spec fn registrations(pnls: Seq<i64>) -> Seq<RiskOp> {
    Seq::new(pnls.len(), |i: int| RiskOp::Register { pnl: pnls[i] })
}

/// Every partial sum of `pnls`, added to `base`, is an `i64`.
pub open spec fn sums_fit(base: int, pnls: Seq<i64>) -> bool {
    forall|n: int| 0 <= n <= pnls.len() ==> i64::MIN <= base + #[trigger] total(pnls.take(n)) <= i64::MAX
}

/// No operation improves the mode, so no history does.
pub proof fn lemma_mode_never_improves(state: RiskView, params: RiskParams, ops: Seq<RiskOp>)
    ensures
        mode_rank(replay(state, params, ops).mode) >= mode_rank(state.mode),
    decreases ops.len(),
{
    if ops.len() > 0 {
        lemma_mode_never_improves(state, params, ops.drop_last());
    }
}

/// A registration that brings the day's realized profit and loss to or below
/// the daily limit leaves the mode at `ReadOnly` or worse, whether or not the
/// sum can be kept, and whatever is registered afterwards, on that day or a
/// later one, trading is not resumed.
pub proof fn lemma_daily_limit_latches(
    state: RiskView,
    params: RiskParams,
    pnl: i64,
    later: Seq<RiskOp>,
)
    requires
        daily_limit_hit(params, state.realized_pnl + pnl),
    ensures
        state.registered(params, pnl as int).mode != BotMode::Trading,
        state.mode == BotMode::Trading && !hard_stop_hit(
            params,
            state.starting_balance,
            state.current_balance + pnl,
        ) ==> state.registered(params, pnl as int).mode == BotMode::ReadOnly,
        replay(state.registered(params, pnl as int), params, later).mode != BotMode::Trading,
{
    lemma_mode_never_improves(state.registered(params, pnl as int), params, later);
}

/// A registration that brings the drawdown to or beyond the hard stop leaves
/// the mode at `EmergencyStop`, whatever the mode was and whether or not the
/// balance can be kept, and no later history leaves it.
pub proof fn lemma_hard_stop_latches(
    state: RiskView,
    params: RiskParams,
    pnl: i64,
    later: Seq<RiskOp>,
)
    requires
        hard_stop_hit(params, state.starting_balance, state.current_balance + pnl),
    ensures
        state.registered(params, pnl as int).mode == BotMode::EmergencyStop,
        replay(state.registered(params, pnl as int), params, later).mode == BotMode::EmergencyStop,
{
    lemma_mode_never_improves(state.registered(params, pnl as int), params, later);
}

/// Once in `EmergencyStop`, always in `EmergencyStop`.
pub proof fn lemma_emergency_stop_is_final(state: RiskView, params: RiskParams, ops: Seq<RiskOp>)
    requires
        state.mode == BotMode::EmergencyStop,
    ensures
        replay(state, params, ops).mode == BotMode::EmergencyStop,
{
    lemma_mode_never_improves(state, params, ops);
}

/// A day rollover never changes the mode, and a change of day zeroes the
/// day's realized profit and loss.
pub proof fn lemma_rollover_keeps_mode(state: RiskView, day_key: Seq<char>)
    ensures
        state.rolled_over(day_key).mode == state.mode,
        state.rolled_over(day_key).starting_balance == state.starting_balance,
        state.rolled_over(day_key).current_balance == state.current_balance,
        state.rolled_over(day_key).day_key == day_key,
        state.day_key != day_key ==> state.rolled_over(day_key).realized_pnl == 0,
        state.day_key == day_key ==> state.rolled_over(day_key) == state,
{
}

/// Where every partial sum fits, so does every partial sum of all but the
/// last amount, and so does the whole sum.
pub proof fn lemma_prefix_sums_fit(base: int, pnls: Seq<i64>)
    requires
        pnls.len() > 0,
        sums_fit(base, pnls),
    ensures
        sums_fit(base, pnls.drop_last()),
        i64::MIN <= base + total(pnls) <= i64::MAX,
{
    let init = pnls.drop_last();
    assert forall|n: int| 0 <= n <= init.len() implies i64::MIN <= base + #[trigger] total(
        init.take(n),
    ) <= i64::MAX by {
        assert(init.take(n) =~= pnls.take(n));
        assert(i64::MIN <= base + total(pnls.take(n)) <= i64::MAX);
    }
    assert(pnls.take(pnls.len() as int) =~= pnls);
    assert(i64::MIN <= base + total(pnls.take(pnls.len() as int)) <= i64::MAX);
}

/// The last step of a run of registrations is a registration.
pub proof fn lemma_replay_last_registration(state: RiskView, params: RiskParams, pnls: Seq<i64>)
    requires
        pnls.len() > 0,
    ensures
        replay(state, params, registrations(pnls)) == replay(
            state,
            params,
            registrations(pnls.drop_last()),
        ).registered(params, pnls.last() as int),
{
    assert(registrations(pnls).drop_last() =~= registrations(pnls.drop_last()));
    assert(registrations(pnls).last() == RiskOp::Register { pnl: pnls.last() });
}

/// The guards look at running totals: while no total leaves the range of
/// `i64`, a run of registrations adds their sum to the day's realized profit
/// and loss and to the balance, and leaves the starting balance and the day
/// alone.
pub proof fn lemma_registrations_accumulate(state: RiskView, params: RiskParams, pnls: Seq<i64>)
    requires
        sums_fit(state.realized_pnl, pnls),
        sums_fit(state.current_balance, pnls),
    ensures
        replay(state, params, registrations(pnls)).realized_pnl == state.realized_pnl + total(pnls),
        replay(state, params, registrations(pnls)).current_balance == state.current_balance + total(
            pnls,
        ),
        replay(state, params, registrations(pnls)).starting_balance == state.starting_balance,
        replay(state, params, registrations(pnls)).day_key == state.day_key,
    decreases pnls.len(),
{
    if pnls.len() > 0 {
        lemma_prefix_sums_fit(state.realized_pnl, pnls);
        lemma_prefix_sums_fit(state.current_balance, pnls);
        lemma_registrations_accumulate(state, params, pnls.drop_last());
        lemma_replay_last_registration(state, params, pnls);
    } else {
        assert(registrations(pnls) =~= Seq::<RiskOp>::empty());
        assert(pnls.take(0) =~= pnls);
    }
}

/// The daily loss limit is an amount that can be kept: at most `2^63`
/// millionths.
pub open spec fn daily_limit_fits(params: RiskParams) -> bool {
    params.max_daily_loss_pct * params.capital_usdc <= 0x8000_0000_0000_0000 * whole()
}

/// The balance at which the hard stop is met can be kept: the starting
/// balance is positive and the stop lies at or above the lowest `i64`.
pub open spec fn hard_stop_fits(params: RiskParams, starting: int) -> bool {
    &&& starting > 0
    &&& params.portfolio_hard_stop_pct * starting <= (starting + 0x8000_0000_0000_0000) * whole()
}

/// A run of small losses trips the daily guard as one large loss would: once
/// the sum of what was registered brings the day's realized profit and loss
/// to or below the daily limit, trading has stopped, whether or not every
/// sum on the way could be kept.
pub proof fn lemma_daily_guard_misses_no_loss(state: RiskView, params: RiskParams, pnls: Seq<i64>)
    requires
        daily_limit_fits(params),
    ensures
        replay(state, params, registrations(pnls)).mode != BotMode::Trading || replay(
            state,
            params,
            registrations(pnls),
        ).realized_pnl <= state.realized_pnl + total(pnls),
        pnls.len() > 0 && daily_limit_hit(params, state.realized_pnl + total(pnls)) ==> replay(
            state,
            params,
            registrations(pnls),
        ).mode != BotMode::Trading,
    decreases pnls.len(),
{
    if pnls.len() > 0 {
        lemma_daily_guard_misses_no_loss(state, params, pnls.drop_last());
        lemma_replay_last_registration(state, params, pnls);
    } else {
        assert(registrations(pnls) =~= Seq::<RiskOp>::empty());
    }
}

/// A run of small losses trips the hard stop as one large loss would: once
/// the sum of what was registered brings the balance to or beyond the hard
/// stop, the mode is `EmergencyStop`, whatever it was and whether or not
/// every balance on the way could be kept.
pub proof fn lemma_hard_stop_misses_no_loss(state: RiskView, params: RiskParams, pnls: Seq<i64>)
    requires
        hard_stop_fits(params, state.starting_balance),
    ensures
        replay(state, params, registrations(pnls)).starting_balance == state.starting_balance,
        replay(state, params, registrations(pnls)).mode == BotMode::EmergencyStop || replay(
            state,
            params,
            registrations(pnls),
        ).current_balance <= state.current_balance + total(pnls),
        pnls.len() > 0 && hard_stop_hit(
            params,
            state.starting_balance,
            state.current_balance + total(pnls),
        ) ==> replay(state, params, registrations(pnls)).mode == BotMode::EmergencyStop,
    decreases pnls.len(),
{
    if pnls.len() > 0 {
        lemma_hard_stop_misses_no_loss(state, params, pnls.drop_last());
        lemma_replay_last_registration(state, params, pnls);
    } else {
        assert(registrations(pnls) =~= Seq::<RiskOp>::empty());
    }
}

} // verus!
