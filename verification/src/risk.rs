//! The risk governor: trading mode as a function of realized profit and loss.
//!
//! The governor keeps the day's realized profit and loss and the running
//! balance, and degrades the trading mode when either crosses its limit.
//! Nothing here ever moves the mode back towards `Trading`.

use vstd::prelude::*;
use crate::fixed::{PPM, whole, clamp_i64, ceil_div, floor_div, saturate, scaled, in_millionths,
    lemma_floor_threshold};

verus! {

/// Limits supplied once at startup. Amounts are millionths of a USDC,
/// fractions are parts per million.
#[derive(Debug, Clone, Copy)]
pub struct RiskParams {
    pub capital_usdc: i64,
    pub position_size_usdc: i64,
    pub max_open_positions: usize,
    /// Daily loss guard, as a fraction of `capital_usdc`.
    pub max_daily_loss_pct: u32,
    /// Loss from entry at which a position is stopped out.
    pub stop_loss_pct: u32,
    /// Gain from entry at which profit is taken.
    pub take_profit_pct: u32,
    /// Gain from entry that arms the trailing stop.
    pub trailing_arm_pct: u32,
    /// Drawdown of the balance at which everything is liquidated.
    pub portfolio_hard_stop_pct: u32,
}

#[derive(Debug, Clone, Copy, PartialEq, Eq, Structural)]
pub enum BotMode {
    Trading,
    ReadOnly,
    EmergencyStop,
}

#[derive(Debug, Clone, Copy, PartialEq, Eq, Structural)]
pub enum ExitReason {
    StopLoss,
    TrailingStop,
    TakeProfit,
    DailyLossLimit,
    HardStop,
    Manual,
    Other,
}

/// Realized profit and loss since the start of the calendar day `day_key`.
#[derive(Debug, Clone)]
pub struct DailyPnl {
    /// `YYYY-MM-DD` in the configured time zone.
    pub day_key: String,
    pub realized_pnl_usdc: i64,
}

#[derive(Debug, Clone)]
pub struct RiskState {
    pub mode: BotMode,
    pub daily: DailyPnl,
    pub starting_balance_usdc: i64,
    pub current_balance_usdc: i64,
}

/// The edge, if any, that one registration crossed.
#[derive(Debug, Clone, Copy, PartialEq, Eq, Structural)]
pub enum RiskEvent {
    NoChange,
    /// The daily loss limit was reached.
    EnterReadOnly,
    /// The portfolio hard stop was reached.
    EnterEmergencyStop,
}

/// The governor's state as mathematics.
pub struct RiskView {
    pub mode: BotMode,
    pub day_key: Seq<char>,
    pub realized_pnl: int,
    pub starting_balance: int,
    pub current_balance: int,
}

impl View for RiskState {
    type V = RiskView;

    open spec fn view(&self) -> RiskView {
        RiskView {
            mode: self.mode,
            day_key: self.daily.day_key@,
            realized_pnl: self.daily.realized_pnl_usdc as int,
            starting_balance: self.starting_balance_usdc as int,
            current_balance: self.current_balance_usdc as int,
        }
    }
}

/// How bad a mode is: a larger rank forbids more.
pub open spec fn mode_rank(mode: BotMode) -> int {
    match mode {
        BotMode::Trading => 0,
        BotMode::ReadOnly => 1,
        BotMode::EmergencyStop => 2,
    }
}

/// `realized / capital <= -max_daily_loss_pct`, cleared of its divisions:
/// the day's realized profit and loss has reached the daily loss limit.
pub open spec fn daily_limit_hit(params: RiskParams, realized: int) -> bool {
    realized * whole() <= -(params.max_daily_loss_pct * params.capital_usdc)
}

/// `(current - starting) / starting <= -portfolio_hard_stop_pct`, cleared of
/// its division. A negative reference turns the comparison round, as dividing
/// by it would; against a reference of zero any negative balance is an
/// unbounded drawdown.
pub open spec fn hard_stop_hit(params: RiskParams, starting: int, current: int) -> bool {
    if starting > 0 {
        (current - starting) * whole() <= -(params.portfolio_hard_stop_pct * starting)
    } else if starting < 0 {
        (current - starting) * whole() >= -(params.portfolio_hard_stop_pct * starting)
    } else {
        current < 0
    }
}

/// The event that a change of mode from `before` to `after` amounts to.
pub open spec fn transition_event(before: BotMode, after: BotMode) -> RiskEvent {
    if after == BotMode::EmergencyStop && before != BotMode::EmergencyStop {
        RiskEvent::EnterEmergencyStop
    } else if after == BotMode::ReadOnly && before == BotMode::Trading {
        RiskEvent::EnterReadOnly
    } else {
        RiskEvent::NoChange
    }
}

impl RiskView {
    /// The state after the calendar day is found to be `day_key`.
    pub open spec fn rolled_over(self, day_key: Seq<char>) -> RiskView {
        if self.day_key == day_key {
            self
        } else {
            RiskView { day_key, realized_pnl: 0, ..self }
        }
    }

    /// The state after a realized profit or loss of `pnl` is booked. The
    /// guards look at the exact sums; what is kept of a sum beyond `i64` is
    /// the nearest `i64`.
    pub open spec fn registered(self, params: RiskParams, pnl: int) -> RiskView {
        let realized = self.realized_pnl + pnl;
        let current = self.current_balance + pnl;
        let guarded = if self.mode == BotMode::Trading && daily_limit_hit(params, realized) {
            BotMode::ReadOnly
        } else {
            self.mode
        };
        let mode = if hard_stop_hit(params, self.starting_balance, current) {
            BotMode::EmergencyStop
        } else {
            guarded
        };
        RiskView {
            mode,
            realized_pnl: clamp_i64(realized),
            current_balance: clamp_i64(current),
            ..self
        }
    }
}

impl RiskParams {
    /// The limits where nothing says otherwise: a capital of 200 USDC in
    /// positions of 5 USDC, three of them at most; a daily loss of 3% of the
    /// capital; a stop-loss of 10%, profit taken at 40%, the trailing stop
    /// armed at 15%; everything liquidated at a drawdown of 20%.
    pub fn defaults() -> (params: Self)
        ensures
            params.capital_usdc == 200_000_000,
            params.position_size_usdc == 5_000_000,
            params.max_open_positions == 3,
            params.max_daily_loss_pct == 30_000,
            params.stop_loss_pct == 100_000,
            params.take_profit_pct == 400_000,
            params.trailing_arm_pct == 150_000,
            params.portfolio_hard_stop_pct == 200_000,
    {
        RiskParams {
            capital_usdc: 200_000_000,
            position_size_usdc: 5_000_000,
            max_open_positions: 3,
            max_daily_loss_pct: 30_000,
            stop_loss_pct: 100_000,
            take_profit_pct: 400_000,
            trailing_arm_pct: 150_000,
            portfolio_hard_stop_pct: 200_000,
        }
    }

    /// The least loss that trips the daily guard: `max_daily_loss_pct` of the
    /// capital, rounded up to a whole millionth.
    pub open spec fn spec_daily_loss_limit(self) -> int {
        ceil_div(self.max_daily_loss_pct * self.capital_usdc, whole())
    }

    /// The daily loss limit as an amount. A day's realized profit and loss
    /// trips the guard exactly when it is at or below the negated limit.
    pub fn daily_loss_limit_usdc(&self) -> (limit: i128)
        ensures
            limit == self.spec_daily_loss_limit(),
            forall|realized: int| daily_limit_hit(*self, realized) <==> realized <= -limit,
    {
        let product = scaled(self.max_daily_loss_pct, self.capital_usdc);
        let limit = -floor_div(-product, PPM as i128);
        proof {
            lemma_limit_is_threshold(*self);
        }
        limit
    }
}

/// The daily guard compares against a whole number of millionths: the
/// rounded-up limit decides exactly as the exact product does.
pub proof fn lemma_limit_is_threshold(params: RiskParams)
    ensures
        forall|realized: int|
            daily_limit_hit(params, realized) <==> realized <= -params.spec_daily_loss_limit(),
{
    let product = params.max_daily_loss_pct * params.capital_usdc;
    assert forall|realized: int|
        daily_limit_hit(params, realized) <==> realized <= -params.spec_daily_loss_limit() by {
        lemma_floor_threshold(realized, -product, whole());
    }
}

/// Decides `daily_limit_hit` on a sum of two amounts.
fn daily_limit_reached_by(params: &RiskParams, realized: i128) -> (hit: bool)
    requires
        -0x1_0000_0000_0000_0000 <= realized <= 0x1_0000_0000_0000_0000,
    ensures
        hit == daily_limit_hit(*params, realized as int),
{
    let limit = scaled(params.max_daily_loss_pct, params.capital_usdc);
    in_millionths(realized) <= -limit
}

/// Decides `hard_stop_hit` on a sum of two amounts.
fn hard_stop_reached_by(params: &RiskParams, starting: i64, current: i128) -> (hit: bool)
    requires
        -0x1_0000_0000_0000_0000 <= current <= 0x1_0000_0000_0000_0000,
    ensures
        hit == hard_stop_hit(*params, starting as int, current as int),
{
    let change = in_millionths(current - starting as i128);
    let threshold = -scaled(params.portfolio_hard_stop_pct, starting);
    if starting > 0 {
        change <= threshold
    } else if starting < 0 {
        change >= threshold
    } else {
        current < 0
    }
}

/// Decides `daily_limit_hit` on machine integers.
pub fn daily_limit_reached(params: &RiskParams, realized: i64) -> (hit: bool)
    ensures
        hit == daily_limit_hit(*params, realized as int),
{
    daily_limit_reached_by(params, realized as i128)
}

/// Decides `hard_stop_hit` on machine integers.
pub fn hard_stop_reached(params: &RiskParams, starting: i64, current: i64) -> (hit: bool)
    ensures
        hit == hard_stop_hit(*params, starting as int, current as int),
{
    hard_stop_reached_by(params, starting, current as i128)
}

/// Computes `transition_event`.
pub fn event_between(before: BotMode, after: BotMode) -> (event: RiskEvent)
    ensures
        event == transition_event(before, after),
{
    if after == BotMode::EmergencyStop && before != BotMode::EmergencyStop {
        RiskEvent::EnterEmergencyStop
    } else if after == BotMode::ReadOnly && before == BotMode::Trading {
        RiskEvent::EnterReadOnly
    } else {
        RiskEvent::NoChange
    }
}

impl RiskState {
    /// A fresh state in `Trading`, with nothing realized and the balance at
    /// its starting value.
    pub fn new(day_key: String, starting_balance_usdc: i64) -> (state: Self)
        ensures
            state@ == (RiskView {
                mode: BotMode::Trading,
                day_key: day_key@,
                realized_pnl: 0,
                starting_balance: starting_balance_usdc as int,
                current_balance: starting_balance_usdc as int,
            }),
    {
        RiskState {
            mode: BotMode::Trading,
            daily: DailyPnl { day_key, realized_pnl_usdc: 0 },
            starting_balance_usdc,
            current_balance_usdc: starting_balance_usdc,
        }
    }

    /// Starts a new day's accounting when the day key has changed. The mode is
    /// left as it is: a breached limit does not clear at midnight.
    pub fn rollover_day_if_needed(&mut self, new_day_key: String)
        ensures
            final(self)@ == old(self)@.rolled_over(new_day_key@),
            final(self).mode == old(self).mode,
            old(self).daily.day_key@ != new_day_key@ ==> final(self).daily.realized_pnl_usdc == 0,
    {
        if self.daily.day_key != new_day_key {
            self.daily.day_key = new_day_key;
            self.daily.realized_pnl_usdc = 0;
        }
    }

    /// Books a realized profit or loss and degrades the mode where a limit is
    /// breached. The guards look at the exact sums, so a sum too low to be
    /// kept still trips them. The event is the edge crossed by this call, so
    /// a limit that stays breached is reported once.
    pub fn register_realized_pnl(&mut self, params: &RiskParams, pnl_usdc: i64) -> (event: RiskEvent)
        ensures
            final(self)@ == old(self)@.registered(*params, pnl_usdc as int),
            event == transition_event(old(self).mode, final(self).mode),
            mode_rank(final(self).mode) >= mode_rank(old(self).mode),
            daily_limit_hit(*params, old(self).daily.realized_pnl_usdc + pnl_usdc)
                ==> final(self).mode != BotMode::Trading,
            hard_stop_hit(
                *params,
                old(self).starting_balance_usdc as int,
                old(self).current_balance_usdc + pnl_usdc,
            ) ==> final(self).mode == BotMode::EmergencyStop,
    {
        let prev_mode = self.mode;
        let realized: i128 = self.daily.realized_pnl_usdc as i128 + pnl_usdc as i128;
        let current: i128 = self.current_balance_usdc as i128 + pnl_usdc as i128;
        self.daily.realized_pnl_usdc = saturate(realized);
        self.current_balance_usdc = saturate(current);

        if self.mode == BotMode::Trading && daily_limit_reached_by(params, realized) {
            self.mode = BotMode::ReadOnly;
        }
        if hard_stop_reached_by(params, self.starting_balance_usdc, current) {
            self.mode = BotMode::EmergencyStop;
        }
        event_between(prev_mode, self.mode)
    }

    /// Whether a new position may be opened beside `open_positions` others.
    pub fn can_open_new_position(&self, params: &RiskParams, open_positions: usize) -> (allowed: bool)
        ensures
            allowed == (self.mode == BotMode::Trading && open_positions < params.max_open_positions),
            self.mode != BotMode::Trading ==> !allowed,
    {
        self.mode == BotMode::Trading && open_positions < params.max_open_positions
    }
}

} // verus!
