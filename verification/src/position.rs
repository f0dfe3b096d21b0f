//! One open position and the rules that close it: stop-loss, trailing stop
//! and take-profit.
//!
//! Prices are whole ticks. A rule of the form `price <= level`, where the
//! level is a fraction of another price, is decided on the exact products
//! `price * PPM` and `basis * (PPM -+ fraction)`.

use vstd::prelude::*;
use crate::fixed::{PPM, whole, clamp_i64, ceil_div, floor_div, in_millionths, saturate,
    lemma_floor_threshold, lemma_ceil_threshold};
use crate::risk::ExitReason;

verus! {

#[derive(Debug, Clone)]
pub struct Position {
    pub id: String,
    pub base_mint: String,
    pub quote_mint: String,
    /// Notional size, in millionths of a USDC.
    pub size_usdc: i64,
    /// Price of the base in the quote at entry, in ticks.
    pub entry_price: u64,
    /// Highest price seen since entry, in ticks.
    pub peak_price: u64,
    /// The exit rules as they stood at entry, in parts per million.
    pub stop_loss_pct: u32,
    pub take_profit_pct: u32,
    pub trailing_arm_pct: u32,
    pub trailing_armed: bool,
    pub buy_tx: Option<String>,
    pub sell_tx: Option<String>,
}

/// A position as mathematics.
pub struct PositionView {
    pub id: Seq<char>,
    pub base_mint: Seq<char>,
    pub quote_mint: Seq<char>,
    pub size: int,
    pub entry_price: int,
    pub peak_price: int,
    pub stop_loss_pct: int,
    pub take_profit_pct: int,
    pub trailing_arm_pct: int,
    pub trailing_armed: bool,
    pub buy_tx: Option<Seq<char>>,
    pub sell_tx: Option<Seq<char>>,
}

/// The text of an optional transaction reference.
pub open spec fn tx_view(tx: Option<String>) -> Option<Seq<char>> {
    match tx {
        Some(s) => Some(s@),
        None => None,
    }
}

impl View for Position {
    type V = PositionView;

    open spec fn view(&self) -> PositionView {
        PositionView {
            id: self.id@,
            base_mint: self.base_mint@,
            quote_mint: self.quote_mint@,
            size: self.size_usdc as int,
            entry_price: self.entry_price as int,
            peak_price: self.peak_price as int,
            stop_loss_pct: self.stop_loss_pct as int,
            take_profit_pct: self.take_profit_pct as int,
            trailing_arm_pct: self.trailing_arm_pct as int,
            trailing_armed: self.trailing_armed,
            buy_tx: tx_view(self.buy_tx),
            sell_tx: tx_view(self.sell_tx),
        }
    }
}

/// `(price - entry) / entry >= fraction`, cleared of its division: the gain
/// from `entry` to `price` is at least `fraction`. From an entry of zero any
/// positive price is an unbounded gain.
pub open spec fn gain_reaches(entry: int, price: int, fraction: int) -> bool {
    if entry > 0 {
        (price - entry) * whole() >= fraction * entry
    } else {
        price > 0
    }
}

/// The profit or loss realized by leaving at `price` a position of `size`
/// entered at `entry`: `size * (price - entry) / entry`, rounded down and kept
/// within `i64`. A position entered at a price of zero has no return to speak
/// of and realizes nothing.
pub open spec fn realized_pnl(size: int, entry: int, price: int) -> int {
    if entry > 0 {
        clamp_i64((size * (price - entry)) / entry)
    } else {
        0
    }
}

impl PositionView {
    /// The peak is never below the entry.
    pub open spec fn is_valid(self) -> bool {
        self.peak_price >= self.entry_price
    }

    /// The position after `price` is seen: the peak follows the price up, and
    /// a gain of at least the arming fraction arms the trailing stop for good.
    pub open spec fn observed(self, price: int) -> PositionView {
        PositionView {
            peak_price: if price > self.peak_price { price } else { self.peak_price },
            trailing_armed: self.trailing_armed || gain_reaches(
                self.entry_price,
                price,
                self.trailing_arm_pct,
            ),
            ..self
        }
    }

    /// The price that the stop trails: the peak once armed, the entry before.
    pub open spec fn stop_basis(self) -> int {
        if self.trailing_armed {
            self.peak_price
        } else {
            self.entry_price
        }
    }

    /// `price <= stop_basis * (1 - stop_loss_pct)`, in exact products.
    pub open spec fn stop_hit(self, price: int) -> bool {
        price * whole() <= self.stop_basis() * (whole() - self.stop_loss_pct)
    }

    /// `price >= entry_price * (1 + take_profit_pct)`, in exact products.
    pub open spec fn take_profit_hit(self, price: int) -> bool {
        price * whole() >= self.entry_price * (whole() + self.take_profit_pct)
    }

    /// The highest whole price at which the stop is hit.
    pub open spec fn stop_price(self) -> int {
        (self.stop_basis() * (whole() - self.stop_loss_pct)) / whole()
    }

    /// The lowest whole price at which profit is taken.
    pub open spec fn take_profit_price(self) -> int {
        ceil_div(self.entry_price * (whole() + self.take_profit_pct), whole())
    }

    /// Why a position in this state leaves at `price`, if it does. The stop is
    /// looked at first, so at most one reason is given.
    pub open spec fn exit_reason(self, price: int) -> Option<ExitReason> {
        if self.stop_hit(price) {
            Some(
                if self.trailing_armed {
                    ExitReason::TrailingStop
                } else {
                    ExitReason::StopLoss
                },
            )
        } else if self.take_profit_hit(price) {
            Some(ExitReason::TakeProfit)
        } else {
            None
        }
    }
}

/// The product of a price and a factor of at most 34 bits.
fn price_times(price: u64, factor: i64) -> (product: i128)
    requires
        -0x2_0000_0000 <= factor <= 0x2_0000_0000,
    ensures
        product == price * factor,
        -0x2_0000_0000_0000_0000_0000_0000 <= product <= 0x2_0000_0000_0000_0000_0000_0000,
{
    assert(-0x2_0000_0000_0000_0000_0000_0000 <= price * factor
        <= 0x2_0000_0000_0000_0000_0000_0000) by (nonlinear_arith)
        requires
            0 <= price <= 0xffff_ffff_ffff_ffff,
            -0x2_0000_0000 <= factor <= 0x2_0000_0000,
    ;
    (price as i128) * (factor as i128)
}

/// Decides `gain_reaches` on machine integers.
pub fn gain_reached(entry: u64, price: u64, fraction: u32) -> (reached: bool)
    ensures
        reached == gain_reaches(entry as int, price as int, fraction as int),
{
    if entry > 0 {
        let change = in_millionths(price as i128 - entry as i128);
        let needed = price_times(entry, fraction as i64);
        assert(needed == fraction * entry) by (nonlinear_arith)
            requires
                needed == entry * (fraction as i64),
        ;
        change >= needed
    } else {
        price > 0
    }
}

/// Computes `realized_pnl` on machine integers.
pub fn realized_pnl_usdc(size_usdc: i64, entry_price: u64, exit_price: u64) -> (pnl: i64)
    ensures
        pnl == realized_pnl(size_usdc as int, entry_price as int, exit_price as int),
{
    if entry_price > 0 {
        let change: i128 = exit_price as i128 - entry_price as i128;
        assert(-0x7fff_ffff_ffff_ffff_8000_0000_0000_0000 <= size_usdc * change
            <= 0x7fff_ffff_ffff_ffff_8000_0000_0000_0000) by (nonlinear_arith)
            requires
                -0x8000_0000_0000_0000 <= size_usdc <= 0x7fff_ffff_ffff_ffff,
                -0xffff_ffff_ffff_ffff <= change <= 0xffff_ffff_ffff_ffff,
        ;
        let product: i128 = (size_usdc as i128) * change;
        saturate(floor_div(product, entry_price as i128))
    } else {
        0
    }
}

impl Position {
    /// Whether the stop is hit at `price`.
    pub fn stop_reached(&self, price: u64) -> (hit: bool)
        ensures
            hit == self@.stop_hit(price as int),
    {
        let basis = if self.trailing_armed {
            self.peak_price
        } else {
            self.entry_price
        };
        let scale: i64 = PPM as i64;
        assert(scale == 1_000_000);
        let level = price_times(basis, scale - self.stop_loss_pct as i64);
        in_millionths(price as i128) <= level
    }

    /// Whether profit is taken at `price`.
    pub fn take_profit_reached(&self, price: u64) -> (hit: bool)
        ensures
            hit == self@.take_profit_hit(price as int),
    {
        let scale: i64 = PPM as i64;
        assert(scale == 1_000_000);
        let level = price_times(self.entry_price, scale + self.take_profit_pct as i64);
        in_millionths(price as i128) >= level
    }

    /// The highest whole price at which the position is stopped out. It is
    /// negative where the stop-loss fraction exceeds one whole.
    pub fn stop_price(&self) -> (level: i128)
        ensures
            level == self@.stop_price(),
            forall|price: int| self@.stop_hit(price) <==> price <= level,
    {
        let basis = if self.trailing_armed {
            self.peak_price
        } else {
            self.entry_price
        };
        let scale: i64 = PPM as i64;
        assert(scale == 1_000_000);
        let product = price_times(basis, scale - self.stop_loss_pct as i64);
        proof {
            lemma_stop_price_is_threshold(self@);
        }
        floor_div(product, scale as i128)
    }

    /// The lowest whole price at which profit is taken.
    pub fn take_profit_price(&self) -> (level: i128)
        ensures
            level == self@.take_profit_price(),
            forall|price: int| self@.take_profit_hit(price) <==> price >= level,
    {
        let scale: i64 = PPM as i64;
        assert(scale == 1_000_000);
        let product = price_times(self.entry_price, scale + self.take_profit_pct as i64);
        proof {
            lemma_take_profit_price_is_threshold(self@);
        }
        -floor_div(-product, scale as i128)
    }

    /// Takes in the current price: raises the peak, arms the trailing stop
    /// where the gain allows it, and says why the position must be closed at
    /// this price, if it must.
    pub fn observe_price(&mut self, price: u64) -> (reason: Option<ExitReason>)
        ensures
            final(self)@ == old(self)@.observed(price as int),
            reason == final(self)@.exit_reason(price as int),
            old(self).trailing_armed ==> final(self).trailing_armed,
            final(self).peak_price >= old(self).peak_price,
            final(self).peak_price >= price,
            old(self)@.is_valid() ==> final(self)@.is_valid(),
    {
        if price > self.peak_price {
            self.peak_price = price;
        }
        if !self.trailing_armed && gain_reached(self.entry_price, price, self.trailing_arm_pct) {
            self.trailing_armed = true;
        }
        if self.stop_reached(price) {
            if self.trailing_armed {
                Some(ExitReason::TrailingStop)
            } else {
                Some(ExitReason::StopLoss)
            }
        } else if self.take_profit_reached(price) {
            Some(ExitReason::TakeProfit)
        } else {
            None
        }
    }

    /// The profit or loss realized by leaving the position at `exit_price`.
    pub fn realized_at(&self, exit_price: u64) -> (pnl: i64)
        ensures
            pnl == realized_pnl(self.size_usdc as int, self.entry_price as int, exit_price as int),
    {
        realized_pnl_usdc(self.size_usdc, self.entry_price, exit_price)
    }
}

/// The stop price is a threshold: the stop is hit at exactly the whole prices
/// at or below it.
pub proof fn lemma_stop_price_is_threshold(position: PositionView)
    ensures
        forall|price: int| position.stop_hit(price) <==> price <= position.stop_price(),
{
    let product = position.stop_basis() * (whole() - position.stop_loss_pct);
    assert forall|price: int| position.stop_hit(price) <==> price <= position.stop_price() by {
        lemma_floor_threshold(price, product, whole());
    }
}

/// The take-profit price is a threshold: profit is taken at exactly the whole
/// prices at or above it.
pub proof fn lemma_take_profit_price_is_threshold(position: PositionView)
    ensures
        forall|price: int|
            position.take_profit_hit(price) <==> price >= position.take_profit_price(),
{
    let product = position.entry_price * (whole() + position.take_profit_pct);
    assert forall|price: int|
        position.take_profit_hit(price) <==> price >= position.take_profit_price() by {
        lemma_ceil_threshold(price, product, whole());
    }
}

/// Seeing a price never disarms the trailing stop and never lowers the peak,
/// whatever prices were seen before.
pub proof fn lemma_observation_is_monotonic(position: PositionView, price: int)
    ensures
        position.trailing_armed ==> position.observed(price).trailing_armed,
        position.observed(price).peak_price >= position.peak_price,
        position.observed(price).peak_price >= price,
        position.observed(price).entry_price == position.entry_price,
        position.is_valid() ==> position.observed(price).is_valid(),
{
}

/// While the stop-loss fraction is at most one whole, the armed stop is never
/// below the stop that held at entry: the peak it trails is never below the
/// entry price.
pub proof fn lemma_armed_stop_not_below_entry_stop(position: PositionView)
    requires
        position.is_valid(),
        position.trailing_armed,
        0 <= position.stop_loss_pct <= whole(),
    ensures
        position.stop_basis() * (whole() - position.stop_loss_pct) >= position.entry_price * (whole()
            - position.stop_loss_pct),
        position.stop_price() >= (PositionView { trailing_armed: false, ..position }).stop_price(),
        forall|price: int|
            (PositionView { trailing_armed: false, ..position }).stop_hit(price)
                ==> position.stop_hit(price),
{
    let factor = whole() - position.stop_loss_pct;
    let peak = position.peak_price;
    let entry = position.entry_price;
    assert(peak * factor >= entry * factor) by (nonlinear_arith)
        requires
            peak >= entry,
            factor >= 0,
    ;
    let unarmed = PositionView { trailing_armed: false, ..position };
    lemma_stop_price_is_threshold(position);
    lemma_stop_price_is_threshold(unarmed);
    assert(unarmed.stop_hit(unarmed.stop_price()));
    assert(position.stop_hit(unarmed.stop_price()));
}

} // verus!
