use risk_core::monitor::{MonitorAction, MonitorEvent, MonitorTick, TickPhase};
use risk_core::position::Position;
use risk_core::risk::{BotMode, ExitReason, RiskEvent, RiskParams, RiskState};
use risk_core::state::PersistedState;

fn params() -> RiskParams {
    RiskParams {
        capital_usdc: 200_000_000,
        position_size_usdc: 5_000_000,
        max_open_positions: 5,
        max_daily_loss_pct: 30_000,
        stop_loss_pct: 100_000,
        take_profit_pct: 400_000,
        trailing_arm_pct: 150_000,
        portfolio_hard_stop_pct: 200_000,
    }
}

fn position(id: &str, size: i64) -> Position {
    Position {
        id: id.to_string(),
        base_mint: format!("{}-base", id),
        quote_mint: "QUOTE".to_string(),
        size_usdc: size,
        entry_price: 1_000_000,
        peak_price: 1_000_000,
        stop_loss_pct: 100_000,
        take_profit_pct: 400_000,
        trailing_arm_pct: 150_000,
        trailing_armed: false,
        buy_tx: Some(format!("{}-buy", id)),
        sell_tx: None,
    }
}

fn snapshot(ids: &[&str]) -> PersistedState {
    let mut state = PersistedState::new(RiskState::new("2024-03-07".to_string(), 200_000_000));
    for id in ids {
        state.positions.push(position(id, 10_000_000));
    }
    state
}

fn ids(tick: &MonitorTick) -> Vec<String> {
    tick.state().positions.iter().map(|p| p.id.clone()).collect()
}

fn swap_ok(signature: &str) -> MonitorEvent {
    MonitorEvent::SwapOk { signature: signature.to_string() }
}

#[test]
fn a_tick_on_an_empty_book_only_saves() {
    let tick = MonitorTick::begin(snapshot(&[]), None);
    assert_eq!(tick.action(), MonitorAction::Persist);
    assert_eq!(tick.phase(), TickPhase::Saving);
    let (tick, report) = tick.advance(&params(), MonitorEvent::Persisted);
    assert_eq!(report.next, MonitorAction::Finish);
    assert!(tick.is_done());
}

#[test]
fn a_tick_rolls_the_day_over_at_its_start() {
    let mut state = snapshot(&["a"]);
    state.risk.daily.realized_pnl_usdc = -1_000_000;
    let tick = MonitorTick::begin(state, Some("2024-03-08".to_string()));
    assert_eq!(tick.state().risk.daily.day_key, "2024-03-08");
    assert_eq!(tick.state().risk.daily.realized_pnl_usdc, 0);
    let kept = MonitorTick::begin(snapshot(&["a"]), None);
    assert_eq!(kept.state().risk.daily.day_key, "2024-03-07");
}

#[test]
fn a_quiet_price_moves_on_to_the_next_position() {
    let p = params();
    let tick = MonitorTick::begin(snapshot(&["a", "b"]), None);
    assert_eq!(tick.action(), MonitorAction::FetchPrice { index: 0 });
    let (tick, report) = tick.advance(&p, MonitorEvent::Price { price: 1_050_000 });
    assert_eq!(report.next, MonitorAction::FetchPrice { index: 1 });
    assert!(report.closed.is_none());
    assert_eq!(report.risk_event, RiskEvent::NoChange);
    assert_eq!(tick.state().positions[0].peak_price, 1_050_000);
    let (tick, report) = tick.advance(&p, MonitorEvent::Price { price: 990_000 });
    assert_eq!(report.next, MonitorAction::Persist);
    assert_eq!(tick.state().positions[1].peak_price, 1_000_000);
    let (tick, report) = tick.advance(&p, MonitorEvent::Persisted);
    assert_eq!(report.next, MonitorAction::Finish);
    assert_eq!(ids(&tick), vec!["a".to_string(), "b".to_string()]);
}

#[test]
fn a_take_profit_exit_books_the_gain_and_removes_the_position() {
    let p = params();
    let tick = MonitorTick::begin(snapshot(&["a", "b"]), None);
    let (tick, report) = tick.advance(&p, MonitorEvent::Price { price: 1_400_000 });
    assert_eq!(report.next, MonitorAction::Exit { index: 0, reason: ExitReason::TakeProfit });
    assert_eq!(
        tick.phase(),
        TickPhase::Exiting { index: 0, reason: ExitReason::TakeProfit, price: 1_400_000 }
    );
    assert_eq!(tick.state().positions.len(), 2);
    let (tick, report) = tick.advance(&p, swap_ok("sig-1"));
    let closed = report.closed.expect("the position was closed");
    assert_eq!(closed.position.id, "a");
    assert_eq!(closed.position.sell_tx, Some("sig-1".to_string()));
    assert_eq!(closed.position.buy_tx, Some("a-buy".to_string()));
    assert_eq!(closed.reason, ExitReason::TakeProfit);
    assert_eq!(closed.exit_price, Some(1_400_000));
    assert_eq!(closed.pnl_usdc, 4_000_000);
    assert_eq!(report.risk_event, RiskEvent::NoChange);
    // The position that followed is now first and is looked at next.
    assert_eq!(report.next, MonitorAction::FetchPrice { index: 0 });
    assert_eq!(ids(&tick), vec!["b".to_string()]);
    assert_eq!(tick.state().risk.current_balance_usdc, 204_000_000);
    assert_eq!(tick.state().risk.daily.realized_pnl_usdc, 4_000_000);
}

#[test]
fn a_failed_price_lookup_leaves_the_position_untouched() {
    let p = params();
    let tick = MonitorTick::begin(snapshot(&["a", "b"]), None);
    let (tick, report) = tick.advance(&p, MonitorEvent::PriceFailed);
    assert_eq!(report.next, MonitorAction::FetchPrice { index: 1 });
    assert!(report.closed.is_none());
    assert_eq!(tick.state().positions[0].peak_price, 1_000_000);
    assert!(!tick.state().positions[0].trailing_armed);
    assert_eq!(tick.state().positions.len(), 2);
    assert_eq!(tick.state().risk.current_balance_usdc, 200_000_000);
}

#[test]
fn a_failed_exit_leaves_the_position_open_for_the_next_tick() {
    let p = params();
    let tick = MonitorTick::begin(snapshot(&["a", "b"]), None);
    let (tick, _) = tick.advance(&p, MonitorEvent::Price { price: 900_000 });
    assert_eq!(tick.action(), MonitorAction::Exit { index: 0, reason: ExitReason::StopLoss });
    let (tick, report) = tick.advance(&p, MonitorEvent::SwapFailed);
    assert_eq!(report.next, MonitorAction::FetchPrice { index: 1 });
    assert!(report.closed.is_none());
    assert_eq!(report.risk_event, RiskEvent::NoChange);
    assert_eq!(ids(&tick), vec!["a".to_string(), "b".to_string()]);
    assert_eq!(tick.state().positions[0].sell_tx, None);
    assert_eq!(tick.state().risk.current_balance_usdc, 200_000_000);
    // The next tick finds the same position and asks again.
    let (tick, _) = tick.advance(&p, MonitorEvent::PriceFailed);
    let (tick, _) = tick.advance(&p, MonitorEvent::Persisted);
    let again = MonitorTick::begin(tick.into_state(), None);
    let (again, report) = again.advance(&p, MonitorEvent::Price { price: 900_000 });
    assert_eq!(report.next, MonitorAction::Exit { index: 0, reason: ExitReason::StopLoss });
    assert_eq!(again.state().positions.len(), 2);
}

#[test]
fn an_exit_that_reaches_the_daily_limit_reports_the_edge_and_syncs_the_mode() {
    let p = params();
    let mut state = snapshot(&[]);
    state.positions.push(position("big", 60_000_000));
    state.positions.push(position("b", 10_000_000));
    let tick = MonitorTick::begin(state, None);
    let (tick, _) = tick.advance(&p, MonitorEvent::Price { price: 900_000 });
    let (tick, report) = tick.advance(&p, swap_ok("sig"));
    assert_eq!(report.closed.as_ref().unwrap().pnl_usdc, -6_000_000);
    assert_eq!(report.closed.as_ref().unwrap().reason, ExitReason::StopLoss);
    assert_eq!(report.risk_event, RiskEvent::EnterReadOnly);
    assert_eq!(tick.state().risk.mode, BotMode::ReadOnly);
    assert_eq!(tick.state().mode, BotMode::ReadOnly);
    // Exits go on in read-only.
    assert_eq!(report.next, MonitorAction::FetchPrice { index: 0 });
    let (tick, report) = tick.advance(&p, MonitorEvent::Price { price: 1_400_000 });
    assert_eq!(report.next, MonitorAction::Exit { index: 0, reason: ExitReason::TakeProfit });
    let (tick, report) = tick.advance(&p, swap_ok("sig-2"));
    assert_eq!(report.risk_event, RiskEvent::NoChange);
    assert_eq!(tick.state().risk.mode, BotMode::ReadOnly);
    assert!(tick.state().positions.is_empty());
}

#[test]
fn an_exit_that_reaches_the_hard_stop_is_liquidated_at_the_next_tick() {
    let p = params();
    let mut state = snapshot(&[]);
    state.positions.push(position("huge", 450_000_000));
    state.positions.push(position("b", 10_000_000));
    let tick = MonitorTick::begin(state, None);
    let (tick, _) = tick.advance(&p, MonitorEvent::Price { price: 900_000 });
    let (tick, report) = tick.advance(&p, swap_ok("sig"));
    assert_eq!(report.risk_event, RiskEvent::EnterEmergencyStop);
    assert_eq!(tick.state().mode, BotMode::EmergencyStop);
    // This tick goes on with the rules; liquidation is the next tick's first business.
    assert_eq!(report.next, MonitorAction::FetchPrice { index: 0 });
    let (tick, _) = tick.advance(&p, MonitorEvent::Price { price: 1_000_000 });
    let (tick, _) = tick.advance(&p, MonitorEvent::Persisted);
    assert!(tick.is_done());
    let next = MonitorTick::begin(tick.into_state(), None);
    assert_eq!(next.action(), MonitorAction::Liquidate { index: 0 });
}

#[test]
fn forced_liquidation_goes_past_failures_and_saves_before_monitoring() {
    let p = params();
    let mut state = snapshot(&["a", "b", "c"]);
    state.risk.mode = BotMode::EmergencyStop;
    let tick = MonitorTick::begin(state, None);
    assert_eq!(tick.action(), MonitorAction::Liquidate { index: 0 });
    let (tick, report) = tick.advance(&p, swap_ok("s-a"));
    let closed = report.closed.expect("liquidated");
    assert_eq!(closed.position.id, "a");
    assert_eq!(closed.position.sell_tx, Some("s-a".to_string()));
    assert_eq!(closed.reason, ExitReason::HardStop);
    assert_eq!(closed.exit_price, None);
    assert_eq!(closed.pnl_usdc, 0);
    assert_eq!(report.risk_event, RiskEvent::NoChange);
    assert_eq!(report.next, MonitorAction::Liquidate { index: 0 });
    assert_eq!(ids(&tick), vec!["b".to_string(), "c".to_string()]);
    let (tick, report) = tick.advance(&p, MonitorEvent::SwapFailed);
    assert!(report.closed.is_none());
    assert_eq!(report.next, MonitorAction::Liquidate { index: 1 });
    let (tick, report) = tick.advance(&p, swap_ok("s-c"));
    assert_eq!(report.closed.unwrap().position.id, "c");
    assert_eq!(report.next, MonitorAction::Persist);
    assert_eq!(tick.phase(), TickPhase::SavingLiquidation);
    assert_eq!(ids(&tick), vec!["b".to_string()]);
    assert_eq!(tick.state().mode, BotMode::EmergencyStop);
    assert_eq!(tick.state().risk.current_balance_usdc, 200_000_000);
    // What could not be sold is then held to the ordinary rules.
    let (tick, report) = tick.advance(&p, MonitorEvent::Persisted);
    assert_eq!(report.next, MonitorAction::FetchPrice { index: 0 });
    let (tick, report) = tick.advance(&p, MonitorEvent::Price { price: 1_000_000 });
    assert_eq!(report.next, MonitorAction::Persist);
    let (tick, report) = tick.advance(&p, MonitorEvent::Persisted);
    assert_eq!(report.next, MonitorAction::Finish);
    assert_eq!(ids(&tick), vec!["b".to_string()]);
}

#[test]
fn forced_liquidation_of_an_empty_book_saves_twice() {
    let p = params();
    let mut state = snapshot(&[]);
    state.risk.mode = BotMode::EmergencyStop;
    let tick = MonitorTick::begin(state, None);
    assert_eq!(tick.phase(), TickPhase::SavingLiquidation);
    assert_eq!(tick.state().mode, BotMode::EmergencyStop);
    let (tick, report) = tick.advance(&p, MonitorEvent::Persisted);
    assert_eq!(report.next, MonitorAction::Persist);
    assert_eq!(tick.phase(), TickPhase::Saving);
    let (tick, report) = tick.advance(&p, MonitorEvent::Persisted);
    assert_eq!(report.next, MonitorAction::Finish);
    assert!(tick.is_done());
}

#[test]
fn an_event_that_is_not_waited_for_changes_nothing() {
    let p = params();
    let tick = MonitorTick::begin(snapshot(&["a"]), None);
    let (tick, report) = tick.advance(&p, swap_ok("stray"));
    assert_eq!(report.next, MonitorAction::FetchPrice { index: 0 });
    assert!(report.closed.is_none());
    assert_eq!(tick.state().positions.len(), 1);
    let (tick, report) = tick.advance(&p, MonitorEvent::Persisted);
    assert_eq!(report.next, MonitorAction::FetchPrice { index: 0 });
    let (tick, _) = tick.advance(&p, MonitorEvent::Price { price: 1_000_000 });
    let (tick, _) = tick.advance(&p, MonitorEvent::Persisted);
    let (tick, report) = tick.advance(&p, MonitorEvent::Price { price: 1 });
    assert_eq!(report.next, MonitorAction::Finish);
    assert!(tick.is_done());
    assert_eq!(tick.state().positions[0].peak_price, 1_000_000);
}

#[test]
fn the_copied_mode_is_in_line_whenever_the_snapshot_is_saved() {
    let p = params();
    let mut state = snapshot(&["a"]);
    state.risk.mode = BotMode::ReadOnly;
    assert_eq!(state.mode, BotMode::Trading);
    let tick = MonitorTick::begin(state, None);
    let (tick, report) = tick.advance(&p, MonitorEvent::Price { price: 1_000_000 });
    assert_eq!(report.next, MonitorAction::Persist);
    assert_eq!(tick.state().mode, BotMode::ReadOnly);
}

#[test]
fn a_trailing_stop_carries_over_from_one_tick_to_the_next() {
    let p = params();
    let tick = MonitorTick::begin(snapshot(&["a"]), None);
    let (tick, _) = tick.advance(&p, MonitorEvent::Price { price: 1_200_000 });
    let (tick, _) = tick.advance(&p, MonitorEvent::Persisted);
    let state = tick.into_state();
    assert!(state.positions[0].trailing_armed);
    assert_eq!(state.positions[0].peak_price, 1_200_000);
    let tick = MonitorTick::begin(state, None);
    let (tick, report) = tick.advance(&p, MonitorEvent::Price { price: 1_070_000 });
    assert_eq!(report.next, MonitorAction::Exit { index: 0, reason: ExitReason::TrailingStop });
    let (tick, report) = tick.advance(&p, swap_ok("out"));
    assert_eq!(report.closed.unwrap().pnl_usdc, 700_000);
    assert!(tick.state().positions.is_empty());
}
