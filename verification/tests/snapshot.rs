use risk_core::position::Position;
use risk_core::risk::{BotMode, RiskParams, RiskState};
use risk_core::state::{OpenError, PersistedState, SnapshotError, StateStore, SNAPSHOT_VERSION};

fn params() -> RiskParams {
    RiskParams {
        capital_usdc: 200_000_000,
        position_size_usdc: 5_000_000,
        max_open_positions: 2,
        max_daily_loss_pct: 30_000,
        stop_loss_pct: 100_000,
        take_profit_pct: 400_000,
        trailing_arm_pct: 150_000,
        portfolio_hard_stop_pct: 200_000,
    }
}

fn position(id: &str) -> Position {
    Position {
        id: id.to_string(),
        base_mint: "BASE".to_string(),
        quote_mint: "QUOTE".to_string(),
        size_usdc: 10_000_000,
        entry_price: 1_000_000,
        peak_price: 1_000_000,
        stop_loss_pct: 100_000,
        take_profit_pct: 400_000,
        trailing_arm_pct: 150_000,
        trailing_armed: false,
        buy_tx: None,
        sell_tx: None,
    }
}

fn snapshot() -> PersistedState {
    PersistedState::new(RiskState::new("2024-03-07".to_string(), 200_000_000))
}

#[test]
fn a_new_snapshot_is_empty_and_in_step_with_its_risk_state() {
    let state = snapshot();
    assert_eq!(state.version, 1);
    assert_eq!(state.version, SNAPSHOT_VERSION);
    assert_eq!(state.mode, BotMode::Trading);
    assert_eq!(state.risk.mode, BotMode::Trading);
    assert!(state.positions.is_empty());
    assert_eq!(state.validate(), Ok(()));
}

#[test]
fn a_new_snapshot_copies_the_mode_of_its_risk_state() {
    let mut risk = RiskState::new("d".to_string(), 1);
    risk.mode = BotMode::ReadOnly;
    let state = PersistedState::new(risk);
    assert_eq!(state.mode, BotMode::ReadOnly);
}

#[test]
fn sync_brings_the_copied_mode_in_line() {
    let mut state = snapshot();
    state.risk.mode = BotMode::EmergencyStop;
    assert_eq!(state.mode, BotMode::Trading);
    state.sync_mode_from_risk();
    assert_eq!(state.mode, BotMode::EmergencyStop);
    assert_eq!(state.risk.mode, BotMode::EmergencyStop);
}

#[test]
fn positions_are_added_at_the_end_until_the_book_is_full() {
    let p = params();
    let mut state = snapshot();
    assert!(state.can_open(&p));
    assert_eq!(state.open_position(&p, position("a")), Ok(()));
    assert_eq!(state.open_position(&p, position("b")), Ok(()));
    assert_eq!(state.positions.len(), 2);
    assert_eq!(state.positions[0].id, "a");
    assert_eq!(state.positions[1].id, "b");
    assert!(!state.can_open(&p));
    assert_eq!(state.open_position(&p, position("c")), Err(OpenError::NotAllowed));
    assert_eq!(state.positions.len(), 2);
}

#[test]
fn a_second_position_of_the_same_identity_is_refused() {
    let p = params();
    let mut state = snapshot();
    assert_eq!(state.open_position(&p, position("a")), Ok(()));
    assert_eq!(state.open_position(&p, position("a")), Err(OpenError::DuplicatePosition));
    assert_eq!(state.positions.len(), 1);
}

#[test]
fn a_position_with_its_peak_below_its_entry_is_refused() {
    let p = params();
    let mut state = snapshot();
    let mut bad = position("a");
    bad.peak_price = 999_999;
    assert_eq!(state.open_position(&p, bad), Err(OpenError::PeakBelowEntry));
    assert!(state.positions.is_empty());
}

#[test]
fn nothing_is_opened_outside_trading() {
    let p = params();
    let mut state = snapshot();
    state.risk.mode = BotMode::ReadOnly;
    assert!(!state.can_open(&p));
    assert_eq!(state.open_position(&p, position("a")), Err(OpenError::NotAllowed));
    state.risk.mode = BotMode::EmergencyStop;
    assert_eq!(state.open_position(&p, position("a")), Err(OpenError::NotAllowed));
}

#[test]
fn the_gate_is_asked_before_the_book_is_searched() {
    let p = params();
    let mut state = snapshot();
    state.open_position(&p, position("a")).unwrap();
    state.open_position(&p, position("b")).unwrap();
    assert_eq!(state.open_position(&p, position("a")), Err(OpenError::NotAllowed));
}

#[test]
fn a_position_is_found_by_its_identity() {
    let p = params();
    let mut state = snapshot();
    state.open_position(&p, position("a")).unwrap();
    state.open_position(&p, position("b")).unwrap();
    assert_eq!(state.find_position(&"a".to_string()), Some(0));
    assert_eq!(state.find_position(&"b".to_string()), Some(1));
    assert_eq!(state.find_position(&"c".to_string()), None);
}

#[test]
fn a_snapshot_of_another_version_is_refused() {
    let mut state = snapshot();
    state.version = 2;
    assert_eq!(state.validate(), Err(SnapshotError::UnsupportedVersion));
}

#[test]
fn a_snapshot_with_a_repeated_identity_is_refused() {
    let mut state = snapshot();
    state.positions.push(position("a"));
    state.positions.push(position("b"));
    state.positions.push(position("a"));
    assert_eq!(state.validate(), Err(SnapshotError::DuplicatePosition));
}

#[test]
fn a_snapshot_with_a_peak_below_its_entry_is_refused_before_identities_are_compared() {
    let mut state = snapshot();
    let mut low = position("a");
    low.peak_price = 1;
    state.positions.push(position("a"));
    state.positions.push(low);
    assert_eq!(state.validate(), Err(SnapshotError::PeakBelowEntry));
}

#[test]
fn a_snapshot_with_distinct_sound_positions_is_accepted() {
    let mut state = snapshot();
    state.positions.push(position("a"));
    state.positions.push(position("b"));
    state.positions.push(position("c"));
    state.mode = BotMode::ReadOnly;
    assert_eq!(state.validate(), Ok(()));
}

#[test]
fn a_peak_below_its_entry_is_raised_to_the_entry() {
    let mut state = snapshot();
    let mut low = position("b");
    low.peak_price = 1;
    let mut high = position("c");
    high.peak_price = 2_000_000;
    high.trailing_armed = true;
    state.positions.push(position("a"));
    state.positions.push(low);
    state.positions.push(high);
    assert_eq!(state.validate(), Err(SnapshotError::PeakBelowEntry));
    assert!(state.raise_peaks());
    assert_eq!(state.validate(), Ok(()));
    assert_eq!(state.positions.len(), 3);
    assert_eq!(state.positions[0].id, "a");
    assert_eq!(state.positions[0].peak_price, 1_000_000);
    assert_eq!(state.positions[1].id, "b");
    assert_eq!(state.positions[1].peak_price, 1_000_000);
    assert_eq!(state.positions[1].entry_price, 1_000_000);
    assert_eq!(state.positions[1].size_usdc, 10_000_000);
    assert_eq!(state.positions[2].id, "c");
    assert_eq!(state.positions[2].peak_price, 2_000_000);
    assert!(state.positions[2].trailing_armed);
    assert!(!state.raise_peaks());
}

#[test]
fn raising_peaks_leaves_a_sound_book_as_it_is() {
    let mut state = snapshot();
    state.positions.push(position("a"));
    state.positions.push(position("a"));
    assert!(!state.raise_peaks());
    assert_eq!(state.positions.len(), 2);
    assert_eq!(state.validate(), Err(SnapshotError::DuplicatePosition));
    let mut empty = snapshot();
    assert!(!empty.raise_peaks());
}

#[test]
fn the_store_keeps_its_path_and_writes_beside_it() {
    let store = StateStore::new("/var/lib/bot/state.json");
    assert_eq!(store.path(), "/var/lib/bot/state.json");
    assert_eq!(store.temp_path(), "/var/lib/bot/state.json.tmp");
}
