use algo_trader::pairs::{
    apply_signal, is_summary_tick, pair_key, profile_for, EngineProfile, PositionEvent, PositionState,
};
use algo_trader::strategy::Signal;

#[test]
fn pair_keys() {
    assert_eq!(pair_key("AAPL", "MSFT"), "AAPL_MSFT");
    assert_eq!(pair_key("", ""), "_");
}

#[test]
fn profiles() {
    assert_eq!(profile_for(&"AAPL_MSFT".to_string()), EngineProfile::AaplMsft);
    assert_eq!(profile_for(&"NVDA_AMD".to_string()), EngineProfile::NvdaAmd);
    assert_eq!(profile_for(&"MSFT_NVDA".to_string()), EngineProfile::MsftNvda);
    assert_eq!(profile_for(&"AAPL_META".to_string()), EngineProfile::Standard);
    assert_eq!(profile_for(&"aapl_msft".to_string()), EngineProfile::Standard);
}

#[test]
fn long_round_trip_reports_entry() {
    let (s, ev) = apply_signal(PositionState::Flat, Signal::Buy, true, 12.5f64);
    assert!(matches!(ev, PositionEvent::OpenedLong));
    assert!(matches!(s, PositionState::LongSpread { entry_spread } if entry_spread == 12.5));
    let (s, ev) = apply_signal(s, Signal::Buy, true, 20.0);
    assert!(matches!(ev, PositionEvent::Unchanged));
    let (s, ev) = apply_signal(s, Signal::Sell, true, 20.0);
    assert!(matches!(ev, PositionEvent::Unchanged));
    let (s, ev) = apply_signal(s, Signal::Hold, false, 30.0);
    assert!(matches!(ev, PositionEvent::ClosedLong { entry_spread } if entry_spread == 12.5));
    assert!(matches!(s, PositionState::Flat));
}

#[test]
fn short_round_trip_reports_entry() {
    let (s, ev) = apply_signal(PositionState::Flat, Signal::Sell, true, -4.0f64);
    assert!(matches!(ev, PositionEvent::OpenedShort));
    let (s, ev) = apply_signal(s, Signal::Hold, true, 1.0);
    assert!(matches!(ev, PositionEvent::ClosedShort { entry_spread } if entry_spread == -4.0));
    assert!(matches!(s, PositionState::Flat));
}

#[test]
fn no_size_no_open() {
    let (s, ev) = apply_signal(PositionState::Flat, Signal::Buy, false, 1.0f64);
    assert!(matches!(ev, PositionEvent::Unchanged));
    assert!(matches!(s, PositionState::Flat));
    let (s, ev) = apply_signal(PositionState::<f64>::Flat, Signal::Hold, true, 1.0);
    assert!(matches!(ev, PositionEvent::Unchanged));
    assert!(matches!(s, PositionState::Flat));
}

#[test]
fn summary_ticks() {
    assert!(is_summary_tick(0));
    assert!(!is_summary_tick(1));
    assert!(!is_summary_tick(3));
    assert!(is_summary_tick(4));
    assert!(is_summary_tick(400));
}
