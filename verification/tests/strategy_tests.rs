use algo_trader::strategy::{
    advance_tick, decide_signal, passive_miss_odds, resolve_fill, settle_order, FillOutcome,
    PositionSide, Signal, ZReading, RETUNE_PERIOD,
};

fn reading(z: f64, threshold: f64) -> ZReading {
    ZReading {
        at_or_above_zero: z >= 0.0,
        at_or_below_zero: z <= 0.0,
        above_threshold: z > threshold,
        below_neg_threshold: z < -threshold,
    }
}

#[test]
fn flat_opens_short_above_threshold() {
    assert_eq!(decide_signal(PositionSide::Flat, reading(2.5, 2.0)), (Signal::Sell, PositionSide::Short));
}

#[test]
fn flat_opens_long_below_negative_threshold() {
    assert_eq!(decide_signal(PositionSide::Flat, reading(-2.5, 2.0)), (Signal::Buy, PositionSide::Long));
}

#[test]
fn flat_holds_inside_band() {
    assert_eq!(decide_signal(PositionSide::Flat, reading(1.0, 2.0)), (Signal::Hold, PositionSide::Flat));
    assert_eq!(decide_signal(PositionSide::Flat, reading(2.0, 2.0)), (Signal::Hold, PositionSide::Flat));
}

#[test]
fn negative_threshold_prefers_short() {
    // With a negative threshold both bands are crossed; the short side is checked first.
    assert_eq!(decide_signal(PositionSide::Flat, reading(0.0, -1.0)), (Signal::Sell, PositionSide::Short));
}

#[test]
fn long_kept_while_z_negative() {
    assert_eq!(decide_signal(PositionSide::Long, reading(-0.1, 2.0)), (Signal::Buy, PositionSide::Long));
    assert_eq!(decide_signal(PositionSide::Long, reading(5.0, 2.0)), (Signal::Hold, PositionSide::Flat));
    assert_eq!(decide_signal(PositionSide::Long, reading(0.0, 2.0)), (Signal::Hold, PositionSide::Flat));
}

#[test]
fn short_kept_while_z_positive() {
    assert_eq!(decide_signal(PositionSide::Short, reading(0.1, 2.0)), (Signal::Sell, PositionSide::Short));
    assert_eq!(decide_signal(PositionSide::Short, reading(-5.0, 2.0)), (Signal::Hold, PositionSide::Flat));
    assert_eq!(decide_signal(PositionSide::Short, reading(0.0, 2.0)), (Signal::Hold, PositionSide::Flat));
}

#[test]
fn nan_z_keeps_open_positions() {
    assert_eq!(decide_signal(PositionSide::Long, reading(f64::NAN, 2.0)), (Signal::Buy, PositionSide::Long));
    assert_eq!(decide_signal(PositionSide::Flat, reading(f64::NAN, 2.0)), (Signal::Hold, PositionSide::Flat));
}

#[test]
fn fill_outcomes() {
    assert_eq!(
        resolve_fill(Signal::Hold, PositionSide::Flat, false, false, true),
        (Signal::Hold, PositionSide::Flat, FillOutcome::NotAttempted)
    );
    assert_eq!(
        resolve_fill(Signal::Buy, PositionSide::Long, true, true, true),
        (Signal::Buy, PositionSide::Long, FillOutcome::AggressiveFilled)
    );
    assert_eq!(
        resolve_fill(Signal::Sell, PositionSide::Short, false, false, true),
        (Signal::Hold, PositionSide::Flat, FillOutcome::PassiveMissed)
    );
    assert_eq!(
        resolve_fill(Signal::Sell, PositionSide::Short, false, true, false),
        (Signal::Sell, PositionSide::Short, FillOutcome::PassiveFilledAdverse)
    );
    assert_eq!(
        resolve_fill(Signal::Buy, PositionSide::Long, false, false, false),
        (Signal::Buy, PositionSide::Long, FillOutcome::PassiveFilled)
    );
}

#[test]
fn miss_odds() {
    assert_eq!(passive_miss_odds(true), (3, 5));
    assert_eq!(passive_miss_odds(false), (3, 20));
}

#[test]
fn nan_toxicity_uses_high_fill_odds_without_penalty() {
    let p_toxic = f64::NAN;
    let low_toxicity = p_toxic < 0.3;
    let adverse = p_toxic >= 0.3;
    assert_eq!(passive_miss_odds(low_toxicity), (3, 20));
    assert_eq!(
        resolve_fill(Signal::Buy, PositionSide::Long, false, adverse, false),
        (Signal::Buy, PositionSide::Long, FillOutcome::PassiveFilled)
    );
}

#[test]
fn settle_without_draw() {
    assert_eq!(
        settle_order(Signal::Hold, PositionSide::Flat, false, true, false),
        (Signal::Hold, PositionSide::Flat, FillOutcome::NotAttempted)
    );
    assert_eq!(
        settle_order(Signal::Buy, PositionSide::Long, true, true, false),
        (Signal::Buy, PositionSide::Long, FillOutcome::AggressiveFilled)
    );
}

#[test]
fn settle_passive_draws_both_outcomes() {
    let mut missed = 0;
    let mut filled = 0;
    for _ in 0..400 {
        match settle_order(Signal::Buy, PositionSide::Long, false, true, false) {
            (Signal::Hold, PositionSide::Flat, FillOutcome::PassiveMissed) => missed += 1,
            (Signal::Buy, PositionSide::Long, FillOutcome::PassiveFilled) => filled += 1,
            other => panic!("unexpected settlement {:?}", other),
        }
    }
    assert!(missed > 0 && filled > 0);
    let mut adverse = 0;
    for _ in 0..400 {
        if let (_, _, FillOutcome::PassiveFilledAdverse) = settle_order(Signal::Sell, PositionSide::Short, false, false, true) {
            adverse += 1;
        }
    }
    assert!(adverse > 0);
}

#[test]
fn ticks_retune_every_hundred() {
    assert_eq!(advance_tick(0), (1, false));
    assert_eq!(advance_tick(98), (99, false));
    assert_eq!(advance_tick(99), (100, true));
    assert_eq!(advance_tick(199), (200, true));
    assert_eq!(RETUNE_PERIOD, 100);
    let mut t = 0u64;
    let mut retunes = 0;
    for _ in 0..1000 {
        let (next, retune) = advance_tick(t);
        t = next;
        if retune {
            retunes += 1;
        }
    }
    assert_eq!(retunes, 10);
}

#[test]
fn whole_tick_keeps_signal_and_position_agreed() {
    let sides = [PositionSide::Flat, PositionSide::Long, PositionSide::Short];
    let zs = [-3.0, -0.5, 0.0, 0.5, 3.0];
    for side in sides {
        for z in zs {
            for aggressive in [false, true] {
                for toxic in [false, true] {
                    for missed in [false, true] {
                        let (s, p) = decide_signal(side, reading(z, 2.0));
                        let (fs, fp, _) = resolve_fill(s, p, aggressive, toxic, missed);
                        assert_eq!(fs == Signal::Buy, fp == PositionSide::Long);
                        assert_eq!(fs == Signal::Sell, fp == PositionSide::Short);
                        assert_eq!(fs == Signal::Hold, fp == PositionSide::Flat);
                        if side == PositionSide::Long {
                            assert_ne!(fp, PositionSide::Short);
                        }
                        if side == PositionSide::Short {
                            assert_ne!(fp, PositionSide::Long);
                        }
                    }
                }
            }
        }
    }
}
