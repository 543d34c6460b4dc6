use rand::Rng;
use vstd::prelude::*;

verus! {

/// A trading recommendation for the spread.
#[derive(Debug, PartialEq, Eq, Clone, Copy, Structural)]
pub enum Signal {
    Buy,
    Sell,
    Hold,
}

/// The position the engine holds on the spread between its two legs.
#[derive(Debug, PartialEq, Eq, Clone, Copy, Structural)]
pub enum PositionSide {
    Flat,
    Long,
    Short,
}

/// How the current z-score of the spread innovation compares with zero and
/// with the active entry threshold.
#[derive(Debug, PartialEq, Eq, Clone, Copy, Structural)]
pub struct ZReading {
    /// `z >= 0`
    pub at_or_above_zero: bool,
    /// `z <= 0`
    pub at_or_below_zero: bool,
    /// `z > threshold`
    pub above_threshold: bool,
    /// `z < -threshold`
    pub below_neg_threshold: bool,
}

/// The decision table of the engine: a long position is held while `z`
/// stays negative, a short one while `z` stays positive; from flat, a
/// z-score above the threshold opens a short and one below its negation
/// opens a long.
pub open spec fn decided(side: PositionSide, z: ZReading) -> (Signal, PositionSide) {
    match side {
        PositionSide::Long => if z.at_or_above_zero {
            (Signal::Hold, PositionSide::Flat)
        } else {
            (Signal::Buy, PositionSide::Long)
        },
        PositionSide::Short => if z.at_or_below_zero {
            (Signal::Hold, PositionSide::Flat)
        } else {
            (Signal::Sell, PositionSide::Short)
        },
        PositionSide::Flat => if z.above_threshold {
            (Signal::Sell, PositionSide::Short)
        } else if z.below_neg_threshold {
            (Signal::Buy, PositionSide::Long)
        } else {
            (Signal::Hold, PositionSide::Flat)
        },
    }
}

/// The signal agrees with the position: `Buy` exactly when long, `Sell`
/// exactly when short, `Hold` exactly when flat.
pub open spec fn reflects(signal: Signal, side: PositionSide) -> bool {
    &&& (signal == Signal::Buy <==> side == PositionSide::Long)
    &&& (signal == Signal::Sell <==> side == PositionSide::Short)
    &&& (signal == Signal::Hold <==> side == PositionSide::Flat)
}

/// Chooses the signal and the next position from the current position and
/// the z-score reading.
pub fn decide_signal(side: PositionSide, z: ZReading) -> (r: (Signal, PositionSide))
    ensures
        r == decided(side, z),
        side == PositionSide::Flat && z.above_threshold ==> r == (Signal::Sell, PositionSide::Short),
        side == PositionSide::Flat && !z.above_threshold && z.below_neg_threshold ==> r == (
            Signal::Buy,
            PositionSide::Long,
        ),
        side == PositionSide::Flat && !z.above_threshold && !z.below_neg_threshold ==> r == (
            Signal::Hold,
            PositionSide::Flat,
        ),
        side == PositionSide::Long ==> r == (if z.at_or_above_zero {
            (Signal::Hold, PositionSide::Flat)
        } else {
            (Signal::Buy, PositionSide::Long)
        }),
        side == PositionSide::Short ==> r == (if z.at_or_below_zero {
            (Signal::Hold, PositionSide::Flat)
        } else {
            (Signal::Sell, PositionSide::Short)
        }),
{
    match side {
        PositionSide::Long => {
            if z.at_or_above_zero {
                (Signal::Hold, PositionSide::Flat)
            } else {
                (Signal::Buy, PositionSide::Long)
            }
        },
        PositionSide::Short => {
            if z.at_or_below_zero {
                (Signal::Hold, PositionSide::Flat)
            } else {
                (Signal::Sell, PositionSide::Short)
            }
        },
        PositionSide::Flat => {
            if z.above_threshold {
                (Signal::Sell, PositionSide::Short)
            } else if z.below_neg_threshold {
                (Signal::Buy, PositionSide::Long)
            } else {
                (Signal::Hold, PositionSide::Flat)
            }
        },
    }
}

/// What became of the order that a non-`Hold` signal asks for.
#[derive(Debug, PartialEq, Eq, Clone, Copy, Structural)]
pub enum FillOutcome {
    /// The signal was `Hold`: no order.
    NotAttempted,
    /// A passive limit order that was not filled.
    PassiveMissed,
    /// A passive limit order filled without adverse selection.
    PassiveFilled,
    /// A passive limit order filled against likely informed flow.
    PassiveFilledAdverse,
    /// An aggressive market order.
    AggressiveFilled,
}

/// How an order ends, given whether it is sent aggressively, whether a
/// filled passive order pays the adverse-selection penalty (the toxic-flow
/// estimate is at least 0.3) and whether a passive order missed its fill. A
/// missed fill turns the signal into `Hold` and leaves the engine flat.
pub open spec fn resolved(
    signal: Signal,
    side: PositionSide,
    aggressive: bool,
    adverse: bool,
    missed: bool,
) -> (Signal, PositionSide, FillOutcome) {
    if signal == Signal::Hold {
        (signal, side, FillOutcome::NotAttempted)
    } else if aggressive {
        (signal, side, FillOutcome::AggressiveFilled)
    } else if missed {
        (Signal::Hold, PositionSide::Flat, FillOutcome::PassiveMissed)
    } else if adverse {
        (signal, side, FillOutcome::PassiveFilledAdverse)
    } else {
        (signal, side, FillOutcome::PassiveFilled)
    }
}

/// Settles an order once the outcome of a passive fill is known.
pub fn resolve_fill(
    signal: Signal,
    side: PositionSide,
    aggressive: bool,
    adverse: bool,
    missed: bool,
) -> (r: (Signal, PositionSide, FillOutcome))
    ensures
        r == resolved(signal, side, aggressive, adverse, missed),
        signal == Signal::Hold ==> r == (signal, side, FillOutcome::NotAttempted),
        signal != Signal::Hold && aggressive ==> r == (signal, side, FillOutcome::AggressiveFilled),
        signal != Signal::Hold && !aggressive && missed ==> r == (
            Signal::Hold,
            PositionSide::Flat,
            FillOutcome::PassiveMissed,
        ),
        signal != Signal::Hold && !aggressive && !missed ==> r == (signal, side, if adverse {
            FillOutcome::PassiveFilledAdverse
        } else {
            FillOutcome::PassiveFilled
        }),
{
    if signal == Signal::Hold {
        (signal, side, FillOutcome::NotAttempted)
    } else if aggressive {
        (signal, side, FillOutcome::AggressiveFilled)
    } else if missed {
        (Signal::Hold, PositionSide::Flat, FillOutcome::PassiveMissed)
    } else if adverse {
        (signal, side, FillOutcome::PassiveFilledAdverse)
    } else {
        (signal, side, FillOutcome::PassiveFilled)
    }
}

/// The odds, as `(numerator, denominator)`, that a passive order misses its
/// fill: the fill succeeds with probability 0.4 when the toxic-flow estimate
/// is below 0.3 (`low_toxicity`) and 0.85 otherwise.
pub open spec fn spec_passive_miss_odds(low_toxicity: bool) -> (u32, u32) {
    if low_toxicity {
        (3, 5)
    } else {
        (3, 20)
    }
}

/// Returns the odds that a passive order misses its fill.
pub fn passive_miss_odds(low_toxicity: bool) -> (r: (u32, u32))
    ensures
        r == spec_passive_miss_odds(low_toxicity),
        0 < r.0 < r.1,
        low_toxicity ==> r.0 * 5 == r.1 * 3,
        !low_toxicity ==> r.0 * 20 == r.1 * 3,
{
    if low_toxicity {
        (3, 5)
    } else {
        (3, 20)
    }
}

/// Draws `true` with probability `numerator / denominator`, by calling
/// `rand::Rng::gen_ratio` on `rand::thread_rng()`. The outcome rests on
/// chance; the contract states only what the documentation of `gen_ratio`
/// guarantees for every draw: a zero numerator never hits and a numerator
/// equal to the denominator always does. `gen_ratio` panics when the
/// denominator is zero or below the numerator, which `requires` excludes.
#[verifier::external_body]
fn draw_ratio(numerator: u32, denominator: u32) -> (hit: bool)
    requires
        0 < denominator,
        numerator <= denominator,
    ensures
        numerator == 0 ==> !hit,
        numerator == denominator ==> hit,
{
    rand::thread_rng().gen_ratio(numerator, denominator)
}

/// Sends the order that `signal` asks for: aggressively when `aggressive`,
/// else as a passive order whose fill is drawn at random with the odds of
/// `passive_miss_odds(low_toxicity)`. The result is `resolved` for the drawn
/// outcome; only a passive order consults the draw.
pub fn settle_order(
    signal: Signal,
    side: PositionSide,
    aggressive: bool,
    low_toxicity: bool,
    adverse: bool,
) -> (r: (
    Signal,
    PositionSide,
    FillOutcome,
))
    ensures
        exists|missed: bool| r == resolved(signal, side, aggressive, adverse, missed),
        signal == Signal::Hold || aggressive ==> r == resolved(signal, side, aggressive, adverse, false),
        signal == Signal::Hold ==> r == (signal, side, FillOutcome::NotAttempted),
        signal != Signal::Hold && aggressive ==> r == (signal, side, FillOutcome::AggressiveFilled),
        signal != Signal::Hold && !aggressive ==> r == (
            Signal::Hold,
            PositionSide::Flat,
            FillOutcome::PassiveMissed,
        ) || r == (signal, side, if adverse {
            FillOutcome::PassiveFilledAdverse
        } else {
            FillOutcome::PassiveFilled
        }),
{
    if signal != Signal::Hold && !aggressive {
        let (num, den) = passive_miss_odds(low_toxicity);
        let missed = draw_ratio(num, den);
        resolve_fill(signal, side, aggressive, adverse, missed)
    } else {
        resolve_fill(signal, side, aggressive, adverse, false)
    }
}

/// Number of ticks between two retunings of the entry threshold.
pub const RETUNE_PERIOD: u64 = 100;

/// Counts one more tick and says whether this tick retunes the threshold.
pub fn advance_tick(tick_count: u64) -> (r: (u64, bool))
    requires
        tick_count < u64::MAX,
    ensures
        r.0 == tick_count + 1,
        r.1 == (r.0 % RETUNE_PERIOD == 0),
{
    let next = tick_count + 1;
    (next, next % RETUNE_PERIOD == 0)
}

/// From any position, whatever the z-score, the signal chosen agrees with
/// the position that follows.
pub proof fn lemma_decision_reflects_position(side: PositionSide, z: ZReading)
    ensures
        reflects(decided(side, z).0, decided(side, z).1),
{
}

/// Settling an order keeps the signal and the position in agreement: a
/// missed fill reverts both to `Hold` and flat.
pub proof fn lemma_fill_keeps_agreement(
    signal: Signal,
    side: PositionSide,
    aggressive: bool,
    adverse: bool,
    missed: bool,
)
    requires
        reflects(signal, side),
    ensures
        reflects(
            resolved(signal, side, aggressive, adverse, missed).0,
            resolved(signal, side, aggressive, adverse, missed).1,
        ),
{
}

/// Over a whole tick (decision, then settlement), the emitted signal agrees
/// with the position the engine is left in.
pub proof fn lemma_tick_reflects_position(
    side: PositionSide,
    z: ZReading,
    aggressive: bool,
    adverse: bool,
    missed: bool,
)
    ensures
        ({
            let (s, p) = decided(side, z);
            let (fs, fp, _) = resolved(s, p, aggressive, adverse, missed);
            reflects(fs, fp)
        }),
{
}

/// A position is never reversed in one tick: a long position can only stay
/// long or go flat, and a short one only stay short or go flat.
pub proof fn lemma_no_reversal(side: PositionSide, z: ZReading, aggressive: bool, adverse: bool, missed: bool)
    ensures
        ({
            let (s, p) = decided(side, z);
            let (_, fp, _) = resolved(s, p, aggressive, adverse, missed);
            &&& side == PositionSide::Long ==> fp != PositionSide::Short
            &&& side == PositionSide::Short ==> fp != PositionSide::Long
        }),
{
}

/// Entry rules: from flat, a short is opened exactly when `z` is above the
/// threshold, a long exactly when `z` is below the negated threshold (and not
/// above the threshold), and inside the band the engine holds and stays
/// flat. No position is ever entered on any other reading.
pub proof fn lemma_entry_rules(side: PositionSide, z: ZReading)
    ensures
        ({
            let (s, p) = decided(side, z);
            &&& side == PositionSide::Flat && z.above_threshold ==> s == Signal::Sell && p == PositionSide::Short
            &&& side == PositionSide::Flat && !z.above_threshold && z.below_neg_threshold ==> s == Signal::Buy
                && p == PositionSide::Long
            &&& side == PositionSide::Flat && !z.above_threshold && !z.below_neg_threshold ==> s == Signal::Hold
                && p == PositionSide::Flat
            &&& side == PositionSide::Flat && !z.below_neg_threshold ==> p != PositionSide::Long
            &&& side == PositionSide::Flat && !z.above_threshold ==> p != PositionSide::Short
            &&& p == PositionSide::Long && side != PositionSide::Long ==> side == PositionSide::Flat
                && z.below_neg_threshold
            &&& p == PositionSide::Short && side != PositionSide::Short ==> side == PositionSide::Flat
                && z.above_threshold
        }),
{
}

/// Exit rules: a long position is closed (with `Hold`) exactly when `z`
/// reaches zero or above, and otherwise kept with `Buy`; a short position is
/// closed exactly when `z` reaches zero or below, and otherwise kept with
/// `Sell`. The threshold plays no part in exits.
pub proof fn lemma_exit_rules(side: PositionSide, z: ZReading)
    ensures
        ({
            let (s, p) = decided(side, z);
            &&& side == PositionSide::Long ==> (p == PositionSide::Flat <==> z.at_or_above_zero)
            &&& side == PositionSide::Long && z.at_or_above_zero ==> s == Signal::Hold
            &&& side == PositionSide::Long && !z.at_or_above_zero ==> s == Signal::Buy && p == PositionSide::Long
            &&& side == PositionSide::Short ==> (p == PositionSide::Flat <==> z.at_or_below_zero)
            &&& side == PositionSide::Short && z.at_or_below_zero ==> s == Signal::Hold
            &&& side == PositionSide::Short && !z.at_or_below_zero ==> s == Signal::Sell && p == PositionSide::Short
        }),
{
}

/// Settlement rules: a `Hold` sends nothing and changes nothing; an
/// aggressive order is always filled, with no penalty; a passive order that
/// misses its fill becomes `Hold` and leaves the engine flat whatever the
/// toxicity; a passive order that is filled keeps its signal and position
/// and pays the penalty exactly when `adverse`.
pub proof fn lemma_settlement_rules(
    signal: Signal,
    side: PositionSide,
    aggressive: bool,
    adverse: bool,
    missed: bool,
)
    ensures
        ({
            let (fs, fp, out) = resolved(signal, side, aggressive, adverse, missed);
            &&& signal == Signal::Hold ==> fs == signal && fp == side && out == FillOutcome::NotAttempted
            &&& signal != Signal::Hold && aggressive ==> fs == signal && fp == side && out
                == FillOutcome::AggressiveFilled
            &&& signal != Signal::Hold && !aggressive && missed ==> fs == Signal::Hold && fp == PositionSide::Flat
                && out == FillOutcome::PassiveMissed
            &&& signal != Signal::Hold && !aggressive && !missed ==> fs == signal && fp == side
            &&& out == FillOutcome::PassiveFilledAdverse <==> (signal != Signal::Hold && !aggressive && !missed
                && adverse)
            &&& out == FillOutcome::PassiveFilled <==> (signal != Signal::Hold && !aggressive && !missed
                && !adverse)
            &&& out == FillOutcome::PassiveMissed <==> (signal != Signal::Hold && !aggressive && missed)
        }),
{
}

/// A passive order misses its fill with probability 0.6 when the toxic-flow
/// estimate is low and 0.15 otherwise, so it misses more often when the flow
/// looks benign.
pub proof fn lemma_miss_odds(low_toxicity: bool)
    ensures
        ({
            let (n, d) = spec_passive_miss_odds(low_toxicity);
            &&& 0 < n < d
            &&& low_toxicity ==> n * 5 == d * 3
            &&& !low_toxicity ==> n * 20 == d * 3
        }),
        spec_passive_miss_odds(true).0 * spec_passive_miss_odds(false).1 > spec_passive_miss_odds(false).0
            * spec_passive_miss_odds(true).1,
{
}

} // verus!
