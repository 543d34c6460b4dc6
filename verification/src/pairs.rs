use vstd::prelude::*;
use vstd::string::*;

use crate::strategy::Signal;

verus! {

/// Key that names a traded pair: the two symbols joined by `_`.
pub fn pair_key(a: &str, b: &str) -> (key: String)
    ensures
        key@ == a@ + "_"@ + b@,
{
    let mut key = String::from_str(a);
    key.append("_");
    key.append(b);
    key
}

/// Which parameter set an engine is built with.
#[derive(Debug, PartialEq, Eq, Clone, Copy, Structural)]
pub enum EngineProfile {
    AaplMsft,
    NvdaAmd,
    MsftNvda,
    Standard,
}

/// The parameter set that the pair with key `key` is traded with.
pub open spec fn spec_profile_for(key: Seq<char>) -> EngineProfile {
    if key == "AAPL_MSFT"@ {
        EngineProfile::AaplMsft
    } else if key == "NVDA_AMD"@ {
        EngineProfile::NvdaAmd
    } else if key == "MSFT_NVDA"@ {
        EngineProfile::MsftNvda
    } else {
        EngineProfile::Standard
    }
}

/// Chooses the parameter set for a pair from its key.
pub fn profile_for(key: &String) -> (p: EngineProfile)
    ensures
        p == spec_profile_for(key@),
        p == EngineProfile::AaplMsft <==> key@ == "AAPL_MSFT"@,
        p == EngineProfile::NvdaAmd <==> key@ == "NVDA_AMD"@,
        p == EngineProfile::MsftNvda <==> key@ == "MSFT_NVDA"@,
        p == EngineProfile::Standard <==> (key@ != "AAPL_MSFT"@ && key@ != "NVDA_AMD"@ && key@
            != "MSFT_NVDA"@),
{
    proof {
        lemma_profile_keys(key@);
    }
    if *key == String::from_str("AAPL_MSFT") {
        EngineProfile::AaplMsft
    } else if *key == String::from_str("NVDA_AMD") {
        EngineProfile::NvdaAmd
    } else if *key == String::from_str("MSFT_NVDA") {
        EngineProfile::MsftNvda
    } else {
        EngineProfile::Standard
    }
}

/// The position held on a pair, with the spread at which it was opened.
#[derive(Debug, Clone, Copy)]
pub enum PositionState<P> {
    Flat,
    LongSpread { entry_spread: P },
    ShortSpread { entry_spread: P },
}

/// What a signal did to a pair's position.
#[derive(Debug, Clone, Copy)]
pub enum PositionEvent<P> {
    Unchanged,
    OpenedLong,
    OpenedShort,
    ClosedLong { entry_spread: P },
    ClosedShort { entry_spread: P },
}

/// A `Buy` opens a long spread and a `Sell` a short one, only from flat and
/// only when the engine offers a positive size; a `Hold` closes whatever is
/// open and reports the spread it was opened at.
pub open spec fn spec_apply_signal<P>(
    state: PositionState<P>,
    signal: Signal,
    has_size: bool,
    current_spread: P,
) -> (PositionState<P>, PositionEvent<P>) {
    match signal {
        Signal::Buy => if state is Flat && has_size {
            (PositionState::LongSpread { entry_spread: current_spread }, PositionEvent::OpenedLong)
        } else {
            (state, PositionEvent::Unchanged)
        },
        Signal::Sell => if state is Flat && has_size {
            (PositionState::ShortSpread { entry_spread: current_spread }, PositionEvent::OpenedShort)
        } else {
            (state, PositionEvent::Unchanged)
        },
        Signal::Hold => match state {
            PositionState::LongSpread { entry_spread } => (
                PositionState::Flat,
                PositionEvent::ClosedLong { entry_spread },
            ),
            PositionState::ShortSpread { entry_spread } => (
                PositionState::Flat,
                PositionEvent::ClosedShort { entry_spread },
            ),
            PositionState::Flat => (PositionState::Flat, PositionEvent::Unchanged),
        },
    }
}

/// Applies an engine signal to a pair's position.
pub fn apply_signal<P: Copy>(
    state: PositionState<P>,
    signal: Signal,
    has_size: bool,
    current_spread: P,
) -> (r: (PositionState<P>, PositionEvent<P>))
    ensures
        r == spec_apply_signal(state, signal, has_size, current_spread),
        signal != Signal::Hold && !(state is Flat && has_size) ==> r == (state, PositionEvent::<P>::Unchanged),
        signal == Signal::Buy && state is Flat && has_size ==> r == (
            PositionState::LongSpread { entry_spread: current_spread },
            PositionEvent::<P>::OpenedLong,
        ),
        signal == Signal::Sell && state is Flat && has_size ==> r == (
            PositionState::ShortSpread { entry_spread: current_spread },
            PositionEvent::<P>::OpenedShort,
        ),
        signal == Signal::Hold ==> r.0 is Flat,
{
    match signal {
        Signal::Buy => {
            if let PositionState::Flat = state {
                if has_size {
                    return (
                        PositionState::LongSpread { entry_spread: current_spread },
                        PositionEvent::OpenedLong,
                    );
                }
            }
            (state, PositionEvent::Unchanged)
        },
        Signal::Sell => {
            if let PositionState::Flat = state {
                if has_size {
                    return (
                        PositionState::ShortSpread { entry_spread: current_spread },
                        PositionEvent::OpenedShort,
                    );
                }
            }
            (state, PositionEvent::Unchanged)
        },
        Signal::Hold => match state {
            PositionState::LongSpread { entry_spread } => (
                PositionState::Flat,
                PositionEvent::ClosedLong { entry_spread },
            ),
            PositionState::ShortSpread { entry_spread } => (
                PositionState::Flat,
                PositionEvent::ClosedShort { entry_spread },
            ),
            PositionState::Flat => (PositionState::Flat, PositionEvent::Unchanged),
        },
    }
}

/// Whether the live loop prints its summary on this tick (every fourth).
pub fn is_summary_tick(tick: u64) -> (r: bool)
    ensures
        r == (tick % 4 == 0),
{
    tick % 4 == 0
}

/// A long spread opened at `entry` and then met with `Hold` is closed, and
/// the close reports `entry`, whatever the spread is at the close.
pub proof fn lemma_long_close_reports_entry<P>(entry: P, later: P, has_size: bool)
    ensures
        ({
            let (opened, ev) = spec_apply_signal(PositionState::Flat, Signal::Buy, true, entry);
            let (closed, ev2) = spec_apply_signal(opened, Signal::Hold, has_size, later);
            &&& ev == PositionEvent::<P>::OpenedLong
            &&& closed == PositionState::<P>::Flat
            &&& ev2 == PositionEvent::ClosedLong { entry_spread: entry }
        }),
{
}

/// A short spread opened at `entry` and then met with `Hold` is closed, and
/// the close reports `entry`.
pub proof fn lemma_short_close_reports_entry<P>(entry: P, later: P, has_size: bool)
    ensures
        ({
            let (opened, ev) = spec_apply_signal(PositionState::Flat, Signal::Sell, true, entry);
            let (closed, ev2) = spec_apply_signal(opened, Signal::Hold, has_size, later);
            &&& ev == PositionEvent::<P>::OpenedShort
            &&& closed == PositionState::<P>::Flat
            &&& ev2 == PositionEvent::ClosedShort { entry_spread: entry }
        }),
{
}

/// `Hold` always leaves the pair flat.
pub proof fn lemma_hold_flattens<P>(state: PositionState<P>, has_size: bool, current_spread: P)
    ensures
        spec_apply_signal(state, Signal::Hold, has_size, current_spread).0 is Flat,
{
}

/// An open position is never replaced by a new one: `Buy` and `Sell` leave
/// a non-flat position and its entry spread untouched.
pub proof fn lemma_open_position_kept<P>(
    state: PositionState<P>,
    signal: Signal,
    has_size: bool,
    current_spread: P,
)
    requires
        !(state is Flat),
        signal != Signal::Hold,
    ensures
        spec_apply_signal(state, signal, has_size, current_spread) == (
            state,
            PositionEvent::<P>::Unchanged,
        ),
{
}

/// Each named parameter set belongs to exactly one key: `AaplMsft` only to
/// `AAPL_MSFT`, `NvdaAmd` only to `NVDA_AMD`, `MsftNvda` only to
/// `MSFT_NVDA`; every other key, such as `MSFT_META` or `AAPL_META`, gets
/// `Standard`.
pub proof fn lemma_profile_keys(key: Seq<char>)
    ensures
        spec_profile_for(key) == EngineProfile::AaplMsft <==> key == "AAPL_MSFT"@,
        spec_profile_for(key) == EngineProfile::NvdaAmd <==> key == "NVDA_AMD"@,
        spec_profile_for(key) == EngineProfile::MsftNvda <==> key == "MSFT_NVDA"@,
        spec_profile_for(key) == EngineProfile::Standard <==> (key != "AAPL_MSFT"@ && key != "NVDA_AMD"@
            && key != "MSFT_NVDA"@),
{
    reveal_strlit("AAPL_MSFT");
    reveal_strlit("NVDA_AMD");
    reveal_strlit("MSFT_NVDA");
    assert("AAPL_MSFT"@ != "NVDA_AMD"@) by {
        assert("AAPL_MSFT"@.len() != "NVDA_AMD"@.len());
    }
    assert("AAPL_MSFT"@ != "MSFT_NVDA"@) by {
        assert("AAPL_MSFT"@[0] != "MSFT_NVDA"@[0]);
    }
    assert("NVDA_AMD"@ != "MSFT_NVDA"@) by {
        assert("NVDA_AMD"@.len() != "MSFT_NVDA"@.len());
    }
}

/// Without a positive size, `Buy` and `Sell` change nothing; with one they
/// open a position only from flat, at the current spread, on the side the
/// signal names.
pub proof fn lemma_open_rules<P>(state: PositionState<P>, signal: Signal, has_size: bool, current_spread: P)
    ensures
        ({
            let (next, ev) = spec_apply_signal(state, signal, has_size, current_spread);
            &&& !has_size && signal != Signal::Hold ==> next == state && ev == PositionEvent::<P>::Unchanged
            &&& signal == Signal::Buy && state is Flat && has_size ==> next == PositionState::LongSpread {
                entry_spread: current_spread,
            } && ev == PositionEvent::<P>::OpenedLong
            &&& signal == Signal::Sell && state is Flat && has_size ==> next == PositionState::ShortSpread {
                entry_spread: current_spread,
            } && ev == PositionEvent::<P>::OpenedShort
            &&& (ev is OpenedLong || ev is OpenedShort) ==> state is Flat && has_size && signal != Signal::Hold
            &&& (ev is ClosedLong || ev is ClosedShort) ==> signal == Signal::Hold
        }),
{
}

/// A close reports the entry of the position it closes, and leaves the pair
/// flat.
pub proof fn lemma_close_rules<P>(state: PositionState<P>, has_size: bool, current_spread: P)
    ensures
        ({
            let (next, ev) = spec_apply_signal(state, Signal::Hold, has_size, current_spread);
            &&& next is Flat
            &&& state matches PositionState::LongSpread { entry_spread } ==> ev == PositionEvent::ClosedLong {
                entry_spread,
            }
            &&& state matches PositionState::ShortSpread { entry_spread } ==> ev == PositionEvent::ClosedShort {
                entry_spread,
            }
            &&& state is Flat ==> ev == PositionEvent::<P>::Unchanged
        }),
{
}

} // verus!
