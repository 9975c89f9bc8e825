//! The edge machine of one key.
//!
//! The host reports for each key whether it is held. The machine turns two
//! successive reports into one of four states, so that a press and a
//! release are each seen for exactly one tick.

use vstd::prelude::*;

verus! {

/// The number of keys of the keypad.
pub const KEY_COUNT: usize = 16;

/// The state of one key. When a key goes down it is `Pressed` for one
/// tick and `Down` for as long as it is held after that; when it comes up
/// it is `Released` for one tick and then `Up` until it goes down again.
#[derive(Copy, Clone, Debug, PartialEq, Eq, Structural)]
pub enum KeyState {
    /// Held at this report and not at the one before.
    Pressed,
    /// Held at this report and at the one before.
    Down,
    /// Not held at this report, but at the one before.
    Released,
    /// Not held at this report nor at the one before.
    Up,
}

impl KeyState {
    /// Whether the key was held at the report that led to this state.
    pub open spec fn held(self) -> bool {
        self is Pressed || self is Down
    }

    /// The state that records the two latest reports.
    pub open spec fn of_reports(before: bool, now: bool) -> KeyState {
        if now {
            if before {
                KeyState::Down
            } else {
                KeyState::Pressed
            }
        } else {
            if before {
                KeyState::Released
            } else {
                KeyState::Up
            }
        }
    }

    /// The state after the report `pressed`.
    pub open spec fn next(self, pressed: bool) -> KeyState {
        match (self, pressed) {
            (KeyState::Pressed, true) | (KeyState::Down, true) => KeyState::Down,
            (KeyState::Pressed, false) | (KeyState::Down, false) => KeyState::Released,
            (KeyState::Released, true) | (KeyState::Up, true) => KeyState::Pressed,
            (KeyState::Released, false) | (KeyState::Up, false) => KeyState::Up,
        }
    }

    /// The state after all the reports of `reports`, the earliest first.
    pub open spec fn after(self, reports: Seq<bool>) -> KeyState
        decreases reports.len(),
    {
        if reports.len() == 0 {
            self
        } else {
            self.after(reports.drop_last()).next(reports.last())
        }
    }

    /// Takes the report `pressed` and moves to the next state, which is
    /// also returned.
    pub fn update(&mut self, pressed: bool) -> (state: &Self)
        ensures
            *final(self) == old(self).next(pressed),
            *state == old(self).next(pressed),
    {
        *self = match (*self, pressed) {
            (KeyState::Pressed, true) | (KeyState::Down, true) => KeyState::Down,
            (KeyState::Pressed, false) | (KeyState::Down, false) => KeyState::Released,
            (KeyState::Released, true) | (KeyState::Up, true) => KeyState::Pressed,
            (KeyState::Released, false) | (KeyState::Up, false) => KeyState::Up,
        };
        self
    }
}

/// What the host reported just before report `at`: the report before it,
/// and for the first report what the starting state records.
pub open spec fn report_before(start: KeyState, reports: Seq<bool>, at: int) -> bool {
    if at == 0 {
        start.held()
    } else {
        reports[at - 1]
    }
}

/// Whether report `at` is a rising edge: held now and not before.
pub open spec fn rising_edge(start: KeyState, reports: Seq<bool>, at: int) -> bool {
    reports[at] && !report_before(start, reports, at)
}

/// Whether report `at` is a falling edge: held before and not now.
pub open spec fn falling_edge(start: KeyState, reports: Seq<bool>, at: int) -> bool {
    !reports[at] && report_before(start, reports, at)
}

/// A state is nothing but the two latest reports.
pub proof fn lemma_next_records_reports(state: KeyState, pressed: bool)
    ensures
        state.next(pressed) == KeyState::of_reports(state.held(), pressed),
        state.next(pressed).held() == pressed,
{
}

/// The edge law. Whatever the host reports, the key is `Pressed` after a
/// report exactly if that report is a rising edge, and `Released` exactly
/// if it is a falling edge: each edge is seen once, at its own tick, and
/// nothing else is ever taken for one.
pub proof fn lemma_edges_seen_once(start: KeyState, reports: Seq<bool>, at: int)
    requires
        0 <= at < reports.len(),
    ensures
        start.after(reports.take(at + 1)) is Pressed <==> rising_edge(start, reports, at),
        start.after(reports.take(at + 1)) is Released <==> falling_edge(start, reports, at),
        start.after(reports.take(at + 1)) == KeyState::of_reports(
            report_before(start, reports, at),
            reports[at],
        ),
{
    let upto = reports.take(at + 1);
    assert(upto.drop_last() =~= reports.take(at));
    assert(upto.last() == reports[at]);
    lemma_after_records_last(start, reports.take(at));
    lemma_next_records_reports(start.after(reports.take(at)), reports[at]);
    if at > 0 {
        assert(reports.take(at).last() == reports[at - 1]);
    }
}

/// How many of the reports bring the key to the state `wanted`.
pub open spec fn times_in(start: KeyState, reports: Seq<bool>, wanted: KeyState) -> nat
    decreases reports.len(),
{
    if reports.len() == 0 {
        0
    } else {
        times_in(start, reports.drop_last(), wanted) + (if start.after(reports) == wanted {
            1nat
        } else {
            0nat
        })
    }
}

/// How many of the reports are rising edges.
pub open spec fn rising_edges(start: KeyState, reports: Seq<bool>) -> nat
    decreases reports.len(),
{
    if reports.len() == 0 {
        0
    } else {
        rising_edges(start, reports.drop_last()) + (if rising_edge(
            start,
            reports,
            reports.len() - 1,
        ) {
            1nat
        } else {
            0nat
        })
    }
}

/// How many of the reports are falling edges.
pub open spec fn falling_edges(start: KeyState, reports: Seq<bool>) -> nat
    decreases reports.len(),
{
    if reports.len() == 0 {
        0
    } else {
        falling_edges(start, reports.drop_last()) + (if falling_edge(
            start,
            reports,
            reports.len() - 1,
        ) {
            1nat
        } else {
            0nat
        })
    }
}

/// The edge law in numbers: over any run of reports the key is `Pressed`
/// as often as there are rising edges, and `Released` as often as there
/// are falling edges.
pub proof fn lemma_edges_counted(start: KeyState, reports: Seq<bool>)
    ensures
        times_in(start, reports, KeyState::Pressed) == rising_edges(start, reports),
        times_in(start, reports, KeyState::Released) == falling_edges(start, reports),
    decreases reports.len(),
{
    if reports.len() > 0 {
        lemma_edges_counted(start, reports.drop_last());
        lemma_edges_seen_once(start, reports, reports.len() - 1);
        assert(reports.take(reports.len() as int) =~= reports);
    }
}

/// After at least one report, a state records the latest of them.
pub proof fn lemma_after_records_last(start: KeyState, reports: Seq<bool>)
    ensures
        start.after(reports).held() == (if reports.len() == 0 {
            start.held()
        } else {
            reports.last()
        }),
{
    if reports.len() > 0 {
        lemma_next_records_reports(start.after(reports.drop_last()), reports.last());
    }
}

} // verus!
