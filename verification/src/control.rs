//! Handler-level transitions of the controller.
//!
//! All shared state that crosses the main/interrupt boundary — the grid, the
//! pause flag and the two debounce latches — is bundled here, and each kind
//! of interrupt becomes one transition on that bundle, from plain input
//! values to the next state and an action for the caller:
//!
//! - `on_edge_events` is the edge-triggered input strategy: the hardware
//!   reports one latched event per press of each button, no software
//!   debounce.
//! - `on_poll_tick` is the polled input strategy: a periodic timer samples
//!   the raw button levels and runs them through the debounce latches.
//! - `on_advance_tick` is the periodic advance-and-render tick of the
//!   scheduler.
//!
//! The caller owns the hardware: it acquires the bundle inside a critical
//! section, reads the pins or event flags, applies one transition, and
//! performs the returned action (a display refresh) outside the library.

use vstd::prelude::*;

use crate::debounce::DebounceLatch;
use crate::debounce::sample_step;
use crate::grid::LifeState;
use crate::grid::next_grid;
use crate::pause::PauseController;

verus! {

/// What an edge-triggered input event does to the grid and the pause flag.
/// Button A toggles pause; button B, when the machine is paused after that
/// toggle, advances the grid by one generation. The pair is (grid, paused)
/// after the event.
pub open spec fn edge_event_step(
    g: Seq<Seq<bool>>,
    paused: bool,
    a_triggered: bool,
    b_triggered: bool,
) -> (Seq<Seq<bool>>, bool) {
    let paused2 = if a_triggered {
        !paused
    } else {
        paused
    };
    let g2 = if b_triggered && paused2 {
        next_grid(g)
    } else {
        g
    };
    (g2, paused2)
}

/// What one polling tick does, given the two latched levels and the two raw
/// levels sampled this tick. Button A is debounced and toggles pause on its
/// edge; button B is debounced and, on its edge while paused, advances the
/// grid by one generation. The tuple is (grid, paused, latch a, latch b)
/// after the tick.
pub open spec fn poll_tick_step(
    g: Seq<Seq<bool>>,
    paused: bool,
    latch_a: bool,
    latch_b: bool,
    a_level: bool,
    b_level: bool,
) -> (Seq<Seq<bool>>, bool, bool, bool) {
    let a_edge = sample_step(latch_a, a_level).0;
    let paused2 = if a_edge {
        !paused
    } else {
        paused
    };
    let b_edge = sample_step(latch_b, b_level).0;
    let g2 = if b_edge && paused2 {
        next_grid(g)
    } else {
        g
    };
    (g2, paused2, a_level, b_level)
}

/// What the periodic advance tick does to the grid: one generation while
/// running, nothing while paused.
pub open spec fn advance_tick_step(g: Seq<Seq<bool>>, paused: bool) -> Seq<Seq<bool>> {
    if paused {
        g
    } else {
        next_grid(g)
    }
}

/// The grid after n periodic advance ticks under a constant pause flag.
pub open spec fn advance_ticks(g: Seq<Seq<bool>>, paused: bool, n: nat) -> Seq<Seq<bool>>
    decreases n,
{
    if n == 0 {
        g
    } else {
        advance_tick_step(advance_ticks(g, paused, (n - 1) as nat), paused)
    }
}

/// The shared state of the controller: everything that both the main context
/// and the interrupt handlers touch. The caller keeps it behind its
/// critical-section primitive; each method below is one atomic step on it.
pub struct GameCore {
    /// The automaton state.
    pub life: LifeState,
    /// The pause/resume state machine.
    pub pause: PauseController,
    /// Debounce latch of button A (polled strategy only).
    pub latch_a: DebounceLatch,
    /// Debounce latch of button B (polled strategy only).
    pub latch_b: DebounceLatch,
}

impl GameCore {
    /// A fresh controller around the caller-supplied initial pattern:
    /// running, with both latches clear.
    pub fn new(initial: LifeState) -> (core: GameCore)
        ensures
            core.life.grid() == initial.grid(),
            !core.pause.paused(),
            !core.latch_a.was_pressed,
            !core.latch_b.was_pressed,
    {
        GameCore {
            life: initial,
            pause: PauseController::new(),
            latch_a: DebounceLatch::new(),
            latch_b: DebounceLatch::new(),
        }
    }

    /// The edge-triggered input strategy's handler step. The hardware has
    /// latched one event per press; the caller passes each channel's
    /// triggered flag and afterwards clears both channels, consuming the
    /// edges. The debounce latches are not involved.
    pub fn on_edge_events(&mut self, a_triggered: bool, b_triggered: bool)
        ensures
            ({
                let step = edge_event_step(
                    old(self).life.grid(),
                    old(self).pause.paused(),
                    a_triggered,
                    b_triggered,
                );
                final(self).life.grid() == step.0 && final(self).pause.paused() == step.1
            }),
            final(self).latch_a == old(self).latch_a,
            final(self).latch_b == old(self).latch_b,
    {
        if a_triggered {
            self.pause.toggle_edge();
        }
        if b_triggered {
            if self.pause.is_paused() {
                self.life.next_state();
            }
        }
    }

    /// The polled input strategy's handler step: sample both raw button
    /// levels through their debounce latches and apply the same semantics as
    /// the edge strategy to the confirmed edges. The result says whether a
    /// manual step happened, so that the caller refreshes the display at
    /// once instead of waiting for the next scheduled frame.
    pub fn on_poll_tick(&mut self, a_level: bool, b_level: bool) -> (stepped: bool)
        ensures
            ({
                let step = poll_tick_step(
                    old(self).life.grid(),
                    old(self).pause.paused(),
                    old(self).latch_a.was_pressed,
                    old(self).latch_b.was_pressed,
                    a_level,
                    b_level,
                );
                final(self).life.grid() == step.0 && final(self).pause.paused() == step.1
                    && final(self).latch_a.was_pressed == step.2
                    && final(self).latch_b.was_pressed == step.3
            }),
            stepped == (b_level && !old(self).latch_b.was_pressed && final(self).pause.paused()),
    {
        let a_edge = self.latch_a.sample(a_level);
        if a_edge {
            self.pause.toggle_edge();
        }
        let b_edge = self.latch_b.sample(b_level);
        let mut stepped = false;
        if b_edge {
            if self.pause.is_paused() {
                self.life.next_state();
                stepped = true;
            }
        }
        stepped
    }

    /// The periodic advance-and-render tick of the scheduler: advance the
    /// grid by exactly one generation while running, leave it untouched
    /// while paused. The caller always re-renders the current grid
    /// afterwards; the result says whether a generation passed.
    pub fn on_advance_tick(&mut self) -> (advanced: bool)
        ensures
            final(self).life.grid() == advance_tick_step(
                old(self).life.grid(),
                old(self).pause.paused(),
            ),
            final(self).pause == old(self).pause,
            final(self).latch_a == old(self).latch_a,
            final(self).latch_b == old(self).latch_b,
            advanced == !old(self).pause.paused(),
    {
        if self.pause.is_paused() {
            false
        } else {
            self.life.next_state();
            true
        }
    }
}

/// Law of pause gating: while the machine stays paused, any number of
/// consecutive periodic advance ticks leaves the grid unchanged.
pub proof fn lemma_pause_gating(g: Seq<Seq<bool>>, n: nat)
    ensures
        advance_ticks(g, true, n) == g,
    decreases n,
{
    if n > 0 {
        lemma_pause_gating(g, (n - 1) as nat);
    }
}

/// Law of the manual step: while paused, a fresh press of button B on a
/// polling tick advances the grid by exactly one generation, and no more.
pub proof fn lemma_step_while_paused(g: Seq<Seq<bool>>, latch_a: bool)
    ensures
        poll_tick_step(g, true, latch_a, false, false, true).0 == next_grid(g),
{
}

/// Law of toggle independence, edge strategy: a pause-toggle event alone
/// never mutates the grid, whatever the pause flag held before.
pub proof fn lemma_toggle_independence(g: Seq<Seq<bool>>, paused: bool)
    ensures
        edge_event_step(g, paused, true, false).0 == g,
        edge_event_step(g, paused, true, false).1 == !paused,
{
}

/// Law of toggle independence, polled strategy: a polling tick that sees
/// button B low never mutates the grid, whatever button A does.
pub proof fn lemma_toggle_independence_polled(
    g: Seq<Seq<bool>>,
    paused: bool,
    latch_a: bool,
    latch_b: bool,
    a_level: bool,
)
    ensures
        poll_tick_step(g, paused, latch_a, latch_b, a_level, false).0 == g,
{
}

} // verus!
