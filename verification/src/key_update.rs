//! Redrawing a pull-item key. After a press the key first plays a spinner
//! (a frame every 33 ms, turning 10 degrees per frame) until more than two
//! seconds have passed, then shows a "done" frame for two seconds, and at
//! last shows the item again. Without a press only the last step runs.
//!
//! The caller performs each command and reports the seconds elapsed since
//! the spinner started; `PullItemUpdate::step` decides what comes next.

use crate::pull_item::{grayscale_enabled, grayscale_of, PartialPluginSettings};
use vstd::prelude::*;
use vstd::arithmetic::div_mod::lemma_add_mod_noop;

verus! {

/// Degrees the spinner turns between two frames.
pub const SPIN_STEP: u32 = 10;

/// Milliseconds the caller waits after showing a spinner frame.
pub const SPIN_FRAME_MILLIS: u64 = 33;

/// Milliseconds the caller waits after showing the "done" frame.
pub const DONE_PAUSE_MILLIS: u64 = 2000;

/// Whole seconds after which the spinner stops (it stops once the elapsed
/// time is strictly greater).
pub const SPIN_SECONDS: u64 = 2;

/// Where a redraw stands.
#[derive(Clone, Copy, Debug, PartialEq, Eq, Structural)]
pub enum UpdatePhase {
    /// Nothing shown yet.
    Begin,
    /// A spinner frame at this rotation (degrees) is shown.
    Spinning(u32),
    /// The "done" frame is shown.
    Settled,
    /// The item is shown; nothing is left to do.
    Finished,
}

/// What the caller does next.
#[derive(Clone, Copy, Debug, PartialEq, Eq, Structural)]
pub enum UpdateCommand {
    /// Show the loading frame rotated by this many degrees over the icon
    /// drawn without grayscale, wait `SPIN_FRAME_MILLIS`, then report the
    /// elapsed time.
    ShowSpinnerFrame(u32),
    /// Show the "done" frame over the icon drawn without grayscale, then
    /// wait `DONE_PAUSE_MILLIS`.
    ShowDoneFrame,
    /// Draw the item with this grayscale setting and show it.
    ShowFinal(bool),
    /// Nothing.
    Idle,
}

/// The state of a redraw, as the contracts see it.
pub struct UpdateState {
    pub loading: bool,
    pub grayscale: bool,
    pub phase: UpdatePhase,
}

/// The rotation that follows `rotation`.
pub open spec fn next_rotation(rotation: int) -> int {
    (rotation + SPIN_STEP) % 360
}

/// Rotations stay below a full turn and on the spinner's 10-degree grid.
pub open spec fn valid_phase(phase: UpdatePhase) -> bool {
    match phase {
        UpdatePhase::Spinning(r) => r < 360 && r % SPIN_STEP == 0,
        _ => true,
    }
}

/// The next state and command, given the seconds elapsed since the spinner
/// started (only read while spinning).
pub open spec fn next(state: UpdateState, elapsed_secs: u64) -> (UpdateState, UpdateCommand) {
    let with_phase = |phase: UpdatePhase|
        UpdateState { loading: state.loading, grayscale: state.grayscale, phase };
    match state.phase {
        UpdatePhase::Begin => if state.loading {
            (with_phase(UpdatePhase::Spinning(0)), UpdateCommand::ShowSpinnerFrame(0))
        } else {
            (with_phase(UpdatePhase::Finished), UpdateCommand::ShowFinal(state.grayscale))
        },
        UpdatePhase::Spinning(r) => if elapsed_secs > SPIN_SECONDS {
            (with_phase(UpdatePhase::Settled), UpdateCommand::ShowDoneFrame)
        } else {
            let r2 = next_rotation(r as int) as u32;
            (with_phase(UpdatePhase::Spinning(r2)), UpdateCommand::ShowSpinnerFrame(r2))
        },
        UpdatePhase::Settled => (
            with_phase(UpdatePhase::Finished),
            UpdateCommand::ShowFinal(state.grayscale),
        ),
        UpdatePhase::Finished => (state, UpdateCommand::Idle),
    }
}

/// The state reached by stepping from `state` once per entry of `elapsed`,
/// in order.
pub open spec fn run(state: UpdateState, elapsed: Seq<u64>) -> UpdateState
    decreases elapsed.len(),
{
    if elapsed.len() == 0 {
        state
    } else {
        run(next(state, elapsed[0]).0, elapsed.drop_first())
    }
}

/// How many commands that draw the item are issued while stepping from
/// `state` once per entry of `elapsed`.
pub open spec fn final_draws(state: UpdateState, elapsed: Seq<u64>) -> nat
    decreases elapsed.len(),
{
    if elapsed.len() == 0 {
        0
    } else {
        let (after, command) = next(state, elapsed[0]);
        (if command is ShowFinal {
            1nat
        } else {
            0nat
        }) + final_draws(after, elapsed.drop_first())
    }
}

/// While no more than two seconds have passed, every frame turns the
/// spinner a further ten degrees: `k` frames after standing at `r` degrees
/// it stands at `(r + 10 k) mod 360`.
pub proof fn lemma_spinner_turns_steadily(state: UpdateState, elapsed: Seq<u64>)
    requires
        state.phase matches UpdatePhase::Spinning(r) && valid_phase(state.phase),
        forall|i: int| 0 <= i < elapsed.len() ==> elapsed[i] <= SPIN_SECONDS,
    ensures
        run(state, elapsed).phase == UpdatePhase::Spinning(
            ((state.phase->0 + SPIN_STEP * elapsed.len()) % 360) as u32,
        ),
    decreases elapsed.len(),
{
    let r = state.phase->0 as int;
    if elapsed.len() == 0 {
        assert(r % 360 == r);
    } else {
        let k = elapsed.len() - 1;
        let after = next(state, elapsed[0]).0;
        let r2 = (r + 10) % 360;
        assert(after.phase == UpdatePhase::Spinning(r2 as u32));
        lemma_spinner_turns_steadily(after, elapsed.drop_first());
        lemma_add_mod_noop(r + 10, 10 * k, 360);
    }
}

/// Once more than two seconds have passed, a redraw is over within three
/// steps, whatever step it is at.
pub proof fn lemma_redraw_ends(state: UpdateState, elapsed_secs: u64)
    requires
        elapsed_secs > SPIN_SECONDS,
    ensures
        run(state, seq![elapsed_secs, elapsed_secs, elapsed_secs]).phase == UpdatePhase::Finished,
{
    let e = seq![elapsed_secs, elapsed_secs, elapsed_secs];
    assert(e.drop_first() =~= seq![elapsed_secs, elapsed_secs]);
    assert(e.drop_first().drop_first() =~= seq![elapsed_secs]);
    assert(e.drop_first().drop_first().drop_first() =~= Seq::<u64>::empty());
    reveal_with_fuel(run, 4);
}

/// The item is always drawn with the grayscale setting the redraw was
/// started with, and stepping never changes that setting nor whether the
/// redraw plays the loading animation.
pub proof fn lemma_final_draw_uses_start_grayscale(state: UpdateState, elapsed_secs: u64)
    ensures
        next(state, elapsed_secs).1 matches UpdateCommand::ShowFinal(gray) ==> gray
            == state.grayscale,
        next(state, elapsed_secs).0.grayscale == state.grayscale,
        next(state, elapsed_secs).0.loading == state.loading,
{
}

/// A redraw draws the item exactly once with the grayscale setting it was
/// started with: after a press, once the spinner has run past two seconds;
/// without a press, at the first step.
pub proof fn lemma_redraw_draws_item_with_start_grayscale(
    loading: bool,
    grayscale: bool,
    elapsed_secs: u64,
)
    requires
        elapsed_secs > SPIN_SECONDS,
    ensures
        ({
            let start = UpdateState { loading, grayscale, phase: UpdatePhase::Begin };
            let first = next(start, elapsed_secs);
            let second = next(first.0, elapsed_secs);
            let third = next(second.0, elapsed_secs);
            if loading {
                &&& first.1 == UpdateCommand::ShowSpinnerFrame(0)
                &&& second.1 == UpdateCommand::ShowDoneFrame
                &&& third.1 == UpdateCommand::ShowFinal(grayscale)
            } else {
                first.1 == UpdateCommand::ShowFinal(grayscale)
            }
        }),
{
}

/// The grayscale setting read from the global settings: on unless the
/// settings could be read and turn it off explicitly.
pub proof fn lemma_grayscale_off_only_when_turned_off(global: Option<PartialPluginSettings>)
    ensures
        grayscale_of(global) == !(global matches Some(g) && g.grayscale == Some(false)),
{
}

/// A redraw draws the item at most once, and not at all once it is over.
pub proof fn lemma_item_drawn_at_most_once(state: UpdateState, elapsed: Seq<u64>)
    ensures
        final_draws(state, elapsed) <= if state.phase == UpdatePhase::Finished {
            0nat
        } else {
            1nat
        },
    decreases elapsed.len(),
{
    if elapsed.len() > 0 {
        lemma_item_drawn_at_most_once(next(state, elapsed[0]).0, elapsed.drop_first());
    }
}

/// A redraw of one pull-item key in progress.
pub struct PullItemUpdate {
    loading: bool,
    grayscale: bool,
    phase: UpdatePhase,
}

impl View for PullItemUpdate {
    type V = UpdateState;

    closed spec fn view(&self) -> UpdateState {
        UpdateState { loading: self.loading, grayscale: self.grayscale, phase: self.phase }
    }
}

impl PullItemUpdate {
    #[verifier::type_invariant]
    spec fn rotation_on_grid(self) -> bool {
        valid_phase(self.phase)
    }

    /// Starts a redraw; `loading` asks for the spinner first, `global` is
    /// the plugin's global settings when they could be read.
    pub fn new(loading: bool, global: Option<PartialPluginSettings>) -> (update: Self)
        ensures
            update@.loading == loading,
            update@.grayscale == grayscale_of(global),
            update@.phase == UpdatePhase::Begin,
    {
        PullItemUpdate { loading, grayscale: grayscale_enabled(global), phase: UpdatePhase::Begin }
    }

    /// Where the redraw stands.
    pub fn phase(&self) -> (phase: UpdatePhase)
        ensures
            phase == self@.phase,
            valid_phase(phase),
    {
        proof {
            use_type_invariant(self);
        }
        self.phase
    }

    /// Advances the redraw; `elapsed_secs` is the whole number of seconds
    /// since the spinner started.
    pub fn step(&mut self, elapsed_secs: u64) -> (command: UpdateCommand)
        ensures
            (final(self)@, command) == next(old(self)@, elapsed_secs),
            valid_phase(final(self)@.phase),
            final(self)@.grayscale == old(self)@.grayscale,
            final(self)@.loading == old(self)@.loading,
            command matches UpdateCommand::ShowFinal(gray) ==> gray == old(self)@.grayscale,
    {
        proof {
            use_type_invariant(&*self);
        }
        match self.phase {
            UpdatePhase::Begin => {
                if self.loading {
                    self.phase = UpdatePhase::Spinning(0);
                    UpdateCommand::ShowSpinnerFrame(0)
                } else {
                    self.phase = UpdatePhase::Finished;
                    UpdateCommand::ShowFinal(self.grayscale)
                }
            },
            UpdatePhase::Spinning(r) => {
                if elapsed_secs > SPIN_SECONDS {
                    self.phase = UpdatePhase::Settled;
                    UpdateCommand::ShowDoneFrame
                } else {
                    let r2 = (r + SPIN_STEP) % 360;
                    self.phase = UpdatePhase::Spinning(r2);
                    UpdateCommand::ShowSpinnerFrame(r2)
                }
            },
            UpdatePhase::Settled => {
                self.phase = UpdatePhase::Finished;
                UpdateCommand::ShowFinal(self.grayscale)
            },
            UpdatePhase::Finished => UpdateCommand::Idle,
        }
    }
}

} // verus!
