//! The pattern blinker: a discrete-state, timed pulse-group generator for
//! the status light.
//!
//! Button-edge snapshots select a blink mode; a free-running loop renders the
//! current mode as pulse groups. Each loop iteration polls non-blockingly for
//! a newer mode — so a mode change takes effect only at the start of the next
//! group, and mid-group pulses are never interrupted — then performs the
//! group's pulses and the optional inter-group pause. Durations are in
//! milliseconds; the external timer collaborator performs the sleeps.

use vstd::prelude::*;

verus! {

/// A blink mode, with its derived timing.
#[derive(Clone, Copy, Debug, PartialEq, Eq)]
pub enum BlinkInterval {
    Normal,
    Waiting,
    Error(u8),
}

/// Milliseconds the status light stays on within one pulse.
pub open spec fn spec_on_time(m: BlinkInterval) -> u64 {
    match m {
        BlinkInterval::Normal => 500,
        BlinkInterval::Waiting => 250,
        BlinkInterval::Error(_) => 100,
    }
}

/// Milliseconds the status light stays off within one pulse.
pub open spec fn spec_off_time(m: BlinkInterval) -> u64 {
    match m {
        BlinkInterval::Normal => 500,
        BlinkInterval::Waiting => 250,
        BlinkInterval::Error(_) => 100,
    }
}

/// Milliseconds of pause after a pulse group, if the mode has one.
pub open spec fn spec_group_separator(m: BlinkInterval) -> Option<u64> {
    match m {
        BlinkInterval::Normal => None,
        BlinkInterval::Waiting => None,
        BlinkInterval::Error(_) => Some(200),
    }
}

/// Number of pulses in one group: the severity for an error mode, one
/// otherwise.
pub open spec fn spec_group_size(m: BlinkInterval) -> u8 {
    match m {
        BlinkInterval::Normal => 1,
        BlinkInterval::Waiting => 1,
        BlinkInterval::Error(x) => x,
    }
}

impl BlinkInterval {
    pub fn on_time(&self) -> (r: u64)
        ensures
            r == spec_on_time(*self),
    {
        match self {
            BlinkInterval::Normal => 500,
            BlinkInterval::Waiting => 250,
            BlinkInterval::Error(_) => 100,
        }
    }

    pub fn off_time(&self) -> (r: u64)
        ensures
            r == spec_off_time(*self),
    {
        match self {
            BlinkInterval::Normal => 500,
            BlinkInterval::Waiting => 250,
            BlinkInterval::Error(_) => 100,
        }
    }

    pub fn group_separator(&self) -> (r: Option<u64>)
        ensures
            r == spec_group_separator(*self),
    {
        match self {
            BlinkInterval::Normal => None,
            BlinkInterval::Waiting => None,
            BlinkInterval::Error(_) => Some(200),
        }
    }

    pub fn group_size(&self) -> (r: u8)
        ensures
            r == spec_group_size(*self),
    {
        match self {
            BlinkInterval::Normal => 1,
            BlinkInterval::Waiting => 1,
            BlinkInterval::Error(x) => *x,
        }
    }
}

/// One externally visible step of the blinker loop: drive the status light
/// to a level, or sleep for a number of milliseconds.
#[derive(Clone, Copy, Debug, PartialEq, Eq)]
pub enum BlinkAction {
    SetStatus(bool),
    Sleep(u64),
}

/// One pulse: on, hold, off, hold.
pub open spec fn pulse_seq(on_ms: u64, off_ms: u64) -> Seq<BlinkAction> {
    seq![
        BlinkAction::SetStatus(true),
        BlinkAction::Sleep(on_ms),
        BlinkAction::SetStatus(false),
        BlinkAction::Sleep(off_ms),
    ]
}

/// `k` pulses in a row.
pub open spec fn repeat_pulses(on_ms: u64, off_ms: u64, k: nat) -> Seq<BlinkAction>
    decreases k,
{
    if k == 0 {
        Seq::empty()
    } else {
        repeat_pulses(on_ms, off_ms, (k - 1) as nat) + pulse_seq(on_ms, off_ms)
    }
}

/// Everything one loop iteration does for a mode: the group's pulses with
/// the mode's on/off durations, then the inter-group pause if the mode
/// defines one.
pub open spec fn cycle_spec(m: BlinkInterval) -> Seq<BlinkAction> {
    repeat_pulses(spec_on_time(m), spec_off_time(m), spec_group_size(m) as nat) + (
    match spec_group_separator(m) {
        Some(ms) => seq![BlinkAction::Sleep(ms)],
        None => Seq::<BlinkAction>::empty(),
    })
}

/// The actions of one full pulse group of the given mode, in order. An error
/// mode of severity `n` yields exactly `n` times (on, on-sleep, off,
/// off-sleep) followed by the single separator sleep; the other modes yield
/// one such pulse and no separator.
pub fn cycle_actions(m: &BlinkInterval) -> (acts: Vec<BlinkAction>)
    ensures
        acts@ == cycle_spec(*m),
{
    let mut acts: Vec<BlinkAction> = Vec::new();
    let size = m.group_size();
    let on_ms = m.on_time();
    let off_ms = m.off_time();
    let mut i: u8 = 0;
    while i < size
        invariant
            i <= size,
            on_ms == spec_on_time(*m),
            off_ms == spec_off_time(*m),
            acts@ == repeat_pulses(on_ms, off_ms, i as nat),
        decreases size - i,
    {
        acts.push(BlinkAction::SetStatus(true));
        acts.push(BlinkAction::Sleep(on_ms));
        acts.push(BlinkAction::SetStatus(false));
        acts.push(BlinkAction::Sleep(off_ms));
        i = i + 1;
        proof {
            assert(acts@ =~= repeat_pulses(on_ms, off_ms, (i - 1) as nat) + pulse_seq(
                on_ms,
                off_ms,
            ));
        }
    }
    match m.group_separator() {
        Some(ms) => {
            acts.push(BlinkAction::Sleep(ms));
        },
        None => {},
    }
    proof {
        assert(acts@ =~= cycle_spec(*m));
    }
    acts
}

/// The mode a button snapshot selects: exactly one pressed button maps to
/// its mode; zero or several pressed buttons select nothing and the blinker
/// keeps its current mode.
pub open spec fn spec_mode_for_buttons(b1: bool, b2: bool, b3: bool, b4: bool) -> Option<
    BlinkInterval,
> {
    if b1 && !b2 && !b3 && !b4 {
        Some(BlinkInterval::Normal)
    } else if !b1 && b2 && !b3 && !b4 {
        Some(BlinkInterval::Waiting)
    } else if !b1 && !b2 && b3 && !b4 {
        Some(BlinkInterval::Error(3))
    } else if !b1 && !b2 && !b3 && b4 {
        Some(BlinkInterval::Error(5))
    } else {
        None
    }
}

/// Translate a 4-bit pressed/released snapshot (true = pressed) into a mode
/// change to send on the mode channel, or `None` to ignore the snapshot.
pub fn mode_for_buttons(b1: bool, b2: bool, b3: bool, b4: bool) -> (r: Option<BlinkInterval>)
    ensures
        r == spec_mode_for_buttons(b1, b2, b3, b4),
{
    match (b1, b2, b3, b4) {
        (true, false, false, false) => Some(BlinkInterval::Normal),
        (false, true, false, false) => Some(BlinkInterval::Waiting),
        (false, false, true, false) => Some(BlinkInterval::Error(3)),
        (false, false, false, true) => Some(BlinkInterval::Error(5)),
        _ => None,
    }
}

/// The non-blocking poll at the top of each loop iteration: a pending mode
/// replaces the current one, otherwise the current mode is kept. The blinker
/// never suspends waiting for a mode change.
pub fn next_interval(current: BlinkInterval, pending: Option<BlinkInterval>) -> (r:
    BlinkInterval)
    ensures
        r == (match pending {
            Some(m) => m,
            None => current,
        }),
{
    match pending {
        Some(m) => m,
        None => current,
    }
}

/// One full iteration of the blinker loop: poll for a newer mode, then emit
/// that mode's pulse group and pause. The returned mode is the state carried
/// into the next iteration; the caller performs the actions in order and
/// repeats forever.
pub fn blink_step(current: BlinkInterval, pending: Option<BlinkInterval>) -> (r: (
    BlinkInterval,
    Vec<BlinkAction>,
))
    ensures
        r.0 == (match pending {
            Some(m) => m,
            None => current,
        }),
        r.1@ == cycle_spec(r.0),
{
    let mode = next_interval(current, pending);
    let acts = cycle_actions(&mode);
    (mode, acts)
}

} // verus!
