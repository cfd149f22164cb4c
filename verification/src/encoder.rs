//! The signal encoder: renders a status code as an indefinitely repeating
//! on/off pulse schedule on one binary output.
//!
//! One repetition pulses the code's bits from least-significant to
//! most-significant: the output is driven active and held for the long
//! duration if the bit is set, the short duration otherwise, then driven
//! inactive and held for the inter-pulse gap. After the last pulse the
//! output additionally rests inactive for the repeat gap, so repetitions
//! stay distinguishable, and the schedule starts over. It never ends: the
//! encoder is entered only on unrecoverable faults and monopolises the
//! device until a power cycle.
//!
//! Timing convention used throughout: long pulse 1000 ms, short pulse
//! 500 ms, inter-pulse gap 100 ms, repeat gap 3000 ms, which keeps the
//! required strict ordering `gap < short < long < repeat`.
//!
//! The encoder itself is a step machine: each step says which level to
//! drive the output to and how long to hold it. The caller owns the
//! physical pin and timer, performs each step, and loops forever.

use crate::status::StatusCode;
use vstd::prelude::*;

verus! {

/// Hold time of a pulse for a set bit, in milliseconds.
pub const LONG_PULSE_MS: u32 = 1000;

/// Hold time of a pulse for a clear bit, in milliseconds.
pub const SHORT_PULSE_MS: u32 = 500;

/// Inactive hold time between two pulses of one repetition, in milliseconds.
pub const PULSE_GAP_MS: u32 = 100;

/// Additional inactive hold time between repetitions, in milliseconds.
pub const REPEAT_GAP_MS: u32 = 3000;

/// Bit `i` of `code`, the bit pulsed `i`-th in every repetition.
pub open spec fn spec_bit(code: u8, i: u8) -> bool {
    (code >> i) & 1 == 1
}

/// How many steps one repetition of the schedule takes: an active and an
/// inactive step per bit, plus the closing rest step.
pub open spec fn steps_per_cycle(bit_length: usize) -> int {
    2 * bit_length + 1
}

/// Whether the step at `pos` drives the output active. Exactly the even
/// positions before the closing rest do; every pulse is followed by an
/// inactive step.
pub open spec fn pos_is_active(bit_length: usize, pos: int) -> bool {
    pos < 2 * bit_length && pos % 2 == 0
}

/// The action taken at step `pos` of a repetition: the output level to
/// drive and the time to hold it.
pub open spec fn action_at(code: u8, bit_length: usize, pos: int) -> PulseAction
    recommends
        1 <= bit_length <= 8,
        0 <= pos < steps_per_cycle(bit_length),
{
    if pos_is_active(bit_length, pos) {
        PulseAction {
            active: true,
            hold_ms: if spec_bit(code, (pos / 2) as u8) {
                LONG_PULSE_MS
            } else {
                SHORT_PULSE_MS
            },
        }
    } else if pos < 2 * bit_length {
        PulseAction { active: false, hold_ms: PULSE_GAP_MS }
    } else {
        PulseAction { active: false, hold_ms: REPEAT_GAP_MS }
    }
}

/// The step position after `pos`: the schedule wraps back to its first
/// pulse after the closing rest, and never stops.
pub open spec fn next_pos(bit_length: usize, pos: int) -> int {
    if pos == 2 * bit_length {
        0
    } else {
        pos + 1
    }
}

/// The position reached from `pos` after `n` steps.
pub open spec fn pos_after(bit_length: usize, pos: int, n: nat) -> int
    decreases n,
{
    if n == 0 {
        pos
    } else {
        next_pos(bit_length, pos_after(bit_length, pos, (n - 1) as nat))
    }
}

/// How many of the first `n` steps of a repetition drive the output active.
pub open spec fn active_steps_in_prefix(bit_length: usize, n: int) -> int
    decreases n,
{
    if n <= 0 {
        0
    } else {
        active_steps_in_prefix(bit_length, n - 1) + if pos_is_active(bit_length, n - 1) {
            1int
        } else {
            0int
        }
    }
}

/// One instruction to the caller: drive the output to `active` (through the
/// configured polarity) and hold that level for `hold_ms` milliseconds.
#[derive(Clone, Copy, Debug, PartialEq, Eq, Structural)]
pub struct PulseAction {
    pub active: bool,
    pub hold_ms: u32,
}

/// The signal encoder's whole state: the code being blinked, how many of
/// its low bits are meaningful, and the current step position within the
/// repetition.
pub struct SignalEncoder {
    pub code: u8,
    pub bit_length: usize,
    pub pos: usize,
}

impl SignalEncoder {
    /// The position always stays within one repetition, and the bit length
    /// within its allowed band.
    pub open spec fn wf(self) -> bool {
        &&& 1 <= self.bit_length <= 8
        &&& self.pos <= 2 * self.bit_length
    }

    /// A fresh encoder, about to emit the first pulse of `code`.
    pub fn new(code: u8, bit_length: usize) -> (e: SignalEncoder)
        requires
            1 <= bit_length <= 8,
        ensures
            e.wf(),
            e.code == code,
            e.bit_length == bit_length,
            e.pos == 0,
    {
        SignalEncoder { code, bit_length, pos: 0 }
    }

    /// The encoder for a fault's blink pattern.
    pub fn for_status(status: &StatusCode) -> (e: SignalEncoder)
        ensures
            e.wf(),
            e.code == status.spec_code(),
            e.bit_length == 4,
            e.pos == 0,
    {
        SignalEncoder { code: status.code(), bit_length: 4, pos: 0 }
    }

    /// Advance by one step. This is always possible from a well-formed
    /// state and leaves a well-formed state, so a caller can keep stepping
    /// forever; the encoder never runs out of schedule.
    pub fn step(&mut self) -> (r: PulseAction)
        requires
            old(self).wf(),
        ensures
            final(self).wf(),
            final(self).code == old(self).code,
            final(self).bit_length == old(self).bit_length,
            r == action_at(old(self).code, old(self).bit_length, old(self).pos as int),
            final(self).pos as int == next_pos(old(self).bit_length, old(self).pos as int),
    {
        let r: PulseAction = if self.pos < 2 * self.bit_length {
            if self.pos % 2 == 0 {
                let idx: u8 = (self.pos / 2) as u8;
                if ((self.code >> idx) & 1) == 1 {
                    PulseAction { active: true, hold_ms: LONG_PULSE_MS }
                } else {
                    PulseAction { active: true, hold_ms: SHORT_PULSE_MS }
                }
            } else {
                PulseAction { active: false, hold_ms: PULSE_GAP_MS }
            }
        } else {
            PulseAction { active: false, hold_ms: REPEAT_GAP_MS }
        };
        if self.pos == 2 * self.bit_length {
            self.pos = 0;
        } else {
            self.pos = self.pos + 1;
        }
        r
    }
}

/// The pulse pattern of a code: one boolean per meaningful bit, index 0
/// being the least-significant bit, pulsed first.
pub fn pulse_pattern(code: u8, bit_length: usize) -> (r: Vec<bool>)
    requires
        1 <= bit_length <= 8,
    ensures
        r@.len() == bit_length,
        forall|j: int| 0 <= j < bit_length ==> r@[j] == spec_bit(code, j as u8),
{
    let mut r: Vec<bool> = Vec::new();
    let mut i: usize = 0;
    while i < bit_length
        invariant
            i <= bit_length,
            bit_length <= 8,
            r@.len() == i,
            forall|j: int| 0 <= j < i ==> r@[j] == spec_bit(code, j as u8),
        decreases bit_length - i,
    {
        let idx: u8 = i as u8;
        r.push(((code >> idx) & 1) == 1);
        i = i + 1;
    }
    r
}

/// The pulse durations of one repetition: duration `i` is the hold time of
/// pulse `i`, long exactly when bit `i` of the code is set.
pub fn pulse_durations(code: u8, bit_length: usize) -> (r: Vec<u32>)
    requires
        1 <= bit_length <= 8,
    ensures
        r@.len() == bit_length,
        forall|j: int|
            0 <= j < bit_length ==> r@[j] == (if spec_bit(code, j as u8) {
                LONG_PULSE_MS
            } else {
                SHORT_PULSE_MS
            }),
{
    let mut r: Vec<u32> = Vec::new();
    let mut i: usize = 0;
    while i < bit_length
        invariant
            i <= bit_length,
            bit_length <= 8,
            r@.len() == i,
            forall|j: int|
                0 <= j < i ==> r@[j] == (if spec_bit(code, j as u8) {
                    LONG_PULSE_MS
                } else {
                    SHORT_PULSE_MS
                }),
        decreases bit_length - i,
    {
        let idx: u8 = i as u8;
        if ((code >> idx) & 1) == 1 {
            r.push(LONG_PULSE_MS);
        } else {
            r.push(SHORT_PULSE_MS);
        }
        i = i + 1;
    }
    r
}

/// Pulse `i` of every repetition happens at step `2 * i`, drives the output
/// active, and holds it for the long duration exactly when bit `i` of the
/// code is set.
pub proof fn lemma_pulse_shape(code: u8, bit_length: usize, i: int)
    requires
        1 <= bit_length <= 8,
        0 <= i < bit_length,
    ensures
        action_at(code, bit_length, 2 * i).active,
        spec_bit(code, i as u8) ==> action_at(code, bit_length, 2 * i).hold_ms == LONG_PULSE_MS,
        !spec_bit(code, i as u8) ==> action_at(code, bit_length, 2 * i).hold_ms == SHORT_PULSE_MS,
{
}

/// Between two consecutive pulses of one repetition the output rests
/// inactive for exactly the inter-pulse gap; between the last pulse of a
/// repetition and the first pulse of the next it rests inactive for the
/// inter-pulse gap plus the repeat gap, strictly longer than the gap
/// within a repetition.
pub proof fn lemma_inter_pulse_gaps(code: u8, bit_length: usize, i: int)
    requires
        1 <= bit_length <= 8,
        0 <= i < bit_length,
    ensures
        !action_at(code, bit_length, 2 * i + 1).active,
        action_at(code, bit_length, 2 * i + 1).hold_ms == PULSE_GAP_MS,
        i + 1 < bit_length ==> action_at(code, bit_length, 2 * i + 2).active,
        i + 1 == bit_length ==> {
            &&& !action_at(code, bit_length, 2 * i + 2).active
            &&& action_at(code, bit_length, 2 * i + 2).hold_ms == REPEAT_GAP_MS
            &&& next_pos(bit_length, 2 * i + 2) == 0
            &&& action_at(code, bit_length, 0).active
            &&& PULSE_GAP_MS + REPEAT_GAP_MS > PULSE_GAP_MS
        },
{
}

/// After every step that drives the output active, the immediately
/// following step drives it inactive: a finite simulation of any length
/// sees the output return to the inactive level after every active one.
pub proof fn lemma_active_step_followed_by_inactive(bit_length: usize, pos: int)
    requires
        1 <= bit_length <= 8,
        0 <= pos <= 2 * bit_length,
        pos_is_active(bit_length, pos),
    ensures
        !pos_is_active(bit_length, next_pos(bit_length, pos)),
{
}

/// Stepping never leaves the repetition's positions, whatever the start.
pub proof fn lemma_pos_after_in_range(bit_length: usize, pos: int, n: nat)
    requires
        1 <= bit_length <= 8,
        0 <= pos <= 2 * bit_length,
    ensures
        0 <= pos_after(bit_length, pos, n) <= 2 * bit_length,
    decreases n,
{
    if n > 0 {
        lemma_pos_after_in_range(bit_length, pos, (n - 1) as nat);
    }
}

/// Taking `a + b` steps is taking `a` steps and then `b` more.
pub proof fn lemma_pos_after_add(bit_length: usize, pos: int, a: nat, b: nat)
    ensures
        pos_after(bit_length, pos, a + b) == pos_after(
            bit_length,
            pos_after(bit_length, pos, a),
            b,
        ),
    decreases b,
{
    if b > 0 {
        lemma_pos_after_add(bit_length, pos, a, (b - 1) as nat);
    }
}

/// Within one repetition the schedule just walks forward: the first
/// `2 * bit_length` steps from position 0 visit the positions in order.
pub proof fn lemma_pos_after_prefix(bit_length: usize, n: nat)
    requires
        1 <= bit_length <= 8,
        n <= 2 * bit_length,
    ensures
        pos_after(bit_length, 0, n) == n,
    decreases n,
{
    if n > 0 {
        lemma_pos_after_prefix(bit_length, (n - 1) as nat);
    }
}

/// The schedule returns to its starting position after exactly one
/// repetition's worth of steps.
pub proof fn lemma_cycle_restarts(bit_length: usize)
    requires
        1 <= bit_length <= 8,
    ensures
        pos_after(bit_length, 0, steps_per_cycle(bit_length) as nat) == 0,
{
    lemma_pos_after_prefix(bit_length, (2 * bit_length) as nat);
}

/// The encoder never terminates: the schedule revisits its starting
/// position after every repetition, indefinitely, however many repetitions
/// have gone by.
pub proof fn lemma_cycles_indefinitely(bit_length: usize, k: nat)
    requires
        1 <= bit_length <= 8,
    ensures
        pos_after(bit_length, 0, k * steps_per_cycle(bit_length) as nat) == 0,
    decreases k,
{
    let s = steps_per_cycle(bit_length) as nat;
    if k == 0 {
        assert(k * s == 0) by (nonlinear_arith)
            requires
                k == 0,
        ;
    } else {
        lemma_cycles_indefinitely(bit_length, (k - 1) as nat);
        assert(k * s == (k - 1) as nat * s + s) by (nonlinear_arith)
            requires
                k >= 1,
        ;
        lemma_pos_after_add(bit_length, 0, (k - 1) as nat * s, s);
        lemma_cycle_restarts(bit_length);
    }
}

/// How many of the first `n` schedule steps are pulses: every other step
/// until the pulses run out, none during the closing rest.
pub proof fn lemma_active_steps_count(bit_length: usize, n: int)
    requires
        1 <= bit_length <= 8,
        0 <= n <= 2 * bit_length,
    ensures
        active_steps_in_prefix(bit_length, n) == (n + 1) / 2,
    decreases n,
{
    if n > 0 {
        lemma_active_steps_count(bit_length, n - 1);
    }
}

/// One repetition of the schedule contains exactly `bit_length` pulses:
/// the outer loop revisits its start after precisely that many.
pub proof fn lemma_pulses_per_cycle(bit_length: usize)
    requires
        1 <= bit_length <= 8,
    ensures
        active_steps_in_prefix(bit_length, steps_per_cycle(bit_length)) == bit_length,
{
    lemma_active_steps_count(bit_length, 2 * bit_length);
}

/// The polarity of the bound output: which logic level lights the physical
/// indicator. Kept explicit so that a rewired (active-high) indicator only
/// changes this value, never the encoder.
#[derive(Clone, Copy, Debug, PartialEq, Eq, Structural)]
pub struct OutputPolarity {
    pub active_low: bool,
}

impl OutputPolarity {
    /// The logic level that drives the indicator to `active`.
    pub fn level_for(&self, active: bool) -> (level: bool)
        ensures
            level == (active != self.active_low),
    {
        if self.active_low {
            !active
        } else {
            active
        }
    }

    /// Whether a logic level read back from the output means "lit".
    pub fn active_from_level(&self, level: bool) -> (r: bool)
        ensures
            r == (level != self.active_low),
    {
        if self.active_low {
            !level
        } else {
            level
        }
    }
}

/// Driving the output to a state and reading it back through the same
/// polarity yields that state: the inversion is consistent both ways.
pub proof fn lemma_polarity_round_trip(p: OutputPolarity, active: bool)
    ensures
        ((active != p.active_low) != p.active_low) == active,
{
}

} // verus!
