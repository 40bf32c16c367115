//! A square wave on an on/off output, told step by step: switch on, wait half
//! a period, switch off, wait half a period, for a number of whole periods.
//! The buzzer's tones and the LED's error blinking are such waves.

use vstd::prelude::*;

verus! {

/// One step of a square wave: switch the output on, switch it off, or wait
/// for a number of milliseconds.
#[derive(Clone, Copy, PartialEq, Eq, Structural, Debug)]
pub enum PulseStep {
    On,
    Off,
    Wait(u32),
}

/// Step `k` of a square wave whose half period is `half_period_ms`.
pub open spec fn pulse_step_at(half_period_ms: u32, k: int) -> PulseStep {
    if k % 4 == 0 {
        PulseStep::On
    } else if k % 4 == 2 {
        PulseStep::Off
    } else {
        PulseStep::Wait(half_period_ms)
    }
}

/// All the steps of `cycles` whole periods: on, wait, off, wait, and so on.
pub open spec fn pulse_steps(cycles: nat, half_period_ms: u32) -> Seq<PulseStep> {
    Seq::new(4 * cycles, |k: int| pulse_step_at(half_period_ms, k))
}

/// The time that a sequence of steps spends waiting, in milliseconds.
pub open spec fn total_wait(steps: Seq<PulseStep>) -> nat
    decreases steps.len(),
{
    if steps.len() == 0 {
        0
    } else {
        total_wait(steps.drop_last()) + match steps.last() {
            PulseStep::Wait(ms) => ms as nat,
            _ => 0,
        }
    }
}

/// Whether the output is on after `steps`, when it was `on` before them.
pub open spec fn on_after(on: bool, steps: Seq<PulseStep>) -> bool
    decreases steps.len(),
{
    if steps.len() == 0 {
        on
    } else {
        match steps.last() {
            PulseStep::On => true,
            PulseStep::Off => false,
            PulseStep::Wait(_) => on_after(on, steps.drop_last()),
        }
    }
}

/// The time, in milliseconds, that the output spends on during the waits of
/// `steps`, when it was `on` before them: a wait counts when the output is
/// on once the wait has been carried out.
pub open spec fn time_on(on: bool, steps: Seq<PulseStep>) -> nat
    decreases steps.len(),
{
    if steps.len() == 0 {
        0
    } else {
        time_on(on, steps.drop_last()) + match steps.last() {
            PulseStep::Wait(ms) => if on_after(on, steps) {
                ms as nat
            } else {
                0
            },
            _ => 0,
        }
    }
}

/// The steps of a square wave that are still to come.
pub struct PulseTrain {
    cycles: u32,
    half_period_ms: u32,
    emitted: u64,
}

impl PulseTrain {
    #[verifier::type_invariant]
    spec fn inv(self) -> bool {
        self.emitted <= 4 * self.cycles
    }

    /// The steps still to come.
    pub closed spec fn remaining(self) -> Seq<PulseStep> {
        Seq::new(
            (4 * self.cycles - self.emitted) as nat,
            |i: int| pulse_step_at(self.half_period_ms, self.emitted + i),
        )
    }
}

impl View for PulseTrain {
    type V = Seq<PulseStep>;

    closed spec fn view(&self) -> Seq<PulseStep> {
        self.remaining()
    }
}

impl PulseTrain {
    /// The wave of `cycles` whole periods of `2 * half_period_ms` milliseconds.
    pub fn new(cycles: u32, half_period_ms: u32) -> (train: PulseTrain)
        ensures
            train@ == pulse_steps(cycles as nat, half_period_ms),
    {
        let train = PulseTrain { cycles, half_period_ms, emitted: 0 };
        assert(train@ =~= pulse_steps(cycles as nat, half_period_ms));
        train
    }

    /// Hands out the next step, or `None` once the wave is over.
    pub fn next_step(&mut self) -> (step: Option<PulseStep>)
        ensures
            old(self)@.len() == 0 ==> step is None && final(self)@ == old(self)@,
            old(self)@.len() > 0 ==> step == Some(old(self)@[0]) && final(self)@
                == old(self)@.drop_first(),
    {
        proof {
            use_type_invariant(&*self);
        }
        let total: u64 = 4 * (self.cycles as u64);
        if self.emitted == total {
            assert(self@ =~= Seq::<PulseStep>::empty());
            return None;
        }
        let k = self.emitted;
        let step = if k % 4 == 0 {
            PulseStep::On
        } else if k % 4 == 2 {
            PulseStep::Off
        } else {
            PulseStep::Wait(self.half_period_ms)
        };
        let ghost before = self@;
        self.emitted = k + 1;
        assert(self@ =~= before.drop_first());
        Some(step)
    }

    /// The number of steps still to come.
    pub fn steps_left(&self) -> (n: u64)
        ensures
            n == self@.len(),
    {
        proof {
            use_type_invariant(self);
        }
        4 * (self.cycles as u64) - self.emitted
    }
}

/// A wave of `cycles` whole periods waits `2 * cycles * half_period_ms`
/// milliseconds in all.
pub proof fn lemma_pulse_total_wait(cycles: nat, half_period_ms: u32)
    ensures
        total_wait(pulse_steps(cycles, half_period_ms)) == 2 * cycles * half_period_ms,
    decreases cycles,
{
    if cycles > 0 {
        let c1 = (cycles - 1) as nat;
        lemma_pulse_total_wait(c1, half_period_ms);
        let s = pulse_steps(cycles, half_period_ms);
        let s1 = s.drop_last();
        let s2 = s1.drop_last();
        let s3 = s2.drop_last();
        let s4 = s3.drop_last();
        let n = 4 * cycles;
        assert((n - 1) % 4 == 3 && (n - 2) % 4 == 2 && (n - 3) % 4 == 1 && (n - 4) % 4 == 0);
        assert(s4 =~= pulse_steps(c1, half_period_ms));
        assert(s.last() == PulseStep::Wait(half_period_ms));
        assert(s1.last() == PulseStep::Off);
        assert(s2.last() == PulseStep::Wait(half_period_ms));
        assert(s3.last() == PulseStep::On);
        assert(total_wait(s) == total_wait(s1) + half_period_ms);
        assert(total_wait(s1) == total_wait(s2));
        assert(total_wait(s2) == total_wait(s3) + half_period_ms);
        assert(total_wait(s3) == total_wait(s4));
        assert(2 * c1 * half_period_ms + 2 * half_period_ms == 2 * cycles * half_period_ms)
            by (nonlinear_arith)
            requires
                c1 + 1 == cycles,
        ;
        assert(total_wait(s) == 2 * c1 * half_period_ms + 2 * half_period_ms);
    } else {
        assert(pulse_steps(cycles, half_period_ms).len() == 0);
        assert(2 * cycles * half_period_ms == 0) by (nonlinear_arith)
            requires
                cycles == 0,
        ;
    }
}

/// A wave of at least one period ends by switching off and then waiting.
pub proof fn lemma_last_period(cycles: nat, half_period_ms: u32)
    requires
        cycles >= 1,
    ensures
        pulse_steps(cycles, half_period_ms).last() == PulseStep::Wait(half_period_ms),
        pulse_steps(cycles, half_period_ms).drop_last().last() == PulseStep::Off,
{
    let n = 4 * cycles;
    assert((n - 1) % 4 == 3 && (n - 2) % 4 == 2);
}

/// After a wave of at least one period the output is off, whatever it was
/// before; a wave of no period leaves it as it was.
pub proof fn lemma_pulse_ends_off(on: bool, cycles: nat, half_period_ms: u32)
    ensures
        cycles >= 1 ==> !on_after(on, pulse_steps(cycles, half_period_ms)),
        cycles == 0 ==> on_after(on, pulse_steps(cycles, half_period_ms)) == on,
{
    let s = pulse_steps(cycles, half_period_ms);
    if cycles >= 1 {
        lemma_last_period(cycles, half_period_ms);
        assert(!on_after(on, s.drop_last()));
        assert(on_after(on, s) == on_after(on, s.drop_last()));
    } else {
        assert(s.len() == 0);
    }
}

/// Waiting never switches the output: after any steps, a wait of any length
/// leaves it as it was.
pub proof fn lemma_wait_keeps_output(on: bool, steps: Seq<PulseStep>, ms: u32)
    ensures
        on_after(on, steps.push(PulseStep::Wait(ms))) == on_after(on, steps),
{
    assert(steps.push(PulseStep::Wait(ms)).drop_last() =~= steps);
}

/// In period `k` of a wave the output is on for the whole first wait and off
/// for the whole second one, whatever it was before the wave.
pub proof fn lemma_pulse_period_shape(on: bool, cycles: nat, half_period_ms: u32, k: int)
    requires
        0 <= k < cycles,
    ensures
        on_after(on, pulse_steps(cycles, half_period_ms).take(4 * k + 2)),
        pulse_steps(cycles, half_period_ms)[4 * k + 1] == PulseStep::Wait(half_period_ms),
        !on_after(on, pulse_steps(cycles, half_period_ms).take(4 * k + 4)),
        pulse_steps(cycles, half_period_ms)[4 * k + 3] == PulseStep::Wait(half_period_ms),
{
    let s = pulse_steps(cycles, half_period_ms);
    let a = s.take(4 * k + 2);
    let b = s.take(4 * k + 4);
    assert((4 * k) % 4 == 0 && (4 * k + 1) % 4 == 1 && (4 * k + 2) % 4 == 2 && (4 * k + 3) % 4
        == 3);
    assert(a.last() == PulseStep::Wait(half_period_ms));
    assert(a.drop_last().last() == PulseStep::On);
    assert(on_after(on, a) == on_after(on, a.drop_last()));
    assert(b.last() == PulseStep::Wait(half_period_ms));
    assert(b.drop_last().last() == PulseStep::Off);
    assert(on_after(on, b) == on_after(on, b.drop_last()));
}

/// A wave of `cycles` periods keeps the output on for exactly
/// `cycles * half_period_ms` of its waiting time: half of it.
pub proof fn lemma_pulse_time_on(on: bool, cycles: nat, half_period_ms: u32)
    ensures
        time_on(on, pulse_steps(cycles, half_period_ms)) == cycles * half_period_ms,
    decreases cycles,
{
    if cycles > 0 {
        let c1 = (cycles - 1) as nat;
        lemma_pulse_time_on(on, c1, half_period_ms);
        let s = pulse_steps(cycles, half_period_ms);
        let s1 = s.drop_last();
        let s2 = s1.drop_last();
        let s3 = s2.drop_last();
        let s4 = s3.drop_last();
        let n = 4 * cycles;
        assert((n - 1) % 4 == 3 && (n - 2) % 4 == 2 && (n - 3) % 4 == 1 && (n - 4) % 4 == 0);
        assert(s4 =~= pulse_steps(c1, half_period_ms));
        assert(s.last() == PulseStep::Wait(half_period_ms));
        assert(s1.last() == PulseStep::Off);
        assert(s2.last() == PulseStep::Wait(half_period_ms));
        assert(s3.last() == PulseStep::On);
        assert(!on_after(on, s1));
        assert(on_after(on, s) == on_after(on, s1));
        assert(on_after(on, s3));
        assert(on_after(on, s2) == on_after(on, s3));
        assert(time_on(on, s) == time_on(on, s1));
        assert(time_on(on, s1) == time_on(on, s2));
        assert(time_on(on, s2) == time_on(on, s3) + half_period_ms);
        assert(time_on(on, s3) == time_on(on, s4));
        assert(c1 * half_period_ms + half_period_ms == cycles * half_period_ms)
            by (nonlinear_arith)
            requires
                c1 + 1 == cycles,
        ;
    } else {
        assert(pulse_steps(cycles, half_period_ms).len() == 0);
        assert(cycles * half_period_ms == 0) by (nonlinear_arith)
            requires
                cycles == 0,
        ;
    }
}

} // verus!
