use vstd::prelude::*;

verus! {

/// The calls that change a timer.
#[derive(Debug, Clone, Copy, PartialEq, Eq, Structural)]
pub enum TimerCall {
    Tick,
    Step,
    SetDue,
    Reset,
}

/// A step counter that becomes due once it reaches its delay.
#[derive(Debug, Clone, Copy, PartialEq, Eq)]
pub struct Timer {
    delay: u8,
    step: u8,
}

impl Timer {
    pub closed spec fn spec_delay(self) -> u8 {
        self.delay
    }

    pub closed spec fn spec_step(self) -> u8 {
        self.step
    }

    pub open spec fn spec_is_due(self) -> bool {
        self.spec_step() >= self.spec_delay()
    }

    /// The timer with the same delay and the counter at `step`.
    pub closed spec fn with_step(self, step: u8) -> Timer {
        Timer { delay: self.delay, step }
    }

    /// A timer is its delay and its counter.
    pub proof fn lemma_with_step(self, step: u8)
        ensures
            self.with_step(step).spec_delay() == self.spec_delay(),
            self.with_step(step).spec_step() == step,
            self.with_step(self.spec_step()) == self,
    {
    }

    /// The counter after one tick: one more, saturating.
    pub open spec fn next_step(self) -> u8 {
        if self.spec_step() < u8::MAX {
            (self.spec_step() + 1) as u8
        } else {
            u8::MAX
        }
    }

    /// The timer after the call `call`.
    pub open spec fn after_call(self, call: TimerCall) -> Timer {
        match call {
            TimerCall::Tick => self.with_step(self.next_step()),
            TimerCall::Step => if self.next_step() >= self.spec_delay() {
                self.with_step(0)
            } else {
                self.with_step(self.next_step())
            },
            TimerCall::SetDue => self.with_step(u8::MAX),
            TimerCall::Reset => self.with_step(0),
        }
    }

    /// Create a new timer with the given delay
    pub fn new(delay: u8) -> (t: Self)
        ensures
            t.spec_delay() == delay,
            t.spec_step() == 0,
            t == Timer::fresh(delay),
    {
        Self { delay, step: 0 }
    }

    /// Create a new timer with unspecified delay
    pub fn infinite() -> (t: Self)
        ensures
            t.spec_delay() == u8::MAX,
            t.spec_step() == 0,
    {
        Self::new(u8::MAX)
    }

    /// Init timer at a specific step
    pub fn start_at(self, step: u8) -> (t: Self)
        ensures
            t.spec_delay() == self.spec_delay(),
            t.spec_step() == step,
    {
        Self { delay: self.delay, step }
    }

    /// Read the current counter value
    pub fn get(&self) -> (s: u8)
        ensures
            s == self.spec_step(),
    {
        self.step
    }

    /// Return the configured delay
    pub fn delay(&self) -> (d: u8)
        ensures
            d == self.spec_delay(),
    {
        self.delay
    }

    /// Increase by one but do nothing else
    pub fn tick(&mut self)
        ensures
            final(self).spec_delay() == old(self).spec_delay(),
            final(self).spec_step() == if old(self).spec_step() < u8::MAX {
                (old(self).spec_step() + 1) as u8
            } else {
                u8::MAX
            },
            *final(self) == old(self).after_call(TimerCall::Tick),
    {
        self.step = self.step.saturating_add(1);
    }

    /// Returns true if the timer is due
    pub fn is_due(&self) -> (r: bool)
        ensures
            r == self.spec_is_due(),
    {
        self.step >= self.delay
    }

    /// Set the timer to be due
    pub fn set_due(&mut self)
        ensures
            final(self).spec_delay() == old(self).spec_delay(),
            final(self).spec_step() == u8::MAX,
            *final(self) == old(self).after_call(TimerCall::SetDue),
    {
        self.step = u8::MAX;
    }

    /// Reset the timer interval to start over
    pub fn reset(&mut self)
        ensures
            final(self).spec_delay() == old(self).spec_delay(),
            final(self).spec_step() == 0,
            *final(self) == old(self).after_call(TimerCall::Reset),
    {
        self.step = 0;
    }

    /// Increase by one, if due reset timer and return true
    pub fn step(&mut self) -> (due: bool)
        ensures
            final(self).spec_delay() == old(self).spec_delay(),
            ({
                let next = if old(self).spec_step() < u8::MAX {
                    (old(self).spec_step() + 1) as u8
                } else {
                    u8::MAX
                };
                &&& due == (next >= old(self).spec_delay())
                &&& final(self).spec_step() == if due {
                    0
                } else {
                    next
                }
            }),
            *final(self) == old(self).after_call(TimerCall::Step),
    {
        self.tick();
        if self.is_due() {
            self.reset();
            true
        } else {
            false
        }
    }
}

impl Timer {
    /// A new timer with delay `delay`.
    pub closed spec fn fresh(delay: u8) -> Timer {
        Timer { delay, step: 0 }
    }

    /// A new timer has its delay and a zero counter.
    pub proof fn lemma_fresh(delay: u8)
        ensures
            Timer::fresh(delay).spec_delay() == delay,
            Timer::fresh(delay).spec_step() == 0,
    {
    }
}

/// The timer `t` after the calls `calls`, in order.
pub open spec fn after_calls(t: Timer, calls: Seq<TimerCall>) -> Timer
    decreases calls.len(),
{
    if calls.len() == 0 {
        t
    } else {
        after_calls(t, calls.drop_last()).after_call(calls.last())
    }
}

/// The delay of a timer never changes, whatever calls are made.
pub proof fn lemma_delay_kept(t: Timer, calls: Seq<TimerCall>)
    ensures
        after_calls(t, calls).spec_delay() == t.spec_delay(),
    decreases calls.len(),
{
    if calls.len() > 0 {
        let before = after_calls(t, calls.drop_last());
        lemma_delay_kept(t, calls.drop_last());
        before.lemma_with_step(before.next_step());
        before.lemma_with_step(0);
        before.lemma_with_step(u8::MAX);
    }
}

/// A timer counts its ticks: `k` ticks (at most 255) from a new timer leave
/// the counter at `k`.
pub proof fn lemma_ticks_counted(delay: u8, k: nat)
    requires
        k <= u8::MAX,
    ensures
        after_calls(Timer::fresh(delay), Seq::new(k, |i: int| TimerCall::Tick)).spec_step() == k,
        after_calls(Timer::fresh(delay), Seq::new(k, |i: int| TimerCall::Tick)).spec_delay() == delay,
    decreases k,
{
    Timer::lemma_fresh(delay);
    let calls = Seq::new(k, |i: int| TimerCall::Tick);
    if k > 0 {
        lemma_ticks_counted(delay, (k - 1) as nat);
        assert(calls.drop_last() =~= Seq::new((k - 1) as nat, |i: int| TimerCall::Tick));
        let before = after_calls(Timer::fresh(delay), calls.drop_last());
        before.lemma_with_step(before.next_step());
    }
}

} // verus!
