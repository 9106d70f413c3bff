use vstd::prelude::*;

verus! {

/// A fixed-period accumulator clock: wall-clock time is poured in, and
/// full periods are drained one by one as ticks.
#[derive(Clone, Copy, Debug, PartialEq, Eq, Structural)]
pub struct Clock {
    pub period_us: u64,
    pub acc_us: u64,
}

impl Clock {
    pub open spec fn wf(self) -> bool {
        1 <= self.period_us <= 1_000_000_000_000
    }

    pub fn new(period_us: u64) -> (c: Clock)
        requires
            1 <= period_us <= 1_000_000_000_000,
        ensures
            c == (Clock { period_us, acc_us: 0 }),
            c.wf(),
    {
        Clock { period_us, acc_us: 0 }
    }

    /// A clock that ticks `n` times each second.
    pub fn time_per_second(n: u64) -> (c: Clock)
        requires
            1 <= n <= 1_000_000,
        ensures
            c == (Clock { period_us: (1_000_000 as int / n as int) as u64, acc_us: 0 }),
            c.wf(),
    {
        proof {
            assert(1 <= 1_000_000 as int / n as int <= 1_000_000) by (nonlinear_arith)
                requires
                    1 <= (n as int) <= 1_000_000,
            ;
        }
        Clock { period_us: 1_000_000 / n, acc_us: 0 }
    }

    /// Pour elapsed wall-clock time in, saturating at the counter's top.
    pub open spec fn spec_add_time(self, delta_us: u64) -> Clock {
        Clock {
            period_us: self.period_us,
            acc_us: if self.acc_us + delta_us > u64::MAX {
                u64::MAX
            } else {
                (self.acc_us + delta_us) as u64
            },
        }
    }

    pub fn add_time(&mut self, delta_us: u64)
        ensures
            *final(self) == old(self).spec_add_time(delta_us),
    {
        if delta_us > u64::MAX - self.acc_us {
            self.acc_us = u64::MAX;
        } else {
            self.acc_us = self.acc_us + delta_us;
        }
    }

    /// Drain one period if a full one has accumulated; the result says
    /// whether a tick is due.
    pub fn tick(&mut self) -> (due: bool)
        requires
            old(self).wf(),
        ensures
            final(self).wf(),
            final(self).period_us == old(self).period_us,
            due == (old(self).acc_us >= old(self).period_us),
            due ==> final(self).acc_us == old(self).acc_us - old(self).period_us,
            !due ==> final(self).acc_us == old(self).acc_us,
    {
        if self.acc_us >= self.period_us {
            self.acc_us = self.acc_us - self.period_us;
            true
        } else {
            false
        }
    }

    /// Drain every accumulated period at once and say how many there
    /// were; what remains is less than one period.
    pub fn exhaust(&mut self) -> (n: u64)
        requires
            old(self).wf(),
        ensures
            final(self).wf(),
            final(self).period_us == old(self).period_us,
            n == old(self).acc_us / old(self).period_us,
            final(self).acc_us == old(self).acc_us % old(self).period_us,
            final(self).acc_us < final(self).period_us,
    {
        let n: u64 = self.acc_us / self.period_us;
        self.acc_us = self.acc_us % self.period_us;
        n
    }

    /// How far into the current period the clock is, per-mille.
    pub fn fraction_mil(&self) -> (r: u64)
        requires
            self.wf(),
            self.acc_us < self.period_us,
        ensures
            r == ((self.acc_us * 1000) as int) / (self.period_us as int),
            r < 1000,
    {
        proof {
            assert((self.acc_us as int) * 1000 / (self.period_us as int) < 1000) by (
            nonlinear_arith)
                requires
                    0 <= (self.acc_us as int) < (self.period_us as int),
            ;
        }
        (self.acc_us * 1000) / self.period_us
    }
}

} // verus!
