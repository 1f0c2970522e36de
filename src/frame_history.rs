use vstd::prelude::*;

verus! {

/// Duration the history is seeded with: one sixtieth of a second, in nanoseconds.
pub const SEED_FRAME_NS: u64 = 16_666_666;

/// Sum of a sequence of durations.
pub open spec fn sum_of(s: Seq<u64>) -> int
    decreases s.len(),
{
    if s.len() == 0 {
        0
    } else {
        sum_of(s.drop_last()) + s.last()
    }
}

/// Fixed-capacity ring of the last ten observed frame durations, in nanoseconds.
pub struct FrameHistory {
    durations: [u64; 10],
    cursor: usize,
}

impl FrameHistory {
    /// The stored durations, oldest first.
    pub closed spec fn view(&self) -> Seq<u64> {
        Seq::new(10, |j: int| self.durations@[(self.cursor + j) % 10])
    }

    pub closed spec fn wf(&self) -> bool {
        self.cursor < 10
    }

    /// Mean of the stored durations, truncated to whole nanoseconds.
    pub open spec fn smoothed_spec(&self) -> int {
        sum_of(self@) / 10
    }

    /// A history holding ten copies of the sixtieth-of-a-second seed.
    pub fn new() -> (r: FrameHistory)
        ensures
            r.wf(),
            r@ == Seq::new(10, |j: int| SEED_FRAME_NS),
    {
        let r = FrameHistory { durations: [SEED_FRAME_NS; 10], cursor: 0 };
        assert(r@ =~= Seq::new(10, |j: int| SEED_FRAME_NS));
        r
    }

    /// Records a new frame duration, evicting the oldest one.
    pub fn push(&mut self, frame_ns: u64)
        requires
            old(self).wf(),
        ensures
            final(self).wf(),
            final(self)@ == old(self)@.drop_first().push(frame_ns),
    {
        let c = self.cursor;
        self.durations[c] = frame_ns;
        self.cursor = if c + 1 == 10 { 0 } else { c + 1 };
        assert(self@ =~= old(self)@.drop_first().push(frame_ns));
    }

    /// Mean of the stored durations in nanoseconds, rounded down.
    pub fn smoothed(&self) -> (r: u64)
        requires
            self.wf(),
        ensures
            r == self.smoothed_spec(),
    {
        let mut total: u128 = 0;
        let mut j: usize = 0;
        while j < 10
            invariant
                self.wf(),
                j <= 10,
                total == sum_of(self@.subrange(0, j as int)),
                total <= j * (u64::MAX as int),
            decreases 10 - j,
        {
            let k = (self.cursor + j) % 10;
            assert(self@.subrange(0, j + 1).drop_last() =~= self@.subrange(0, j as int));
            total = total + self.durations[k] as u128;
            j = j + 1;
        }
        assert(self@.subrange(0, 10) =~= self@);
        (total / 10) as u64
    }
}

} // verus!
