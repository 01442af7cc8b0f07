//! The HMAC benchmark driver: feeds a digest engine a fixed number of data
//! rounds, then runs the digest.
//!
//! The engine, its buffers and the timer are outside this library: the
//! caller owns them, performs each returned action, and reports every
//! data-round completion back through [`HmacBench::add_data_done`].

use vstd::prelude::*;

verus! {

/// What the benchmark asks the digest engine to do next.
#[derive(Copy, Clone, Debug, PartialEq, Eq, Structural)]
pub enum BenchAction {
    /// Feed the data slice to the engine once more.
    AddData,
    /// All rounds are in: run the digest.
    Run,
}

/// The benchmark's state: how many data rounds to feed, and how many the
/// engine has confirmed.
pub struct HmacBench {
    pub add_data_rounds: usize,
    pub add_data_cnt: usize,
    pub started: bool,
}

impl HmacBench {
    /// The confirmed rounds never exceed the requested ones.
    pub open spec fn wf(self) -> bool {
        self.add_data_cnt <= self.add_data_rounds
    }

    /// The pending decision: more data while rounds remain, else run.
    pub open spec fn spec_next_data_action(self) -> BenchAction {
        if self.add_data_cnt < self.add_data_rounds {
            BenchAction::AddData
        } else {
            BenchAction::Run
        }
    }

    pub fn new(add_data_rounds: usize) -> (r: HmacBench)
        ensures
            r.add_data_rounds == add_data_rounds,
            r.add_data_cnt == 0,
            !r.started,
            r.wf(),
    {
        HmacBench { add_data_rounds, add_data_cnt: 0, started: false }
    }

    /// Starts one benchmark run: the caller notes the time and sets
    /// HMAC-SHA256 mode with its key, then performs the returned action.
    pub fn start(&mut self) -> (r: BenchAction)
        requires
            !old(self).started,
            old(self).wf(),
        ensures
            *final(self) == (HmacBench { started: true, ..*old(self) }),
            final(self).wf(),
            r == final(self).spec_next_data_action(),
    {
        self.started = true;
        self.add_data_iter()
    }

    /// Decides the next step for the engine.
    pub fn add_data_iter(&self) -> (r: BenchAction)
        ensures
            r == self.spec_next_data_action(),
    {
        if self.add_data_cnt < self.add_data_rounds {
            BenchAction::AddData
        } else {
            BenchAction::Run
        }
    }

    /// The engine confirmed one data round: count it and decide the next
    /// step.
    pub fn add_data_done(&mut self) -> (r: BenchAction)
        requires
            old(self).started,
            old(self).wf(),
            old(self).add_data_cnt < old(self).add_data_rounds,
        ensures
            *final(self) == (HmacBench {
                add_data_cnt: (old(self).add_data_cnt + 1) as usize,
                ..*old(self)
            }),
            final(self).wf(),
            r == final(self).spec_next_data_action(),
    {
        self.add_data_cnt = self.add_data_cnt + 1;
        self.add_data_iter()
    }
}

} // verus!
