//! The bounded history of prices: a sliding window over the samples that the
//! ledger has accepted, oldest first.
//!
//! The history is spoken of as the sequence of the parts of its samples,
//! each a value and a fraction.

use crate::sample::{Sample, PARTS_PER_MILLION};
use std::collections::VecDeque;
use vstd::prelude::*;

verus! {

/// How many samples the history keeps.
pub const CAPACITY: usize = 10;

/// The window after one more sample: the sample stands at the tail, and a
/// full window has given up its head for it.
pub open spec fn appended(window: Seq<(u64, u32)>, sample: (u64, u32)) -> Seq<(u64, u32)> {
    if window.len() == CAPACITY {
        window.drop_first().push(sample)
    } else {
        window.push(sample)
    }
}

/// The window that is left when the samples are appended one by one, in
/// their order, to an empty history.
pub open spec fn replay(samples: Seq<(u64, u32)>) -> Seq<(u64, u32)>
    decreases samples.len(),
{
    if samples.len() == 0 {
        Seq::empty()
    } else {
        appended(replay(samples.drop_last()), samples.last())
    }
}

/// The last `CAPACITY` of the samples, or all of them where they are fewer.
pub open spec fn last_window(samples: Seq<(u64, u32)>) -> Seq<(u64, u32)> {
    if samples.len() <= CAPACITY {
        samples
    } else {
        samples.skip(samples.len() - CAPACITY)
    }
}

/// Whether every fraction is below one whole, so that each pair is the
/// parts of a sample.
pub open spec fn all_in_range(parts: Seq<(u64, u32)>) -> bool {
    forall|i: int| 0 <= i < parts.len() ==> (#[trigger] parts[i]).1 < PARTS_PER_MILLION
}

/// The samples that the ledger holds, oldest first, never more than
/// `CAPACITY` of them.
pub struct History {
    samples: VecDeque<Sample>,
}

impl View for History {
    type V = Seq<(u64, u32)>;

    closed spec fn view(&self) -> Seq<(u64, u32)> {
        self.samples@.map_values(|s: Sample| s@)
    }
}

impl History {
    #[verifier::type_invariant]
    spec fn bounded(self) -> bool {
        self.samples@.len() <= CAPACITY && all_in_range(self@)
    }

    /// The history at genesis: empty.
    pub fn new() -> (r: History)
        ensures
            r@ == Seq::<(u64, u32)>::empty(),
    {
        let r = History { samples: VecDeque::new() };
        assert(r@ =~= Seq::<(u64, u32)>::empty());
        r
    }

    /// The history that a run of appends leaves: the last `CAPACITY` of the
    /// pairs in their order, or all of them where they are fewer. There is
    /// none where a pair is not the parts of a sample.
    pub fn restore(parts: &[(u64, u32)]) -> (r: Option<History>)
        ensures
            all_in_range(parts@) ==> r is Some && r->0@ == replay(parts@) && r->0@ == last_window(
                parts@,
            ),
            !all_in_range(parts@) ==> r is None,
    {
        let mut r = History::new();
        let mut i: usize = 0;
        while i < parts.len()
            invariant
                i <= parts@.len(),
                all_in_range(parts@.take(i as int)),
                r@ == replay(parts@.take(i as int)),
            decreases parts@.len() - i,
        {
            let (value, fraction) = parts[i];
            match Sample::new(value, fraction) {
                Some(sample) => {
                    r.append(sample);
                },
                None => {
                    assert(parts@[i as int].1 >= PARTS_PER_MILLION);
                    return None;
                },
            }
            assert(parts@.take(i + 1).drop_last() =~= parts@.take(i as int));
            assert(all_in_range(parts@.take(i + 1))) by {
                assert forall|k: int| 0 <= k < i + 1 implies (#[trigger] parts@.take(i + 1)[k]).1
                    < PARTS_PER_MILLION by {
                    if k < i {
                        assert(parts@.take(i as int)[k] == parts@[k]);
                    }
                }
            }
            i = i + 1;
        }
        proof {
            assert(parts@.take(i as int) =~= parts@);
            lemma_replay_keeps_last_window(parts@);
        }
        Some(r)
    }

    /// Appends a sample at the tail. A history that is full first gives up
    /// its oldest sample; the others keep their order.
    pub fn append(&mut self, sample: Sample)
        ensures
            final(self)@ == appended(old(self)@, sample@),
    {
        proof {
            use_type_invariant(&*self);
            use_type_invariant(&sample);
        }
        // The samples are taken out while they change and put back after.
        let mut samples: VecDeque<Sample> = VecDeque::new();
        std::mem::swap(&mut self.samples, &mut samples);
        assert(self@ =~= Seq::<(u64, u32)>::empty());
        let ghost before = samples@;
        if samples.len() == CAPACITY {
            samples.pop_front();
        }
        samples.push_back(sample);
        proof {
            let parts = |s: Sample| s@;
            assert(samples@.map_values(parts) =~= appended(before.map_values(parts), sample@));
            assert forall|i: int| 0 <= i < samples@.len() implies (#[trigger] samples@.map_values(
                parts,
            )[i]).1 < PARTS_PER_MILLION by {
                if i < samples@.len() - 1 {
                    let j = if before.len() == CAPACITY {
                        i + 1
                    } else {
                        i
                    };
                    assert(before.map_values(parts)[j] == samples@.map_values(parts)[i]);
                }
            }
        }
        self.samples = samples;
    }

    /// The number of samples held.
    pub fn len(&self) -> (n: usize)
        ensures
            n == self@.len(),
            n <= CAPACITY,
    {
        proof {
            use_type_invariant(self);
        }
        self.samples.len()
    }

    /// The sample at `index`, counted from the oldest, if there is one.
    pub fn get(&self, index: usize) -> (r: Option<Sample>)
        ensures
            index < self@.len() ==> r is Some && r->0@ == self@[index as int],
            index >= self@.len() ==> r is None,
    {
        if index < self.samples.len() {
            Some(self.samples[index])
        } else {
            None
        }
    }

    /// The newest sample, if there is one.
    pub fn last(&self) -> (r: Option<Sample>)
        ensures
            self@.len() > 0 ==> r is Some && r->0@ == self@.last(),
            self@.len() == 0 ==> r is None,
    {
        let n: usize = self.samples.len();
        if n > 0 {
            Some(self.samples[n - 1])
        } else {
            None
        }
    }

    /// The parts of the samples held, oldest first.
    pub fn parts(&self) -> (r: Vec<(u64, u32)>)
        ensures
            r@ == self@,
            r@.len() <= CAPACITY,
            all_in_range(r@),
    {
        proof {
            use_type_invariant(self);
        }
        let n: usize = self.samples.len();
        let mut r: Vec<(u64, u32)> = Vec::new();
        let mut i: usize = 0;
        while i < n
            invariant
                i <= n == self.samples@.len(),
                r@ == self@.take(i as int),
            decreases n - i,
        {
            let sample: Sample = self.samples[i];
            r.push((sample.value(), sample.fraction()));
            assert(self@.take(i + 1) =~= self@.take(i as int).push(self@[i as int]));
            i = i + 1;
        }
        assert(self@.take(n as int) =~= self@);
        r
    }
}

/// After any run of appends to an empty history, the history holds the last
/// `CAPACITY` samples of the run in the order of their arrival, or the whole
/// run where it is shorter.
pub proof fn lemma_replay_keeps_last_window(samples: Seq<(u64, u32)>)
    ensures
        replay(samples) == last_window(samples),
        replay(samples).len() == if samples.len() <= CAPACITY {
            samples.len()
        } else {
            CAPACITY as nat
        },
    decreases samples.len(),
{
    if samples.len() > 0 {
        lemma_replay_keeps_last_window(samples.drop_last());
        assert(replay(samples) =~= last_window(samples));
    }
}

/// The eleventh sample drives out the first: appending to a full window
/// leaves the second to the last of the old samples, in their order, and
/// then the new one.
pub proof fn lemma_full_window_evicts_head(window: Seq<(u64, u32)>, sample: (u64, u32))
    requires
        window.len() == CAPACITY,
    ensures
        appended(window, sample).len() == CAPACITY,
        appended(window, sample).last() == sample,
        forall|i: int| 0 <= i < CAPACITY - 1 ==> appended(window, sample)[i] == window[i + 1],
{
}

/// A window never grows past `CAPACITY`, and the sample that was appended
/// last stands at its tail.
pub proof fn lemma_appended_within_capacity(window: Seq<(u64, u32)>, sample: (u64, u32))
    requires
        window.len() <= CAPACITY,
    ensures
        appended(window, sample).len() <= CAPACITY,
        appended(window, sample).last() == sample,
{
}

} // verus!
