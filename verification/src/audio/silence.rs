//! Counting silence in an audio stream: the number of consecutive silent
//! samples, and whether enough of them have been heard. Deciding whether a
//! sample is silent (its amplitude against a threshold) is done by the
//! caller.
use vstd::prelude::*;

verus! {

/// Silence counter that tracks consecutive silent samples.
pub struct SilenceCounter {
    required_samples: usize,
    silence_samples: usize,
}

/// The run of silent samples at the end of `s`, added to `start` where
/// `s` is silent throughout.
pub open spec fn trailing_silence(start: nat, s: Seq<bool>) -> nat
    decreases s.len(),
{
    if s.len() == 0 {
        start
    } else if s.last() {
        trailing_silence(start, s.drop_last()) + 1
    } else {
        0
    }
}

/// Whether, counting from `start`, the run of silent samples reaches
/// `required` at some sample of `s`.
pub open spec fn reaches(start: nat, s: Seq<bool>, required: nat) -> bool {
    exists|k: int| 0 <= k < s.len() && s[k] && trailing_silence(start, s.take(k + 1)) >= required
}

/// The first position of `s` at which the run reaches `required`.
pub open spec fn first_reach(start: nat, s: Seq<bool>, required: nat) -> int
    recommends
        reaches(start, s, required),
{
    choose|k: int|
        0 <= k < s.len() && s[k] && trailing_silence(start, s.take(k + 1)) >= required && forall|j: int|
            0 <= j < k && s[j] ==> trailing_silence(start, #[trigger] s.take(j + 1)) < required
}

impl SilenceCounter {
    /// The number of consecutive silent samples that counts as silence.
    pub closed spec fn required(&self) -> nat {
        self.required_samples as nat
    }

    /// The number of consecutive silent samples heard so far.
    pub closed spec fn count(&self) -> nat {
        self.silence_samples as nat
    }

    /// A counter that needs `required_samples` consecutive silent samples.
    pub fn new(required_samples: usize) -> (r: Self)
        ensures
            r.required() == required_samples,
            r.count() == 0,
    {
        SilenceCounter { required_samples, silence_samples: 0 }
    }

    /// Reset the silence counter.
    pub fn reset(&mut self)
        ensures
            final(self).count() == 0,
            final(self).required() == old(self).required(),
    {
        self.silence_samples = 0;
    }

    /// Get the current silence duration in samples.
    pub fn current_silence_samples(&self) -> (r: usize)
        ensures
            r == self.count(),
    {
        self.silence_samples
    }

    /// Get the required silence duration in samples.
    pub fn required_silence_samples(&self) -> (r: usize)
        ensures
            r == self.required(),
    {
        self.required_samples
    }

    /// Counts a batch of samples, each marked silent or not, and returns
    /// whether the run of silent samples reached the required length. A
    /// sound sample resets the run; the batch stops being counted at the
    /// sample where the run is reached.
    pub fn process(&mut self, silent: &[bool]) -> (r: bool)
        requires
            old(self).count() + silent@.len() <= usize::MAX,
        ensures
            final(self).required() == old(self).required(),
            r == reaches(old(self).count(), silent@, old(self).required()),
            r ==> final(self).count() == trailing_silence(
                old(self).count(),
                silent@.take(first_reach(old(self).count(), silent@, old(self).required()) + 1),
            ),
            !r ==> final(self).count() == trailing_silence(old(self).count(), silent@),
    {
        let ghost start = self.count();
        let mut i: usize = 0;
        assert(silent@.take(0) =~= Seq::<bool>::empty());
        while i < silent.len()
            invariant
                i <= silent@.len(),
                start == old(self).count(),
                start + silent@.len() <= usize::MAX,
                self.required_samples == old(self).required_samples,
                self.silence_samples == trailing_silence(start, silent@.take(i as int)),
                self.silence_samples <= start + i,
                forall|j: int|
                    0 <= j < i && silent@[j] ==> trailing_silence(start, #[trigger] silent@.take(j + 1))
                        < self.required_samples,
            decreases silent@.len() - i,
        {
            assert(silent@.take(i + 1).drop_last() =~= silent@.take(i as int));
            if silent[i] {
                self.silence_samples = self.silence_samples + 1;
                if self.silence_samples >= self.required_samples {
                    let ghost k = i as int;
                    assert(reaches(start, silent@, self.required()));
                    assert(first_reach(start, silent@, self.required()) == k) by {
                        let w = first_reach(start, silent@, self.required());
                        if w < k {
                            assert(trailing_silence(start, silent@.take(w + 1)) < self.required_samples);
                        }
                        if w > k {
                            assert(silent@[k] && trailing_silence(start, silent@.take(k + 1)) >= self.required_samples);
                        }
                    }
                    return true;
                }
            } else {
                self.silence_samples = 0;
            }
            i = i + 1;
        }
        assert(silent@.take(silent@.len() as int) =~= silent@);
        assert(!reaches(start, silent@, self.required()));
        false
    }
}

} // verus!
