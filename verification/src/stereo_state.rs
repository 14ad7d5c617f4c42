use vstd::prelude::*;

verus! {

/// Per-stream state for folding interleaved stereo into the mono-native
/// codec representation and back.
///
/// The engine keeps four smoothing coefficients per stream; this type
/// carries them in thousandths, so the construction defaults — balance 1.0,
/// energy ratio 0.5, left and right smoothing 1.0 — appear as 1000, 500,
/// 1000 and 1000. The state has its own lifecycle, separate from any
/// encoder or decoder: it is created once, may be reset to the defaults any
/// number of times, and is released exactly once by its owner.
#[derive(Copy, Clone, PartialEq, Eq, Structural, Debug)]
pub struct SpeexStereoState {
    /// Left/right balance, in thousandths.
    pub balance_milli: i32,
    /// Ratio of band energies, in thousandths.
    pub e_ratio_milli: i32,
    /// Left-channel smoothing coefficient, in thousandths.
    pub smooth_left_milli: i32,
    /// Right-channel smoothing coefficient, in thousandths.
    pub smooth_right_milli: i32,
}

impl SpeexStereoState {
    /// The construction defaults that `new` establishes and every `reset`
    /// restores.
    pub open spec fn default_spec() -> SpeexStereoState {
        SpeexStereoState {
            balance_milli: 1000,
            e_ratio_milli: 500,
            smooth_left_milli: 1000,
            smooth_right_milli: 1000,
        }
    }

    /// What a reset leaves behind, whatever the state held before.
    pub open spec fn reset_spec(self) -> SpeexStereoState {
        SpeexStereoState::default_spec()
    }

    /// Creates a new stereo state holding the default coefficients.
    /// Construction is total: it cannot fail.
    pub fn new() -> (r: Self)
        ensures
            r == SpeexStereoState::default_spec(),
    {
        SpeexStereoState {
            balance_milli: 1000,
            e_ratio_milli: 500,
            smooth_left_milli: 1000,
            smooth_right_milli: 1000,
        }
    }

    /// Resets the stereo state to its original coefficients. Resetting is
    /// total and may be repeated any number of times, before or after the
    /// state has been used.
    pub fn reset(&mut self)
        ensures
            *final(self) == old(self).reset_spec(),
    {
        self.balance_milli = 1000;
        self.e_ratio_milli = 500;
        self.smooth_left_milli = 1000;
        self.smooth_right_milli = 1000;
    }
}

impl Default for SpeexStereoState {
    /// Same as `new`: the default coefficients.
    fn default() -> (r: Self)
        ensures
            r == SpeexStereoState::default_spec(),
    {
        SpeexStereoState::new()
    }
}

/// Resetting always lands on the construction defaults, so any number of
/// consecutive resets leaves exactly the state one reset leaves, and a reset
/// of a freshly created state changes nothing.
pub proof fn lemma_reset_idempotent(s: SpeexStereoState)
    ensures
        s.reset_spec().reset_spec() == s.reset_spec(),
        SpeexStereoState::default_spec().reset_spec() == SpeexStereoState::default_spec(),
{
}

} // verus!
