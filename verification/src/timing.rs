//! The Morse timing model: exact dit/dah/gap durations for a character speed
//! and a Farnsworth effective speed, and their conversion to sample counts.
//!
//! By the PARIS convention one dit lasts `1.2 / wpm` seconds and a dah three
//! dits. Farnsworth spacing stretches only the two cross-character gaps by
//! `wpm / effective_wpm`, leaving the dit, the dah and the intra-character
//! gap untouched. All five durations are therefore exact rationals with the
//! common denominator `5 * wpm * effective_wpm` (in units of 1/seconds):
//!
//! - dit  = 1.2/wpm           = 6*effective_wpm  / den
//! - dah  = 3 * dit           = 18*effective_wpm / den
//! - intra-character gap      = 6*effective_wpm  / den
//! - inter-character gap = 3*dit*(wpm/effective_wpm) = 18*wpm / den
//! - inter-word gap      = 7*dit*(wpm/effective_wpm) = 42*wpm / den
//!
//! The struct stores the five numerators, so the timing laws are integer
//! identities and no floating point is involved.

use vstd::prelude::*;

use crate::MorseError;

verus! {

/// The five Morse durations derived from a speed pair, as exact rational
/// numerators over the common denominator [`TimingProfile::den`].
#[derive(Clone, Copy, Debug, PartialEq, Eq, Structural)]
pub struct TimingProfile {
    /// Character speed, words per minute.
    pub wpm: u32,
    /// Effective (Farnsworth) speed, words per minute; at most `wpm`.
    pub effective_wpm: u32,
    /// Dit duration numerator.
    pub dit: u64,
    /// Dah duration numerator.
    pub dah: u64,
    /// Gap between symbols of one character.
    pub intra_gap: u64,
    /// Gap between consecutive characters.
    pub inter_char_gap: u64,
    /// Gap between words.
    pub inter_word_gap: u64,
}

/// Whether a speed pair is accepted: both speeds positive and the effective
/// speed no faster than the character speed.
pub open spec fn valid_speeds(wpm: u32, effective_wpm: u32) -> bool {
    1 <= effective_wpm <= wpm
}

impl TimingProfile {
    /// Common denominator of the five numerators: a duration in seconds is
    /// its numerator divided by this.
    pub open spec fn den(self) -> int {
        5 * self.wpm * self.effective_wpm
    }

    /// The numerators a well-formed profile holds for its speed pair.
    pub open spec fn wf(self) -> bool {
        &&& valid_speeds(self.wpm, self.effective_wpm)
        &&& self.dit == 6 * self.effective_wpm
        &&& self.dah == 18 * self.effective_wpm
        &&& self.intra_gap == 6 * self.effective_wpm
        &&& self.inter_char_gap == 18 * self.wpm
        &&& self.inter_word_gap == 42 * self.wpm
    }

    /// Derives the timing profile of a speed pair, rejecting a zero speed and
    /// an effective speed above the character speed.
    pub fn new(wpm: u32, effective_wpm: u32) -> (r: Result<TimingProfile, MorseError>)
        ensures
            valid_speeds(wpm, effective_wpm) ==> (r matches Ok(p) && p.wf() && p.wpm == wpm
                && p.effective_wpm == effective_wpm),
            !valid_speeds(wpm, effective_wpm) ==> (r matches Err(e) && e
                == MorseError::InvalidSpeedConfiguration),
    {
        if wpm == 0 || effective_wpm == 0 || effective_wpm > wpm {
            Err(MorseError::InvalidSpeedConfiguration)
        } else {
            Ok(TimingProfile {
                wpm,
                effective_wpm,
                dit: 6 * (effective_wpm as u64),
                dah: 18 * (effective_wpm as u64),
                intra_gap: 6 * (effective_wpm as u64),
                inter_char_gap: 18 * (wpm as u64),
                inter_word_gap: 42 * (wpm as u64),
            })
        }
    }

    /// Dit length in whole samples: `1.2/wpm` seconds times the rate,
    /// truncated toward zero.
    pub open spec fn dit_count(self, sample_rate: u32) -> int {
        6 * sample_rate / (5 * self.wpm)
    }

    /// Dah length in whole samples, truncated toward zero.
    pub open spec fn dah_count(self, sample_rate: u32) -> int {
        18 * sample_rate / (5 * self.wpm)
    }

    /// Intra-character gap length in whole samples; the gap lasts one dit.
    pub open spec fn intra_gap_count(self, sample_rate: u32) -> int {
        6 * sample_rate / (5 * self.wpm)
    }

    /// Inter-character gap length in whole samples: three dits stretched by
    /// `wpm / effective_wpm`, so `3.6 / effective_wpm` seconds.
    pub open spec fn inter_char_gap_count(self, sample_rate: u32) -> int {
        18 * sample_rate / (5 * self.effective_wpm)
    }

    /// Inter-word gap length in whole samples: seven stretched dits, so
    /// `8.4 / effective_wpm` seconds.
    pub open spec fn inter_word_gap_count(self, sample_rate: u32) -> int {
        42 * sample_rate / (5 * self.effective_wpm)
    }

    pub fn dit_samples(&self, sample_rate: u32) -> (r: u64)
        requires
            self.wf(),
        ensures
            r == self.dit_count(sample_rate),
    {
        6 * (sample_rate as u64) / (5 * (self.wpm as u64))
    }

    pub fn dah_samples(&self, sample_rate: u32) -> (r: u64)
        requires
            self.wf(),
        ensures
            r == self.dah_count(sample_rate),
    {
        18 * (sample_rate as u64) / (5 * (self.wpm as u64))
    }

    pub fn intra_gap_samples(&self, sample_rate: u32) -> (r: u64)
        requires
            self.wf(),
        ensures
            r == self.intra_gap_count(sample_rate),
    {
        6 * (sample_rate as u64) / (5 * (self.wpm as u64))
    }

    pub fn inter_char_gap_samples(&self, sample_rate: u32) -> (r: u64)
        requires
            self.wf(),
        ensures
            r == self.inter_char_gap_count(sample_rate),
    {
        18 * (sample_rate as u64) / (5 * (self.effective_wpm as u64))
    }

    pub fn inter_word_gap_samples(&self, sample_rate: u32) -> (r: u64)
        requires
            self.wf(),
        ensures
            r == self.inter_word_gap_count(sample_rate),
    {
        42 * (sample_rate as u64) / (5 * (self.effective_wpm as u64))
    }
}

/// The timing ratios, exactly: a dah is three dits and the intra-character
/// gap one dit; the cross-character gaps are the standard three- and
/// seven-dit gaps stretched by `wpm / effective_wpm` (an identity over the
/// numerators once cleared of denominators); with equal speeds the stretch
/// factor is one and the plain 1:3:7 ratios hold.
pub proof fn lemma_farnsworth_ratios(p: TimingProfile)
    requires
        p.wf(),
    ensures
        p.dah == 3 * p.dit,
        p.intra_gap == p.dit,
        p.inter_char_gap * p.effective_wpm == 3 * p.dit * p.wpm,
        p.inter_word_gap * p.effective_wpm == 7 * p.dit * p.wpm,
        p.wpm == p.effective_wpm ==> p.inter_char_gap == 3 * p.dit && p.inter_word_gap == 7
            * p.dit,
{
    assert(p.inter_char_gap * p.effective_wpm == 3 * p.dit * p.wpm) by (nonlinear_arith)
        requires
            p.inter_char_gap == 18 * p.wpm,
            p.dit == 6 * p.effective_wpm,
    ;
    assert(p.inter_word_gap * p.effective_wpm == 7 * p.dit * p.wpm) by (nonlinear_arith)
        requires
            p.inter_word_gap == 42 * p.wpm,
            p.dit == 6 * p.effective_wpm,
    ;
}

/// Each sample count is the exact duration times the rate, truncated toward
/// zero: over the common denominator, `(numerator * rate) / den` reduces to
/// the formula the sample-count functions use.
pub proof fn lemma_sample_counts_truncate_durations(p: TimingProfile, sample_rate: u32)
    requires
        p.wf(),
    ensures
        p.dit * sample_rate / p.den() == p.dit_count(sample_rate),
        p.dah * sample_rate / p.den() == p.dah_count(sample_rate),
        p.intra_gap * sample_rate / p.den() == p.intra_gap_count(sample_rate),
        p.inter_char_gap * sample_rate / p.den() == p.inter_char_gap_count(sample_rate),
        p.inter_word_gap * sample_rate / p.den() == p.inter_word_gap_count(sample_rate),
{
    let w = p.wpm as int;
    let e = p.effective_wpm as int;
    let r = sample_rate as int;
    lemma_scaled_div(6 * r, 5 * w, e);
    lemma_scaled_div(18 * r, 5 * w, e);
    lemma_scaled_div(18 * r, 5 * e, w);
    lemma_scaled_div(42 * r, 5 * e, w);
    assert(p.dit * sample_rate == (6 * r) * e) by (nonlinear_arith)
        requires
            p.dit == 6 * e,
            r == sample_rate,
    ;
    assert(p.dah * sample_rate == (18 * r) * e) by (nonlinear_arith)
        requires
            p.dah == 18 * e,
            r == sample_rate,
    ;
    assert(p.inter_char_gap * sample_rate == (18 * r) * w) by (nonlinear_arith)
        requires
            p.inter_char_gap == 18 * w,
            r == sample_rate,
    ;
    assert(p.inter_word_gap * sample_rate == (42 * r) * w) by (nonlinear_arith)
        requires
            p.inter_word_gap == 42 * w,
            r == sample_rate,
    ;
    assert(p.den() == (5 * w) * e) by (nonlinear_arith)
        requires
            p.den() == 5 * w * e,
    ;
    assert((5 * e) * w == (5 * w) * e) by (nonlinear_arith);
}

/// Scaling numerator and denominator by the same positive factor keeps the
/// truncated quotient: `(a * c) / (b * c) == a / b`.
proof fn lemma_scaled_div(a: int, b: int, c: int)
    requires
        0 <= a,
        0 < b,
        0 < c,
    ensures
        (a * c) / (b * c) == a / b,
{
    vstd::arithmetic::div_mod::lemma_div_denominator(a * c, c, b);
    assert((a * c) / c == a) by {
        vstd::arithmetic::div_mod::lemma_div_multiples_vanish(a, c);
        assert(a * c == c * a) by (nonlinear_arith);
    }
    assert(c * b == b * c) by (nonlinear_arith);
    assert(0 <= a * c) by (nonlinear_arith)
        requires
            0 <= a,
            0 < c,
    ;
}

} // verus!
