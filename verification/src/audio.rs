//! The audio synthesizer: renders a Morse-encoded text into one flat sample
//! buffer by concatenating fixed, reusable blocks.
//!
//! The synthesizer is generic in the sample type `S`. It never inspects a
//! sample: tone blocks are handed in ready-made (rendering a sine wave takes
//! floating point, which stays outside the library), silence blocks are
//! built here by repeating a caller-supplied silence level. Everything the
//! synthesizer decides — which blocks appear, in which order, and how the
//! trailing intra-character gap is replaced — is verified for every `S`.

use vstd::prelude::*;

use crate::curriculum::pattern_spec;
use crate::curriculum::pattern_of;
use crate::timing::TimingProfile;

verus! {

/// The reusable sample blocks of one timing profile: tone blocks for dit and
/// dah, and silence blocks for the three gap classes, tagged with the sample
/// rate they were rendered for.
pub struct MorseAudio<S> {
    /// Tone block of one dit.
    pub dit: Vec<S>,
    /// Tone block of one dah.
    pub dah: Vec<S>,
    /// Silence of the intra-character gap (one dit).
    pub gap1: Vec<S>,
    /// Silence of the inter-character gap (three stretched dits).
    pub gap3: Vec<S>,
    /// Silence of the inter-word gap (seven stretched dits).
    pub gap7: Vec<S>,
    /// Samples per second the blocks were rendered for.
    pub sample_rate: u32,
}

/// Appends a copy of `block` to `out`.
fn extend_samples<S: Copy>(out: &mut Vec<S>, block: &Vec<S>)
    ensures
        final(out)@ == old(out)@ + block@,
{
    let mut i: usize = 0;
    while i < block.len()
        invariant
            i <= block@.len(),
            out@ == old(out)@ + block@.take(i as int),
        decreases block@.len() - i,
    {
        out.push(block[i]);
        proof {
            assert(old(out)@ + block@.take(i as int) + seq![block@[i as int]] =~= old(out)@
                + block@.take(i as int + 1));
        }
        i += 1;
    }
    proof {
        assert(block@.take(block@.len() as int) =~= block@);
    }
}

/// A silence block: `count` copies of the silence level.
fn silence_block<S: Copy>(count: u64, level: S) -> (v: Vec<S>)
    ensures
        v@ == Seq::new(count as nat, |i: int| level),
{
    let mut v: Vec<S> = Vec::new();
    let mut i: u64 = 0;
    while i < count
        invariant
            i <= count,
            v@ == Seq::new(i as nat, |j: int| level),
        decreases count - i,
    {
        v.push(level);
        proof {
            assert(Seq::new(i as nat, |j: int| level).push(level) =~= Seq::new(
                (i + 1) as nat,
                |j: int| level,
            ));
        }
        i += 1;
    }
    v
}

impl<S: Copy> MorseAudio<S> {
    /// The tone block of one symbol: a dit, a dah, or nothing for a symbol
    /// outside the pattern alphabet.
    pub open spec fn tone(self, sym: char) -> Seq<S> {
        if sym == '.' {
            self.dit@
        } else if sym == '-' {
            self.dah@
        } else {
            Seq::empty()
        }
    }

    /// One symbol as emitted while walking a pattern: its tone block followed
    /// by one intra-character gap.
    pub open spec fn symbol_blocks(self, sym: char) -> Seq<S> {
        self.tone(sym) + self.gap1@
    }

    /// A pattern walked symbol by symbol, each symbol trailed by an
    /// intra-character gap.
    pub open spec fn pattern_blocks(self, pat: Seq<char>) -> Seq<S>
        decreases pat.len(),
    {
        if pat.len() == 0 {
            Seq::empty()
        } else {
            self.pattern_blocks(pat.drop_last()) + self.symbol_blocks(pat.last())
        }
    }

    /// A whole character: the walked pattern with its trailing
    /// intra-character gap removed and one inter-character gap appended.
    pub open spec fn char_blocks(self, pat: Seq<char>) -> Seq<S> {
        let w = self.pattern_blocks(pat);
        if w.len() >= self.gap1@.len() {
            w.take(w.len() - self.gap1@.len()) + self.gap3@
        } else {
            w
        }
    }

    /// What rendering one pattern returns: the single-space pattern is the
    /// word boundary and yields the inter-word gap alone; any other pattern
    /// yields its character audio.
    pub open spec fn pattern_audio(self, pat: Seq<char>) -> Seq<S> {
        if pat.len() == 1 && pat[0] == ' ' {
            self.gap7@
        } else {
            self.char_blocks(pat)
        }
    }

    /// The audio one text character contributes: nothing if it has no
    /// pattern, its pattern's audio otherwise.
    pub open spec fn char_audio(self, c: char) -> Seq<S> {
        match pattern_spec(c) {
            Some(p) => self.pattern_audio(p),
            _ => Seq::empty(),
        }
    }

    /// The audio of a whole text: the concatenation of its characters'
    /// audio, in order.
    pub open spec fn text_audio(self, text: Seq<char>) -> Seq<S>
        decreases text.len(),
    {
        if text.len() == 0 {
            Seq::empty()
        } else {
            self.text_audio(text.drop_last()) + self.char_audio(text.last())
        }
    }

    /// Tone blocks separated by single intra-character gaps, with no gap at
    /// either end.
    pub open spec fn interleaved(self, pat: Seq<char>) -> Seq<S>
        decreases pat.len(),
    {
        if pat.len() == 0 {
            Seq::empty()
        } else if pat.len() == 1 {
            self.tone(pat[0])
        } else {
            self.interleaved(pat.drop_last()) + self.gap1@ + self.tone(pat.last())
        }
    }

    proof fn lemma_pattern_blocks_interleaved(self, pat: Seq<char>)
        requires
            pat.len() >= 1,
        ensures
            self.pattern_blocks(pat) == self.interleaved(pat) + self.gap1@,
        decreases pat.len(),
    {
        if pat.len() == 1 {
            assert(self.pattern_blocks(pat.drop_last()) + self.symbol_blocks(pat.last()) =~= self
                .interleaved(pat) + self.gap1@);
        } else {
            self.lemma_pattern_blocks_interleaved(pat.drop_last());
            assert(self.interleaved(pat.drop_last()) + self.gap1@ + self.symbol_blocks(pat.last())
                =~= self.interleaved(pat) + self.gap1@);
        }
    }

    /// A non-empty pattern's character audio is its tones separated by single
    /// intra-character gaps and closed by exactly one inter-character gap: no
    /// trailing intra-character gap remains.
    pub proof fn lemma_char_blocks_no_trailing_intra(self, pat: Seq<char>)
        requires
            pat.len() >= 1,
        ensures
            self.char_blocks(pat) == self.interleaved(pat) + self.gap3@,
    {
        self.lemma_pattern_blocks_interleaved(pat);
        let w = self.pattern_blocks(pat);
        assert(w.take(w.len() - self.gap1@.len()) =~= self.interleaved(pat));
    }

    /// Builds the block set of one timing profile. The two tone blocks are
    /// supplied by the caller and must have the profile's dit and dah sample
    /// counts; the silence blocks are built here at the profile's gap counts.
    pub fn new(
        profile: &TimingProfile,
        sample_rate: u32,
        dit_tone: Vec<S>,
        dah_tone: Vec<S>,
        silence_level: S,
    ) -> (r: MorseAudio<S>)
        requires
            profile.wf(),
            dit_tone@.len() == profile.dit_count(sample_rate),
            dah_tone@.len() == profile.dah_count(sample_rate),
        ensures
            r.dit@ == dit_tone@,
            r.dah@ == dah_tone@,
            r.gap1@ == Seq::new(
                profile.intra_gap_count(sample_rate) as nat,
                |i: int| silence_level,
            ),
            r.gap3@ == Seq::new(
                profile.inter_char_gap_count(sample_rate) as nat,
                |i: int| silence_level,
            ),
            r.gap7@ == Seq::new(
                profile.inter_word_gap_count(sample_rate) as nat,
                |i: int| silence_level,
            ),
            r.sample_rate == sample_rate,
    {
        let gap1 = silence_block(profile.intra_gap_samples(sample_rate), silence_level);
        let gap3 = silence_block(profile.inter_char_gap_samples(sample_rate), silence_level);
        let gap7 = silence_block(profile.inter_word_gap_samples(sample_rate), silence_level);
        MorseAudio { dit: dit_tone, dah: dah_tone, gap1, gap3, gap7, sample_rate }
    }

    /// Renders the audio of one pattern: the single-space pattern yields the
    /// inter-word gap; any other pattern yields one block per symbol trailed
    /// by an intra-character gap, with the trailing intra-character gap
    /// replaced by the inter-character gap.
    pub fn morse_to_audio(&self, pattern: &Vec<char>) -> (out: Vec<S>)
        ensures
            out@ == self.pattern_audio(pattern@),
    {
        let mut out: Vec<S> = Vec::new();
        if pattern.len() == 1 && pattern[0] == ' ' {
            extend_samples(&mut out, &self.gap7);
            proof {
                assert(out@ =~= self.gap7@);
            }
        } else {
            let mut i: usize = 0;
            while i < pattern.len()
                invariant
                    i <= pattern@.len(),
                    out@ == self.pattern_blocks(pattern@.take(i as int)),
                decreases pattern@.len() - i,
            {
                let ghost prev = out@;
                let sym = pattern[i];
                if sym == '.' {
                    extend_samples(&mut out, &self.dit);
                } else if sym == '-' {
                    extend_samples(&mut out, &self.dah);
                }
                extend_samples(&mut out, &self.gap1);
                proof {
                    let t1 = pattern@.take(i as int + 1);
                    assert(t1.drop_last() =~= pattern@.take(i as int));
                    assert(out@ =~= self.pattern_blocks(t1.drop_last()) + self.symbol_blocks(
                        t1.last(),
                    ));
                }
                i += 1;
            }
            proof {
                assert(pattern@.take(pattern@.len() as int) =~= pattern@);
            }
            if out.len() >= self.gap1.len() {
                let keep = out.len() - self.gap1.len();
                out.truncate(keep);
                extend_samples(&mut out, &self.gap3);
            }
        }
        out
    }

    /// Renders a whole text into one flat buffer. A character without a
    /// pattern contributes nothing: malformed input degrades to silence
    /// rather than failing.
    pub fn synthesize(&self, text: &Vec<char>) -> (out: Vec<S>)
        ensures
            out@ == self.text_audio(text@),
            text@.len() == 0 ==> out@ == Seq::<S>::empty(),
    {
        let mut out: Vec<S> = Vec::new();
        let mut i: usize = 0;
        while i < text.len()
            invariant
                i <= text@.len(),
                out@ == self.text_audio(text@.take(i as int)),
            decreases text@.len() - i,
        {
            match pattern_of(text[i]) {
                Some(p) => {
                    let rendered = self.morse_to_audio(&p);
                    extend_samples(&mut out, &rendered);
                },
                _ => {},
            }
            proof {
                let t1 = text@.take(i as int + 1);
                assert(t1.drop_last() =~= text@.take(i as int));
                assert(out@ =~= self.text_audio(t1.drop_last()) + self.char_audio(t1.last()));
            }
            i += 1;
        }
        proof {
            assert(text@.take(text@.len() as int) =~= text@);
        }
        out
    }
}

} // verus!
