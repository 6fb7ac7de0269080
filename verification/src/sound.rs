//! The stage abstraction: every element of an effect chain reports a fixed
//! channel count and sample rate and produces units (samples or control
//! markers) one pull at a time.

use vstd::prelude::*;

verus! {

/// One unit pulled from a stage: a signed 16-bit audio sample for one
/// channel, or a control marker. `Finished` means the stage is exhausted.
#[derive(Clone, Copy, Debug, PartialEq, Eq, Structural)]
pub enum NextSample {
    Sample(i16),
    MetadataChanged,
    Paused,
    Finished,
}

/// An error reported by a source mid-stream. Wrappers pass it upward
/// unchanged; they never translate or swallow it.
#[derive(Clone, Copy, Debug, PartialEq, Eq, Structural)]
pub enum SoundError {
    Decode,
    Io,
}

/// A stage of the effect chain.
///
/// `channels` and `rate` are fixed for the stage's lifetime: no operation
/// changes them. `stream` is the sequence of units the stage has still to
/// produce; a stage whose stream is exhausted answers `Ok(Finished)` on
/// every further pull.
pub trait Sound {
    /// Number of interleaved channels, at least 1; fixed for the lifetime.
    spec fn channels(&self) -> u16;

    /// Samples per second per channel, at least 1; fixed for the lifetime.
    spec fn rate(&self) -> u32;

    /// Structural well-formedness; established at construction and
    /// preserved by every operation.
    spec fn wf(&self) -> bool;

    /// The units this stage will produce from its current state, in order.
    spec fn stream(&self) -> Seq<Result<NextSample, SoundError>>;

    fn channel_count(&self) -> (r: u16)
        requires
            self.wf(),
        ensures
            r == self.channels(),
            r >= 1,
    ;

    fn sample_rate(&self) -> (r: u32)
        requires
            self.wf(),
        ensures
            r == self.rate(),
            r >= 1,
    ;

    /// Produce the next unit: the head of `stream`, or `Ok(Finished)`
    /// forever once the stream is exhausted.
    fn next_sample(&mut self) -> (r: Result<NextSample, SoundError>)
        requires
            old(self).wf(),
        ensures
            final(self).wf(),
            final(self).channels() == old(self).channels(),
            final(self).rate() == old(self).rate(),
            old(self).stream().len() > 0 ==> r == old(self).stream()[0]
                && final(self).stream() == old(self).stream().skip(1),
            old(self).stream().len() == 0 ==> r == Ok::<NextSample, SoundError>(NextSample::Finished)
                && final(self).stream() == old(self).stream(),
    ;

    /// Hook invoked before a burst of pulls; has no effect on what the
    /// stage will produce. Wrappers propagate it unchanged to their inner
    /// stage.
    fn on_start_of_batch(&mut self)
        requires
            old(self).wf(),
        ensures
            final(self).wf(),
            final(self).channels() == old(self).channels(),
            final(self).rate() == old(self).rate(),
            final(self).stream() == old(self).stream(),
    ;
}

/// A leaf stage whose whole output is written down in advance: the ground
/// source on which chains are assembled and exercised within the library.
pub struct ScriptedSound {
    pub units: Vec<Result<NextSample, SoundError>>,
    pub pos: usize,
    pub chans: u16,
    pub rate_hz: u32,
}

impl ScriptedSound {
    pub fn new(units: Vec<Result<NextSample, SoundError>>, channel_count: u16, sample_rate: u32) -> (r: ScriptedSound)
        requires
            channel_count >= 1,
            sample_rate >= 1,
        ensures
            r.wf(),
            r.chans == channel_count,
            r.rate_hz == sample_rate,
            r.pos == 0,
            r.units@ == units@,
            r.stream() == units@,
    {
        let r = ScriptedSound { units, pos: 0, chans: channel_count, rate_hz: sample_rate };
        proof {
            assert(r.stream() =~= r.units@);
        }
        r
    }
}

impl Sound for ScriptedSound {
    open spec fn channels(&self) -> u16 {
        self.chans
    }

    open spec fn rate(&self) -> u32 {
        self.rate_hz
    }

    open spec fn wf(&self) -> bool {
        self.chans >= 1 && self.rate_hz >= 1 && self.pos <= self.units@.len()
    }

    open spec fn stream(&self) -> Seq<Result<NextSample, SoundError>> {
        self.units@.skip(self.pos as int)
    }

    fn channel_count(&self) -> (r: u16) {
        self.chans
    }

    fn sample_rate(&self) -> (r: u32) {
        self.rate_hz
    }

    fn next_sample(&mut self) -> (r: Result<NextSample, SoundError>) {
        if self.pos < self.units.len() {
            let u = self.units[self.pos];
            self.pos = self.pos + 1;
            proof {
                assert(old(self).stream()[0] == u);
                assert(final(self).stream() =~= old(self).stream().skip(1));
            }
            u
        } else {
            Ok(NextSample::Finished)
        }
    }

    fn on_start_of_batch(&mut self) {
    }
}

} // verus!
