//! Channel-aware panning: classify each channel position of a layout as
//! left/right/center and front/rear/center, and attenuate samples on two
//! axes by gains given in milli-units (1000 = unity).

use vstd::prelude::*;
use vstd::arithmetic::div_mod::lemma_div_multiples_vanish;
use crate::sound::NextSample;
use crate::sound::Sound;
use crate::sound::SoundError;

verus! {

/// Left/right position of a channel within a layout.
#[derive(Clone, Copy, Debug, PartialEq, Eq, Structural)]
pub enum PanDir {
    Left,
    Right,
    Center,
}

/// Front/rear position of a channel within a layout.
#[derive(Clone, Copy, Debug, PartialEq, Eq, Structural)]
pub enum TiltDir {
    Front,
    Rear,
    Center,
}

/// The channel-position table: which way the sample for `current_channel`
/// points in a layout of `channel_count` channels.
pub open spec fn spec_pan_dir(channel_count: int, current_channel: int) -> (PanDir, TiltDir) {
    if channel_count == 1 {
        (PanDir::Center, TiltDir::Center)
    } else if channel_count == 2 {
        if current_channel == 0 {
            (PanDir::Left, TiltDir::Center)
        } else {
            (PanDir::Right, TiltDir::Center)
        }
    } else if channel_count == 3 {
        if current_channel == 0 {
            (PanDir::Left, TiltDir::Center)
        } else if current_channel == 1 {
            (PanDir::Right, TiltDir::Center)
        } else {
            (PanDir::Center, TiltDir::Center)
        }
    } else {
        if current_channel == 0 {
            (PanDir::Left, TiltDir::Front)
        } else if current_channel == 1 {
            (PanDir::Right, TiltDir::Front)
        } else if current_channel == 2 {
            (PanDir::Left, TiltDir::Rear)
        } else {
            (PanDir::Right, TiltDir::Rear)
        }
    }
}

/// Classify a channel position. Layouts of more than 4 channels are not
/// supported and are excluded up front rather than mis-panned.
pub fn pan_dir(channel_count: u16, current_channel: u16) -> (r: (PanDir, TiltDir))
    requires
        1 <= channel_count <= 4,
        current_channel < channel_count,
    ensures
        r == spec_pan_dir(channel_count as int, current_channel as int),
{
    match channel_count {
        1 => (PanDir::Center, TiltDir::Center),
        2 => {
            if current_channel == 0 {
                (PanDir::Left, TiltDir::Center)
            } else {
                (PanDir::Right, TiltDir::Center)
            }
        },
        3 => {
            if current_channel == 0 {
                (PanDir::Left, TiltDir::Center)
            } else if current_channel == 1 {
                (PanDir::Right, TiltDir::Center)
            } else {
                (PanDir::Center, TiltDir::Center)
            }
        },
        _ => {
            if current_channel == 0 {
                (PanDir::Left, TiltDir::Front)
            } else if current_channel == 1 {
                (PanDir::Right, TiltDir::Front)
            } else if current_channel == 2 {
                (PanDir::Left, TiltDir::Rear)
            } else {
                (PanDir::Right, TiltDir::Rear)
            }
        },
    }
}

/// Truncating (round-toward-zero) division by 1000: the narrowing step that
/// follows each axis's multiplication.
pub open spec fn milli_trunc(v: int) -> int {
    if v >= 0 {
        v / 1000
    } else {
        -((-v) / 1000)
    }
}

/// Saturation into the signed 16-bit sample range. Values that a pan gain
/// pushes outside the range clamp to the nearest bound; they never wrap.
pub open spec fn sat_i16(v: int) -> int {
    if v > 32767 {
        32767
    } else if v < -32768 {
        -32768
    } else {
        v
    }
}

/// One axis applied to one sample: scale by a gain in milli-units
/// (1000 = unity), truncate toward zero, saturate into sample range.
pub open spec fn spec_scale(s: int, gain: int) -> int {
    sat_i16(milli_trunc(s * gain))
}

/// The left/right axis: left positions gain `1000 + pan_lr`, right
/// positions `1000 - pan_lr`, centered positions pass through untouched.
pub open spec fn spec_lr_axis(s: int, pan_lr: int, dir: PanDir) -> int {
    match dir {
        PanDir::Left => spec_scale(s, 1000 + pan_lr),
        PanDir::Right => spec_scale(s, 1000 - pan_lr),
        PanDir::Center => s,
    }
}

/// The front/back axis: front positions gain `1000 + pan_fb`, rear
/// positions `1000 - pan_fb`, centered positions pass through untouched.
pub open spec fn spec_fb_axis(s: int, pan_fb: int, tilt: TiltDir) -> int {
    match tilt {
        TiltDir::Front => spec_scale(s, 1000 + pan_fb),
        TiltDir::Rear => spec_scale(s, 1000 - pan_fb),
        TiltDir::Center => s,
    }
}

/// Two-axis pan of one sample. The order is deliberate: the front/back
/// axis scales the already left/right-adjusted value, not the raw sample.
pub open spec fn spec_pan_sample(s: int, pan_lr: int, pan_fb: int, dir: PanDir, tilt: TiltDir) -> int {
    spec_fb_axis(spec_lr_axis(s, pan_lr, dir), pan_fb, tilt)
}

/// Scale one sample by a gain in milli-units, truncating toward zero and
/// saturating into the 16-bit sample range.
fn scale_sample(s: i16, gain: i64) -> (r: i16)
    requires
        -2_147_484_648 <= gain <= 2_147_484_648,
    ensures
        r as int == spec_scale(s as int, gain as int),
{
    let neg: bool = (s < 0) != (gain < 0);
    let sm: u64 = if s < 0 {
        (-(s as i64)) as u64
    } else {
        s as u64
    };
    let gm: u64 = if gain < 0 {
        (-gain) as u64
    } else {
        gain as u64
    };
    proof {
        let si = s as int;
        let gi = gain as int;
        assert(sm * gm <= 32768 * 2_147_484_648) by (nonlinear_arith)
            requires
                0 <= sm <= 32768,
                0 <= gm <= 2_147_484_648,
        ;
        if si >= 0 {
            if gi >= 0 {
                assert(si * gi == sm * gm) by (nonlinear_arith)
                    requires
                        si == sm,
                        gi == gm,
                ;
            } else {
                assert(si * gi == -((sm * gm) as int)) by (nonlinear_arith)
                    requires
                        si == sm,
                        gi == -(gm as int),
                ;
            }
        } else {
            if gi >= 0 {
                assert(si * gi == -((sm * gm) as int)) by (nonlinear_arith)
                    requires
                        si == -(sm as int),
                        gi == gm,
                ;
            } else {
                assert(si * gi == sm * gm) by (nonlinear_arith)
                    requires
                        si == -(sm as int),
                        gi == -(gm as int),
                ;
            }
        }
    }
    let prod: u64 = sm * gm;
    let q: u64 = prod / 1000;
    if neg {
        if q >= 32768 {
            -32768
        } else {
            -((q as i32) as i16)
        }
    } else {
        if q >= 32767 {
            32767
        } else {
            q as i16
        }
    }
}

/// Pan one sample on both axes, given its channel position.
pub fn pan_sample(s: i16, pan_lr: i32, pan_fb: i32, dir: PanDir, tilt: TiltDir) -> (r: i16)
    ensures
        r as int == spec_pan_sample(s as int, pan_lr as int, pan_fb as int, dir, tilt),
{
    let v1: i16 = match dir {
        PanDir::Left => scale_sample(s, 1000i64 + pan_lr as i64),
        PanDir::Right => scale_sample(s, 1000i64 - pan_lr as i64),
        PanDir::Center => s,
    };
    match tilt {
        TiltDir::Front => scale_sample(v1, 1000i64 + pan_fb as i64),
        TiltDir::Rear => scale_sample(v1, 1000i64 - pan_fb as i64),
        TiltDir::Center => v1,
    }
}

/// Pan one sample on the left/right axis alone: the single-axis variant's
/// rule, identical to the first axis of the two-axis form.
pub fn pan_sample_lr(s: i16, pan_lr: i32, dir: PanDir) -> (r: i16)
    ensures
        r as int == spec_lr_axis(s as int, pan_lr as int, dir),
{
    match dir {
        PanDir::Left => scale_sample(s, 1000i64 + pan_lr as i64),
        PanDir::Right => scale_sample(s, 1000i64 - pan_lr as i64),
        PanDir::Center => s,
    }
}

/// The cyclic advance of the channel counter: one step forward, wrapping
/// to 0 after `channel_count - 1`.
pub open spec fn spec_advance(ch: int, cc: int) -> int {
    if ch + 1 < cc {
        ch + 1
    } else {
        0
    }
}

/// Effect of one pull on a two-axis pan stage: the unit that comes out and
/// the channel counter after it. Only `Sample` units are attenuated and
/// advance the counter; control markers pass through and leave it alone.
pub open spec fn spec_pan_unit(pan_lr: int, pan_fb: int, cc: int, ch: int, n: NextSample) -> (NextSample, int) {
    match n {
        NextSample::Sample(s) => (
            NextSample::Sample(spec_pan_sample(s as int, pan_lr, pan_fb, spec_pan_dir(cc, ch).0, spec_pan_dir(cc, ch).1) as i16),
            spec_advance(ch, cc),
        ),
        _ => (n, ch),
    }
}

/// Effect of one pull on a single-axis pan stage: as `spec_pan_unit`, with
/// the front/back multiplication left out.
pub open spec fn spec_pan_unit_lr(pan_lr: int, cc: int, ch: int, n: NextSample) -> (NextSample, int) {
    match n {
        NextSample::Sample(s) => (
            NextSample::Sample(spec_lr_axis(s as int, pan_lr, spec_pan_dir(cc, ch).0) as i16),
            spec_advance(ch, cc),
        ),
        _ => (n, ch),
    }
}

/// Every pan result lies in the 16-bit sample range.
proof fn lemma_pan_sample_in_range(s: int, pan_lr: int, pan_fb: int, dir: PanDir, tilt: TiltDir)
    requires
        -32768 <= s <= 32767,
    ensures
        -32768 <= spec_pan_sample(s, pan_lr, pan_fb, dir, tilt) <= 32767,
        -32768 <= spec_lr_axis(s, pan_lr, dir) <= 32767,
{
}

/// Apply a two-axis pan stage's transformation to one pulled unit: pan and
/// advance on a sample, pass anything else through. This is the whole
/// per-pull behaviour of the stage, on plain values.
pub fn pan_unit(pan_lr: i32, pan_fb: i32, channel_count: u16, current_channel: u16, next: NextSample) -> (r: (NextSample, u16))
    requires
        1 <= channel_count <= 4,
        current_channel < channel_count,
    ensures
        (r.0, r.1 as int) == spec_pan_unit(pan_lr as int, pan_fb as int, channel_count as int, current_channel as int, next),
        r.1 < channel_count,
        next is Sample ==> r.1 as int == spec_advance(current_channel as int, channel_count as int),
        !(next is Sample) ==> r.0 == next && r.1 == current_channel,
{
    match next {
        NextSample::Sample(s) => {
            let (d, t) = pan_dir(channel_count, current_channel);
            let out: i16 = pan_sample(s, pan_lr, pan_fb, d, t);
            let nc: u16 = if current_channel + 1 < channel_count {
                current_channel + 1
            } else {
                0
            };
            proof {
                lemma_pan_sample_in_range(s as int, pan_lr as int, pan_fb as int, d, t);
            }
            (NextSample::Sample(out), nc)
        },
        _ => (next, current_channel),
    }
}

/// Apply a single-axis pan stage's transformation to one pulled unit.
pub fn pan_unit_lr(pan_lr: i32, channel_count: u16, current_channel: u16, next: NextSample) -> (r: (NextSample, u16))
    requires
        1 <= channel_count <= 4,
        current_channel < channel_count,
    ensures
        (r.0, r.1 as int) == spec_pan_unit_lr(pan_lr as int, channel_count as int, current_channel as int, next),
        r.1 < channel_count,
        next is Sample ==> r.1 as int == spec_advance(current_channel as int, channel_count as int),
        !(next is Sample) ==> r.0 == next && r.1 == current_channel,
{
    match next {
        NextSample::Sample(s) => {
            let (d, _t) = pan_dir(channel_count, current_channel);
            let out: i16 = pan_sample_lr(s, pan_lr, d);
            let nc: u16 = if current_channel + 1 < channel_count {
                current_channel + 1
            } else {
                0
            };
            proof {
                lemma_pan_sample_in_range(s as int, pan_lr as int, 0, d, TiltDir::Center);
            }
            (NextSample::Sample(out), nc)
        },
        _ => (next, current_channel),
    }
}

/// The whole output of a two-axis pan stage, given its inner stage's
/// output and its starting state: each sample panned at the channel
/// position it falls on, everything else passed through.
pub open spec fn spec_panned_stream(
    inner: Seq<Result<NextSample, SoundError>>,
    pan_lr: int,
    pan_fb: int,
    cc: int,
    ch: int,
) -> Seq<Result<NextSample, SoundError>>
    decreases inner.len(),
{
    if inner.len() == 0 {
        Seq::empty()
    } else {
        match inner[0] {
            Ok(n) => seq![Ok(spec_pan_unit(pan_lr, pan_fb, cc, ch, n).0)]
                + spec_panned_stream(inner.skip(1), pan_lr, pan_fb, cc, spec_pan_unit(pan_lr, pan_fb, cc, ch, n).1),
            Err(e) => seq![Err(e)] + spec_panned_stream(inner.skip(1), pan_lr, pan_fb, cc, ch),
        }
    }
}

/// A two-axis pan stage. Wraps exactly one inner stage; attenuates each
/// sample by channel position without changing channel count, sample rate
/// or ordering. Pan parameters are in milli-units: 0 is centered, 1000
/// stands for a full 1.0 of pan.
pub struct Panned<S> {
    pub pan_lr: i32,
    pub pan_fb: i32,
    pub sound: S,
    pub current_channel: u16,
}

impl<S: Sound> Sound for Panned<S> {
    open spec fn channels(&self) -> u16 {
        self.sound.channels()
    }

    open spec fn rate(&self) -> u32 {
        self.sound.rate()
    }

    open spec fn wf(&self) -> bool {
        &&& self.sound.wf()
        &&& 1 <= self.sound.channels() <= 4
        &&& self.current_channel < self.sound.channels()
    }

    open spec fn stream(&self) -> Seq<Result<NextSample, SoundError>> {
        spec_panned_stream(
            self.sound.stream(),
            self.pan_lr as int,
            self.pan_fb as int,
            self.sound.channels() as int,
            self.current_channel as int,
        )
    }

    fn channel_count(&self) -> (r: u16) {
        self.sound.channel_count()
    }

    fn sample_rate(&self) -> (r: u32) {
        self.sound.sample_rate()
    }

    fn next_sample(&mut self) -> (r: Result<NextSample, SoundError>)
        ensures
            final(self).pan_lr == old(self).pan_lr,
            final(self).pan_fb == old(self).pan_fb,
            r matches Ok(u) && u is Sample ==> final(self).current_channel as int
                == spec_advance(old(self).current_channel as int, old(self).channels() as int),
            !(r matches Ok(u) && u is Sample) ==> final(self).current_channel == old(self).current_channel,
    {
        let next = self.sound.next_sample();
        match next {
            Ok(n) => {
                let cc: u16 = self.sound.channel_count();
                let (out, nc) = pan_unit(self.pan_lr, self.pan_fb, cc, self.current_channel, n);
                self.current_channel = nc;
                proof {
                    if old(self).sound.stream().len() > 0 {
                        assert(final(self).stream() =~= old(self).stream().skip(1));
                    }
                }
                Ok(out)
            },
            Err(e) => {
                proof {
                    assert(final(self).stream() =~= old(self).stream().skip(1));
                }
                Err(e)
            },
        }
    }

    fn on_start_of_batch(&mut self) {
        self.sound.on_start_of_batch();
    }
}

/// Wrap any stage in a two-axis pan stage. Only layouts of 1 to 4 channels
/// are supported; anything else is rejected at construction rather than
/// mis-panned.
pub trait Pan: Sound + Sized {
    fn with_adjustable_pan(self) -> (r: Panned<Self>)
        requires
            self.wf(),
            1 <= self.channels() <= 4,
        ensures
            r.sound == self,
            r.pan_lr == 0,
            r.pan_fb == 0,
            r.current_channel == 0,
            r.wf(),
    {
        Panned { pan_lr: 0, pan_fb: 0, sound: self, current_channel: 0 }
    }

    fn with_adjustable_pan_of(self, pan_left_right: i32, pan_front_back: i32) -> (r: Panned<Self>)
        requires
            self.wf(),
            1 <= self.channels() <= 4,
        ensures
            r.sound == self,
            r.pan_lr == pan_left_right,
            r.pan_fb == pan_front_back,
            r.current_channel == 0,
            r.wf(),
    {
        Panned { pan_lr: pan_left_right, pan_fb: pan_front_back, sound: self, current_channel: 0 }
    }
}

impl<S: Sound> Pan for S {
}

/// A stage whose pan parameters can be changed in place while the chain is
/// alive. Changing them touches nothing else: channel count, sample rate
/// and the rest of the state are kept.
pub trait SetPan: Sound + Sized {
    /// Current left/right pan parameter, milli-units.
    spec fn spec_pan_lr(&self) -> i32;

    /// Current front/back pan parameter, milli-units.
    spec fn spec_pan_fb(&self) -> i32;

    /// The state after a `set_pan` call: the two parameters replaced,
    /// everything else kept.
    spec fn with_pan(self, pan_lr: i32, pan_fb: i32) -> Self;

    fn set_pan(&mut self, pan_lr: i32, pan_fb: i32)
        requires
            old(self).wf(),
        ensures
            *final(self) == old(self).with_pan(pan_lr, pan_fb),
            final(self).wf(),
            final(self).spec_pan_lr() == pan_lr,
            final(self).spec_pan_fb() == pan_fb,
            final(self).channels() == old(self).channels(),
            final(self).rate() == old(self).rate(),
    ;

    /// Setting the pan to its current values is no change at all: the state
    /// after the call is the state before it, so every later pull produces
    /// exactly what it would have produced anyway.
    proof fn lemma_set_pan_current_identity(self)
        ensures
            self.with_pan(self.spec_pan_lr(), self.spec_pan_fb()) == self,
            self.with_pan(self.spec_pan_lr(), self.spec_pan_fb()).stream() == self.stream(),
    ;
}

impl<S: Sound> SetPan for Panned<S> {
    open spec fn spec_pan_lr(&self) -> i32 {
        self.pan_lr
    }

    open spec fn spec_pan_fb(&self) -> i32 {
        self.pan_fb
    }

    open spec fn with_pan(self, pan_lr: i32, pan_fb: i32) -> Self {
        Panned { pan_lr, pan_fb, ..self }
    }

    fn set_pan(&mut self, pan_lr: i32, pan_fb: i32) {
        self.pan_lr = pan_lr;
        self.pan_fb = pan_fb;
    }

    proof fn lemma_set_pan_current_identity(self) {
    }
}

/// The whole output of a single-axis pan stage, given its inner stage's
/// output and its starting state.
pub open spec fn spec_lr_panned_stream(
    inner: Seq<Result<NextSample, SoundError>>,
    pan_lr: int,
    cc: int,
    ch: int,
) -> Seq<Result<NextSample, SoundError>>
    decreases inner.len(),
{
    if inner.len() == 0 {
        Seq::empty()
    } else {
        match inner[0] {
            Ok(n) => seq![Ok(spec_pan_unit_lr(pan_lr, cc, ch, n).0)]
                + spec_lr_panned_stream(inner.skip(1), pan_lr, cc, spec_pan_unit_lr(pan_lr, cc, ch, n).1),
            Err(e) => seq![Err(e)] + spec_lr_panned_stream(inner.skip(1), pan_lr, cc, ch),
        }
    }
}

/// A single-axis pan stage: the simplified variant for two-channel-focused
/// setups. It applies the same left/right rule as `Panned` and leaves the
/// second multiplication out; a front/back parameter is stored and
/// reported but takes no part in the transformation.
pub struct AdjustablePan<S> {
    inner: S,
    pan_lr: i32,
    pan_fb: i32,
    current_channel: u16,
}

impl<S: Sound> AdjustablePan<S> {
    /// The wrapped inner stage.
    pub closed spec fn spec_inner(&self) -> S {
        self.inner
    }

    /// Current left/right pan parameter, milli-units.
    pub closed spec fn spec_lr(&self) -> i32 {
        self.pan_lr
    }

    /// Current front/back pan parameter, milli-units.
    pub closed spec fn spec_fb(&self) -> i32 {
        self.pan_fb
    }

    /// The channel position the next produced sample belongs to.
    pub closed spec fn spec_channel(&self) -> u16 {
        self.current_channel
    }

    /// The state with the inner stage replaced and everything else kept.
    pub closed spec fn with_inner(self, sound: S) -> Self {
        AdjustablePan { inner: sound, ..self }
    }

    /// The state with the pan parameters replaced and everything else kept.
    pub closed spec fn spec_with_pan(self, pan_lr: i32, pan_fb: i32) -> Self {
        AdjustablePan { pan_lr, pan_fb, ..self }
    }

    pub fn new(inner: S) -> (r: Self)
        requires
            inner.wf(),
            1 <= inner.channels() <= 4,
        ensures
            r.wf(),
            r.spec_inner() == inner,
            r.spec_lr() == 0,
            r.spec_fb() == 0,
            r.spec_channel() == 0,
    {
        AdjustablePan { inner, pan_lr: 0, pan_fb: 0, current_channel: 0 }
    }

    pub fn new_with_pan(inner: S, pan_lr: i32, pan_fb: i32) -> (r: Self)
        requires
            inner.wf(),
            1 <= inner.channels() <= 4,
        ensures
            r.wf(),
            r.spec_inner() == inner,
            r.spec_lr() == pan_lr,
            r.spec_fb() == pan_fb,
            r.spec_channel() == 0,
    {
        AdjustablePan { inner, pan_lr, pan_fb, current_channel: 0 }
    }

    pub fn inner(&self) -> (r: &S)
        ensures
            *r == self.spec_inner(),
    {
        &self.inner
    }

    pub fn inner_mut(&mut self) -> (r: &mut S)
        ensures
            *r == old(self).spec_inner(),
            *final(self) == old(self).with_inner(*final(r)),
            final(self).spec_inner() == *final(r),
            final(self).spec_lr() == old(self).spec_lr(),
            final(self).spec_fb() == old(self).spec_fb(),
            final(self).spec_channel() == old(self).spec_channel(),
    {
        &mut self.inner
    }

    pub fn into_inner(self) -> (r: S)
        ensures
            r == self.spec_inner(),
    {
        self.inner
    }

    pub fn pan_lr(&self) -> (r: i32)
        ensures
            r == self.spec_lr(),
    {
        self.pan_lr
    }

    pub fn pan_fb(&self) -> (r: i32)
        ensures
            r == self.spec_fb(),
    {
        self.pan_fb
    }
}

impl<S: Sound> Sound for AdjustablePan<S> {
    open spec fn channels(&self) -> u16 {
        self.spec_inner().channels()
    }

    open spec fn rate(&self) -> u32 {
        self.spec_inner().rate()
    }

    open spec fn wf(&self) -> bool {
        &&& self.spec_inner().wf()
        &&& 1 <= self.spec_inner().channels() <= 4
        &&& self.spec_channel() < self.spec_inner().channels()
    }

    open spec fn stream(&self) -> Seq<Result<NextSample, SoundError>> {
        spec_lr_panned_stream(
            self.spec_inner().stream(),
            self.spec_lr() as int,
            self.spec_inner().channels() as int,
            self.spec_channel() as int,
        )
    }

    fn channel_count(&self) -> (r: u16) {
        self.inner.channel_count()
    }

    fn sample_rate(&self) -> (r: u32) {
        self.inner.sample_rate()
    }

    fn next_sample(&mut self) -> (r: Result<NextSample, SoundError>)
        ensures
            final(self).spec_lr() == old(self).spec_lr(),
            final(self).spec_fb() == old(self).spec_fb(),
            r matches Ok(u) && u is Sample ==> final(self).spec_channel() as int
                == spec_advance(old(self).spec_channel() as int, old(self).channels() as int),
            !(r matches Ok(u) && u is Sample) ==> final(self).spec_channel() == old(self).spec_channel(),
    {
        let next = self.inner.next_sample();
        match next {
            Ok(n) => {
                let cc: u16 = self.inner.channel_count();
                let (out, nc) = pan_unit_lr(self.pan_lr, cc, self.current_channel, n);
                self.current_channel = nc;
                proof {
                    if old(self).spec_inner().stream().len() > 0 {
                        assert(final(self).stream() =~= old(self).stream().skip(1));
                    }
                }
                Ok(out)
            },
            Err(e) => {
                proof {
                    assert(final(self).stream() =~= old(self).stream().skip(1));
                }
                Err(e)
            },
        }
    }

    fn on_start_of_batch(&mut self) {
        self.inner.on_start_of_batch();
    }
}

impl<S: Sound> SetPan for AdjustablePan<S> {
    open spec fn spec_pan_lr(&self) -> i32 {
        self.spec_lr()
    }

    open spec fn spec_pan_fb(&self) -> i32 {
        self.spec_fb()
    }

    open spec fn with_pan(self, pan_lr: i32, pan_fb: i32) -> Self {
        self.spec_with_pan(pan_lr, pan_fb)
    }

    fn set_pan(&mut self, pan_lr: i32, pan_fb: i32)
        ensures
            final(self).spec_inner() == old(self).spec_inner(),
            final(self).spec_channel() == old(self).spec_channel(),
    {
        self.pan_lr = pan_lr;
        self.pan_fb = pan_fb;
    }

    proof fn lemma_set_pan_current_identity(self) {
    }
}

/// With both pan parameters at 0 a sample is scaled by exactly 1 on every
/// axis: it passes through unchanged, whatever its channel position.
pub proof fn lemma_pan_identity(s: int, dir: PanDir, tilt: TiltDir)
    requires
        -32768 <= s <= 32767,
    ensures
        spec_pan_sample(s, 0, 0, dir, tilt) == s,
        spec_lr_axis(s, 0, dir) == s,
{
    lemma_div_multiples_vanish(s, 1000);
    lemma_div_multiples_vanish(-s, 1000);
}

/// With both pan parameters at 0 a pan stage is the identity on every
/// unit, on every supported layout, for both variants: what comes out of
/// a pull is exactly what the inner stage produced.
pub proof fn lemma_pan_unit_identity(cc: int, ch: int, n: NextSample)
    requires
        1 <= cc <= 4,
        0 <= ch < cc,
    ensures
        spec_pan_unit(0, 0, cc, ch, n).0 == n,
        spec_pan_unit_lr(0, cc, ch, n).0 == n,
{
    match n {
        NextSample::Sample(s) => {
            lemma_pan_identity(s as int, spec_pan_dir(cc, ch).0, spec_pan_dir(cc, ch).1);
        },
        _ => {},
    }
}

/// Full left/right pan on a stereo layout: at `pan_lr` of 1000 the left
/// channel's samples are doubled (saturating at the sample range) and the
/// right channel's are silenced; at -1000 the roles are exchanged.
pub proof fn lemma_full_pan_stereo(s: int)
    requires
        -32768 <= s <= 32767,
    ensures
        spec_pan_sample(s, 1000, 0, spec_pan_dir(2, 0).0, spec_pan_dir(2, 0).1) == sat_i16(2 * s),
        spec_pan_sample(s, 1000, 0, spec_pan_dir(2, 1).0, spec_pan_dir(2, 1).1) == 0,
        spec_pan_sample(s, -1000, 0, spec_pan_dir(2, 0).0, spec_pan_dir(2, 0).1) == 0,
        spec_pan_sample(s, -1000, 0, spec_pan_dir(2, 1).0, spec_pan_dir(2, 1).1) == sat_i16(2 * s),
{
    lemma_div_multiples_vanish(2 * s, 1000);
    lemma_div_multiples_vanish(-(2 * s), 1000);
    lemma_div_multiples_vanish(0, 1000);
}

/// The channel counter after `n` sample pulls.
pub open spec fn spec_advance_n(ch: int, cc: int, n: nat) -> int
    decreases n,
{
    if n == 0 {
        ch
    } else {
        spec_advance(spec_advance_n(ch, cc, (n - 1) as nat), cc)
    }
}

/// Closed form of the counter for up to one full cycle.
proof fn lemma_advance_n_small(ch: int, cc: int, n: nat)
    requires
        1 <= cc,
        0 <= ch < cc,
        n <= cc,
    ensures
        spec_advance_n(ch, cc, n) == if ch + n < cc { ch + n } else { ch + n - cc },
    decreases n,
{
    if n > 0 {
        lemma_advance_n_small(ch, cc, (n - 1) as nat);
    }
}

/// The channel counter is cyclic with period exactly `cc`: after `cc`
/// sample pulls it is back where it started, and at no earlier point.
/// Only sample pulls count; control markers do not move it.
pub proof fn lemma_counter_period(ch: int, cc: int, k: nat)
    requires
        1 <= cc,
        0 <= ch < cc,
    ensures
        spec_advance_n(ch, cc, cc as nat) == ch,
        0 < k < cc ==> spec_advance_n(ch, cc, k) != ch,
{
    lemma_advance_n_small(ch, cc, cc as nat);
    if 0 < k < cc {
        lemma_advance_n_small(ch, cc, k);
    }
}

} // verus!
