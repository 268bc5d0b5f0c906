//! Capture: opening an SDI input, and reading frames off it.
//!
//! The card is driven from outside. Each function here takes what the shim
//! returned and filled in, and says what follows: a frame, an error, or one
//! more read. Points in time are nanoseconds on a monotonic clock.
use vstd::prelude::*;
use vstd::string::*;

use crate::error::{Error, ErrorView};
use crate::frame::{
    capture_frame, captured, CapturedFrame, CapturedVideo, DecklinkPixelFormat, FrameView,
    VideoView,
};
use crate::shim::{low32, to_low32, RawFrame, ShimConstants};
use crate::text::{decimal, push_decimal};

verus! {

/// How long one read waits for a frame.
pub const READ_TIMEOUT_MS: u32 = 1_000;

/// If no frame arrives for this long, the device is treated as gone so the
/// caller can re-open it. A live SDI input delivers frames continuously, even
/// with no signal: silence means the device itself went away.
pub const NO_FRAME_TIMEOUT_NS: u128 = 5_000_000_000;

/// How long an open waits for the first video frame before giving up.
pub const FIRST_FRAME_TIMEOUT_NS: u128 = 5_000_000_000;

/// After the first video frame, an open keeps draining this long so the card's
/// input-format detection can fire and correct the raster and frame rate. The
/// input is armed on a seed mode, so the very first frame may still carry the
/// seed's rate rather than the source's.
pub const FORMAT_SETTLE_NS: u128 = 400_000_000;

/// Whether `span` has passed since `since`.
pub(crate) fn has_passed(since: u128, span: u128, now: u128) -> (r: bool)
    ensures
        r == (now >= since + span),
{
    now >= since && now - since >= span
}

/// The wait that the shim is asked for: its count of milliseconds is an
/// `i32`, and anything beyond that is a caller asking to block indefinitely.
pub open spec fn clamped_timeout(timeout_ms: u32) -> i32 {
    if timeout_ms <= i32::MAX {
        timeout_ms as i32
    } else {
        i32::MAX
    }
}

/// The wait that the shim is asked for, in its own type.
pub fn shim_timeout(timeout_ms: u32) -> (r: i32)
    ensures
        r == clamped_timeout(timeout_ms),
{
    if timeout_ms <= i32::MAX as u32 {
        timeout_ms as i32
    } else {
        i32::MAX
    }
}

// ---------------------------------------------------------------------------
// Configuration
// ---------------------------------------------------------------------------

/// Capture configuration.
#[derive(Debug, Clone)]
pub struct DecklinkCaptureConfig {
    /// Device display name.
    pub device: String,
    /// `"auto"` to use the card's hardware input-format detection, otherwise a
    /// DeckLink mode FourCC such as `"Hp50"` / `"Hi50"`.
    pub format: String,
    /// Requested pixel format.
    pub pixel_format: DecklinkPixelFormat,
    /// Embedded-audio channel count (0 disables audio; otherwise 2, 8 or 16).
    pub audio_channels: u8,
    /// Audio sample rate. SDI embedded audio is always 48 kHz.
    pub audio_sample_rate: u32,
}

/// A [`DecklinkCaptureConfig`] with its texts as sequences of characters.
pub struct CaptureConfigView {
    pub device: Seq<char>,
    pub format: Seq<char>,
    pub pixel_format: DecklinkPixelFormat,
    pub audio_channels: u8,
    pub audio_sample_rate: u32,
}

impl View for DecklinkCaptureConfig {
    type V = CaptureConfigView;

    open spec fn view(&self) -> CaptureConfigView {
        CaptureConfigView {
            device: self.device@,
            format: self.format@,
            pixel_format: self.pixel_format,
            audio_channels: self.audio_channels,
            audio_sample_rate: self.audio_sample_rate,
        }
    }
}

// ---------------------------------------------------------------------------
// The capture
// ---------------------------------------------------------------------------

/// A live SDI capture, apart from the shim's own handle.
pub struct DecklinkCapture {
    device: String,
    pixel_format: DecklinkPixelFormat,
    width: u32,
    height: u32,
    fr_num: u32,
    fr_den: u32,
    audio_channels: u8,
    audio_sample_rate: u32,
    /// The last video frame read while opening, which told the raster.
    pending: Option<CapturedVideo>,
}

/// A [`DecklinkCapture`] by the views of its parts.
pub struct CaptureView {
    pub device: Seq<char>,
    pub pixel_format: DecklinkPixelFormat,
    pub width: u32,
    pub height: u32,
    pub fr_num: u32,
    pub fr_den: u32,
    pub audio_channels: u8,
    pub audio_sample_rate: u32,
    pub pending: Option<VideoView>,
}

impl View for DecklinkCapture {
    type V = CaptureView;

    closed spec fn view(&self) -> CaptureView {
        CaptureView {
            device: self.device@,
            pixel_format: self.pixel_format,
            width: self.width,
            height: self.height,
            fr_num: self.fr_num,
            fr_den: self.fr_den,
            audio_channels: self.audio_channels,
            audio_sample_rate: self.audio_sample_rate,
            pending: match self.pending {
                Some(v) => Some(v@),
                None => None,
            },
        }
    }
}

/// The outcome of one read, by its views.
pub open spec fn viewed_read(r: Result<Option<CapturedFrame>, Error>) -> Result<
    Option<FrameView>,
    ErrorView,
> {
    match r {
        Ok(Some(f)) => Ok(Some(f@)),
        Ok(None) => Ok(None),
        Err(e) => Err(e@),
    }
}

/// The outcome of a read that returned `rc` and filled in `frame`: nothing
/// when the wait ran out, an error when the stream was closed or failed, the
/// frame otherwise.
pub open spec fn read_outcome(
    rc: i32,
    frame: RawFrame,
    pixel_format: DecklinkPixelFormat,
    shim: ShimConstants,
) -> Result<Option<FrameView>, ErrorView> {
    if rc == shim.timeout {
        Ok(None)
    } else if rc == shim.err_stopped {
        Err(ErrorView::Eof)
    } else if rc != shim.ok {
        Err(ErrorView::Io("dl_read_frame failed (code "@ + decimal(rc as int) + ")"@))
    } else {
        Ok(Some(captured(frame, pixel_format, shim)))
    }
}

/// A read that returned `rc` delivered a frame.
pub open spec fn delivered(rc: i32, shim: ShimConstants) -> bool {
    rc == shim.ok && rc != shim.timeout && rc != shim.err_stopped
}

/// Whether a read that returned `rc` delivered a frame, which is then copied
/// and released: holding SDK frames starves the card of capture buffers.
pub fn frame_delivered(rc: i32, shim: &ShimConstants) -> (r: bool)
    ensures
        r == delivered(rc, *shim),
{
    rc == shim.ok && rc != shim.timeout && rc != shim.err_stopped
}

/// What a capture reads next.
#[derive(Debug)]
pub enum ReadStep {
    /// A frame that is already at hand.
    Frame(CapturedFrame),
    /// The next frame the shim delivers, waiting up to this long for it.
    Wait { timeout_ms: i32 },
}

/// A [`ReadStep`] by the view of its frame.
pub enum ReadStepView {
    Frame(FrameView),
    Wait { timeout_ms: i32 },
}

impl View for ReadStep {
    type V = ReadStepView;

    open spec fn view(&self) -> ReadStepView {
        match self {
            ReadStep::Frame(f) => ReadStepView::Frame(f@),
            ReadStep::Wait { timeout_ms } => ReadStepView::Wait { timeout_ms: *timeout_ms },
        }
    }
}

/// A rate that can be divided by: a part that is zero counts as one.
pub open spec fn at_least_one(rate: (u32, u32)) -> (u32, u32) {
    (
        if rate.0 == 0 {
            1
        } else {
            rate.0
        },
        if rate.1 == 0 {
            1
        } else {
            rate.1
        },
    )
}

/// A rate with each part as a `u32` holds it.
pub open spec fn held_rate(rate: (i64, i64)) -> (u32, u32) {
    (low32(rate.0 as int), low32(rate.1 as int))
}

/// The rate that a read told: that of a video frame with both parts positive.
pub open spec fn told_rate(rc: i32, frame: RawFrame, shim: ShimConstants) -> Option<(i64, i64)> {
    if delivered(rc, shim) && frame.kind == shim.frame_video && frame.fr_num > 0 && frame.fr_den
        > 0 {
        Some((frame.fr_num, frame.fr_den))
    } else {
        None
    }
}

impl CaptureView {
    /// The capture of a device that was just opened with `cfg`.
    pub open spec fn fresh(cfg: CaptureConfigView) -> CaptureView {
        CaptureView {
            device: cfg.device,
            pixel_format: cfg.pixel_format,
            width: 0,
            height: 0,
            fr_num: 0,
            fr_den: 1,
            audio_channels: cfg.audio_channels,
            audio_sample_rate: cfg.audio_sample_rate,
            pending: None,
        }
    }

    /// The capture after a read: a video frame with a positive rate tells the
    /// frame rate.
    pub open spec fn after_read(
        self,
        rc: i32,
        frame: RawFrame,
        shim: ShimConstants,
    ) -> CaptureView {
        match told_rate(rc, frame, shim) {
            Some(rate) => CaptureView {
                fr_num: held_rate(rate).0,
                fr_den: held_rate(rate).1,
                ..self
            },
            None => self,
        }
    }

    /// The capture with `latest` as the frame that tells the raster and is
    /// read first.
    pub open spec fn with_raster(self, latest: VideoView) -> CaptureView {
        CaptureView {
            width: latest.width,
            height: latest.height,
            pending: Some(latest),
            ..self
        }
    }

    /// The frame rate (numerator, denominator) as it is reported: neither part
    /// is ever zero.
    pub open spec fn frame_rate(self) -> (u32, u32) {
        at_least_one((self.fr_num, self.fr_den))
    }

    /// What is read next, by a caller who waits up to `timeout_ms`.
    pub open spec fn read_step(self, timeout_ms: u32) -> ReadStepView {
        match self.pending {
            Some(v) => ReadStepView::Frame(FrameView::Video(v)),
            None => ReadStepView::Wait { timeout_ms: clamped_timeout(timeout_ms) },
        }
    }

    /// What a blocking read that began at `since` returns at `now`, after a
    /// read with outcome `read`; `None` when it reads once more.
    pub open spec fn read_result(
        self,
        since: u128,
        now: u128,
        read: Result<Option<FrameView>, ErrorView>,
    ) -> Option<Result<FrameView, ErrorView>> {
        match read {
            Ok(Some(f)) => Some(Ok(f)),
            Ok(None) => if now >= since + NO_FRAME_TIMEOUT_NS {
                Some(Err(ErrorView::NoSignal(self.device)))
            } else {
                None
            },
            Err(e) => Some(Err(e)),
        }
    }
}

/// The result of a blocking read, by its views.
pub open spec fn viewed_result(r: Option<Result<CapturedFrame, Error>>) -> Option<
    Result<FrameView, ErrorView>,
> {
    match r {
        Some(Ok(f)) => Some(Ok(f@)),
        Some(Err(e)) => Some(Err(e@)),
        None => None,
    }
}

impl DecklinkCapture {
    /// The capture of a device that was just opened with `cfg`.
    pub(crate) fn fresh(cfg: &DecklinkCaptureConfig) -> (r: DecklinkCapture)
        ensures
            r@ == CaptureView::fresh(cfg@),
    {
        DecklinkCapture {
            device: cfg.device.clone(),
            pixel_format: cfg.pixel_format,
            width: 0,
            height: 0,
            fr_num: 0,
            fr_den: 1,
            audio_channels: cfg.audio_channels,
            audio_sample_rate: cfg.audio_sample_rate,
            pending: None,
        }
    }

    /// Takes the raster from `latest` and keeps the frame to be read first.
    pub(crate) fn set_raster(&mut self, latest: CapturedVideo)
        ensures
            final(self)@ == old(self)@.with_raster(latest@),
    {
        self.width = latest.width;
        self.height = latest.height;
        self.pending = Some(latest);
    }

    /// The name of the device that was opened.
    pub(crate) fn device_name(&self) -> (r: String)
        ensures
            r@ == self@.device,
    {
        self.device.clone()
    }

    /// Detected video raster (width, height).
    pub fn video_dimensions(&self) -> (r: (u32, u32))
        ensures
            r == (self@.width, self@.height),
    {
        (self.width, self.height)
    }

    /// Detected frame rate (numerator, denominator), e.g. `(50, 1)`. Neither
    /// is ever zero.
    pub fn video_frame_rate(&self) -> (r: (u32, u32))
        ensures
            r == self@.frame_rate(),
            r.0 >= 1,
            r.1 >= 1,
    {
        (
            if self.fr_num == 0 {
                1
            } else {
                self.fr_num
            },
            if self.fr_den == 0 {
                1
            } else {
                self.fr_den
            },
        )
    }

    /// Configured embedded-audio channel count.
    pub fn audio_channels(&self) -> (r: u8)
        ensures
            r == self@.audio_channels,
    {
        self.audio_channels
    }

    /// Audio sample rate (Hz).
    pub fn audio_sample_rate(&self) -> (r: u32)
        ensures
            r == self@.audio_sample_rate,
    {
        self.audio_sample_rate
    }

    /// Takes up one read of the shim: what it returned (`rc`) and, where it
    /// delivered a frame, what it filled in. `Ok(None)` means that the wait
    /// ran out.
    pub fn next_raw(&mut self, rc: i32, frame: RawFrame, shim: &ShimConstants) -> (r: Result<
        Option<CapturedFrame>,
        Error,
    >)
        ensures
            viewed_read(r) == read_outcome(rc, frame, old(self)@.pixel_format, *shim),
            final(self)@ == old(self)@.after_read(rc, frame, *shim),
    {
        if rc == shim.timeout {
            return Ok(None);
        }
        if rc == shim.err_stopped {
            return Err(Error::Eof);
        }
        if rc != shim.ok {
            let mut text = "dl_read_frame failed (code ".to_owned();
            push_decimal(&mut text, rc as i128);
            text.append(")");
            return Err(Error::Io(text));
        }
        if frame.kind == shim.frame_video && frame.fr_num > 0 && frame.fr_den > 0 {
            self.fr_num = to_low32(frame.fr_num);
            self.fr_den = to_low32(frame.fr_den);
        }
        Ok(Some(capture_frame(frame, self.pixel_format, shim)))
    }

    /// What a caller who waits up to `timeout_ms` reads next: the frame kept
    /// from opening, once, and after that whatever the shim delivers, which
    /// [`next_raw`](Self::next_raw) takes up.
    ///
    /// A silent window is not an error here: the caller decides how much
    /// silence means the device is gone, and polls its own cancellation
    /// between calls.
    pub fn read_frame_timeout(&mut self, timeout_ms: u32) -> (r: ReadStep)
        ensures
            r@ == old(self)@.read_step(timeout_ms),
            final(self)@ == (CaptureView { pending: None, ..old(self)@ }),
    {
        match self.pending.take() {
            Some(v) => ReadStep::Frame(CapturedFrame::Video(v)),
            None => ReadStep::Wait { timeout_ms: shim_timeout(timeout_ms) },
        }
    }

    /// What a blocking read reads next: the frame kept from opening, once, and
    /// after that whatever the shim delivers within [`READ_TIMEOUT_MS`].
    pub fn read_frame_step(&mut self) -> (r: ReadStep)
        ensures
            r@ == old(self)@.read_step(READ_TIMEOUT_MS),
            r matches ReadStep::Wait { timeout_ms } ==> timeout_ms == clamped_timeout(
                READ_TIMEOUT_MS,
            ),
            final(self)@ == (CaptureView { pending: None, ..old(self)@ }),
    {
        self.read_frame_timeout(READ_TIMEOUT_MS)
    }

    /// What a blocking read that began at `since` makes of one read with
    /// outcome `read`, at `now`: its result, or `None` when it reads once more,
    /// by [`read_frame_step`](Self::read_frame_step).
    ///
    /// A device that stops delivering frames for [`NO_FRAME_TIMEOUT_NS`] is
    /// gone ([`Error::NoSignal`]); a closed capture is [`Error::Eof`]. Signal
    /// loss does not end the stream: the card keeps delivering frames with
    /// [`CapturedVideo::signal_present`] set to `false`.
    pub fn read_frame(
        &self,
        since: u128,
        now: u128,
        read: Result<Option<CapturedFrame>, Error>,
    ) -> (r: Option<Result<CapturedFrame, Error>>)
        ensures
            viewed_result(r) == self@.read_result(since, now, viewed_read(read)),
    {
        match read {
            Ok(Some(f)) => Some(Ok(f)),
            Ok(None) => if has_passed(since, NO_FRAME_TIMEOUT_NS, now) {
                Some(Err(Error::NoSignal(self.device.clone())))
            } else {
                None
            },
            Err(e) => Some(Err(e)),
        }
    }
}

// ---------------------------------------------------------------------------
// Laws
// ---------------------------------------------------------------------------

/// The frame that told the raster is read first, without waiting and once;
/// after that the card is asked.
pub proof fn law_kept_frame_is_read_first(c: CaptureView, latest: VideoView, timeout_ms: u32)
    ensures
        c.with_raster(latest).read_step(timeout_ms) == ReadStepView::Frame(
            FrameView::Video(latest),
        ),
        (CaptureView { pending: None, ..c.with_raster(latest) }).read_step(timeout_ms) is Wait,
{
}

/// Loss of signal does not end the stream: a delivered frame is returned with
/// or without a signal, and the mark on it is all that differs.
pub proof fn law_signal_loss_only_marks_frames(
    rc: i32,
    frame: RawFrame,
    no_signal: i64,
    pixel_format: DecklinkPixelFormat,
    shim: ShimConstants,
)
    requires
        delivered(rc, shim),
        frame.kind == shim.frame_video,
    ensures
        ({
            let other = RawFrame { no_signal, ..frame };
            match (
                read_outcome(rc, frame, pixel_format, shim),
                read_outcome(rc, other, pixel_format, shim),
            ) {
                (Ok(Some(FrameView::Video(v))), Ok(Some(FrameView::Video(w)))) => {
                    &&& v.signal_present <==> frame.no_signal == 0
                    &&& w == (VideoView { signal_present: no_signal == 0, ..v })
                },
                _ => false,
            }
        }),
{
}

/// Each outcome of a read comes with its return code and with no other.
pub proof fn law_read_by_code(
    rc: i32,
    frame: RawFrame,
    pixel_format: DecklinkPixelFormat,
    shim: ShimConstants,
)
    requires
        shim.wf(),
    ensures
        ({
            let r = read_outcome(rc, frame, pixel_format, shim);
            &&& (r matches Ok(Some(_))) <==> rc == shim.ok
            &&& (r matches Ok(None)) <==> rc == shim.timeout
            &&& (r matches Err(ErrorView::Eof)) <==> rc == shim.err_stopped
            &&& (r matches Err(ErrorView::Io(_))) <==> rc != shim.ok && rc != shim.timeout && rc
                != shim.err_stopped
            &&& delivered(rc, shim) <==> rc == shim.ok
        }),
{
}

/// What happens to a capture.
pub enum CaptureEvent {
    /// A read of the shim was taken up.
    Read { rc: i32, frame: RawFrame },
    /// A caller asked what to read next, and got the kept frame if there was
    /// one.
    Step,
}

/// A capture after any number of events.
pub open spec fn after_events(
    c: CaptureView,
    events: Seq<CaptureEvent>,
    shim: ShimConstants,
) -> CaptureView
    decreases events.len(),
{
    if events.len() == 0 {
        c
    } else {
        let before = after_events(c, events.drop_last(), shim);
        match events.last() {
            CaptureEvent::Read { rc, frame } => before.after_read(rc, frame, shim),
            CaptureEvent::Step => CaptureView { pending: None, ..before },
        }
    }
}

/// The latest rate that the events told.
pub open spec fn latest_rate(events: Seq<CaptureEvent>, shim: ShimConstants) -> Option<(i64, i64)>
    decreases events.len(),
{
    if events.len() == 0 {
        None
    } else {
        let told = match events.last() {
            CaptureEvent::Read { rc, frame } => told_rate(rc, frame, shim),
            CaptureEvent::Step => None,
        };
        match told {
            Some(rate) => Some(rate),
            None => latest_rate(events.drop_last(), shim),
        }
    }
}

/// Whatever is read, a capture holds the latest rate that was told, and the one
/// it had where none was told; as reported, neither part is zero.
pub proof fn law_rate_is_latest_told(
    c: CaptureView,
    events: Seq<CaptureEvent>,
    shim: ShimConstants,
)
    ensures
        ({
            let after = after_events(c, events, shim);
            &&& (after.fr_num, after.fr_den) == (match latest_rate(events, shim) {
                Some(rate) => held_rate(rate),
                None => (c.fr_num, c.fr_den),
            })
            &&& after.frame_rate().0 >= 1
            &&& after.frame_rate().1 >= 1
        }),
    decreases events.len(),
{
    if events.len() > 0 {
        law_rate_is_latest_told(c, events.drop_last(), shim);
    }
}

/// The latest rate over two stretches is that of the second, or of the first
/// where the second told none.
pub proof fn lemma_latest_rate_concat(
    a: Seq<CaptureEvent>,
    b: Seq<CaptureEvent>,
    shim: ShimConstants,
)
    ensures
        latest_rate(a + b, shim) == (match latest_rate(b, shim) {
            Some(rate) => Some(rate),
            None => latest_rate(a, shim),
        }),
    decreases b.len(),
{
    if b.len() == 0 {
        assert(a + b =~= a);
    } else {
        assert((a + b).drop_last() =~= a + b.drop_last());
        lemma_latest_rate_concat(a, b.drop_last(), shim);
    }
}

/// A rate that was told has both parts positive.
pub proof fn lemma_latest_rate_is_positive(events: Seq<CaptureEvent>, shim: ShimConstants)
    ensures
        latest_rate(events, shim) matches Some(rate) ==> rate.0 > 0 && rate.1 > 0,
    decreases events.len(),
{
    if events.len() > 0 {
        lemma_latest_rate_is_positive(events.drop_last(), shim);
    }
}

/// One read of a blocking read: its outcome, and the time after it.
pub struct Poll {
    pub now: u128,
    pub read: Result<Option<FrameView>, ErrorView>,
}

/// The result of a blocking read that began at `since`, over any number of
/// reads; `None` while it goes on reading.
pub open spec fn blocking_read(c: CaptureView, since: u128, polls: Seq<Poll>) -> Option<
    Result<FrameView, ErrorView>,
>
    decreases polls.len(),
{
    if polls.len() == 0 {
        None
    } else {
        match blocking_read(c, since, polls.drop_last()) {
            Some(r) => Some(r),
            None => c.read_result(since, polls.last().now, polls.last().read),
        }
    }
}

/// A read that does not end a blocking read: it was silent, and the timeout
/// has not passed.
pub open spec fn is_early_silence(since: u128, poll: Poll) -> bool {
    poll.read matches Ok(None) && poll.now < since + NO_FRAME_TIMEOUT_NS
}

/// A blocking read goes on through early silence, and its first other read
/// decides it: a frame or an error is returned as it is, and late silence means
/// that the device is gone.
pub proof fn law_blocking_read_ends_at_first_event(c: CaptureView, since: u128, polls: Seq<Poll>)
    ensures
        match blocking_read(c, since, polls) {
            None => forall|i: int|
                0 <= i < polls.len() ==> is_early_silence(since, #[trigger] polls[i]),
            Some(r) => exists|i: int|
                0 <= i < polls.len() && (forall|j: int|
                    0 <= j < i ==> is_early_silence(since, #[trigger] polls[j])) && r == (
                match (#[trigger] polls[i]).read {
                    Ok(Some(f)) => Ok::<FrameView, ErrorView>(f),
                    Ok(None) => Err(ErrorView::NoSignal(c.device)),
                    Err(e) => Err(e),
                }) && !is_early_silence(since, polls[i]),
        },
    decreases polls.len(),
{
    if polls.len() > 0 {
        let rest = polls.drop_last();
        law_blocking_read_ends_at_first_event(c, since, rest);
        assert forall|i: int| 0 <= i < rest.len() implies rest[i] == #[trigger] polls[i] by {}
        match blocking_read(c, since, rest) {
            Some(r) => {
                let i = choose|i: int|
                    0 <= i < rest.len() && (forall|j: int|
                        0 <= j < i ==> is_early_silence(since, #[trigger] rest[j])) && r == (
                    match (#[trigger] rest[i]).read {
                        Ok(Some(f)) => Ok::<FrameView, ErrorView>(f),
                        Ok(None) => Err(ErrorView::NoSignal(c.device)),
                        Err(e) => Err(e),
                    }) && !is_early_silence(since, rest[i]);
                assert(polls[i] == rest[i]);
            },
            None => {
                assert(polls[polls.len() - 1] == polls.last());
            },
        }
    }
}

/// A read that delivered a frame hands on that frame, in the pixel format of
/// the capture; one that failed for a reason without a name of its own tells
/// the shim's code.
pub proof fn law_read_hands_on_the_frame(
    rc: i32,
    frame: RawFrame,
    pixel_format: DecklinkPixelFormat,
    shim: ShimConstants,
)
    requires
        shim.wf(),
    ensures
        ({
            let r = read_outcome(rc, frame, pixel_format, shim);
            &&& rc == shim.ok ==> r == Ok::<Option<FrameView>, ErrorView>(
                Some(captured(frame, pixel_format, shim)),
            )
            &&& rc == shim.ok && frame.kind == shim.frame_video ==> (r matches Ok(
                Some(FrameView::Video(v)),
            ) && v.pixel_format == pixel_format && v.pts == frame.pts_90khz && v.data
                == frame.data@ && v.width as int == frame.width as int % 0x1_0000_0000
                && v.height as int == frame.height as int % 0x1_0000_0000)
            &&& rc == shim.ok && frame.kind != shim.frame_video ==> (r matches Ok(
                Some(FrameView::Audio(a)),
            ) && a.pts == frame.pts_90khz)
            &&& rc != shim.ok && rc != shim.timeout && rc != shim.err_stopped ==> r == Err::<
                Option<FrameView>,
                ErrorView,
            >(ErrorView::Io("dl_read_frame failed (code "@ + decimal(rc as int) + ")"@))
        }),
{
}

/// A read changes nothing of the capture but the frame rate, and that only by
/// delivering a video frame with a rate of which both parts are positive: the
/// rate is then that frame's, each part as a `u32` holds it.
pub proof fn law_read_changes_only_the_rate(
    c: CaptureView,
    rc: i32,
    frame: RawFrame,
    shim: ShimConstants,
)
    requires
        shim.wf(),
    ensures
        ({
            let d = c.after_read(rc, frame, shim);
            let tells = rc == shim.ok && frame.kind == shim.frame_video && frame.fr_num > 0
                && frame.fr_den > 0;
            &&& !tells ==> d == c
            &&& d == (CaptureView { fr_num: d.fr_num, fr_den: d.fr_den, ..c })
            &&& tells ==> d.fr_num as int == frame.fr_num as int % 0x1_0000_0000
            &&& tells ==> d.fr_den as int == frame.fr_den as int % 0x1_0000_0000
            &&& tells && frame.fr_num <= u32::MAX && frame.fr_den <= u32::MAX ==> {
                &&& d.frame_rate().0 == frame.fr_num
                &&& d.frame_rate().1 == frame.fr_den
            }
        }),
{
}

/// The frame rate is reported as it is, but for a zero, which is reported as
/// one.
pub proof fn law_reported_rate_is_the_rate(c: CaptureView)
    ensures
        c.fr_num > 0 ==> c.frame_rate().0 == c.fr_num,
        c.fr_den > 0 ==> c.frame_rate().1 == c.fr_den,
        c.fr_num == 0 ==> c.frame_rate().0 == 1,
        c.fr_den == 0 ==> c.frame_rate().1 == 1,
{
}

/// The frame kept from opening is read first. Without one the shim is asked,
/// and waits as long as the caller asks, or as long as it can where that is
/// less.
pub proof fn law_read_waits_as_asked(c: CaptureView, timeout_ms: u32)
    ensures
        c.pending matches Some(v) ==> c.read_step(timeout_ms) == ReadStepView::Frame(
            FrameView::Video(v),
        ),
        c.pending is None ==> (c.read_step(timeout_ms) matches ReadStepView::Wait { timeout_ms: t }
            && (timeout_ms <= 0x7FFF_FFFF ==> t == timeout_ms) && (timeout_ms > 0x7FFF_FFFF ==> t
            == 0x7FFF_FFFF)),
        READ_TIMEOUT_MS == 1_000,
{
}

/// A blocking read returns a frame or an error as soon as it has one. Silence
/// ends it once five seconds have passed since it began, as the device of the
/// capture being gone, and not before.
pub proof fn law_five_seconds_of_silence(
    c: CaptureView,
    since: u128,
    now: u128,
    frame: FrameView,
    error: ErrorView,
)
    ensures
        c.read_result(since, now, Ok(Some(frame))) == Some(Ok::<FrameView, ErrorView>(frame)),
        c.read_result(since, now, Err(error)) == Some(Err::<FrameView, ErrorView>(error)),
        now - since >= 5_000_000_000 ==> c.read_result(since, now, Ok(None)) == Some(
            Err::<FrameView, ErrorView>(ErrorView::NoSignal(c.device)),
        ),
        now - since < 5_000_000_000 ==> c.read_result(since, now, Ok(None)) is None,
{
}

/// A configuration is seen with every field that it holds, and what a read
/// came to as the frame, the silence or the error that it is.
pub proof fn law_reads_are_seen_whole(
    cfg: DecklinkCaptureConfig,
    f: CapturedFrame,
    e: Error,
    timeout_ms: i32,
)
    ensures
        cfg@.device == cfg.device@,
        cfg@.format == cfg.format@,
        cfg@.pixel_format == cfg.pixel_format,
        cfg@.audio_channels == cfg.audio_channels,
        cfg@.audio_sample_rate == cfg.audio_sample_rate,
        viewed_read(Ok(Some(f))) == Ok::<Option<FrameView>, ErrorView>(Some(f@)),
        viewed_read(Ok(None)) == Ok::<Option<FrameView>, ErrorView>(None),
        viewed_read(Err(e)) == Err::<Option<FrameView>, ErrorView>(e@),
        viewed_result(Some(Ok(f))) == Some(Ok::<FrameView, ErrorView>(f@)),
        viewed_result(Some(Err(e))) == Some(Err::<FrameView, ErrorView>(e@)),
        viewed_result(None) is None,
        ReadStep::Frame(f)@ == ReadStepView::Frame(f@),
        (ReadStep::Wait { timeout_ms })@ == (ReadStepView::Wait { timeout_ms }),
{
}

} // verus!
