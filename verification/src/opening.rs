//! Opening a capture: from the configuration to the first frames.
//!
//! An open asks the shim for the device, waits for the first video frame, and
//! then drains for a moment so that format detection can settle.
use vstd::prelude::*;
use vstd::string::*;

use crate::capture::{
    after_events, at_least_one, clamped_timeout, has_passed, held_rate, latest_rate,
    law_rate_is_latest_told, lemma_latest_rate_concat, lemma_latest_rate_is_positive, read_outcome,
    shim_timeout, CaptureConfigView, CaptureEvent, CaptureView, DecklinkCapture,
    DecklinkCaptureConfig, FIRST_FRAME_TIMEOUT_NS, FORMAT_SETTLE_NS, READ_TIMEOUT_MS,
};
use crate::error::{viewed, Error, ErrorView};
use crate::frame::{
    captured, CapturedFrame, CapturedVideo, DecklinkPixelFormat, FrameView, VideoView,
};
use crate::shim::{is_c_text, OpenRequest, OpenRequestView, RawFrame, ShimConstants};
use crate::text::{decimal, has_nul, push_decimal, quoted, quoted_text};

verus! {

// ---------------------------------------------------------------------------
// Asking for the device
// ---------------------------------------------------------------------------

/// What the shim is asked to open for `cfg`; an error where the device name or
/// the mode is no C string.
pub open spec fn capture_request(cfg: CaptureConfigView, shim: ShimConstants) -> Result<
    OpenRequestView,
    ErrorView,
> {
    if !is_c_text(cfg.device) {
        Err(ErrorView::DeviceNotFound(cfg.device))
    } else if !is_c_text(cfg.format) {
        Err(bad_format_error(quoted_text(cfg.format)))
    } else {
        Ok(
            OpenRequestView {
                device: cfg.device,
                mode: cfg.format,
                pixel_format: cfg.pixel_format.raw(shim),
                audio_channels: cfg.audio_channels as i32,
            },
        )
    }
}

/// The error for a mode that is no C string.
pub open spec fn bad_format_error(quoted_format: Seq<char>) -> ErrorView {
    ErrorView::Unsupported("bad format "@ + quoted_format)
}

/// The error for an open that the shim refused with `rc`.
pub open spec fn refused_open_error(
    rc: i32,
    device: Seq<char>,
    quoted_device: Seq<char>,
    quoted_format: Seq<char>,
    shim: ShimConstants,
) -> ErrorView {
    if rc == shim.err_no_device {
        ErrorView::DeviceNotFound(device)
    } else if rc == shim.err_unsupported {
        ErrorView::Unsupported(
            "device "@ + quoted_device + " does not support the requested mode/detection"@,
        )
    } else if rc == shim.err_param {
        ErrorView::Unsupported("bad mode "@ + quoted_format)
    } else {
        ErrorView::OpenFailed("dl_open failed (code "@ + decimal(rc as int) + ")"@)
    }
}

/// The error for a mode that is no C string, from the mode in quotes.
pub fn bad_format(quoted_format: &str) -> (r: Error)
    ensures
        r@ == bad_format_error(quoted_format@),
{
    let mut text = "bad format ".to_owned();
    text.append(quoted_format);
    Error::Unsupported(text)
}

/// The error for an open of `device` that the shim refused with `rc`, from the
/// device name and the mode in quotes.
pub fn refused_open(
    rc: i32,
    device: &str,
    quoted_device: &str,
    quoted_format: &str,
    shim: &ShimConstants,
) -> (r: Error)
    ensures
        r@ == refused_open_error(rc, device@, quoted_device@, quoted_format@, *shim),
{
    if rc == shim.err_no_device {
        Error::DeviceNotFound(device.to_owned())
    } else if rc == shim.err_unsupported {
        let mut text = "device ".to_owned();
        text.append(quoted_device);
        text.append(" does not support the requested mode/detection");
        Error::Unsupported(text)
    } else if rc == shim.err_param {
        let mut text = "bad mode ".to_owned();
        text.append(quoted_format);
        Error::Unsupported(text)
    } else {
        let mut text = "dl_open failed (code ".to_owned();
        push_decimal(&mut text, rc as i128);
        text.append(")");
        Error::OpenFailed(text)
    }
}

// ---------------------------------------------------------------------------
// Waiting for frames
// ---------------------------------------------------------------------------

/// Where an open stands.
enum Phase {
    /// No video frame has arrived since the device was opened at `since`.
    FirstFrame { since: u128 },
    /// The first video frame arrived at `since`; `latest` is the last one.
    Settling { since: u128, latest: CapturedVideo },
}

/// A capture whose device is open and whose raster is not known yet.
pub struct CaptureOpening {
    capture: DecklinkCapture,
    phase: Phase,
}

/// Where an open stands, by the view of its frame.
pub enum PhaseView {
    FirstFrame { since: u128 },
    Settling { since: u128, latest: VideoView },
}

/// A [`CaptureOpening`] by the views of its parts.
pub struct OpeningView {
    pub capture: CaptureView,
    pub phase: PhaseView,
}

impl View for CaptureOpening {
    type V = OpeningView;

    closed spec fn view(&self) -> OpeningView {
        OpeningView {
            capture: self.capture@,
            phase: match self.phase {
                Phase::FirstFrame { since } => PhaseView::FirstFrame { since },
                Phase::Settling { since, latest } => PhaseView::Settling { since, latest: latest@ },
            },
        }
    }
}

/// What became of an open.
pub enum OpenStep {
    /// It is still waiting for frames.
    Waiting(CaptureOpening),
    /// It has ended.
    Done(Result<DecklinkCapture, Error>),
}

/// An [`OpenStep`] by the views of its parts.
pub enum OpenStepView {
    Waiting(OpeningView),
    Done(Result<CaptureView, ErrorView>),
}

impl View for OpenStep {
    type V = OpenStepView;

    open spec fn view(&self) -> OpenStepView {
        match self {
            OpenStep::Waiting(o) => OpenStepView::Waiting(o@),
            OpenStep::Done(r) => OpenStepView::Done(viewed(*r)),
        }
    }
}

/// The outcome of an open that the shim answered with `rc` at `now`, and with
/// a null handle or not.
pub open spec fn open_outcome(
    cfg: CaptureConfigView,
    rc: i32,
    null_handle: bool,
    shim: ShimConstants,
    now: u128,
) -> Result<OpeningView, ErrorView> {
    match capture_request(cfg, shim) {
        Err(e) => Err(e),
        Ok(_) => if rc != shim.ok || null_handle {
            Err(
                refused_open_error(
                    rc,
                    cfg.device,
                    quoted_text(cfg.device),
                    quoted_text(cfg.format),
                    shim,
                ),
            )
        } else {
            Ok(
                OpeningView {
                    capture: CaptureView::fresh(cfg),
                    phase: PhaseView::FirstFrame { since: now },
                },
            )
        },
    }
}

impl OpeningView {
    /// What becomes of the open at `now`, before it reads: it gives up when
    /// the first frame is overdue, and is complete when formats have settled.
    pub open spec fn polled(self, now: u128) -> OpenStepView {
        match self.phase {
            PhaseView::FirstFrame { since } => if now >= since + FIRST_FRAME_TIMEOUT_NS {
                OpenStepView::Done(Err(ErrorView::NoSignal(self.capture.device)))
            } else {
                OpenStepView::Waiting(self)
            },
            PhaseView::Settling { since, latest } => if now < since + FORMAT_SETTLE_NS {
                OpenStepView::Waiting(self)
            } else {
                OpenStepView::Done(Ok(self.capture.with_raster(latest)))
            },
        }
    }

    /// What becomes of the open after a read that returned `rc` and filled in
    /// `frame` at `now`: video tells the raster, anything else is passed over.
    /// A failed read ends the open, and fails it while no video has arrived.
    pub open spec fn after_read(
        self,
        rc: i32,
        frame: RawFrame,
        shim: ShimConstants,
        now: u128,
    ) -> OpenStepView {
        let capture = self.capture.after_read(rc, frame, shim);
        match read_outcome(rc, frame, self.capture.pixel_format, shim) {
            Ok(Some(FrameView::Video(v))) => OpenStepView::Waiting(
                OpeningView {
                    capture,
                    phase: match self.phase {
                        PhaseView::FirstFrame { .. } => PhaseView::Settling {
                            since: now,
                            latest: v,
                        },
                        PhaseView::Settling { since, .. } => PhaseView::Settling {
                            since,
                            latest: v,
                        },
                    },
                },
            ),
            Ok(_) => OpenStepView::Waiting(OpeningView { capture, ..self }),
            Err(e) => match self.phase {
                PhaseView::FirstFrame { .. } => OpenStepView::Done(Err(e)),
                PhaseView::Settling { latest, .. } => OpenStepView::Done(
                    Ok(capture.with_raster(latest)),
                ),
            },
        }
    }
}

impl DecklinkCapture {
    /// What the shim is asked to open for `cfg`.
    pub fn open_request(cfg: &DecklinkCaptureConfig, shim: &ShimConstants) -> (r: Result<
        OpenRequest,
        Error,
    >)
        ensures
            viewed(r) == capture_request(cfg@, *shim),
    {
        if has_nul(cfg.device.as_str()) {
            return Err(Error::DeviceNotFound(cfg.device.clone()));
        }
        if has_nul(cfg.format.as_str()) {
            let quoted_format = quoted(cfg.format.as_str());
            return Err(bad_format(quoted_format.as_str()));
        }
        Ok(
            OpenRequest {
                device: cfg.device.clone(),
                mode: cfg.format.clone(),
                pixel_format: cfg.pixel_format.as_raw(shim),
                audio_channels: cfg.audio_channels as i32,
            },
        )
    }

    /// Begins to open the DeckLink input described by `cfg`, from the shim's
    /// answer to the [`open_request`](Self::open_request) at `now`.
    ///
    /// The open is complete once the first video frames have arrived, so the
    /// detected raster and frame rate are known then. A card with no signal
    /// still delivers frames, so this succeeds with the cable out.
    pub fn open(
        cfg: &DecklinkCaptureConfig,
        rc: i32,
        null_handle: bool,
        shim: &ShimConstants,
        now: u128,
    ) -> (r: Result<CaptureOpening, Error>)
        ensures
            viewed(r) == open_outcome(cfg@, rc, null_handle, *shim, now),
    {
        match DecklinkCapture::open_request(cfg, shim) {
            Err(e) => Err(e),
            Ok(_) => if rc != shim.ok || null_handle {
                let quoted_device = quoted(cfg.device.as_str());
                let quoted_format = quoted(cfg.format.as_str());
                Err(
                    refused_open(
                        rc,
                        cfg.device.as_str(),
                        quoted_device.as_str(),
                        quoted_format.as_str(),
                        shim,
                    ),
                )
            } else {
                Ok(
                    CaptureOpening {
                        capture: DecklinkCapture::fresh(cfg),
                        phase: Phase::FirstFrame { since: now },
                    },
                )
            },
        }
    }
}

impl CaptureOpening {
    /// What becomes of the open at `now`, before it reads once more.
    pub fn poll(self, now: u128) -> (r: OpenStep)
        ensures
            r@ == self@.polled(now),
    {
        let CaptureOpening { capture, phase } = self;
        match phase {
            Phase::FirstFrame { since } => if has_passed(since, FIRST_FRAME_TIMEOUT_NS, now) {
                OpenStep::Done(Err(Error::NoSignal(capture.device_name())))
            } else {
                OpenStep::Waiting(CaptureOpening { capture, phase: Phase::FirstFrame { since } })
            },
            Phase::Settling { since, latest } => if !has_passed(since, FORMAT_SETTLE_NS, now) {
                OpenStep::Waiting(
                    CaptureOpening { capture, phase: Phase::Settling { since, latest } },
                )
            } else {
                let mut capture = capture;
                capture.set_raster(latest);
                OpenStep::Done(Ok(capture))
            },
        }
    }

    /// How long the next read of the open waits for a frame.
    pub fn read_wait(&self) -> (r: i32)
        ensures
            r == clamped_timeout(READ_TIMEOUT_MS),
    {
        shim_timeout(READ_TIMEOUT_MS)
    }

    /// What becomes of the open after a read that returned `rc` and filled in
    /// `frame`, at `now`.
    pub fn handle_read(self, rc: i32, frame: RawFrame, shim: &ShimConstants, now: u128) -> (r:
        OpenStep)
        ensures
            r@ == self@.after_read(rc, frame, *shim, now),
    {
        let CaptureOpening { capture, phase } = self;
        let mut capture = capture;
        match capture.next_raw(rc, frame, shim) {
            Ok(Some(CapturedFrame::Video(v))) => {
                let since: u128 = match phase {
                    Phase::FirstFrame { .. } => now,
                    Phase::Settling { since, .. } => since,
                };
                OpenStep::Waiting(
                    CaptureOpening { capture, phase: Phase::Settling { since, latest: v } },
                )
            },
            Ok(_) => OpenStep::Waiting(CaptureOpening { capture, phase }),
            Err(e) => match phase {
                Phase::FirstFrame { .. } => OpenStep::Done(Err(e)),
                Phase::Settling { latest, .. } => {
                    capture.set_raster(latest);
                    OpenStep::Done(Ok(capture))
                },
            },
        }
    }
}

// ---------------------------------------------------------------------------
// Laws
// ---------------------------------------------------------------------------

/// The shim is asked for C strings only.
pub proof fn law_request_is_c_text(cfg: CaptureConfigView, shim: ShimConstants)
    ensures
        match capture_request(cfg, shim) {
            Ok(request) => is_c_text(request.device) && is_c_text(request.mode),
            Err(_) => !is_c_text(cfg.device) || !is_c_text(cfg.format),
        },
{
}

/// One round of an open: a look at the clock, then a read.
pub struct Round {
    pub polled_at: u128,
    pub rc: i32,
    pub frame: RawFrame,
    pub read_at: u128,
}

/// What becomes of an open over any number of rounds.
pub open spec fn after_rounds(
    start: OpeningView,
    rounds: Seq<Round>,
    shim: ShimConstants,
) -> OpenStepView
    decreases rounds.len(),
{
    if rounds.len() == 0 {
        OpenStepView::Waiting(start)
    } else {
        let round = rounds.last();
        match after_rounds(start, rounds.drop_last(), shim) {
            OpenStepView::Done(r) => OpenStepView::Done(r),
            OpenStepView::Waiting(o) => match o.polled(round.polled_at) {
                OpenStepView::Done(r) => OpenStepView::Done(r),
                OpenStepView::Waiting(o) => o.after_read(
                    round.rc,
                    round.frame,
                    shim,
                    round.read_at,
                ),
            },
        }
    }
}

/// The video frame that a round delivered, if it did.
pub open spec fn round_video(
    round: Round,
    pixel_format: DecklinkPixelFormat,
    shim: ShimConstants,
) -> Option<VideoView> {
    match read_outcome(round.rc, round.frame, pixel_format, shim) {
        Ok(Some(FrameView::Video(v))) => Some(v),
        _ => None,
    }
}

/// The last video frame that the rounds delivered.
pub open spec fn last_video(
    rounds: Seq<Round>,
    pixel_format: DecklinkPixelFormat,
    shim: ShimConstants,
) -> Option<VideoView>
    decreases rounds.len(),
{
    if rounds.len() == 0 {
        None
    } else {
        match round_video(rounds.last(), pixel_format, shim) {
            Some(v) => Some(v),
            None => last_video(rounds.drop_last(), pixel_format, shim),
        }
    }
}

/// The reads of the rounds, as they happen to the capture.
pub open spec fn round_reads(rounds: Seq<Round>) -> Seq<CaptureEvent> {
    Seq::new(
        rounds.len(),
        |i: int| CaptureEvent::Read { rc: rounds[i].rc, frame: rounds[i].frame },
    )
}

/// The latest rate that the rounds told, as it is held, and 0/1 where they told
/// none.
pub open spec fn last_rate(rounds: Seq<Round>, shim: ShimConstants) -> (u32, u32) {
    match latest_rate(round_reads(rounds), shim) {
        Some(rate) => held_rate(rate),
        None => (0, 1),
    }
}

/// An open that is still waiting knows the last video frame and its rate, and
/// nothing else of the capture has changed.
pub proof fn law_open_tracks_last_video(
    cfg: CaptureConfigView,
    opened_at: u128,
    rounds: Seq<Round>,
    shim: ShimConstants,
)
    ensures
        match after_rounds(
            OpeningView {
                capture: CaptureView::fresh(cfg),
                phase: PhaseView::FirstFrame { since: opened_at },
            },
            rounds,
            shim,
        ) {
            OpenStepView::Waiting(o) => {
                &&& last_video(rounds, cfg.pixel_format, shim) == (match o.phase {
                    PhaseView::FirstFrame { .. } => None,
                    PhaseView::Settling { latest, .. } => Some(latest),
                })
                &&& o.phase matches PhaseView::FirstFrame { since } ==> since == opened_at
                &&& o.capture == (CaptureView {
                    fr_num: last_rate(rounds, shim).0,
                    fr_den: last_rate(rounds, shim).1,
                    ..CaptureView::fresh(cfg)
                })
            },
            OpenStepView::Done(_) => true,
        },
    decreases rounds.len(),
{
    if rounds.len() > 0 {
        law_open_tracks_last_video(cfg, opened_at, rounds.drop_last(), shim);
        assert(round_reads(rounds).drop_last() =~= round_reads(rounds.drop_last()));
    }
}

/// A completed open has the raster and the rate of the last video frame that
/// was read, and keeps that frame to be read first; it fails only where no
/// video frame was read.
pub proof fn law_open_ends_on_last_video(
    cfg: CaptureConfigView,
    opened_at: u128,
    rounds: Seq<Round>,
    next: Round,
    shim: ShimConstants,
)
    ensures
        ({
            let start = OpeningView {
                capture: CaptureView::fresh(cfg),
                phase: PhaseView::FirstFrame { since: opened_at },
            };
            let seen = last_video(rounds, cfg.pixel_format, shim);
            after_rounds(start, rounds, shim) is Waiting ==> match after_rounds(
                start,
                rounds.push(next),
                shim,
            ) {
                OpenStepView::Done(Ok(c)) => {
                    &&& seen is Some
                    &&& c.pending == seen
                    &&& c.width == seen->0.width
                    &&& c.height == seen->0.height
                    &&& (c.fr_num, c.fr_den) == last_rate(rounds, shim)
                },
                OpenStepView::Done(Err(_)) => seen is None,
                OpenStepView::Waiting(_) => true,
            }
        }),
{
    law_open_tracks_last_video(cfg, opened_at, rounds, shim);
    assert(rounds.push(next).drop_last() =~= rounds);
}

/// In every state of a capture that was opened, after any reads, the frame rate
/// is that of the latest video frame, read while opening or since, that had
/// both parts positive (each as a `u32` holds it, and zero counting as one), or
/// 1/1 where there was none; so it is safe to divide by.
pub proof fn law_frame_rate_is_latest_read(
    cfg: CaptureConfigView,
    opened_at: u128,
    rounds: Seq<Round>,
    next: Round,
    events: Seq<CaptureEvent>,
    shim: ShimConstants,
)
    ensures
        ({
            let start = OpeningView {
                capture: CaptureView::fresh(cfg),
                phase: PhaseView::FirstFrame { since: opened_at },
            };
            after_rounds(start, rounds, shim) is Waiting ==> match after_rounds(
                start,
                rounds.push(next),
                shim,
            ) {
                OpenStepView::Done(Ok(c)) => {
                    let rate = after_events(c, events, shim).frame_rate();
                    &&& rate.0 >= 1
                    &&& rate.1 >= 1
                    &&& rate == (match latest_rate(round_reads(rounds) + events, shim) {
                        Some(told) => at_least_one(held_rate(told)),
                        None => (1u32, 1u32),
                    })
                },
                _ => true,
            }
        }),
{
    law_open_ends_on_last_video(cfg, opened_at, rounds, next, shim);
    lemma_latest_rate_concat(round_reads(rounds), events, shim);
    let start = OpeningView {
        capture: CaptureView::fresh(cfg),
        phase: PhaseView::FirstFrame { since: opened_at },
    };
    if let OpenStepView::Done(Ok(c)) = after_rounds(start, rounds.push(next), shim) {
        law_rate_is_latest_told(c, events, shim);
    }
}

/// In every state of a capture that was opened, after any reads, the frame rate
/// is exactly that of the latest video frame, read while opening or since, that
/// had both parts positive, and 1/1 where there was none. A frame whose rate has
/// a part beyond a `u32` is left out: it cannot be reported as it is.
pub proof fn law_frame_rate_is_exact(
    cfg: CaptureConfigView,
    opened_at: u128,
    rounds: Seq<Round>,
    next: Round,
    events: Seq<CaptureEvent>,
    shim: ShimConstants,
)
    requires
        latest_rate(round_reads(rounds) + events, shim) matches Some(told) ==> told.0 <= u32::MAX
            && told.1 <= u32::MAX,
    ensures
        ({
            let start = OpeningView {
                capture: CaptureView::fresh(cfg),
                phase: PhaseView::FirstFrame { since: opened_at },
            };
            after_rounds(start, rounds, shim) is Waiting ==> match after_rounds(
                start,
                rounds.push(next),
                shim,
            ) {
                OpenStepView::Done(Ok(c)) => {
                    let rate = after_events(c, events, shim).frame_rate();
                    match latest_rate(round_reads(rounds) + events, shim) {
                        Some(told) => rate.0 == told.0 && rate.1 == told.1,
                        None => rate == (1u32, 1u32),
                    }
                },
                _ => true,
            }
        }),
{
    law_frame_rate_is_latest_read(cfg, opened_at, rounds, next, events, shim);
    lemma_latest_rate_is_positive(round_reads(rounds) + events, shim);
}

/// An open is refused by the shim in the words for its return code and for no
/// other, and is not refused exactly on success with a handle.
pub proof fn law_open_by_code(
    cfg: CaptureConfigView,
    rc: i32,
    null_handle: bool,
    shim: ShimConstants,
    now: u128,
)
    requires
        shim.wf(),
        capture_request(cfg, shim) is Ok,
    ensures
        ({
            let r = open_outcome(cfg, rc, null_handle, shim, now);
            &&& r is Ok <==> rc == shim.ok && !null_handle
            &&& (r matches Err(ErrorView::DeviceNotFound(_))) <==> rc == shim.err_no_device
            &&& (r matches Err(ErrorView::Unsupported(_))) <==> rc == shim.err_unsupported || rc
                == shim.err_param
            &&& (r matches Err(ErrorView::OpenFailed(_))) <==> (rc == shim.ok && null_handle) || (rc
                != shim.ok && rc != shim.err_no_device && rc != shim.err_unsupported && rc
                != shim.err_param)
        }),
{
}

/// Once a video frame has arrived, nothing makes the open fail: a transient
/// while the input is re-armed does not.
pub proof fn law_settling_never_fails(
    o: OpeningView,
    rc: i32,
    frame: RawFrame,
    shim: ShimConstants,
    now: u128,
)
    requires
        o.phase is Settling,
    ensures
        !(o.polled(now) matches OpenStepView::Done(Err(_))),
        !(o.after_read(rc, frame, shim, now) matches OpenStepView::Done(Err(_))),
{
}

/// Whether the card has a signal makes no difference to an open but for the
/// mark on the frame: an open succeeds with the cable out.
pub proof fn law_open_does_not_need_a_signal(
    o: OpeningView,
    rc: i32,
    frame: RawFrame,
    no_signal: i64,
    shim: ShimConstants,
    now: u128,
)
    ensures
        ({
            let other = RawFrame { no_signal, ..frame };
            match (o.after_read(rc, frame, shim, now), o.after_read(rc, other, shim, now)) {
                (OpenStepView::Done(a), OpenStepView::Done(b)) => a == b,
                (OpenStepView::Waiting(a), OpenStepView::Waiting(b)) => {
                    &&& a.capture == b.capture
                    &&& match (a.phase, b.phase) {
                        (
                            PhaseView::FirstFrame { since: s },
                            PhaseView::FirstFrame { since: t },
                        ) => s == t,
                        (
                            PhaseView::Settling { since: s, latest: v },
                            PhaseView::Settling { since: t, latest: w },
                        ) => s == t && w == (VideoView { signal_present: w.signal_present, ..v }),
                        _ => false,
                    }
                },
                _ => false,
            }
        }),
{
}

/// The shim is asked to open exactly where the device and the mode are C
/// strings, and then for the device, the mode, the pixel format and the channel
/// count of the configuration; otherwise the one that is none is named.
pub proof fn law_capture_request_is_the_configuration(cfg: CaptureConfigView, shim: ShimConstants)
    ensures
        ({
            let r = capture_request(cfg, shim);
            &&& r is Ok <==> !cfg.device.contains('\0') && !cfg.format.contains('\0')
            &&& r matches Ok(q) ==> {
                &&& q.device == cfg.device
                &&& q.mode == cfg.format
                &&& q.audio_channels == cfg.audio_channels
                &&& cfg.pixel_format is Uyvy422 ==> q.pixel_format == shim.pixfmt_uyvy422
                &&& cfg.pixel_format is V210 ==> q.pixel_format == shim.pixfmt_v210
            }
            &&& cfg.device.contains('\0') ==> r == Err::<OpenRequestView, ErrorView>(
                ErrorView::DeviceNotFound(cfg.device),
            )
            &&& !cfg.device.contains('\0') && cfg.format.contains('\0') ==> r == Err::<
                OpenRequestView,
                ErrorView,
            >(ErrorView::Unsupported("bad format "@ + quoted_text(cfg.format)))
        }),
{
}

/// An open that the shim granted begins to wait then and there, with the device,
/// the pixel format and the audio of the configuration, no frame and no raster;
/// one that it did not grant names the device, the mode or the code.
pub proof fn law_open_begins_as_configured(
    cfg: CaptureConfigView,
    rc: i32,
    null_handle: bool,
    shim: ShimConstants,
    now: u128,
)
    requires
        shim.wf(),
        capture_request(cfg, shim) is Ok,
    ensures
        ({
            let r = open_outcome(cfg, rc, null_handle, shim, now);
            &&& rc == shim.ok && !null_handle ==> (r matches Ok(o) && {
                &&& o.phase == (PhaseView::FirstFrame { since: now })
                &&& o.capture.device == cfg.device
                &&& o.capture.pixel_format == cfg.pixel_format
                &&& o.capture.audio_channels == cfg.audio_channels
                &&& o.capture.audio_sample_rate == cfg.audio_sample_rate
                &&& o.capture.pending is None
                &&& o.capture.width == 0 && o.capture.height == 0
                &&& o.capture.frame_rate() == (1u32, 1u32)
            })
            &&& rc == shim.err_no_device ==> r == Err::<OpeningView, ErrorView>(
                ErrorView::DeviceNotFound(cfg.device),
            )
            &&& rc == shim.err_unsupported ==> r == Err::<OpeningView, ErrorView>(
                ErrorView::Unsupported(
                    "device "@ + quoted_text(cfg.device)
                        + " does not support the requested mode/detection"@,
                ),
            )
            &&& rc == shim.err_param ==> r == Err::<OpeningView, ErrorView>(
                ErrorView::Unsupported("bad mode "@ + quoted_text(cfg.format)),
            )
            &&& (rc == shim.ok && null_handle) || (rc != shim.ok && rc != shim.err_no_device && rc
                != shim.err_unsupported && rc != shim.err_param) ==> r == Err::<
                OpeningView,
                ErrorView,
            >(ErrorView::OpenFailed("dl_open failed (code "@ + decimal(rc as int) + ")"@))
        }),
{
}

/// A configuration that is no C string is refused whatever the shim says.
pub proof fn law_refused_request_is_not_opened(
    cfg: CaptureConfigView,
    rc: i32,
    null_handle: bool,
    shim: ShimConstants,
    now: u128,
)
    ensures
        capture_request(cfg, shim) matches Err(e) ==> open_outcome(
            cfg,
            rc,
            null_handle,
            shim,
            now,
        ) == Err::<OpeningView, ErrorView>(e),
{
}

/// The words for an open that cannot be are made of the texts in quotes as they
/// are given.
pub proof fn law_refusals_quote_what_they_are_given(
    rc: i32,
    device: Seq<char>,
    quoted_device: Seq<char>,
    quoted_format: Seq<char>,
    shim: ShimConstants,
)
    requires
        shim.wf(),
    ensures
        bad_format_error(quoted_format) == ErrorView::Unsupported("bad format "@ + quoted_format),
        ({
            let e = refused_open_error(rc, device, quoted_device, quoted_format, shim);
            &&& rc == shim.err_no_device ==> e == ErrorView::DeviceNotFound(device)
            &&& rc == shim.err_unsupported ==> e == ErrorView::Unsupported(
                "device "@ + quoted_device + " does not support the requested mode/detection"@,
            )
            &&& rc == shim.err_param ==> e == ErrorView::Unsupported("bad mode "@ + quoted_format)
            &&& rc != shim.err_no_device && rc != shim.err_unsupported && rc != shim.err_param ==> e
                == ErrorView::OpenFailed("dl_open failed (code "@ + decimal(rc as int) + ")"@)
        }),
{
}

/// Before the first video frame, an open waits for five seconds from its start
/// and then gives up on the device. A read that times out or delivers audio
/// leaves it waiting from that same start; the first video frame is kept, and
/// settling begins when it was read; a failed read is the failure of the open.
pub proof fn law_waiting_for_the_first_video(
    capture: CaptureView,
    since: u128,
    rc: i32,
    frame: RawFrame,
    shim: ShimConstants,
    now: u128,
)
    requires
        shim.wf(),
    ensures
        ({
            let o = OpeningView { capture, phase: PhaseView::FirstFrame { since } };
            let read = o.after_read(rc, frame, shim, now);
            &&& now - since < 5_000_000_000 ==> o.polled(now) == OpenStepView::Waiting(o)
            &&& now - since >= 5_000_000_000 ==> o.polled(now) == OpenStepView::Done(
                Err(ErrorView::NoSignal(capture.device)),
            )
            &&& rc == shim.timeout || rc == shim.ok ==> (read matches OpenStepView::Waiting(p)
                && p.capture == capture.after_read(rc, frame, shim))
            &&& rc == shim.timeout || (rc == shim.ok && frame.kind != shim.frame_video) ==> (
            read matches OpenStepView::Waiting(p) && p.phase == o.phase)
            &&& rc == shim.ok && frame.kind == shim.frame_video ==> (
            read matches OpenStepView::Waiting(p) && {
                &&& p.phase matches PhaseView::Settling { since: s, latest: v }
                &&& s == now
                &&& FrameView::Video(v) == captured(frame, capture.pixel_format, shim)
            })
            &&& rc == shim.err_stopped ==> read == OpenStepView::Done(Err(ErrorView::Eof))
            &&& rc != shim.ok && rc != shim.timeout && rc != shim.err_stopped ==> read
                == OpenStepView::Done(
                Err(ErrorView::Io("dl_read_frame failed (code "@ + decimal(rc as int) + ")"@)),
            )
        }),
{
}

/// Once video has arrived, an open drains for 400 ms from the first frame: until
/// then a read that delivers a frame or times out leaves it waiting, and a video
/// frame takes the place of the one before it. After that, or at a failed read,
/// it is complete with the raster of the frame that it has, keeps that frame to
/// be read first, and has the rest of the capture as it was.
pub proof fn law_settling_drains_for_400_ms(
    capture: CaptureView,
    since: u128,
    latest: VideoView,
    rc: i32,
    frame: RawFrame,
    shim: ShimConstants,
    now: u128,
)
    requires
        shim.wf(),
    ensures
        ({
            let o = OpeningView { capture, phase: PhaseView::Settling { since, latest } };
            let read = o.after_read(rc, frame, shim, now);
            let complete = OpenStepView::Done(
                Ok(
                    CaptureView {
                        width: latest.width,
                        height: latest.height,
                        pending: Some(latest),
                        ..capture
                    },
                ),
            );
            &&& now - since < 400_000_000 ==> o.polled(now) == OpenStepView::Waiting(o)
            &&& now - since >= 400_000_000 ==> o.polled(now) == complete
            &&& rc == shim.timeout || (rc == shim.ok && frame.kind != shim.frame_video) ==> read
                == OpenStepView::Waiting(o)
            &&& rc == shim.ok && frame.kind == shim.frame_video ==> (
            read matches OpenStepView::Waiting(p) && {
                &&& p.capture == capture.after_read(rc, frame, shim)
                &&& p.phase matches PhaseView::Settling { since: s, latest: v }
                &&& s == since
                &&& FrameView::Video(v) == captured(frame, capture.pixel_format, shim)
            })
            &&& rc != shim.ok && rc != shim.timeout ==> read == complete
        }),
{
}

/// A round whose read delivers a video frame.
pub open spec fn reads_video(round: Round, shim: ShimConstants) -> bool {
    round.rc == shim.ok && round.frame.kind == shim.frame_video
}

/// A round whose read delivers a video frame with a rate of positive parts.
pub open spec fn reads_rate(round: Round, shim: ShimConstants) -> bool {
    reads_video(round, shim) && round.frame.fr_num > 0 && round.frame.fr_den > 0
}

/// An open with `cfg` that the shim granted at `opened_at`.
pub open spec fn granted(cfg: CaptureConfigView, opened_at: u128) -> OpeningView {
    OpeningView {
        capture: CaptureView::fresh(cfg),
        phase: PhaseView::FirstFrame { since: opened_at },
    }
}

/// The rounds of an open whose reads were made: the round that ends it reads
/// only where its look at the clock has not ended the open already.
pub open spec fn rounds_read(o: OpeningView, rounds: Seq<Round>, next: Round) -> Seq<Round> {
    if o.polled(next.polled_at) is Waiting {
        rounds.push(next)
    } else {
        rounds
    }
}

proof fn lemma_last_video_is(
    rounds: Seq<Round>,
    pixel_format: DecklinkPixelFormat,
    shim: ShimConstants,
    i: int,
)
    requires
        shim.wf(),
        0 <= i < rounds.len(),
        reads_video(rounds[i], shim),
        forall|j: int| i < j < rounds.len() ==> !reads_video(#[trigger] rounds[j], shim),
    ensures
        last_video(rounds, pixel_format, shim) == round_video(rounds[i], pixel_format, shim),
    decreases rounds.len(),
{
    if i < rounds.len() - 1 {
        let rest = rounds.drop_last();
        assert(!reads_video(rounds[rounds.len() - 1], shim));
        assert forall|j: int| i < j < rest.len() implies !reads_video(#[trigger] rest[j], shim) by {
            assert(rest[j] == rounds[j]);
        }
        lemma_last_video_is(rest, pixel_format, shim, i);
    }
}

proof fn lemma_no_last_video(
    rounds: Seq<Round>,
    pixel_format: DecklinkPixelFormat,
    shim: ShimConstants,
)
    requires
        shim.wf(),
    ensures
        last_video(rounds, pixel_format, shim) is None <==> forall|j: int|
            0 <= j < rounds.len() ==> !reads_video(#[trigger] rounds[j], shim),
    decreases rounds.len(),
{
    if rounds.len() > 0 {
        let rest = rounds.drop_last();
        lemma_no_last_video(rest, pixel_format, shim);
        assert(forall|j: int| 0 <= j < rest.len() ==> rest[j] == #[trigger] rounds[j]);
        assert(rounds[rounds.len() - 1] == rounds.last());
        if forall|j: int| 0 <= j < rounds.len() ==> !reads_video(#[trigger] rounds[j], shim) {
            assert forall|j: int| 0 <= j < rest.len() implies !reads_video(
                #[trigger] rest[j],
                shim,
            ) by {
                assert(!reads_video(rounds[j], shim));
            }
        }
    }
}

/// A completed open has the raster of the last video frame that any of its reads
/// delivered, the read that ended it included, and keeps that very frame to be
/// read first, in the pixel format it was opened with.
pub proof fn law_completed_open_has_the_last_video(
    cfg: CaptureConfigView,
    opened_at: u128,
    rounds: Seq<Round>,
    next: Round,
    o: OpeningView,
    c: CaptureView,
    i: int,
    shim: ShimConstants,
)
    requires
        shim.wf(),
        after_rounds(granted(cfg, opened_at), rounds, shim) == OpenStepView::Waiting(o),
        after_rounds(granted(cfg, opened_at), rounds.push(next), shim) == OpenStepView::Done(Ok(c)),
        0 <= i < rounds_read(o, rounds, next).len(),
        reads_video(rounds_read(o, rounds, next)[i], shim),
        forall|j: int|
            i < j < rounds_read(o, rounds, next).len() ==> !reads_video(
                #[trigger] rounds_read(o, rounds, next)[j],
                shim,
            ),
    ensures
        ({
            let frame = rounds_read(o, rounds, next)[i].frame;
            &&& c.width as int == frame.width as int % 0x1_0000_0000
            &&& c.height as int == frame.height as int % 0x1_0000_0000
            &&& (c.pending matches Some(v) && FrameView::Video(v) == captured(
                frame,
                cfg.pixel_format,
                shim,
            ))
            &&& c.device == cfg.device
            &&& c.pixel_format == cfg.pixel_format
            &&& c.audio_channels == cfg.audio_channels
            &&& c.audio_sample_rate == cfg.audio_sample_rate
        }),
{
    let made = rounds_read(o, rounds, next);
    law_open_tracks_last_video(cfg, opened_at, rounds, shim);
    law_open_ends_on_last_video(cfg, opened_at, rounds, next, shim);
    assert(rounds.push(next).drop_last() =~= rounds);
    if i == rounds.len() {
        assert(made[i] == next);
    } else {
        assert(made[i] == rounds[i]);
        assert forall|j: int| i < j < rounds.len() implies !reads_video(
            #[trigger] rounds[j],
            shim,
        ) by {
            assert(made[j] == rounds[j]);
        }
        lemma_last_video_is(rounds, cfg.pixel_format, shim, i);
    }
}

/// An open is completed only where one of its reads delivered video, and fails
/// only where none did.
pub proof fn law_open_is_completed_by_video(
    cfg: CaptureConfigView,
    opened_at: u128,
    rounds: Seq<Round>,
    next: Round,
    o: OpeningView,
    shim: ShimConstants,
)
    requires
        shim.wf(),
        after_rounds(granted(cfg, opened_at), rounds, shim) == OpenStepView::Waiting(o),
    ensures
        ({
            let made = rounds_read(o, rounds, next);
            match after_rounds(granted(cfg, opened_at), rounds.push(next), shim) {
                OpenStepView::Done(Ok(_)) => exists|j: int|
                    0 <= j < made.len() && reads_video(#[trigger] made[j], shim),
                OpenStepView::Done(Err(_)) => forall|j: int|
                    0 <= j < made.len() ==> !reads_video(#[trigger] made[j], shim),
                OpenStepView::Waiting(_) => true,
            }
        }),
{
    let made = rounds_read(o, rounds, next);
    law_open_tracks_last_video(cfg, opened_at, rounds, shim);
    law_open_ends_on_last_video(cfg, opened_at, rounds, next, shim);
    assert(rounds.push(next).drop_last() =~= rounds);
    lemma_no_last_video(rounds, cfg.pixel_format, shim);
    assert forall|j: int| 0 <= j < rounds.len() implies made[j] == #[trigger] rounds[j] by {}
    match after_rounds(granted(cfg, opened_at), rounds.push(next), shim) {
        OpenStepView::Done(Ok(_)) => {
            let j = choose|j: int| 0 <= j < rounds.len() && reads_video(#[trigger] rounds[j], shim);
            assert(reads_video(made[j], shim));
        },
        OpenStepView::Done(Err(_)) => {
            assert forall|j: int| 0 <= j < made.len() implies !reads_video(
                #[trigger] made[j],
                shim,
            ) by {
                if j < rounds.len() {
                    assert(made[j] == rounds[j]);
                } else {
                    assert(made[j] == next);
                }
            }
        },
        OpenStepView::Waiting(_) => {},
    }
}

proof fn lemma_latest_rate_is(rounds: Seq<Round>, shim: ShimConstants, i: int)
    requires
        shim.wf(),
        0 <= i < rounds.len(),
        reads_rate(rounds[i], shim),
        forall|j: int| i < j < rounds.len() ==> !reads_rate(#[trigger] rounds[j], shim),
    ensures
        latest_rate(round_reads(rounds), shim) == Some(
            (rounds[i].frame.fr_num, rounds[i].frame.fr_den),
        ),
    decreases rounds.len(),
{
    let rest = rounds.drop_last();
    assert(round_reads(rounds).drop_last() =~= round_reads(rest));
    if i < rounds.len() - 1 {
        assert(!reads_rate(rounds[rounds.len() - 1], shim));
        assert forall|j: int| i < j < rest.len() implies !reads_rate(#[trigger] rest[j], shim) by {
            assert(rest[j] == rounds[j]);
        }
        lemma_latest_rate_is(rest, shim, i);
    }
}

/// A completed open has the rate of the last video frame that any of its reads
/// delivered with a rate, the read that ended it included: the rate of the
/// source and not of the seed mode. A rate beyond a `u32` is left out.
pub proof fn law_completed_open_has_the_last_rate(
    cfg: CaptureConfigView,
    opened_at: u128,
    rounds: Seq<Round>,
    next: Round,
    o: OpeningView,
    c: CaptureView,
    i: int,
    shim: ShimConstants,
)
    requires
        shim.wf(),
        after_rounds(granted(cfg, opened_at), rounds, shim) == OpenStepView::Waiting(o),
        after_rounds(granted(cfg, opened_at), rounds.push(next), shim) == OpenStepView::Done(Ok(c)),
        0 <= i < rounds_read(o, rounds, next).len(),
        reads_rate(rounds_read(o, rounds, next)[i], shim),
        forall|j: int|
            i < j < rounds_read(o, rounds, next).len() ==> !reads_rate(
                #[trigger] rounds_read(o, rounds, next)[j],
                shim,
            ),
        rounds_read(o, rounds, next)[i].frame.fr_num <= u32::MAX,
        rounds_read(o, rounds, next)[i].frame.fr_den <= u32::MAX,
    ensures
        c.frame_rate().0 == rounds_read(o, rounds, next)[i].frame.fr_num,
        c.frame_rate().1 == rounds_read(o, rounds, next)[i].frame.fr_den,
{
    let made = rounds_read(o, rounds, next);
    law_open_tracks_last_video(cfg, opened_at, rounds, shim);
    law_open_ends_on_last_video(cfg, opened_at, rounds, next, shim);
    assert(rounds.push(next).drop_last() =~= rounds);
    if i == rounds.len() {
        assert(made[i] == next);
    } else {
        assert(made[i] == rounds[i]);
        assert forall|j: int| i < j < rounds.len() implies !reads_rate(
            #[trigger] rounds[j],
            shim,
        ) by {
            assert(made[j] == rounds[j]);
        }
        lemma_latest_rate_is(rounds, shim, i);
    }
}

proof fn lemma_settling_since(
    cfg: CaptureConfigView,
    opened_at: u128,
    rounds: Seq<Round>,
    o: OpeningView,
    i: int,
    shim: ShimConstants,
)
    requires
        shim.wf(),
        after_rounds(granted(cfg, opened_at), rounds, shim) == OpenStepView::Waiting(o),
        0 <= i < rounds.len(),
        reads_video(rounds[i], shim),
        forall|j: int| 0 <= j < i ==> !reads_video(#[trigger] rounds[j], shim),
    ensures
        o.phase matches PhaseView::Settling { since, .. } && since == rounds[i].read_at,
    decreases rounds.len(),
{
    let rest = rounds.drop_last();
    let before = after_rounds(granted(cfg, opened_at), rest, shim);
    assert(before is Waiting);
    let p = before->Waiting_0;
    if i < rest.len() {
        assert(rest[i] == rounds[i]);
        assert forall|j: int| 0 <= j < i implies !reads_video(#[trigger] rest[j], shim) by {
            assert(rest[j] == rounds[j]);
        }
        lemma_settling_since(cfg, opened_at, rest, p, i, shim);
    } else {
        law_open_tracks_last_video(cfg, opened_at, rest, shim);
        lemma_no_last_video(rest, cfg.pixel_format, shim);
        assert forall|j: int| 0 <= j < rest.len() implies !reads_video(
            #[trigger] rest[j],
            shim,
        ) by {
            assert(rest[j] == rounds[j]);
        }
        assert(p.phase is FirstFrame);
    }
}

/// An open drains for 400 ms after the first video frame was read, so that
/// format detection can correct the raster and the rate: while that time has
/// not passed, a read that delivers a frame or times out never completes it.
/// When it has passed, the open is complete at the next look at the clock.
pub proof fn law_open_drains_after_the_first_video(
    cfg: CaptureConfigView,
    opened_at: u128,
    rounds: Seq<Round>,
    next: Round,
    o: OpeningView,
    i: int,
    shim: ShimConstants,
)
    requires
        shim.wf(),
        after_rounds(granted(cfg, opened_at), rounds, shim) == OpenStepView::Waiting(o),
        0 <= i < rounds.len(),
        reads_video(rounds[i], shim),
        forall|j: int| 0 <= j < i ==> !reads_video(#[trigger] rounds[j], shim),
    ensures
        ({
            let r = after_rounds(granted(cfg, opened_at), rounds.push(next), shim);
            let passed = next.polled_at - rounds[i].read_at;
            &&& passed < 400_000_000 && (next.rc == shim.ok || next.rc == shim.timeout) ==> r
                is Waiting
            &&& passed >= 400_000_000 ==> (r matches OpenStepView::Done(Ok(_)))
            &&& !(r matches OpenStepView::Done(Err(_)))
        }),
{
    lemma_settling_since(cfg, opened_at, rounds, o, i, shim);
    assert(rounds.push(next).drop_last() =~= rounds);
}

/// Until a video frame is read, an open waits for five seconds from its start:
/// while that time has not passed, a read that delivers a frame or times out
/// leaves it waiting. When it has passed, the device has no signal.
pub proof fn law_open_waits_for_the_first_video(
    cfg: CaptureConfigView,
    opened_at: u128,
    rounds: Seq<Round>,
    next: Round,
    o: OpeningView,
    shim: ShimConstants,
)
    requires
        shim.wf(),
        after_rounds(granted(cfg, opened_at), rounds, shim) == OpenStepView::Waiting(o),
        forall|j: int| 0 <= j < rounds.len() ==> !reads_video(#[trigger] rounds[j], shim),
    ensures
        ({
            let r = after_rounds(granted(cfg, opened_at), rounds.push(next), shim);
            let passed = next.polled_at - opened_at;
            &&& passed < 5_000_000_000 && (next.rc == shim.ok || next.rc == shim.timeout) ==> r
                is Waiting
            &&& passed >= 5_000_000_000 ==> r == OpenStepView::Done(
                Err(ErrorView::NoSignal(cfg.device)),
            )
            &&& !(r matches OpenStepView::Done(Ok(_)))
        }),
{
    law_open_tracks_last_video(cfg, opened_at, rounds, shim);
    lemma_no_last_video(rounds, cfg.pixel_format, shim);
    assert(rounds.push(next).drop_last() =~= rounds);
}

/// An open is seen as what became of it.
pub proof fn law_steps_are_seen_whole(o: CaptureOpening, c: DecklinkCapture, e: Error)
    ensures
        OpenStep::Waiting(o)@ == OpenStepView::Waiting(o@),
        OpenStep::Done(Ok(c))@ == OpenStepView::Done(Ok(c@)),
        OpenStep::Done(Err(e))@ == OpenStepView::Done(Err(e@)),
{
}

} // verus!
