//! Playout: opening an SDI output, and scheduling frames onto it.
//!
//! The card is driven from outside, as for capture: each function takes what
//! the shim returned and says what the caller gets.
use vstd::prelude::*;
use vstd::slice::*;
use vstd::string::*;

use crate::error::{viewed, viewed_unit, Error, ErrorView};
use crate::frame::DecklinkPixelFormat;
use crate::shim::{
    is_c_text, low32, machine_word, signed32, to_low32, to_machine_word, to_signed32, OpenRequest,
    OpenRequestView, RawPlayoutInfo, ShimConstants,
};
use crate::text::{decimal, has_nul, push_decimal};

verus! {

// ---------------------------------------------------------------------------
// Configuration
// ---------------------------------------------------------------------------

/// Playout configuration.
#[derive(Debug, Clone)]
pub struct DecklinkPlayoutConfig {
    pub device: String,
    /// SDI mode FourCC (e.g. `"Hi50"`). Playout cannot auto-detect.
    pub format: String,
    pub width: u32,
    pub height: u32,
    pub frame_rate_num: u32,
    pub frame_rate_den: u32,
    pub pixel_format: DecklinkPixelFormat,
    pub audio_channels: u8,
    pub audio_sample_rate: u32,
}

/// A [`DecklinkPlayoutConfig`] with its texts as sequences of characters.
pub struct PlayoutConfigView {
    pub device: Seq<char>,
    pub format: Seq<char>,
    pub width: u32,
    pub height: u32,
    pub frame_rate_num: u32,
    pub frame_rate_den: u32,
    pub pixel_format: DecklinkPixelFormat,
    pub audio_channels: u8,
    pub audio_sample_rate: u32,
}

impl View for DecklinkPlayoutConfig {
    type V = PlayoutConfigView;

    open spec fn view(&self) -> PlayoutConfigView {
        PlayoutConfigView {
            device: self.device@,
            format: self.format@,
            width: self.width,
            height: self.height,
            frame_rate_num: self.frame_rate_num,
            frame_rate_den: self.frame_rate_den,
            pixel_format: self.pixel_format,
            audio_channels: self.audio_channels,
            audio_sample_rate: self.audio_sample_rate,
        }
    }
}

/// The channel counts that SDI embedded audio comes in; 0 is no audio.
pub open spec fn is_channel_count(n: u8) -> bool {
    n == 0 || n == 2 || n == 8 || n == 16
}

// ---------------------------------------------------------------------------
// The playout
// ---------------------------------------------------------------------------

/// A live SDI playout, apart from the shim's own handle.
///
/// Frames are scheduled against the card's clock: a written frame is queued
/// for the display time the caller gives it, and the write blocks while the
/// in-flight window is full, so the card's cadence paces the caller. Video and
/// audio ride one 90 kHz timeline whose origin is the first video frame, which
/// is what makes the card lip-sync them in hardware.
pub struct DecklinkPlayout {
    device: String,
    width: u32,
    height: u32,
    row_bytes: usize,
    fr_num: u32,
    fr_den: u32,
    /// Interleaved audio channel count the device was opened with; 0 = no
    /// audio. Audio is always 48 kHz, 32-bit signed.
    audio_channels: u8,
}

/// A [`DecklinkPlayout`] by the views of its parts.
pub struct PlayoutView {
    pub device: Seq<char>,
    pub width: u32,
    pub height: u32,
    pub row_bytes: usize,
    pub fr_num: u32,
    pub fr_den: u32,
    pub audio_channels: u8,
}

impl View for DecklinkPlayout {
    type V = PlayoutView;

    closed spec fn view(&self) -> PlayoutView {
        PlayoutView {
            device: self.device@,
            width: self.width,
            height: self.height,
            row_bytes: self.row_bytes,
            fr_num: self.fr_num,
            fr_den: self.fr_den,
            audio_channels: self.audio_channels,
        }
    }
}

// ---------------------------------------------------------------------------
// Opening
// ---------------------------------------------------------------------------

/// What the shim is asked to open for `cfg`, or why it is not asked.
pub open spec fn playout_request(cfg: PlayoutConfigView, shim: ShimConstants) -> Result<
    OpenRequestView,
    ErrorView,
> {
    if cfg.pixel_format is V210 {
        Err(
            ErrorView::Unsupported(
                "v210 (10-bit) playout is not implemented yet; use uyvy422"@,
            ),
        )
    } else if !is_c_text(cfg.device) {
        Err(ErrorView::OpenFailed("device name contains NUL"@))
    } else if !is_c_text(cfg.format) {
        Err(ErrorView::OpenFailed("mode contains NUL"@))
    } else if !is_channel_count(cfg.audio_channels) {
        Err(
            ErrorView::Unsupported(
                "audio_channels must be 0, 2, 8 or 16 (got "@ + decimal(cfg.audio_channels as int)
                    + ")"@,
            ),
        )
    } else {
        Ok(
            OpenRequestView {
                device: cfg.device,
                mode: cfg.format,
                pixel_format: shim.pixfmt_uyvy422,
                audio_channels: cfg.audio_channels as i32,
            },
        )
    }
}

/// Whether the shim opened the device, from its return code `rc`.
pub open spec fn playout_answer(cfg: PlayoutConfigView, rc: i32, shim: ShimConstants) -> Result<
    (),
    ErrorView,
> {
    if rc == shim.ok {
        Ok(())
    } else if rc == shim.err_no_device {
        Err(ErrorView::DeviceNotFound(cfg.device))
    } else if rc == shim.err_unsupported {
        Err(
            ErrorView::Unsupported(
                "device '"@ + cfg.device + "' does not support playout of mode '"@ + cfg.format
                    + "' at uyvy422"@,
            ),
        )
    } else if rc == shim.err_param {
        Err(
            ErrorView::OpenFailed(
                "invalid playout mode '"@ + cfg.format
                    + "' (must be a 4-char DeckLink mode FourCC)"@,
            ),
        )
    } else {
        Err(ErrorView::OpenFailed("dl_playout_open failed: "@ + decimal(rc as int)))
    }
}

/// The playout of a device opened with `cfg` whose mode is `info`.
pub open spec fn opened_playout(cfg: PlayoutConfigView, info: RawPlayoutInfo) -> PlayoutView {
    PlayoutView {
        device: cfg.device,
        width: low32(info.width as int),
        height: low32(info.height as int),
        row_bytes: machine_word(info.row_bytes as int),
        fr_num: low32(info.fr_num as int),
        fr_den: low32(
            if info.fr_den < 1 {
                1
            } else {
                info.fr_den as int
            },
        ),
        audio_channels: cfg.audio_channels,
    }
}

/// The raster that the caller asked for, where it asked for one, is the
/// mode's.
pub open spec fn raster_fits(cfg: PlayoutConfigView, p: PlayoutView) -> bool {
    (cfg.width == 0 || cfg.width == p.width) && (cfg.height == 0 || cfg.height == p.height)
}

/// The outcome of an open that the shim answered with `rc`, with a mode of
/// `info`.
pub open spec fn playout_outcome(
    cfg: PlayoutConfigView,
    rc: i32,
    info: RawPlayoutInfo,
    shim: ShimConstants,
) -> Result<PlayoutView, ErrorView> {
    match playout_request(cfg, shim) {
        Err(e) => Err(e),
        Ok(_) => match playout_answer(cfg, rc, shim) {
            Err(e) => Err(e),
            Ok(_) => {
                let p = opened_playout(cfg, info);
                if raster_fits(cfg, p) {
                    Ok(p)
                } else {
                    Err(
                        ErrorView::Unsupported(
                            "mode '"@ + cfg.format + "' is "@ + decimal(p.width as int) + "x"@
                                + decimal(p.height as int) + " but the caller's video is "@
                                + decimal(cfg.width as int) + "x"@ + decimal(cfg.height as int)
                                + " — pick the mode matching the content"@,
                        ),
                    )
                }
            },
        },
    }
}

impl DecklinkPlayout {
    /// A playout is only ever opened with a channel count of SDI audio.
    #[verifier::type_invariant]
    spec fn inv(self) -> bool {
        is_channel_count(self.audio_channels)
    }

    /// What the shim is asked to open for `cfg`: an explicit DeckLink mode
    /// such as `"Hi50"`, since playout has nothing to auto-detect from.
    pub fn open_request(cfg: &DecklinkPlayoutConfig, shim: &ShimConstants) -> (r: Result<
        OpenRequest,
        Error,
    >)
        ensures
            viewed(r) == playout_request(cfg@, *shim),
    {
        if cfg.pixel_format == DecklinkPixelFormat::V210 {
            return Err(
                Error::Unsupported(
                    "v210 (10-bit) playout is not implemented yet; use uyvy422".to_owned(),
                ),
            );
        }
        if has_nul(cfg.device.as_str()) {
            return Err(Error::OpenFailed("device name contains NUL".to_owned()));
        }
        if has_nul(cfg.format.as_str()) {
            return Err(Error::OpenFailed("mode contains NUL".to_owned()));
        }
        let n: u8 = cfg.audio_channels;
        if !(n == 0 || n == 2 || n == 8 || n == 16) {
            let mut text = "audio_channels must be 0, 2, 8 or 16 (got ".to_owned();
            push_decimal(&mut text, n as i128);
            text.append(")");
            return Err(Error::Unsupported(text));
        }
        Ok(
            OpenRequest {
                device: cfg.device.clone(),
                mode: cfg.format.clone(),
                pixel_format: DecklinkPixelFormat::Uyvy422.as_raw(shim),
                audio_channels: n as i32,
            },
        )
    }

    /// Whether the shim opened the device, from its return code `rc`.
    pub fn open_answer(cfg: &DecklinkPlayoutConfig, rc: i32, shim: &ShimConstants) -> (r: Result<
        (),
        Error,
    >)
        ensures
            viewed_unit(r) == playout_answer(cfg@, rc, *shim),
    {
        if rc == shim.ok {
            Ok(())
        } else if rc == shim.err_no_device {
            Err(Error::DeviceNotFound(cfg.device.clone()))
        } else if rc == shim.err_unsupported {
            let mut text = "device '".to_owned();
            text.append(cfg.device.as_str());
            text.append("' does not support playout of mode '");
            text.append(cfg.format.as_str());
            text.append("' at uyvy422");
            Err(Error::Unsupported(text))
        } else if rc == shim.err_param {
            let mut text = "invalid playout mode '".to_owned();
            text.append(cfg.format.as_str());
            text.append("' (must be a 4-char DeckLink mode FourCC)");
            Err(Error::OpenFailed(text))
        } else {
            let mut text = "dl_playout_open failed: ".to_owned();
            push_decimal(&mut text, rc as i128);
            Err(Error::OpenFailed(text))
        }
    }

    /// Opens the device for scheduled playout at `cfg.format`, from the shim's
    /// answer to the [`open_request`](Self::open_request) and, where it opened
    /// the device, the mode it reports.
    ///
    /// When `cfg.width` / `cfg.height` are non-zero they are validated against
    /// the mode's raster, so a caller that already decoded video learns about
    /// a mode/content mismatch here rather than as a garbled picture.
    pub fn open(
        cfg: &DecklinkPlayoutConfig,
        rc: i32,
        info: RawPlayoutInfo,
        shim: &ShimConstants,
    ) -> (r: Result<DecklinkPlayout, Error>)
        ensures
            viewed(r) == playout_outcome(cfg@, rc, info, *shim),
    {
        match DecklinkPlayout::open_request(cfg, shim) {
            Err(e) => return Err(e),
            Ok(_) => {},
        }
        match DecklinkPlayout::open_answer(cfg, rc, shim) {
            Err(e) => return Err(e),
            Ok(_) => {},
        }
        let width: u32 = to_low32(info.width as i64);
        let height: u32 = to_low32(info.height as i64);
        if (cfg.width != 0 && cfg.width != width) || (cfg.height != 0 && cfg.height != height) {
            let mut text = "mode '".to_owned();
            text.append(cfg.format.as_str());
            text.append("' is ");
            push_decimal(&mut text, width as i128);
            text.append("x");
            push_decimal(&mut text, height as i128);
            text.append(" but the caller's video is ");
            push_decimal(&mut text, cfg.width as i128);
            text.append("x");
            push_decimal(&mut text, cfg.height as i128);
            text.append(" — pick the mode matching the content");
            return Err(Error::Unsupported(text));
        }
        Ok(
            DecklinkPlayout {
                device: cfg.device.clone(),
                width,
                height,
                row_bytes: to_machine_word(info.row_bytes as i64),
                fr_num: to_low32(info.fr_num),
                fr_den: to_low32(
                    if info.fr_den < 1 {
                        1
                    } else {
                        info.fr_den
                    },
                ),
                audio_channels: cfg.audio_channels,
            },
        )
    }

    /// Raster of the opened mode.
    pub fn video_dimensions(&self) -> (r: (u32, u32))
        ensures
            r == (self@.width, self@.height),
    {
        (self.width, self.height)
    }

    /// Frame rate of the opened mode, e.g. `(25000, 1000)`.
    pub fn video_frame_rate(&self) -> (r: (u32, u32))
        ensures
            r == (self@.fr_num, self@.fr_den),
    {
        (self.fr_num, self.fr_den)
    }

    /// Bytes per row the card expects; a frame is `row_bytes() * height`.
    pub fn row_bytes(&self) -> (r: usize)
        ensures
            r == self@.row_bytes,
    {
        self.row_bytes
    }

    /// Interleaved audio channel count the device was opened with (0 = audio
    /// disabled). Audio is always 48 kHz, 32-bit signed.
    pub fn audio_channels(&self) -> (r: u8)
        ensures
            r == self@.audio_channels,
            is_channel_count(r),
    {
        proof {
            use_type_invariant(self);
        }
        self.audio_channels
    }
}

// ---------------------------------------------------------------------------
// Writing
// ---------------------------------------------------------------------------

/// What the shim is handed to schedule one video frame.
pub struct VideoWrite<'a> {
    /// The bytes of the frame.
    pub data: &'a [u8],
    /// When the frame is displayed, on the 90 kHz timeline.
    pub stream_time_90k: i64,
}

/// A [`VideoWrite`] with its bytes as a sequence.
pub struct VideoWriteView {
    pub data: Seq<u8>,
    pub stream_time_90k: i64,
}

impl<'a> View for VideoWrite<'a> {
    type V = VideoWriteView;

    open spec fn view(&self) -> VideoWriteView {
        VideoWriteView { data: self.data@, stream_time_90k: self.stream_time_90k }
    }
}

/// What the shim is handed to schedule one block of audio.
pub struct AudioWrite<'a> {
    /// The interleaved values of the block.
    pub samples: &'a [i32],
    /// How many frames, of one value per channel, the block holds.
    pub sample_frames: i32,
    /// When the block is heard, on the 90 kHz timeline.
    pub stream_time_90k: i64,
}

/// An [`AudioWrite`] with its values as a sequence.
pub struct AudioWriteView {
    pub samples: Seq<i32>,
    pub sample_frames: i32,
    pub stream_time_90k: i64,
}

impl<'a> View for AudioWrite<'a> {
    type V = AudioWriteView;

    open spec fn view(&self) -> AudioWriteView {
        AudioWriteView {
            samples: self.samples@,
            sample_frames: self.sample_frames,
            stream_time_90k: self.stream_time_90k,
        }
    }
}

/// The shim refused a video frame for its size.
pub open spec fn size_refused(rc: i32, shim: ShimConstants) -> bool {
    rc == shim.err_param && rc != shim.ok && rc != shim.timeout && rc != shim.err_stopped && rc
        != shim.err_time
}

impl PlayoutView {
    /// The bytes of one frame of the mode.
    pub open spec fn frame_bytes(self) -> int {
        self.row_bytes * self.height
    }

    /// What a write of `len` bytes of video at `stream_time_90k` returns when
    /// the shim answers with `rc`.
    pub open spec fn video_outcome(
        self,
        len: int,
        stream_time_90k: i64,
        rc: i32,
        shim: ShimConstants,
    ) -> Result<(), ErrorView> {
        if rc == shim.ok {
            Ok(())
        } else if rc == shim.timeout {
            Err(ErrorView::Busy)
        } else if rc == shim.err_stopped {
            Err(ErrorView::Eof)
        } else if rc == shim.err_time {
            Err(
                ErrorView::TimeNotMonotonic(
                    "frame at "@ + decimal(stream_time_90k as int)
                        + " does not advance the playout timeline on '"@ + self.device + "'"@,
                ),
            )
        } else if rc == shim.err_param {
            Err(
                ErrorView::Io(
                    "frame size mismatch: got "@ + decimal(len) + " bytes, mode wants "@ + decimal(
                        self.frame_bytes(),
                    ) + " ("@ + decimal(self.row_bytes as int) + "x"@ + decimal(self.height as int)
                        + " rows)"@,
                ),
            )
        } else {
            Err(
                ErrorView::Io(
                    "playout write failed on '"@ + self.device + "': "@ + decimal(rc as int),
                ),
            )
        }
    }

    /// What the shim is handed for a video frame: the caller's bytes and the
    /// caller's display time.
    pub open spec fn video_write(self, data: Seq<u8>, stream_time_90k: i64) -> VideoWriteView {
        VideoWriteView { data, stream_time_90k }
    }

    /// How many frames of audio the shim is handed for a block of `len`
    /// values, or why it is handed none.
    pub open spec fn audio_request(self, len: int) -> Result<i32, ErrorView> {
        if self.audio_channels == 0 {
            Err(
                ErrorView::Unsupported(
                    "playout was opened without audio (audio_channels == 0)"@,
                ),
            )
        } else if len == 0 || len % self.audio_channels as int != 0 {
            Err(
                ErrorView::Io(
                    "audio block of "@ + decimal(len) + " values is not a whole number of "@
                        + decimal(self.audio_channels as int) + "-channel frames"@,
                ),
            )
        } else {
            Ok(signed32(len / self.audio_channels as int))
        }
    }

    /// What the shim is handed for a block of audio, or why it is handed none.
    pub open spec fn audio_write(self, samples: Seq<i32>, stream_time_90k: i64) -> Result<
        AudioWriteView,
        ErrorView,
    > {
        match self.audio_request(samples.len() as int) {
            Ok(sample_frames) => Ok(AudioWriteView { samples, sample_frames, stream_time_90k }),
            Err(e) => Err(e),
        }
    }

    /// What a write of `len` audio values returns when the shim answers with
    /// `rc`.
    pub open spec fn audio_outcome(self, len: int, rc: i32, shim: ShimConstants) -> Result<
        (),
        ErrorView,
    > {
        match self.audio_request(len) {
            Err(e) => Err(e),
            Ok(_) => if rc == shim.ok {
                Ok(())
            } else if rc == shim.err_stopped {
                Err(ErrorView::Eof)
            } else if rc == shim.err_unsupported {
                Err(ErrorView::Unsupported("playout audio not enabled"@))
            } else {
                Err(
                    ErrorView::Io(
                        "playout audio write failed on '"@ + self.device + "': "@ + decimal(
                            rc as int,
                        ),
                    ),
                )
            },
        }
    }
}

/// A count of frames or an error, the error by its view.
pub open spec fn viewed_count(r: Result<i32, Error>) -> Result<i32, ErrorView> {
    match r {
        Ok(n) => Ok(n),
        Err(e) => Err(e@),
    }
}

/// What the shim is handed for a block of audio, or an error, by its view.
pub open spec fn viewed_audio_write(r: Result<AudioWrite, Error>) -> Result<
    AudioWriteView,
    ErrorView,
> {
    match r {
        Ok(w) => Ok(w@),
        Err(e) => Err(e@),
    }
}

impl DecklinkPlayout {
    /// What the shim is handed to schedule one UYVY422 frame for display at
    /// `stream_time_90k`: the frame as it is, at its own time.
    pub fn video_write<'a>(&self, data: &'a [u8], stream_time_90k: i64) -> (r: VideoWrite<'a>)
        ensures
            r@ == self@.video_write(data@, stream_time_90k),
    {
        VideoWrite { data, stream_time_90k }
    }

    /// What a write of one UYVY422 frame for display at `stream_time_90k`
    /// returns, from the shim's return code `rc`. `data` must be exactly
    /// `row_bytes() * height` bytes.
    ///
    /// `stream_time_90k` is the frame's display time on the caller's timeline,
    /// which audio rides too. It must advance on every write
    /// ([`Error::TimeNotMonotonic`] otherwise). It is never a count of writes
    /// that succeeded: a frame that is skipped or fails to schedule leaves a
    /// hole in the picture, and the frames after it still land where their
    /// timestamps say.
    ///
    /// A card that stops draining gives [`Error::Busy`], so a caller can
    /// re-check its own cancellation.
    pub fn write_video(
        &self,
        data: &[u8],
        stream_time_90k: i64,
        rc: i32,
        shim: &ShimConstants,
    ) -> (r: Result<(), Error>)
        requires
            size_refused(rc, *shim) ==> self@.frame_bytes() <= usize::MAX,
        ensures
            viewed_unit(r) == self@.video_outcome(data@.len() as int, stream_time_90k, rc, *shim),
    {
        if rc == shim.ok {
            Ok(())
        } else if rc == shim.timeout {
            Err(Error::Busy)
        } else if rc == shim.err_stopped {
            Err(Error::Eof)
        } else if rc == shim.err_time {
            let mut text = "frame at ".to_owned();
            push_decimal(&mut text, stream_time_90k as i128);
            text.append(" does not advance the playout timeline on '");
            text.append(self.device.as_str());
            text.append("'");
            Err(Error::TimeNotMonotonic(text))
        } else if rc == shim.err_param {
            let frame_bytes: usize = self.row_bytes * (self.height as usize);
            let mut text = "frame size mismatch: got ".to_owned();
            push_decimal(&mut text, data.len() as i128);
            text.append(" bytes, mode wants ");
            push_decimal(&mut text, frame_bytes as i128);
            text.append(" (");
            push_decimal(&mut text, self.row_bytes as i128);
            text.append("x");
            push_decimal(&mut text, self.height as i128);
            text.append(" rows)");
            Err(Error::Io(text))
        } else {
            let mut text = "playout write failed on '".to_owned();
            text.append(self.device.as_str());
            text.append("': ");
            push_decimal(&mut text, rc as i128);
            Err(Error::Io(text))
        }
    }

    /// How many frames of audio the shim is handed for a block of interleaved
    /// 32-bit signed `samples`: [`Error::Unsupported`] if the playout was
    /// opened without audio, [`Error::Io`] if the block is empty or not a
    /// whole number of frames.
    pub fn audio_frames(&self, samples: &[i32]) -> (r: Result<i32, Error>)
        ensures
            viewed_count(r) == self@.audio_request(samples@.len() as int),
    {
        if self.audio_channels == 0 {
            return Err(
                Error::Unsupported(
                    "playout was opened without audio (audio_channels == 0)".to_owned(),
                ),
            );
        }
        let ch: usize = self.audio_channels as usize;
        if samples.len() == 0 || samples.len() % ch != 0 {
            let mut text = "audio block of ".to_owned();
            push_decimal(&mut text, samples.len() as i128);
            text.append(" values is not a whole number of ");
            push_decimal(&mut text, ch as i128);
            text.append("-channel frames");
            return Err(Error::Io(text));
        }
        Ok(to_signed32((samples.len() / ch) as u64))
    }

    /// What the shim is handed to schedule one block of interleaved 32-bit
    /// signed `samples` at `stream_time_90k`: the whole block, at its own time.
    /// A block without whole frames is refused, as by
    /// [`audio_frames`](Self::audio_frames).
    pub fn audio_write<'a>(&self, samples: &'a [i32], stream_time_90k: i64) -> (r: Result<
        AudioWrite<'a>,
        Error,
    >)
        ensures
            viewed_audio_write(r) == self@.audio_write(samples@, stream_time_90k),
    {
        match self.audio_frames(samples) {
            Ok(sample_frames) => Ok(AudioWrite { samples, sample_frames, stream_time_90k }),
            Err(e) => Err(e),
        }
    }

    /// What a write of one block of interleaved 32-bit signed audio returns,
    /// from the shim's return code `rc`. `samples` holds whole frames of
    /// `audio_channels()` values; a block that does not is refused without
    /// asking the shim, whatever `rc` is.
    pub fn write_audio(&self, samples: &[i32], rc: i32, shim: &ShimConstants) -> (r: Result<
        (),
        Error,
    >)
        ensures
            viewed_unit(r) == self@.audio_outcome(samples@.len() as int, rc, *shim),
    {
        match self.audio_frames(samples) {
            Err(e) => return Err(e),
            Ok(_) => {},
        }
        if rc == shim.ok {
            Ok(())
        } else if rc == shim.err_stopped {
            Err(Error::Eof)
        } else if rc == shim.err_unsupported {
            Err(Error::Unsupported("playout audio not enabled".to_owned()))
        } else {
            let mut text = "playout audio write failed on '".to_owned();
            text.append(self.device.as_str());
            text.append("': ");
            push_decimal(&mut text, rc as i128);
            Err(Error::Io(text))
        }
    }
}

// ---------------------------------------------------------------------------
// Laws
// ---------------------------------------------------------------------------

/// An opened playout has the raster the caller asked for, where it asked for
/// one, an SDI channel count, and plays 8-bit video; the shim was asked for it
/// in C strings.
pub proof fn law_opened_playout_is_as_asked(
    cfg: PlayoutConfigView,
    rc: i32,
    info: RawPlayoutInfo,
    shim: ShimConstants,
)
    ensures
        match playout_outcome(cfg, rc, info, shim) {
            Ok(p) => {
                &&& rc == shim.ok
                &&& cfg.pixel_format is Uyvy422
                &&& is_c_text(cfg.device) && is_c_text(cfg.format)
                &&& cfg.width != 0 ==> p.width == cfg.width
                &&& cfg.height != 0 ==> p.height == cfg.height
                &&& p.audio_channels == cfg.audio_channels && is_channel_count(p.audio_channels)
                &&& p.device == cfg.device
            },
            Err(_) => true,
        },
{
}

/// With no raster asked for, an open fails only before or at the shim.
pub proof fn law_any_raster_opens(
    cfg: PlayoutConfigView,
    info: RawPlayoutInfo,
    shim: ShimConstants,
)
    requires
        cfg.width == 0,
        cfg.height == 0,
        playout_request(cfg, shim) is Ok,
    ensures
        playout_outcome(cfg, shim.ok, info, shim) == Ok::<PlayoutView, ErrorView>(
            opened_playout(cfg, info),
        ),
{
}

/// A write succeeds exactly when the shim scheduled the frame, and a full
/// queue is told apart from every failure.
pub proof fn law_busy_is_no_failure(
    p: PlayoutView,
    len: int,
    stream_time_90k: i64,
    rc: i32,
    shim: ShimConstants,
)
    ensures
        p.video_outcome(len, stream_time_90k, rc, shim) is Ok <==> rc == shim.ok,
        p.video_outcome(len, stream_time_90k, rc, shim) == Err::<(), ErrorView>(ErrorView::Busy)
            <==> rc == shim.timeout && rc != shim.ok,
{
}

/// One video frame that a caller writes, and what the shim answers.
pub struct VideoCall {
    pub data: Seq<u8>,
    pub stream_time_90k: i64,
    pub rc: i32,
}

/// What the shim is handed over any number of video writes.
pub open spec fn handed_video(p: PlayoutView, calls: Seq<VideoCall>) -> Seq<VideoWriteView> {
    Seq::new(calls.len(), |i: int| p.video_write(calls[i].data, calls[i].stream_time_90k))
}

/// Each frame is handed over as the caller wrote it, for the time the caller
/// gave it. Whether the others were scheduled makes no difference, and a frame
/// that is skipped leaves every other at its own time.
pub proof fn law_frames_land_where_their_times_say(
    p: PlayoutView,
    calls: Seq<VideoCall>,
    skipped: int,
)
    requires
        0 <= skipped < calls.len(),
    ensures
        forall|i: int|
            0 <= i < calls.len() ==> {
                &&& (#[trigger] handed_video(p, calls)[i]).data == calls[i].data
                &&& handed_video(p, calls)[i].stream_time_90k == calls[i].stream_time_90k
            },
        handed_video(p, calls.remove(skipped)) == handed_video(p, calls).remove(skipped),
{
}

/// Video and audio ride one timeline: what is written for one time is handed
/// over for that time, whichever of the two it is.
pub proof fn law_one_timeline(
    p: PlayoutView,
    data: Seq<u8>,
    samples: Seq<i32>,
    stream_time_90k: i64,
)
    ensures
        p.video_write(data, stream_time_90k).stream_time_90k == stream_time_90k,
        p.audio_write(samples, stream_time_90k) matches Ok(w) ==> {
            &&& w.stream_time_90k == stream_time_90k
            &&& w.samples == samples
        },
{
}

/// The audio that the shim is handed is the whole block: its frames, each of
/// one value per channel, make up all the values.
pub proof fn law_audio_is_handed_over_whole(p: PlayoutView, len: int)
    requires
        0 <= len,
        p.audio_channels > 0 ==> len / p.audio_channels as int <= i32::MAX,
    ensures
        match p.audio_request(len) {
            Ok(n) => 0 < n && n * p.audio_channels == len,
            Err(_) => true,
        },
{
    if p.audio_request(len) is Ok {
        let ch = p.audio_channels as int;
        vstd::arithmetic::div_mod::lemma_fundamental_div_mod(len, ch);
        assert(0 < len / ch) by (nonlinear_arith)
            requires
                len > 0,
                ch > 0,
                len % ch == 0,
                len == ch * (len / ch) + len % ch,
        ;
        assert(ch * (len / ch) == (len / ch) * ch) by (nonlinear_arith);
    }
}

/// A block that is refused is refused in the same words whatever the shim
/// would have said.
pub proof fn law_refused_audio_is_not_the_shims(
    p: PlayoutView,
    len: int,
    rc: i32,
    shim: ShimConstants,
)
    requires
        p.audio_request(len) is Err,
    ensures
        p.audio_outcome(len, rc, shim) == Err::<(), ErrorView>(p.audio_request(len)->Err_0),
{
}

/// Each answer to an open comes with its return code and with no other.
pub proof fn law_open_by_code(cfg: PlayoutConfigView, rc: i32, shim: ShimConstants)
    requires
        shim.wf(),
    ensures
        ({
            let r = playout_answer(cfg, rc, shim);
            &&& r is Ok <==> rc == shim.ok
            &&& (r matches Err(ErrorView::DeviceNotFound(_))) <==> rc == shim.err_no_device
            &&& (r matches Err(ErrorView::Unsupported(_))) <==> rc == shim.err_unsupported
            &&& (r matches Err(ErrorView::OpenFailed(_))) <==> rc != shim.ok && rc
                != shim.err_no_device && rc != shim.err_unsupported
        }),
{
}

/// Each outcome of a video write comes with its return code and with no other:
/// in particular a time that does not advance, and only that, is
/// `TimeNotMonotonic`.
pub proof fn law_video_write_by_code(
    p: PlayoutView,
    len: int,
    stream_time_90k: i64,
    rc: i32,
    shim: ShimConstants,
)
    requires
        shim.wf(),
    ensures
        ({
            let r = p.video_outcome(len, stream_time_90k, rc, shim);
            &&& r is Ok <==> rc == shim.ok
            &&& (r matches Err(ErrorView::Busy)) <==> rc == shim.timeout
            &&& (r matches Err(ErrorView::Eof)) <==> rc == shim.err_stopped
            &&& (r matches Err(ErrorView::TimeNotMonotonic(_))) <==> rc == shim.err_time
            &&& (r matches Err(ErrorView::Io(_))) <==> rc != shim.ok && rc != shim.timeout && rc
                != shim.err_stopped && rc != shim.err_time
            &&& size_refused(rc, shim) <==> rc == shim.err_param
        }),
{
}

/// After a frame was scheduled at `t0`, a frame of the mode's size at a time
/// that does not advance past it, which the shim answers with its time code,
/// is refused as `TimeNotMonotonic` and is not scheduled.
pub proof fn law_time_must_advance(
    p: PlayoutView,
    len0: int,
    t0: i64,
    rc0: i32,
    t1: i64,
    rc1: i32,
    shim: ShimConstants,
)
    requires
        shim.wf(),
        p.video_outcome(len0, t0, rc0, shim) is Ok,
        t1 <= t0,
        rc1 == shim.err_time,
    ensures
        p.video_outcome(p.frame_bytes(), t1, rc1, shim) matches Err(
            ErrorView::TimeNotMonotonic(_),
        ),
        rc1 != shim.ok,
{
}

/// Each outcome of an audio write that reaches the shim comes with its return
/// code and with no other.
pub proof fn law_audio_write_by_code(p: PlayoutView, len: int, rc: i32, shim: ShimConstants)
    requires
        shim.wf(),
        p.audio_request(len) is Ok,
    ensures
        ({
            let r = p.audio_outcome(len, rc, shim);
            &&& r is Ok <==> rc == shim.ok
            &&& (r matches Err(ErrorView::Eof)) <==> rc == shim.err_stopped
            &&& (r matches Err(ErrorView::Unsupported(_))) <==> rc == shim.err_unsupported
            &&& (r matches Err(ErrorView::Io(_))) <==> rc != shim.ok && rc != shim.err_stopped && rc
                != shim.err_unsupported
        }),
{
}

/// A playout is asked for exactly where it is 8-bit, its device and mode are C
/// strings, and its channel count is 0, 2, 8 or 16; and then with the device,
/// the mode and the channel count of the configuration, in UYVY422.
pub proof fn law_playout_request_is_the_configuration(cfg: PlayoutConfigView, shim: ShimConstants)
    ensures
        ({
            let n = cfg.audio_channels;
            let r = playout_request(cfg, shim);
            &&& r is Ok <==> cfg.pixel_format is Uyvy422 && !cfg.device.contains('\0')
                && !cfg.format.contains('\0') && (n == 0 || n == 2 || n == 8 || n == 16)
            &&& r matches Ok(q) ==> {
                &&& q.device == cfg.device
                &&& q.mode == cfg.format
                &&& q.audio_channels == cfg.audio_channels
                &&& q.pixel_format == shim.pixfmt_uyvy422
            }
        }),
{
}

/// A configuration that is not asked for is refused for the first thing that
/// is wrong with it.
pub proof fn law_playout_refusals_name_the_cause(cfg: PlayoutConfigView, shim: ShimConstants)
    ensures
        ({
            let n = cfg.audio_channels;
            let r = playout_request(cfg, shim);
            let no_device_text = cfg.device.contains('\0');
            let no_mode_text = cfg.format.contains('\0');
            &&& cfg.pixel_format is V210 ==> r == Err::<OpenRequestView, ErrorView>(
                ErrorView::Unsupported(
                    "v210 (10-bit) playout is not implemented yet; use uyvy422"@,
                ),
            )
            &&& cfg.pixel_format is Uyvy422 && no_device_text ==> r == Err::<
                OpenRequestView,
                ErrorView,
            >(ErrorView::OpenFailed("device name contains NUL"@))
            &&& cfg.pixel_format is Uyvy422 && !no_device_text && no_mode_text ==> r == Err::<
                OpenRequestView,
                ErrorView,
            >(ErrorView::OpenFailed("mode contains NUL"@))
            &&& cfg.pixel_format is Uyvy422 && !no_device_text && !no_mode_text && n != 0 && n != 2
                && n != 8 && n != 16 ==> r == Err::<OpenRequestView, ErrorView>(
                ErrorView::Unsupported(
                    "audio_channels must be 0, 2, 8 or 16 (got "@ + decimal(n as int) + ")"@,
                ),
            )
        }),
{
}

/// An open that the shim refuses names the device, the mode or the code that it
/// refused.
pub proof fn law_refused_playout_names_the_cause(
    cfg: PlayoutConfigView,
    rc: i32,
    shim: ShimConstants,
)
    requires
        shim.wf(),
    ensures
        ({
            let r = playout_answer(cfg, rc, shim);
            &&& rc == shim.err_no_device ==> r == Err::<(), ErrorView>(
                ErrorView::DeviceNotFound(cfg.device),
            )
            &&& rc == shim.err_unsupported ==> r == Err::<(), ErrorView>(
                ErrorView::Unsupported(
                    "device '"@ + cfg.device + "' does not support playout of mode '"@ + cfg.format
                        + "' at uyvy422"@,
                ),
            )
            &&& rc == shim.err_param ==> r == Err::<(), ErrorView>(
                ErrorView::OpenFailed(
                    "invalid playout mode '"@ + cfg.format
                        + "' (must be a 4-char DeckLink mode FourCC)"@,
                ),
            )
            &&& rc != shim.ok && rc != shim.err_no_device && rc != shim.err_unsupported && rc
                != shim.err_param ==> r == Err::<(), ErrorView>(
                ErrorView::OpenFailed("dl_playout_open failed: "@ + decimal(rc as int)),
            )
        }),
{
}

/// Once the shim has opened what it was asked for, the open succeeds exactly
/// where each side of the raster that the caller gave is the mode's, and a side
/// given as zero is any. The playout then has the device and the channel count
/// of the configuration, and the raster, the row size and the rate of the mode,
/// each as its type holds it, with at least one for the rate's denominator.
pub proof fn law_opened_playout_is_the_mode(
    cfg: PlayoutConfigView,
    info: RawPlayoutInfo,
    shim: ShimConstants,
)
    requires
        playout_request(cfg, shim) is Ok,
    ensures
        ({
            let r = playout_outcome(cfg, shim.ok, info, shim);
            let width = info.width as int % 0x1_0000_0000;
            let height = info.height as int % 0x1_0000_0000;
            &&& r is Ok <==> (cfg.width == 0 || cfg.width == width) && (cfg.height == 0
                || cfg.height == height)
            &&& r matches Ok(p) ==> {
                &&& p.device == cfg.device
                &&& p.audio_channels == cfg.audio_channels
                &&& p.width == width
                &&& p.height == height
                &&& p.row_bytes as int == info.row_bytes as int % (usize::MAX + 1)
                &&& p.fr_num as int == info.fr_num as int % 0x1_0000_0000
                &&& info.fr_den >= 1 ==> p.fr_den as int == info.fr_den as int % 0x1_0000_0000
                &&& info.fr_den < 1 ==> p.fr_den == 1
            }
            &&& info.row_bytes >= 0 ==> (r matches Ok(p) ==> p.row_bytes == info.row_bytes)
            &&& r is Err ==> r == Err::<PlayoutView, ErrorView>(
                ErrorView::Unsupported(
                    "mode '"@ + cfg.format + "' is "@ + decimal(width) + "x"@ + decimal(height)
                        + " but the caller's video is "@ + decimal(cfg.width as int) + "x"@
                        + decimal(cfg.height as int) + " — pick the mode matching the content"@,
                ),
            )
        }),
{
    let m = usize::MAX + 1;
    vstd::arithmetic::div_mod::lemma_mod_bound(info.row_bytes as int, m);
    if info.row_bytes >= 0 {
        vstd::arithmetic::div_mod::lemma_small_mod(info.row_bytes as nat, m as nat);
    }
}

/// A refusal, before the shim is asked or by the shim, is the outcome of the
/// open, whatever mode is reported.
pub proof fn law_refused_playout_is_not_opened(
    cfg: PlayoutConfigView,
    rc: i32,
    info: RawPlayoutInfo,
    shim: ShimConstants,
)
    ensures
        playout_request(cfg, shim) matches Err(e) ==> playout_outcome(cfg, rc, info, shim) == Err::<
            PlayoutView,
            ErrorView,
        >(e),
        playout_request(cfg, shim) is Ok ==> (playout_answer(cfg, rc, shim) matches Err(e)
            ==> playout_outcome(cfg, rc, info, shim) == Err::<PlayoutView, ErrorView>(e)),
{
}

/// A video frame that was not scheduled is refused by what went wrong, with the
/// time, the sizes, the device or the code that it went wrong with.
pub proof fn law_video_refusals_name_the_cause(
    p: PlayoutView,
    len: int,
    stream_time_90k: i64,
    rc: i32,
    shim: ShimConstants,
)
    requires
        shim.wf(),
    ensures
        ({
            let r = p.video_outcome(len, stream_time_90k, rc, shim);
            &&& rc == shim.timeout ==> r == Err::<(), ErrorView>(ErrorView::Busy)
            &&& rc == shim.err_stopped ==> r == Err::<(), ErrorView>(ErrorView::Eof)
            &&& rc == shim.err_time ==> r == Err::<(), ErrorView>(
                ErrorView::TimeNotMonotonic(
                    "frame at "@ + decimal(stream_time_90k as int)
                        + " does not advance the playout timeline on '"@ + p.device + "'"@,
                ),
            )
            &&& rc == shim.err_param ==> r == Err::<(), ErrorView>(
                ErrorView::Io(
                    "frame size mismatch: got "@ + decimal(len) + " bytes, mode wants "@ + decimal(
                        p.row_bytes * p.height,
                    ) + " ("@ + decimal(p.row_bytes as int) + "x"@ + decimal(p.height as int)
                        + " rows)"@,
                ),
            )
            &&& rc != shim.ok && rc != shim.timeout && rc != shim.err_stopped && rc != shim.err_time
                && rc != shim.err_param ==> r == Err::<(), ErrorView>(
                ErrorView::Io(
                    "playout write failed on '"@ + p.device + "': "@ + decimal(rc as int),
                ),
            )
        }),
{
}

/// On a playout with audio, a block is handed over exactly where it is not empty
/// and holds whole frames, as many as its values make at one per channel, counted
/// as an `i32` does. Without audio no block is.
pub proof fn law_whole_blocks_are_handed_over(p: PlayoutView, len: int)
    requires
        0 <= len,
    ensures
        p.audio_request(len) is Ok <==> p.audio_channels > 0 && len > 0 && len
            % p.audio_channels as int == 0,
        p.audio_request(len) matches Ok(n) ==> (n - len / p.audio_channels as int) % 0x1_0000_0000
            == 0,
        p.audio_request(len) matches Ok(n) ==> (len / p.audio_channels as int <= i32::MAX ==> n
            == len / p.audio_channels as int),
        p.audio_channels == 0 ==> p.audio_request(len) == Err::<i32, ErrorView>(
            ErrorView::Unsupported("playout was opened without audio (audio_channels == 0)"@),
        ),
        p.audio_channels > 0 && p.audio_request(len) is Err ==> p.audio_request(len) == Err::<
            i32,
            ErrorView,
        >(
            ErrorView::Io(
                "audio block of "@ + decimal(len) + " values is not a whole number of "@ + decimal(
                    p.audio_channels as int,
                ) + "-channel frames"@,
            ),
        ),
{
    if p.audio_channels > 0 {
        let ch = p.audio_channels as int;
        vstd::arithmetic::div_mod::lemma_div_pos_is_pos(len, ch);
    }
}

/// Any number of frames, each of one value per channel, makes a block that is
/// handed over, and those frames are counted.
pub proof fn law_any_whole_block_is_counted(p: PlayoutView, frames: int)
    requires
        p.audio_channels > 0,
        1 <= frames <= i32::MAX,
    ensures
        p.audio_request(frames * p.audio_channels) == Ok::<i32, ErrorView>(frames as i32),
{
    let ch = p.audio_channels as int;
    let len = frames * ch;
    vstd::arithmetic::div_mod::lemma_mod_multiples_basic(frames, ch);
    vstd::arithmetic::div_mod::lemma_div_multiples_vanish(frames, ch);
    vstd::arithmetic::mul::lemma_mul_is_commutative(frames, ch);
    vstd::arithmetic::mul::lemma_mul_strictly_positive(frames, ch);
    law_whole_blocks_are_handed_over(p, len);
}

/// A block that was handed over is scheduled exactly on success, and otherwise
/// refused by what went wrong.
pub proof fn law_audio_refusals_name_the_cause(
    p: PlayoutView,
    len: int,
    rc: i32,
    shim: ShimConstants,
)
    requires
        shim.wf(),
        p.audio_request(len) is Ok,
    ensures
        ({
            let r = p.audio_outcome(len, rc, shim);
            &&& r is Ok <==> rc == shim.ok
            &&& rc == shim.err_stopped ==> r == Err::<(), ErrorView>(ErrorView::Eof)
            &&& rc == shim.err_unsupported ==> r == Err::<(), ErrorView>(
                ErrorView::Unsupported("playout audio not enabled"@),
            )
            &&& rc != shim.ok && rc != shim.err_stopped && rc != shim.err_unsupported ==> r
                == Err::<(), ErrorView>(
                ErrorView::Io(
                    "playout audio write failed on '"@ + p.device + "': "@ + decimal(rc as int),
                ),
            )
        }),
{
}

/// A block is handed over with its own frame count, or refused for the reason
/// that it has none.
pub proof fn law_block_is_handed_over_with_its_count(
    p: PlayoutView,
    samples: Seq<i32>,
    stream_time_90k: i64,
)
    ensures
        match (p.audio_write(samples, stream_time_90k), p.audio_request(samples.len() as int)) {
            (Ok(w), Ok(n)) => w.sample_frames == n && w.samples == samples && w.stream_time_90k
                == stream_time_90k,
            (Err(e), Err(f)) => e == f,
            _ => false,
        },
{
}

/// A configuration and what the shim is handed are seen with every field that
/// they hold, and a result as the success or the error that it is.
pub proof fn law_writes_are_seen_whole(
    cfg: DecklinkPlayoutConfig,
    v: VideoWrite,
    a: AudioWrite,
    n: i32,
    e: Error,
)
    ensures
        cfg@.device == cfg.device@,
        cfg@.format == cfg.format@,
        cfg@.width == cfg.width,
        cfg@.height == cfg.height,
        cfg@.frame_rate_num == cfg.frame_rate_num,
        cfg@.frame_rate_den == cfg.frame_rate_den,
        cfg@.pixel_format == cfg.pixel_format,
        cfg@.audio_channels == cfg.audio_channels,
        cfg@.audio_sample_rate == cfg.audio_sample_rate,
        v@.data == v.data@,
        v@.stream_time_90k == v.stream_time_90k,
        a@.samples == a.samples@,
        a@.sample_frames == a.sample_frames,
        a@.stream_time_90k == a.stream_time_90k,
        viewed_count(Ok(n)) == Ok::<i32, ErrorView>(n),
        viewed_count(Err(e)) == Err::<i32, ErrorView>(e@),
        viewed_audio_write(Ok(a)) == Ok::<AudioWriteView, ErrorView>(a@),
        viewed_audio_write(Err(e)) == Err::<AudioWriteView, ErrorView>(e@),
{
}

} // verus!
