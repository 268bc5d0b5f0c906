//! Frames: pixel formats, captured video and audio, and the conversion from
//! what the shim filled in.
use vstd::prelude::*;
use vstd::string::*;

use crate::shim::{
    low32, low8, machine_word, signed32, to_low32, to_low8, to_machine_word, to_signed32, RawFrame,
    ShimConstants,
};

verus! {

/// Pixel format of a frame. SDI is natively packed 4:2:2.
#[derive(Debug, Clone, Copy, PartialEq, Eq, Structural)]
pub enum DecklinkPixelFormat {
    /// 8-bit packed 4:2:2 (`bmdFormat8BitYUV`). DeckLink default.
    Uyvy422,
    /// 10-bit packed 4:2:2 (`bmdFormat10BitYUV`).
    V210,
}

impl DecklinkPixelFormat {
    /// The shim's constant for this format.
    pub open spec fn raw(self, shim: ShimConstants) -> i32 {
        match self {
            DecklinkPixelFormat::Uyvy422 => shim.pixfmt_uyvy422,
            DecklinkPixelFormat::V210 => shim.pixfmt_v210,
        }
    }

    /// The format's short name.
    pub open spec fn label(self) -> Seq<char> {
        match self {
            DecklinkPixelFormat::Uyvy422 => "uyvy422"@,
            DecklinkPixelFormat::V210 => "v210"@,
        }
    }

    /// The shim's constant for this format.
    pub fn as_raw(self, shim: &ShimConstants) -> (r: i32)
        ensures
            r == self.raw(*shim),
    {
        match self {
            DecklinkPixelFormat::Uyvy422 => shim.pixfmt_uyvy422,
            DecklinkPixelFormat::V210 => shim.pixfmt_v210,
        }
    }

    /// The format's short name, as it is shown to an operator.
    pub fn name(self) -> (r: &'static str)
        ensures
            r@ == self.label(),
    {
        match self {
            DecklinkPixelFormat::Uyvy422 => "uyvy422",
            DecklinkPixelFormat::V210 => "v210",
        }
    }
}

/// One packed 4:2:2 video frame off the SDI input.
#[derive(Debug, Clone)]
pub struct CapturedVideo {
    /// Presentation timestamp in 90 kHz ticks (the card's stream time).
    pub pts: i64,
    pub width: u32,
    pub height: u32,
    pub pixel_format: DecklinkPixelFormat,
    /// Packed pixel bytes (both formats are single-plane packed formats).
    pub data: Vec<u8>,
    /// Row stride in bytes.
    pub stride: usize,
    /// `false` when the card reports that it has no input source: no cable, or
    /// no lock. The frame still contains pixels, so callers may keep encoding
    /// to hold the transport stream up, but they must raise an alarm.
    pub signal_present: bool,
}

/// One block of interleaved embedded PCM audio off the SDI input.
#[derive(Debug, Clone)]
pub struct CapturedAudio {
    /// Presentation timestamp in 90 kHz ticks.
    pub pts: i64,
    pub channels: u8,
    pub sample_rate: u32,
    /// Interleaved signed 32-bit PCM.
    pub samples: Vec<i32>,
}

/// A frame read from the SDI input.
#[derive(Debug, Clone)]
pub enum CapturedFrame {
    Video(CapturedVideo),
    Audio(CapturedAudio),
}

/// A [`CapturedVideo`] with its pixels as a sequence of bytes.
pub struct VideoView {
    pub pts: i64,
    pub width: u32,
    pub height: u32,
    pub pixel_format: DecklinkPixelFormat,
    pub data: Seq<u8>,
    pub stride: usize,
    pub signal_present: bool,
}

/// A [`CapturedAudio`] with its samples as a sequence.
pub struct AudioView {
    pub pts: i64,
    pub channels: u8,
    pub sample_rate: u32,
    pub samples: Seq<i32>,
}

/// A [`CapturedFrame`] by the views of its parts.
pub enum FrameView {
    Video(VideoView),
    Audio(AudioView),
}

impl View for CapturedVideo {
    type V = VideoView;

    open spec fn view(&self) -> VideoView {
        VideoView {
            pts: self.pts,
            width: self.width,
            height: self.height,
            pixel_format: self.pixel_format,
            data: self.data@,
            stride: self.stride,
            signal_present: self.signal_present,
        }
    }
}

impl View for CapturedAudio {
    type V = AudioView;

    open spec fn view(&self) -> AudioView {
        AudioView {
            pts: self.pts,
            channels: self.channels,
            sample_rate: self.sample_rate,
            samples: self.samples@,
        }
    }
}

impl View for CapturedFrame {
    type V = FrameView;

    open spec fn view(&self) -> FrameView {
        match self {
            CapturedFrame::Video(v) => FrameView::Video(v@),
            CapturedFrame::Audio(a) => FrameView::Audio(a@),
        }
    }
}

// ---------------------------------------------------------------------------
// PCM
// ---------------------------------------------------------------------------

/// The `i`-th signed 32-bit sample of a little-endian byte string.
pub open spec fn pcm_sample(bytes: Seq<u8>, i: int) -> i32 {
    signed32(
        bytes[4 * i] + 0x100 * bytes[4 * i + 1] + 0x1_0000 * bytes[4 * i + 2] + 0x100_0000
            * bytes[4 * i + 3],
    )
}

/// The signed 32-bit samples of a little-endian byte string. Bytes after the
/// last whole sample count for nothing.
pub open spec fn pcm_samples(bytes: Seq<u8>) -> Seq<i32> {
    Seq::new(bytes.len() / 4, |i: int| pcm_sample(bytes, i))
}

/// The `j`-th byte of a sample, the least significant first.
pub open spec fn pcm_byte(sample: i32, j: int) -> u8 {
    if j == 0 {
        (sample as int % 0x100) as u8
    } else if j == 1 {
        (sample as int / 0x100 % 0x100) as u8
    } else if j == 2 {
        (sample as int / 0x1_0000 % 0x100) as u8
    } else {
        (sample as int / 0x100_0000 % 0x100) as u8
    }
}

/// Samples as a little-endian byte string.
pub open spec fn pcm_bytes(samples: Seq<i32>) -> Seq<u8> {
    Seq::new(4 * samples.len(), |k: int| pcm_byte(samples[k / 4], k % 4))
}

proof fn lemma_signed32_of_bytes(x: i32)
    ensures
        signed32(
            pcm_byte(x, 0) + 0x100 * pcm_byte(x, 1) + 0x1_0000 * pcm_byte(x, 2) + 0x100_0000
                * pcm_byte(x, 3),
        ) == x,
{
    let n = x as int;
    let hi = n / 0x100_0000;
    assert(n / 0x1_0000 / 0x100 == hi);
    assert(n / 0x100 / 0x100 == n / 0x1_0000);
}

/// Little-endian bytes decode to the samples that were written, whatever
/// follows them short of one more whole sample.
pub proof fn law_pcm_round_trip(samples: Seq<i32>, rest: Seq<u8>)
    requires
        rest.len() < 4,
    ensures
        pcm_samples(pcm_bytes(samples) + rest) == samples,
{
    let bytes = pcm_bytes(samples) + rest;
    assert(bytes.len() / 4 == samples.len());
    assert forall|i: int| 0 <= i < samples.len() implies #[trigger] pcm_samples(bytes)[i]
        == samples[i] by {
        lemma_signed32_of_bytes(samples[i]);
        assert(bytes[4 * i] == pcm_byte(samples[i], 0));
        assert(bytes[4 * i + 1] == pcm_byte(samples[i], 1));
        assert(bytes[4 * i + 2] == pcm_byte(samples[i], 2));
        assert(bytes[4 * i + 3] == pcm_byte(samples[i], 3));
    }
    assert(pcm_samples(bytes) =~= samples);
}

/// Decodes little-endian signed 32-bit samples.
pub fn decode_pcm(bytes: &Vec<u8>) -> (r: Vec<i32>)
    ensures
        r@ == pcm_samples(bytes@),
{
    let n: usize = bytes.len() / 4;
    let mut r: Vec<i32> = Vec::with_capacity(n);
    let mut i: usize = 0;
    while i < n
        invariant
            i <= n,
            n == bytes@.len() / 4,
            4 * n <= bytes.len(),
            r@ == pcm_samples(bytes@).take(i as int),
        decreases n - i,
    {
        let word: u64 = bytes[4 * i] as u64 + 0x100 * (bytes[4 * i + 1] as u64) + 0x1_0000 * (
        bytes[4 * i + 2] as u64) + 0x100_0000 * (bytes[4 * i + 3] as u64);
        r.push(to_signed32(word));
        i += 1;
        assert(r@ =~= pcm_samples(bytes@).take(i as int));
    }
    assert(r@ =~= pcm_samples(bytes@));
    r
}

// ---------------------------------------------------------------------------
// Conversion
// ---------------------------------------------------------------------------

/// The frame that the shim filled in, as the caller sees it.
pub open spec fn captured(
    frame: RawFrame,
    pixel_format: DecklinkPixelFormat,
    shim: ShimConstants,
) -> FrameView {
    if frame.kind == shim.frame_video {
        FrameView::Video(
            VideoView {
                pts: frame.pts_90khz,
                width: low32(frame.width as int),
                height: low32(frame.height as int),
                pixel_format,
                data: frame.data@,
                stride: machine_word(frame.stride as int),
                signal_present: frame.no_signal == 0,
            },
        )
    } else {
        FrameView::Audio(
            AudioView {
                pts: frame.pts_90khz,
                channels: low8(frame.channels as int),
                sample_rate: low32(frame.sample_rate as int),
                samples: pcm_samples(frame.data@),
            },
        )
    }
}

/// Turns what the shim filled in into a frame of the capture.
pub(crate) fn capture_frame(
    frame: RawFrame,
    pixel_format: DecklinkPixelFormat,
    shim: &ShimConstants,
) -> (r: CapturedFrame)
    ensures
        r@ == captured(frame, pixel_format, *shim),
{
    if frame.kind == shim.frame_video {
        CapturedFrame::Video(
            CapturedVideo {
                pts: frame.pts_90khz,
                width: to_low32(frame.width),
                height: to_low32(frame.height),
                pixel_format,
                stride: to_machine_word(frame.stride),
                signal_present: frame.no_signal == 0,
                data: frame.data,
            },
        )
    } else {
        CapturedFrame::Audio(
            CapturedAudio {
                pts: frame.pts_90khz,
                channels: to_low8(frame.channels),
                sample_rate: to_low32(frame.sample_rate),
                samples: decode_pcm(&frame.data),
            },
        )
    }
}

// ---------------------------------------------------------------------------
// Laws
// ---------------------------------------------------------------------------

/// A video frame has the timestamp, the raster, the stride and the bytes that
/// the shim filled in, each count as its type holds it, the pixel format of the
/// capture, and a signal exactly where the card does not report that it has
/// none.
pub proof fn law_video_is_what_was_filled_in(
    frame: RawFrame,
    pixel_format: DecklinkPixelFormat,
    shim: ShimConstants,
)
    requires
        frame.kind == shim.frame_video,
    ensures
        captured(frame, pixel_format, shim) matches FrameView::Video(v) && {
            &&& v.pixel_format == pixel_format
            &&& v.pts == frame.pts_90khz
            &&& v.data == frame.data@
            &&& v.width as int == frame.width as int % 0x1_0000_0000
            &&& v.height as int == frame.height as int % 0x1_0000_0000
            &&& v.stride as int == frame.stride as int % (usize::MAX + 1)
            &&& 0 <= frame.width <= u32::MAX ==> v.width == frame.width
            &&& 0 <= frame.height <= u32::MAX ==> v.height == frame.height
            &&& 0 <= frame.stride <= usize::MAX ==> v.stride == frame.stride
            &&& v.signal_present <==> frame.no_signal == 0
        },
{
    let m = usize::MAX + 1;
    vstd::arithmetic::div_mod::lemma_mod_bound(frame.stride as int, m);
    if 0 <= frame.stride <= usize::MAX {
        vstd::arithmetic::div_mod::lemma_small_mod(frame.stride as nat, m as nat);
    }
}

/// Anything but video is audio, with the timestamp, the channel count and the
/// sample rate that the shim filled in, each count as its type holds it, and
/// with every sample that its bytes write, in order.
pub proof fn law_audio_is_what_was_filled_in(
    frame: RawFrame,
    samples: Seq<i32>,
    rest: Seq<u8>,
    pixel_format: DecklinkPixelFormat,
    shim: ShimConstants,
)
    requires
        frame.kind != shim.frame_video,
        rest.len() < 4,
        frame.data@ == pcm_bytes(samples) + rest,
    ensures
        captured(frame, pixel_format, shim) matches FrameView::Audio(a) && {
            &&& a.pts == frame.pts_90khz
            &&& a.channels as int == frame.channels as int % 0x100
            &&& a.sample_rate as int == frame.sample_rate as int % 0x1_0000_0000
            &&& 0 <= frame.channels <= u8::MAX ==> a.channels == frame.channels
            &&& 0 <= frame.sample_rate <= u32::MAX ==> a.sample_rate == frame.sample_rate
            &&& a.samples == samples
        },
{
    law_pcm_round_trip(samples, rest);
}

/// A byte string has one sample for every four bytes, and each is worth its
/// bytes in base 256, the least significant first, less two to the power of 32
/// where that is beyond an `i32`.
pub proof fn law_samples_are_little_endian(bytes: Seq<u8>, i: int)
    requires
        0 <= i,
        4 * i + 3 < bytes.len(),
    ensures
        pcm_samples(bytes).len() == bytes.len() / 4,
        ({
            let unsigned = bytes[4 * i] + 256 * bytes[4 * i + 1] + 65_536 * bytes[4 * i + 2]
                + 16_777_216 * bytes[4 * i + 3];
            pcm_samples(bytes)[i] as int == if unsigned <= i32::MAX {
                unsigned
            } else {
                unsigned - 4_294_967_296
            }
        }),
{
}

/// Each pixel format is asked for by its own constant of the shim's and shown
/// under its own name.
pub proof fn law_formats_have_their_own_constants(shim: ShimConstants)
    ensures
        DecklinkPixelFormat::Uyvy422.raw(shim) == shim.pixfmt_uyvy422,
        DecklinkPixelFormat::V210.raw(shim) == shim.pixfmt_v210,
        DecklinkPixelFormat::Uyvy422.label() == "uyvy422"@,
        DecklinkPixelFormat::V210.label() == "v210"@,
{
}

/// A frame is seen with every field that it holds.
pub proof fn law_frame_is_seen_whole(v: CapturedVideo, a: CapturedAudio)
    ensures
        v@.pts == v.pts,
        v@.width == v.width,
        v@.height == v.height,
        v@.pixel_format == v.pixel_format,
        v@.data == v.data@,
        v@.stride == v.stride,
        v@.signal_present == v.signal_present,
        a@.pts == a.pts,
        a@.channels == a.channels,
        a@.sample_rate == a.sample_rate,
        a@.samples == a.samples@,
        CapturedFrame::Video(v)@ == FrameView::Video(v@),
        CapturedFrame::Audio(a)@ == FrameView::Audio(a@),
{
}

} // verus!
