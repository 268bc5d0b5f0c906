//! The plain values that cross the boundary to the C shim over the DeckLink
//! SDK: the constants of its header and what its calls fill in.
use vstd::prelude::*;

verus! {

/// The constants of the shim's C header that decisions depend on.
#[derive(Debug, Clone, Copy, PartialEq, Eq)]
pub struct ShimConstants {
    /// `DL_OK`: the call did what it was asked.
    pub ok: i32,
    /// `DL_TIMEOUT`: the call waited out its time.
    pub timeout: i32,
    /// `DL_ERR_NO_DEVICE`: no device has this name or index.
    pub err_no_device: i32,
    /// `DL_ERR_UNSUPPORTED`: the device cannot do this.
    pub err_unsupported: i32,
    /// `DL_ERR_PARAM`: an argument is malformed.
    pub err_param: i32,
    /// `DL_ERR_STOPPED`: the stream was closed.
    pub err_stopped: i32,
    /// `DL_ERR_TIME`: the display time does not advance.
    pub err_time: i32,
    /// `DL_PIXFMT_UYVY422`.
    pub pixfmt_uyvy422: i32,
    /// `DL_PIXFMT_V210`.
    pub pixfmt_v210: i32,
    /// `DL_FRAME_VIDEO`: the frame kind of video; any other kind is audio.
    pub frame_video: i32,
}

impl ShimConstants {
    /// The return codes are told apart: no two are the same number.
    pub open spec fn wf(self) -> bool {
        &&& self.ok != self.timeout && self.ok != self.err_no_device
        &&& self.ok != self.err_unsupported && self.ok != self.err_param
        &&& self.ok != self.err_stopped && self.ok != self.err_time
        &&& self.timeout != self.err_no_device && self.timeout != self.err_unsupported
        &&& self.timeout != self.err_param && self.timeout != self.err_stopped
        &&& self.timeout != self.err_time
        &&& self.err_no_device != self.err_unsupported && self.err_no_device != self.err_param
        &&& self.err_no_device != self.err_stopped && self.err_no_device != self.err_time
        &&& self.err_unsupported != self.err_param && self.err_unsupported != self.err_stopped
        &&& self.err_unsupported != self.err_time
        &&& self.err_param != self.err_stopped && self.err_param != self.err_time
        &&& self.err_stopped != self.err_time
    }
}

/// What one frame read filled in, with the bytes copied out of the SDK's
/// buffer. Counts are widened to `i64`, whatever their width in the header.
#[derive(Debug, Clone)]
pub struct RawFrame {
    pub kind: i32,
    /// Presentation timestamp in 90 kHz ticks.
    pub pts_90khz: i64,
    pub width: i64,
    pub height: i64,
    /// Row stride in bytes.
    pub stride: i64,
    pub fr_num: i64,
    pub fr_den: i64,
    /// Non-zero when the card reports `bmdFrameHasNoInputSource`.
    pub no_signal: i64,
    pub channels: i64,
    pub sample_rate: i64,
    pub data: Vec<u8>,
}

/// What a status read filled in. Negative tri-states and counts, and zero
/// codes, mean that the card declined to answer.
#[derive(Debug, Clone, Copy, PartialEq, Eq)]
pub struct RawDeviceStatus {
    pub signal_locked: i32,
    pub reference_locked: i32,
    pub ancillary_locked: i32,
    pub busy: i32,
    pub detected_mode: i64,
    pub detected_colorspace: i64,
    pub detected_field_dominance: i64,
    pub sdi_link_config: i64,
    pub reference_mode: i64,
    pub detected_dynamic_range: i32,
    pub pcie_link_speed: i32,
    pub pcie_link_width: i32,
}

/// The answer to a device-name query: the return code and the name buffer.
#[derive(Debug, Clone)]
pub struct RawDeviceName {
    pub rc: i32,
    /// A C string: the name ends at the first zero byte.
    pub buffer: Vec<u8>,
}

/// What an opened playout reports of its mode.
#[derive(Debug, Clone, Copy, PartialEq, Eq)]
pub struct RawPlayoutInfo {
    pub width: i32,
    pub height: i32,
    pub row_bytes: i32,
    pub fr_num: i64,
    pub fr_den: i64,
}

/// What the shim is asked to open. Neither text holds a NUL, so both are C
/// strings.
#[derive(Debug, Clone)]
pub struct OpenRequest {
    pub device: String,
    pub mode: String,
    pub pixel_format: i32,
    pub audio_channels: i32,
}

/// An [`OpenRequest`] with its texts as sequences of characters.
pub struct OpenRequestView {
    pub device: Seq<char>,
    pub mode: Seq<char>,
    pub pixel_format: i32,
    pub audio_channels: i32,
}

impl View for OpenRequest {
    type V = OpenRequestView;

    open spec fn view(&self) -> OpenRequestView {
        OpenRequestView {
            device: self.device@,
            mode: self.mode@,
            pixel_format: self.pixel_format,
            audio_channels: self.audio_channels,
        }
    }
}

/// Text that a C string can hold.
pub open spec fn is_c_text(s: Seq<char>) -> bool {
    !s.contains('\0')
}

/// `x` modulo two to the power of 32.
pub open spec fn low32(x: int) -> u32 {
    (x % 0x1_0000_0000) as u32
}

/// `x` modulo two to the power of 8.
pub open spec fn low8(x: int) -> u8 {
    (x % 0x100) as u8
}

/// The signed 32-bit number that equals `x` modulo two to the power of 32.
pub open spec fn signed32(x: int) -> i32 {
    if low32(x) < 0x8000_0000 {
        low32(x) as i32
    } else {
        (low32(x) - 0x1_0000_0000) as i32
    }
}

pub(crate) fn to_low32(x: i64) -> (r: u32)
    ensures
        r == low32(x as int),
{
    let r: u32 = #[verifier::truncate] (x as u32);
    assert(x as u32 == x % 0x1_0000_0000) by (bit_vector);
    r
}

pub(crate) fn to_low8(x: i64) -> (r: u8)
    ensures
        r == low8(x as int),
{
    let r: u8 = #[verifier::truncate] (x as u8);
    assert(x as u8 == x % 0x100) by (bit_vector);
    r
}

pub(crate) fn to_signed32(x: u64) -> (r: i32)
    ensures
        r == signed32(x as int),
{
    let r: i32 = #[verifier::truncate] (x as i32);
    assert(x % 0x1_0000_0000 < 0x8000_0000 ==> x as i32 == x % 0x1_0000_0000) by (bit_vector);
    assert(x % 0x1_0000_0000 >= 0x8000_0000 ==> x as i32 == x % 0x1_0000_0000 - 0x1_0000_0000)
        by (bit_vector);
    r
}

/// A count as the machine's word holds it: modulo the size of the word.
pub open spec fn machine_word(x: int) -> usize {
    (x % (usize::MAX + 1)) as usize
}

pub(crate) fn to_machine_word(x: i64) -> (r: usize)
    ensures
        r == machine_word(x as int),
{
    let r: usize = #[verifier::truncate] (x as usize);
    assert(usize::BITS == 64 && x >= 0 ==> x as usize == x) by (bit_vector);
    assert(usize::BITS == 64 && x < 0 ==> x as usize == x + 0xffff_ffff_ffff_ffffu64 + 1u64)
        by (bit_vector);
    assert(usize::BITS == 32 ==> x as usize == x % 0x1_0000_0000) by (bit_vector);
    proof {
        vstd::layout::unsigned_int_max_values();
        if usize::BITS == 64 {
            assert(usize::MAX + 1 == 0x1_0000_0000_0000_0000);
            assert(r == (x as int) % 0x1_0000_0000_0000_0000);
        } else {
            assert(usize::BITS == 32);
            assert(usize::MAX + 1 == 0x1_0000_0000);
            assert(r == (x as int) % 0x1_0000_0000);
        }
    }
    r
}

// ---------------------------------------------------------------------------
// Laws
// ---------------------------------------------------------------------------

/// A number that fits its type is kept as it is, and one that is the size of
/// the type away from another is the same number in it.
pub proof fn law_casts_keep_what_fits(x: int)
    ensures
        0 <= x <= u32::MAX ==> low32(x) == x,
        0 <= x <= u8::MAX ==> low8(x) == x,
        i32::MIN <= x <= i32::MAX ==> signed32(x) == x,
        0 <= x <= usize::MAX ==> machine_word(x) == x,
        low32(x + 0x1_0000_0000) == low32(x),
        low8(x + 0x100) == low8(x),
        signed32(x + 0x1_0000_0000) == signed32(x),
        machine_word(x + (usize::MAX + 1)) == machine_word(x),
{
    let m = usize::MAX + 1;
    vstd::arithmetic::div_mod::lemma_mod_add_multiples_vanish(x, m);
    assert(x + m == m + x);
    if 0 <= x <= usize::MAX {
        vstd::arithmetic::div_mod::lemma_small_mod(x as nat, m as nat);
    }
}

/// A request is seen with the device, the mode and the two numbers that it
/// holds.
pub proof fn law_request_is_seen_whole(r: OpenRequest)
    ensures
        r@.device == r.device@,
        r@.mode == r.mode@,
        r@.pixel_format == r.pixel_format,
        r@.audio_channels == r.audio_channels,
{
}

} // verus!
