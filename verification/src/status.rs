//! Hardware status: decoding what the card answers, field by field.
use vstd::arithmetic::div_mod::lemma_fundamental_div_mod_converse;
use vstd::prelude::*;
use vstd::string::*;

use crate::error::{viewed, Error, ErrorView};
use crate::shim::{signed32, to_low8, to_signed32, RawDeviceStatus, ShimConstants};
use crate::text::{
    decimal, is_trimmed, lemma_trim, lemma_trim_ignores_trailing, lemma_trim_of_trimmed,
    push_decimal, text_of, trim, trim_bounds,
};

verus! {

/// `bmdModeUnknown`, the SDK's "I have nothing to report" raster code
/// (`'iunk'`), returned in place of an error by several status fields.
pub const BMD_MODE_UNKNOWN: i64 = 0x6975_6E6B;

// ---------------------------------------------------------------------------
// FourCC codes
// ---------------------------------------------------------------------------

/// A printable ASCII character, the space included.
pub open spec fn is_printable(c: char) -> bool {
    ' ' <= c <= '~'
}

/// The four bytes of `v` as characters, the most significant first.
pub open spec fn fourcc_chars(v: i64) -> Seq<char> {
    seq![
        ((v as int / 0x100_0000) % 0x100) as char,
        ((v as int / 0x1_0000) % 0x100) as char,
        ((v as int / 0x100) % 0x100) as char,
        (v as int % 0x100) as char,
    ]
}

/// A value that four bytes hold, other than zero.
pub open spec fn is_fourcc(v: i64) -> bool {
    0 < v <= 0xFFFF_FFFF
}

/// What a status code says: nothing for zero, for `bmdModeUnknown` and for
/// anything but four printable bytes; otherwise those four, trimmed.
pub open spec fn fourcc_text(v: i64) -> Option<Seq<char>> {
    if !is_fourcc(v) || v == BMD_MODE_UNKNOWN {
        None
    } else if forall|i: int| 0 <= i < 4 ==> is_printable(#[trigger] fourcc_chars(v)[i]) {
        Some(trim(fourcc_chars(v)))
    } else {
        None
    }
}

/// The four bytes of a code as characters.
fn fourcc_parts(v: i64) -> (r: Vec<char>)
    ensures
        r@ == fourcc_chars(v),
{
    let v0: i64 = v >> 24;
    let v1: i64 = v >> 16;
    let v2: i64 = v >> 8;
    assert(v >> 24 == v / 0x100_0000) by (bit_vector);
    assert(v >> 16 == v / 0x1_0000) by (bit_vector);
    assert(v >> 8 == v / 0x100) by (bit_vector);
    let mut r: Vec<char> = Vec::new();
    r.push(to_low8(v0) as char);
    r.push(to_low8(v1) as char);
    r.push(to_low8(v2) as char);
    r.push(to_low8(v) as char);
    assert(r@ =~= fourcc_chars(v));
    r
}

/// Decodes a DeckLink FourCC status value (`0x48693530` is `"Hi50"`).
///
/// Returns `None` for the zero sentinel, for [`BMD_MODE_UNKNOWN`] and for any
/// value that is not four printable ASCII bytes, one that four bytes do not hold
/// included: better to report nothing than to hand the operator mojibake.
pub fn fourcc_to_string(v: i64) -> (r: Option<String>)
    ensures
        text_of(r) == fourcc_text(v),
{
    if v <= 0 || v > 0xFFFF_FFFF {
        return None;
    }
    if v == BMD_MODE_UNKNOWN {
        return None;
    }
    let chars = fourcc_parts(v);
    let mut i: usize = 0;
    while i < chars.len()
        invariant
            i <= chars.len(),
            chars@ == fourcc_chars(v),
            is_fourcc(v),
            v != BMD_MODE_UNKNOWN,
            forall|j: int| 0 <= j < i ==> is_printable(#[trigger] fourcc_chars(v)[j]),
        decreases chars.len() - i,
    {
        let c: char = chars[i];
        if !(' ' <= c && c <= '~') {
            assert(!is_printable(fourcc_chars(v)[i as int]));
            return None;
        }
        i += 1;
    }
    let (a, b) = trim_bounds(&chars, 0, chars.len());
    assert(chars@.subrange(0, chars@.len() as int) =~= chars@);
    let mut text = String::new();
    let mut k: usize = a;
    while k < b
        invariant
            a <= k <= b <= chars.len(),
            text@ == chars@.subrange(a as int, k as int),
        decreases b - k,
    {
        text.push(chars[k]);
        k += 1;
        assert(text@ =~= chars@.subrange(a as int, k as int));
    }
    Some(text)
}

/// What is reported is printable, at most four characters long and has no
/// space at either end.
pub proof fn law_fourcc_is_presentable(v: i64)
    ensures
        match fourcc_text(v) {
            Some(s) => {
                &&& s.len() <= 4
                &&& is_trimmed(s)
                &&& forall|i: int| 0 <= i < s.len() ==> is_printable(#[trigger] s[i])
            },
            None => true,
        },
{
    let t = fourcc_chars(v);
    if fourcc_text(v) is Some {
        let (a, _) = lemma_trim(t);
        assert forall|i: int| 0 <= i < trim(t).len() implies is_printable(
            #[trigger] trim(t)[i],
        ) by {
            assert(trim(t)[i] == t[a + i]);
        }
    }
}

/// A code of up to four printable characters with no space at either end,
/// padded with spaces to four and packed most significant byte first, decodes
/// to itself, unless it spells `bmdModeUnknown`.
pub proof fn law_fourcc_round_trip(s: Seq<char>, v: i64)
    requires
        s.len() <= 4,
        forall|i: int| 0 <= i < s.len() ==> is_printable(#[trigger] s[i]),
        is_trimmed(s),
        v == packed(padded(s)),
        v != BMD_MODE_UNKNOWN,
    ensures
        fourcc_text(v) == Some(s),
{
    let p = padded(s);
    assert forall|i: int| 0 <= i < 4 implies is_printable(#[trigger] p[i]) by {
        if i < s.len() {
            assert(p[i] == s[i]);
        }
    }
    assert(is_printable(p[0]) && is_printable(p[1]) && is_printable(p[2]) && is_printable(p[3]));
    assert(fourcc_chars(v) =~= p);
    lemma_trim_padded(s, (4 - s.len()) as nat);
    lemma_trim_of_trimmed(s);
}

/// `s` padded with spaces to four characters.
pub open spec fn padded(s: Seq<char>) -> Seq<char> {
    s + spaces((4 - s.len()) as nat)
}

/// `n` spaces.
pub open spec fn spaces(n: nat) -> Seq<char> {
    Seq::new(n, |i: int| ' ')
}

/// Four characters packed into one number, the first most significant.
pub open spec fn packed(s: Seq<char>) -> int {
    ((s[0] as int * 0x100 + s[1] as int) * 0x100 + s[2] as int) * 0x100 + s[3] as int
}

proof fn lemma_trim_padded(s: Seq<char>, n: nat)
    ensures
        trim(s + spaces(n)) == trim(s),
    decreases n,
{
    if n == 0 {
        assert(s + spaces(n) =~= s);
    } else {
        let m = (n - 1) as nat;
        assert(s + spaces(n) =~= (s + spaces(m)).push(' '));
        lemma_trim_ignores_trailing(s + spaces(m), ' ');
        lemma_trim_padded(s, m);
    }
}

// ---------------------------------------------------------------------------
// Tri-states
// ---------------------------------------------------------------------------

/// Converts the shim's tri-state (`-1` unknown) into an `Option<bool>`.
///
/// "Unknown" is never reported as "no".
pub fn tri_to_bool(v: i32) -> (r: Option<bool>)
    ensures
        r == tri_value(v),
        r == Some(false) <==> v == 0,
        r is None <==> v != 0 && v != 1,
{
    match v {
        0 => Some(false),
        1 => Some(true),
        _ => None,
    }
}

/// The value of the shim's tri-state.
pub open spec fn tri_value(v: i32) -> Option<bool> {
    if v == 0 {
        Some(false)
    } else if v == 1 {
        Some(true)
    } else {
        None
    }
}

/// A count that the card may decline to give.
pub open spec fn count_value(v: i32) -> Option<i32> {
    if v >= 0 {
        Some(v)
    } else {
        None
    }
}

fn count_to_option(v: i32) -> (r: Option<i32>)
    ensures
        r == count_value(v),
{
    if v >= 0 {
        Some(v)
    } else {
        None
    }
}

// ---------------------------------------------------------------------------
// Status snapshots
// ---------------------------------------------------------------------------

/// A read-only snapshot of one device's hardware status.
///
/// Every field is `Option` because the card answers per field: an unlocked
/// input does not know its colorspace or raster, and simpler models decline
/// fields entirely. `None` means "the card did not say", never "no".
#[derive(Debug, Clone, PartialEq, Eq)]
pub struct DeviceStatus {
    /// Input is locked to an SDI signal.
    pub signal_locked: Option<bool>,
    /// Locked to house reference (genlock).
    pub reference_locked: Option<bool>,
    /// Ancillary data stream is locked.
    pub ancillary_locked: Option<bool>,
    /// Device is held open by some process, including this one.
    pub busy: Option<bool>,
    /// Detected input raster as a DeckLink mode FourCC, e.g. `"Hi50"`.
    pub detected_mode: Option<String>,
    /// Detected colorimetry, e.g. `"r709"`.
    pub detected_colorspace: Option<String>,
    /// Detected field dominance, e.g. `"uppr"` (upper field first).
    pub detected_field_dominance: Option<String>,
    /// Detected SDI link configuration, e.g. `"lcsl"` (single link).
    pub sdi_link_config: Option<String>,
    /// Raster of the reference signal. `None` when no reference is connected.
    pub reference_mode: Option<String>,
    /// `BMDDynamicRange`; `0` is SDR.
    pub detected_dynamic_range: Option<i32>,
    /// PCIe generation the card negotiated, e.g. `2`.
    pub pcie_link_speed: Option<i32>,
    /// PCIe lanes the card negotiated, e.g. `4`.
    pub pcie_link_width: Option<i32>,
}

/// A [`DeviceStatus`] with its codes as sequences of characters.
pub struct DeviceStatusView {
    pub signal_locked: Option<bool>,
    pub reference_locked: Option<bool>,
    pub ancillary_locked: Option<bool>,
    pub busy: Option<bool>,
    pub detected_mode: Option<Seq<char>>,
    pub detected_colorspace: Option<Seq<char>>,
    pub detected_field_dominance: Option<Seq<char>>,
    pub sdi_link_config: Option<Seq<char>>,
    pub reference_mode: Option<Seq<char>>,
    pub detected_dynamic_range: Option<i32>,
    pub pcie_link_speed: Option<i32>,
    pub pcie_link_width: Option<i32>,
}

impl View for DeviceStatus {
    type V = DeviceStatusView;

    open spec fn view(&self) -> DeviceStatusView {
        DeviceStatusView {
            signal_locked: self.signal_locked,
            reference_locked: self.reference_locked,
            ancillary_locked: self.ancillary_locked,
            busy: self.busy,
            detected_mode: text_of(self.detected_mode),
            detected_colorspace: text_of(self.detected_colorspace),
            detected_field_dominance: text_of(self.detected_field_dominance),
            sdi_link_config: text_of(self.sdi_link_config),
            reference_mode: text_of(self.reference_mode),
            detected_dynamic_range: self.detected_dynamic_range,
            pcie_link_speed: self.pcie_link_speed,
            pcie_link_width: self.pcie_link_width,
        }
    }
}

impl DeviceStatusView {
    /// The snapshot in which the card said nothing.
    pub open spec fn unknown() -> DeviceStatusView {
        DeviceStatusView {
            signal_locked: None,
            reference_locked: None,
            ancillary_locked: None,
            busy: None,
            detected_mode: None,
            detected_colorspace: None,
            detected_field_dominance: None,
            sdi_link_config: None,
            reference_mode: None,
            detected_dynamic_range: None,
            pcie_link_speed: None,
            pcie_link_width: None,
        }
    }
}

impl Default for DeviceStatus {
    /// The snapshot in which the card said nothing.
    fn default() -> (r: DeviceStatus)
        ensures
            r@ == DeviceStatusView::unknown(),
    {
        DeviceStatus {
            signal_locked: None,
            reference_locked: None,
            ancillary_locked: None,
            busy: None,
            detected_mode: None,
            detected_colorspace: None,
            detected_field_dominance: None,
            sdi_link_config: None,
            reference_mode: None,
            detected_dynamic_range: None,
            pcie_link_speed: None,
            pcie_link_width: None,
        }
    }
}

/// What the card's raw answers say.
pub open spec fn decoded_status(raw: RawDeviceStatus) -> DeviceStatusView {
    DeviceStatusView {
        signal_locked: tri_value(raw.signal_locked),
        reference_locked: tri_value(raw.reference_locked),
        ancillary_locked: tri_value(raw.ancillary_locked),
        busy: tri_value(raw.busy),
        detected_mode: fourcc_text(raw.detected_mode),
        detected_colorspace: fourcc_text(raw.detected_colorspace),
        detected_field_dominance: fourcc_text(raw.detected_field_dominance),
        sdi_link_config: fourcc_text(raw.sdi_link_config),
        reference_mode: fourcc_text(raw.reference_mode),
        detected_dynamic_range: count_value(raw.detected_dynamic_range),
        pcie_link_speed: count_value(raw.pcie_link_speed),
        pcie_link_width: count_value(raw.pcie_link_width),
    }
}

/// The outcome of a status read of device `index` that returned `rc` and
/// filled in `raw`.
pub open spec fn status_outcome(
    index: u32,
    rc: i32,
    raw: RawDeviceStatus,
    shim: ShimConstants,
) -> Result<DeviceStatusView, ErrorView> {
    if rc == shim.ok {
        Ok(decoded_status(raw))
    } else if rc == shim.err_no_device {
        Err(ErrorView::DeviceNotFound("device index "@ + decimal(index as int)))
    } else if rc == shim.err_unsupported {
        Err(ErrorView::Unsupported("device does not implement IDeckLinkStatus"@))
    } else {
        Err(ErrorView::Io("dl_device_status_get failed: "@ + decimal(rc as int)))
    }
}

/// Each outcome of a status read comes with its return code and with no other.
pub proof fn law_status_by_code(index: u32, rc: i32, raw: RawDeviceStatus, shim: ShimConstants)
    requires
        shim.wf(),
    ensures
        ({
            let r = status_outcome(index, rc, raw, shim);
            &&& r is Ok <==> rc == shim.ok
            &&& (r matches Err(ErrorView::DeviceNotFound(_))) <==> rc == shim.err_no_device
            &&& (r matches Err(ErrorView::Unsupported(_))) <==> rc == shim.err_unsupported
            &&& (r matches Err(ErrorView::Io(_))) <==> rc != shim.ok && rc != shim.err_no_device
                && rc != shim.err_unsupported
        }),
{
}

/// The index by which the shim is asked for the device at `index`.
pub fn shim_index(index: u32) -> (r: i32)
    ensures
        r == signed32(index as int),
        index < 0x8000_0000 ==> r == index,
{
    to_signed32(index as u64)
}

/// The hardware status of the device at `index`, from what the shim's status
/// read returned (`rc`) and filled in (`raw`).
///
/// A status read neither opens nor reserves the device, so it is safe for
/// every port on a card while flows are running.
pub fn device_status(index: u32, rc: i32, raw: RawDeviceStatus, shim: &ShimConstants) -> (r: Result<
    DeviceStatus,
    Error,
>)
    ensures
        viewed(r) == status_outcome(index, rc, raw, *shim),
{
    if rc == shim.ok {
        Ok(
            DeviceStatus {
                signal_locked: tri_to_bool(raw.signal_locked),
                reference_locked: tri_to_bool(raw.reference_locked),
                ancillary_locked: tri_to_bool(raw.ancillary_locked),
                busy: tri_to_bool(raw.busy),
                detected_mode: fourcc_to_string(raw.detected_mode),
                detected_colorspace: fourcc_to_string(raw.detected_colorspace),
                detected_field_dominance: fourcc_to_string(raw.detected_field_dominance),
                sdi_link_config: fourcc_to_string(raw.sdi_link_config),
                reference_mode: fourcc_to_string(raw.reference_mode),
                detected_dynamic_range: count_to_option(raw.detected_dynamic_range),
                pcie_link_speed: count_to_option(raw.pcie_link_speed),
                pcie_link_width: count_to_option(raw.pcie_link_width),
            },
        )
    } else if rc == shim.err_no_device {
        let mut text = "device index ".to_owned();
        push_decimal(&mut text, index as i128);
        Err(Error::DeviceNotFound(text))
    } else if rc == shim.err_unsupported {
        Err(Error::Unsupported("device does not implement IDeckLinkStatus".to_owned()))
    } else {
        let mut text = "dl_device_status_get failed: ".to_owned();
        push_decimal(&mut text, rc as i128);
        Err(Error::Io(text))
    }
}

// ---------------------------------------------------------------------------
// Laws
// ---------------------------------------------------------------------------

proof fn lemma_four_bytes(a: int, b: int, c: int, d: int)
    requires
        0 <= a < 0x100,
        0 <= b < 0x100,
        0 <= c < 0x100,
        0 <= d < 0x100,
    ensures
        ({
            let n = 0x100_0000 * a + 0x1_0000 * b + 0x100 * c + d;
            &&& 0 <= n <= 0xFFFF_FFFF
            &&& (n / 0x100_0000) % 0x100 == a
            &&& (n / 0x1_0000) % 0x100 == b
            &&& (n / 0x100) % 0x100 == c
            &&& n % 0x100 == d
        }),
{
    let n = 0x100_0000 * a + 0x1_0000 * b + 0x100 * c + d;
    let ab = 0x100 * a + b;
    let abc = 0x100 * ab + c;
    lemma_fundamental_div_mod_converse(n, 0x100, abc, d);
    lemma_fundamental_div_mod_converse(n, 0x1_0000, ab, 0x100 * c + d);
    lemma_fundamental_div_mod_converse(n, 0x100_0000, a, 0x1_0000 * b + 0x100 * c + d);
    lemma_fundamental_div_mod_converse(abc, 0x100, ab, c);
    lemma_fundamental_div_mod_converse(ab, 0x100, a, b);
    lemma_fundamental_div_mod_converse(a, 0x100, 0, a);
}

/// Four printable characters, packed most significant byte first, are reported
/// as they are, without white space around them, unless they spell `iunk`,
/// which says nothing.
pub proof fn law_fourcc_says_its_characters(c: Seq<char>, v: i64)
    requires
        c.len() == 4,
        forall|i: int| 0 <= i < 4 ==> ' ' <= #[trigger] c[i] <= '~',
        v == 16_777_216 * (c[0] as int) + 65_536 * (c[1] as int) + 256 * (c[2] as int) + c[3]
            as int,
    ensures
        v == 0x6975_6E6B ==> fourcc_text(v) is None,
        v != 0x6975_6E6B ==> fourcc_text(v) == Some(trim(c)),
{
    assert(' ' <= c[0] <= '~' && ' ' <= c[1] <= '~' && ' ' <= c[2] <= '~' && ' ' <= c[3] <= '~');
    lemma_four_bytes(c[0] as int, c[1] as int, c[2] as int, c[3] as int);
    assert(fourcc_chars(v)[0] == c[0]);
    assert(fourcc_chars(v)[1] == c[1]);
    assert(fourcc_chars(v)[2] == c[2]);
    assert(fourcc_chars(v)[3] == c[3]);
    assert(fourcc_chars(v) =~= c);
    assert forall|i: int| 0 <= i < 4 implies is_printable(#[trigger] fourcc_chars(v)[i]) by {
        assert(fourcc_chars(v)[i] == c[i]);
    }
}

/// Nothing else is reported: what is, is the packing of four printable
/// characters.
pub proof fn law_fourcc_says_nothing_else(v: i64)
    requires
        fourcc_text(v) is Some,
    ensures
        v != 0x6975_6E6B,
        exists|c: Seq<char>| #![trigger trim(c)]
            {
                &&& c.len() == 4
                &&& forall|i: int| 0 <= i < 4 ==> ' ' <= #[trigger] c[i] <= '~'
                &&& v == 16_777_216 * (c[0] as int) + 65_536 * (c[1] as int) + 256 * (c[2] as int)
                    + c[3] as int
                &&& fourcc_text(v) == Some(trim(c))
            },
{
    let c = fourcc_chars(v);
    assert forall|i: int| 0 <= i < 4 implies ' ' <= #[trigger] c[i] <= '~' by {
        assert(is_printable(fourcc_chars(v)[i]));
    }
    let n = v as int;
    assert(n / 0x1_0000 == (n / 0x100) / 0x100);
    assert(n / 0x100_0000 == (n / 0x1_0000) / 0x100);
    assert(fourcc_text(v) == Some(trim(c)));
}

/// A yes or no of the card's, as it is reported: yes for 1, no for 0, and
/// unknown for any other answer.
pub open spec fn reports_answer(reported: Option<bool>, answer: i32) -> bool {
    &&& reported == Some(true) <==> answer == 1
    &&& reported == Some(false) <==> answer == 0
    &&& reported is None <==> answer != 0 && answer != 1
}

/// A count of the card's, as it is reported: itself, or unknown below zero.
pub open spec fn reports_count(reported: Option<i32>, answer: i32) -> bool {
    &&& reported is Some <==> answer >= 0
    &&& answer >= 0 ==> reported->0 == answer
}

/// In a status that was read, each field says what the card answered for that
/// very field, and no more than that.
pub proof fn law_status_field_by_field(index: u32, raw: RawDeviceStatus, shim: ShimConstants)
    ensures
        status_outcome(index, shim.ok, raw, shim) matches Ok(s) && {
            &&& reports_answer(s.signal_locked, raw.signal_locked)
            &&& reports_answer(s.reference_locked, raw.reference_locked)
            &&& reports_answer(s.ancillary_locked, raw.ancillary_locked)
            &&& reports_answer(s.busy, raw.busy)
            &&& s.detected_mode == fourcc_text(raw.detected_mode)
            &&& s.detected_colorspace == fourcc_text(raw.detected_colorspace)
            &&& s.detected_field_dominance == fourcc_text(raw.detected_field_dominance)
            &&& s.sdi_link_config == fourcc_text(raw.sdi_link_config)
            &&& s.reference_mode == fourcc_text(raw.reference_mode)
            &&& reports_count(s.detected_dynamic_range, raw.detected_dynamic_range)
            &&& reports_count(s.pcie_link_speed, raw.pcie_link_speed)
            &&& reports_count(s.pcie_link_width, raw.pcie_link_width)
        },
{
}

/// The card's answer for one field is reported in that field alone: two reads
/// that differ in nothing but the input lock are reported alike but for it.
pub proof fn law_input_lock_is_a_field_of_its_own(
    index: u32,
    raw: RawDeviceStatus,
    signal_locked: i32,
    shim: ShimConstants,
)
    ensures
        ({
            let other = RawDeviceStatus { signal_locked, ..raw };
            match (
                status_outcome(index, shim.ok, raw, shim),
                status_outcome(index, shim.ok, other, shim),
            ) {
                (Ok(s), Ok(t)) => {
                    &&& t == (DeviceStatusView { signal_locked: t.signal_locked, ..s })
                    &&& s.signal_locked == t.signal_locked <==> raw.signal_locked == signal_locked
                        || (raw.signal_locked != 0 && raw.signal_locked != 1 && signal_locked != 0
                        && signal_locked != 1)
                },
                _ => false,
            }
        }),
{
}

/// A status that was not read is refused by what went wrong: no device at this
/// index, a device without a status, or the shim's own code.
pub proof fn law_status_refusals_name_the_cause(
    index: u32,
    rc: i32,
    raw: RawDeviceStatus,
    shim: ShimConstants,
)
    requires
        shim.wf(),
    ensures
        ({
            let r = status_outcome(index, rc, raw, shim);
            &&& rc == shim.err_no_device ==> r == Err::<DeviceStatusView, ErrorView>(
                ErrorView::DeviceNotFound("device index "@ + decimal(index as int)),
            )
            &&& rc == shim.err_unsupported ==> r == Err::<DeviceStatusView, ErrorView>(
                ErrorView::Unsupported("device does not implement IDeckLinkStatus"@),
            )
            &&& rc != shim.ok && rc != shim.err_no_device && rc != shim.err_unsupported ==> r
                == Err::<DeviceStatusView, ErrorView>(
                ErrorView::Io("dl_device_status_get failed: "@ + decimal(rc as int)),
            )
        }),
{
}

/// A status is seen with every field that it holds.
pub proof fn law_status_is_seen_whole(s: DeviceStatus)
    ensures
        s@.signal_locked == s.signal_locked,
        s@.reference_locked == s.reference_locked,
        s@.ancillary_locked == s.ancillary_locked,
        s@.busy == s.busy,
        s.detected_mode matches Some(t) ==> s@.detected_mode == Some(t@),
        s.detected_colorspace matches Some(t) ==> s@.detected_colorspace == Some(t@),
        s.detected_field_dominance matches Some(t) ==> s@.detected_field_dominance == Some(t@),
        s.sdi_link_config matches Some(t) ==> s@.sdi_link_config == Some(t@),
        s.reference_mode matches Some(t) ==> s@.reference_mode == Some(t@),
        s.detected_mode is None <==> s@.detected_mode is None,
        s.detected_colorspace is None <==> s@.detected_colorspace is None,
        s.detected_field_dominance is None <==> s@.detected_field_dominance is None,
        s.sdi_link_config is None <==> s@.sdi_link_config is None,
        s.reference_mode is None <==> s@.reference_mode is None,
        s@.detected_dynamic_range == s.detected_dynamic_range,
        s@.pcie_link_speed == s.pcie_link_speed,
        s@.pcie_link_width == s.pcie_link_width,
{
}

/// The status in which the card said nothing has every field unknown.
pub proof fn law_unknown_status_says_nothing()
    ensures
        ({
            let s = DeviceStatusView::unknown();
            &&& s.signal_locked is None && s.reference_locked is None
            &&& s.ancillary_locked is None && s.busy is None
            &&& s.detected_mode is None && s.detected_colorspace is None
            &&& s.detected_field_dominance is None && s.sdi_link_config is None
            &&& s.reference_mode is None && s.detected_dynamic_range is None
            &&& s.pcie_link_speed is None && s.pcie_link_width is None
        }),
{
}

} // verus!
