//! Devices: their descriptions, and what their names say.
use vstd::prelude::*;
use vstd::string::*;

use crate::text::{
    chars_of, decimal, is_digit, is_white_space, last_position, law_trim_finds_the_text,
    lemma_digits_round_trip, lemma_last_position, lemma_last_position_is, lemma_trim,
    lemma_trim_ignores_trailing, lemma_trim_of_trimmed, parse_u8, parsed_u8, rfind, trim,
    trim_bounds,
};

verus! {

/// A DeckLink device as reported by the SDK.
#[derive(Debug, Clone, PartialEq, Eq)]
pub struct DecklinkDeviceInfo {
    /// Zero-based enumeration index.
    pub index: u32,
    /// Display name, e.g. `"DeckLink Quad (1)"`.
    pub name: String,
    /// SDI connector index parsed from a trailing `(N)`, when present. This is
    /// the *software* channel: on cards whose numbering interleaves it is not
    /// the BNC the operator patches.
    pub sdi_channel: Option<u8>,
    /// The BNC this sub-device occupies, counting from the REF connector
    /// outward: what an operator reads off the card's backplate.
    ///
    /// `None` unless the card's connector layout has been verified: only the
    /// 8-port DeckLink Quad is, and only when the whole card enumerates. A
    /// wrong number sends someone to the wrong cable, so an unrecognised model
    /// says nothing rather than guessing.
    pub physical_port: Option<u8>,
}

/// A [`DecklinkDeviceInfo`] with its name as a sequence of characters.
pub struct DeviceInfoView {
    pub index: u32,
    pub name: Seq<char>,
    pub sdi_channel: Option<u8>,
    pub physical_port: Option<u8>,
}

impl View for DecklinkDeviceInfo {
    type V = DeviceInfoView;

    open spec fn view(&self) -> DeviceInfoView {
        DeviceInfoView {
            index: self.index,
            name: self.name@,
            sdi_channel: self.sdi_channel,
            physical_port: self.physical_port,
        }
    }
}

/// An enumeration, each device by its view.
pub open spec fn devices_view(devices: Seq<DecklinkDeviceInfo>) -> Seq<DeviceInfoView> {
    Seq::new(devices.len(), |i: int| devices[i]@)
}

// ---------------------------------------------------------------------------
// Names
// ---------------------------------------------------------------------------

/// Where the trailing group in parentheses of a name opens and closes: the last
/// `)`, with nothing but white space after it, and the last `(` before it.
pub open spec fn suffix_of(name: Seq<char>) -> Option<(int, int)> {
    match last_position(name, ')') {
        Some(close) => if trim(name.skip(close + 1)).len() > 0 {
            None
        } else {
            match last_position(name.take(close), '(') {
                Some(open) => Some((open, close)),
                None => None,
            }
        },
        None => None,
    }
}

/// The connector index in the trailing `(N)` of a name.
pub open spec fn sdi_channel_of(name: Seq<char>) -> Option<u8> {
    match suffix_of(name) {
        Some((open, close)) => parsed_u8(trim(name.subrange(open + 1, close))),
        None => None,
    }
}

/// The model in a name: what stands before the trailing group.
pub open spec fn model_of(name: Seq<char>) -> Seq<char> {
    match suffix_of(name) {
        Some((open, _)) => trim(name.take(open)),
        None => trim(name),
    }
}

/// Finds the trailing group in parentheses of a name.
fn find_suffix(chars: &Vec<char>) -> (r: Option<(usize, usize)>)
    ensures
        match r {
            Some((open, close)) => open < close < chars.len() && suffix_of(chars@) == Some(
                (open as int, close as int),
            ),
            None => suffix_of(chars@) is None,
        },
{
    assert(chars@.take(chars@.len() as int) =~= chars@);
    match rfind(chars, chars.len(), ')') {
        Some(close) => {
            let (a, b) = trim_bounds(chars, close + 1, chars.len());
            assert(chars@.subrange(close + 1, chars@.len() as int) =~= chars@.skip(close + 1));
            if a < b {
                return None;
            }
            match rfind(chars, close, '(') {
                Some(open) => Some((open, close)),
                None => None,
            }
        },
        None => None,
    }
}

/// Parses the trailing `(N)` connector index from a device name:
/// `"DeckLink Quad (3)"` has connector index 3, `"DeckLink (3) Mini"` has none.
pub fn parse_sdi_channel(name: &str) -> (r: Option<u8>)
    ensures
        r == sdi_channel_of(name@),
{
    let chars = chars_of(name);
    match find_suffix(&chars) {
        Some((open, close)) => {
            let (a, b) = trim_bounds(&chars, open + 1, close);
            parse_u8(&chars, a, b)
        },
        None => None,
    }
}

/// The model, with the trailing sub-device suffix removed:
/// `"DeckLink Quad (3)"` is a `"DeckLink Quad"`.
pub fn model_name(name: &str) -> (r: &str)
    ensures
        r@ == model_of(name@),
{
    let chars = chars_of(name);
    let end: usize = match find_suffix(&chars) {
        Some((open, _)) => open,
        None => chars.len(),
    };
    let (a, b) = trim_bounds(&chars, 0, end);
    assert(chars@.subrange(0, chars@.len() as int) =~= chars@);
    assert(chars@.subrange(0, end as int) =~= chars@.take(end as int));
    name.substring_char(a, b)
}

/// Any text followed by `(N)` names channel `N`, and its model is that text.
pub proof fn law_name_splits_at_suffix(text: Seq<char>, n: u8)
    ensures
        sdi_channel_of(text + "("@ + decimal(n as int) + ")"@) == Some(n),
        model_of(text + "("@ + decimal(n as int) + ")"@) == trim(text),
{
    reveal_strlit("(");
    reveal_strlit(")");
    let d = decimal(n as int);
    let name = text + "("@ + d + ")"@;
    lemma_digits_round_trip(n as nat);
    let close = name.len() - 1;
    let open = text.len() as int;
    assert forall|j: int| open < j < close implies is_digit(#[trigger] name[j]) by {
        assert(name[j] == d[j - open - 1]);
    }
    lemma_last_position_is(name, ')', close);
    assert(name.skip(close + 1).len() == 0);
    assert(name[open] == '(');
    lemma_last_position_is(name.take(close), '(', open);
    assert(name.subrange(open + 1, close) =~= d);
    assert(is_digit(d[0]) && is_digit(d[d.len() - 1]));
    lemma_trim_of_trimmed(d);
    assert(name.take(open) =~= text);
}

/// A model followed by ` (N)` names channel `N` of that model.
pub proof fn law_name_round_trip(model: Seq<char>, n: u8)
    ensures
        sdi_channel_of(model + " ("@ + decimal(n as int) + ")"@) == Some(n),
        model_of(model + " ("@ + decimal(n as int) + ")"@) == trim(model),
{
    reveal_strlit(" (");
    reveal_strlit("(");
    law_name_splits_at_suffix(model.push(' '), n);
    assert(model.push(' ') + "("@ =~= model + " ("@);
    lemma_trim_ignores_trailing(model, ' ');
}

/// A name that does not end in `)`, white space aside, has no trailing `(N)`:
/// it names no channel, and all of it is the model.
pub proof fn law_only_a_trailing_suffix_counts(name: Seq<char>)
    requires
        trim(name).len() > 0 ==> trim(name).last() != ')',
    ensures
        sdi_channel_of(name) is None,
        model_of(name) == trim(name),
{
    if let Some(close) = last_position(name, ')') {
        let rest = name.skip(close + 1);
        lemma_last_position(name, ')');
        if trim(rest).len() == 0 {
            let (a, b) = lemma_trim(name);
            assert(a <= close < b);
            assert(trim(name).last() == name[b - 1]);
            let (c, d) = lemma_trim(rest);
            assert(c == d);
            if b - 1 > close {
                assert(name[b - 1] == rest[b - 1 - close - 1]);
            }
            assert(false);
        }
    }
}

/// A name that ends in a group in parentheses, white space aside, has as its
/// channel the number in the group and as its model what stands before it, each
/// without white space around it. The group opens at the last `(`.
pub proof fn law_trailing_group_is_read(text: Seq<char>, inner: Seq<char>, blank: Seq<char>)
    requires
        forall|i: int| 0 <= i < inner.len() ==> #[trigger] inner[i] != '(',
        forall|i: int| 0 <= i < blank.len() ==> is_white_space(#[trigger] blank[i]),
    ensures
        ({
            let name = text + seq!['('] + inner + seq![')'] + blank;
            &&& sdi_channel_of(name) == parsed_u8(trim(inner))
            &&& model_of(name) == trim(text)
        }),
{
    let name = text + seq!['('] + inner + seq![')'] + blank;
    let open = text.len() as int;
    let close = open + 1 + inner.len();
    assert(name[open] == '(' && name[close] == ')');
    assert forall|j: int| close < j < name.len() implies name[j] != ')' by {
        assert(name[j] == blank[j - close - 1]);
    }
    lemma_last_position_is(name, ')', close);
    assert(name.skip(close + 1) =~= Seq::<char>::empty() + Seq::<char>::empty() + blank);
    law_trim_finds_the_text(Seq::empty(), Seq::empty(), blank);
    assert forall|j: int| open < j < close implies name.take(close)[j] != '(' by {
        assert(name.take(close)[j] == inner[j - open - 1]);
    }
    lemma_last_position_is(name.take(close), '(', open);
    assert(name.subrange(open + 1, close) =~= inner);
    assert(name.take(open) =~= text);
}

/// Where no `(` stands before the last `)`, there is no group: the name has no
/// channel, and all of it is the model.
pub proof fn law_unopened_group_is_none(text: Seq<char>, rest: Seq<char>)
    requires
        forall|i: int| 0 <= i < text.len() ==> #[trigger] text[i] != '(',
        forall|i: int| 0 <= i < rest.len() ==> #[trigger] rest[i] != ')',
    ensures
        ({
            let name = text + seq![')'] + rest;
            &&& sdi_channel_of(name) is None
            &&& model_of(name) == trim(name)
        }),
{
    let name = text + seq![')'] + rest;
    let close = text.len() as int;
    assert(name[close] == ')');
    assert forall|j: int| close < j < name.len() implies name[j] != ')' by {
        assert(name[j] == rest[j - close - 1]);
    }
    lemma_last_position_is(name, ')', close);
    assert(name.take(close) =~= text);
    lemma_last_position(text, '(');
}

/// A device is seen with every field that it has, and a list of devices with
/// every device, in order.
pub proof fn law_device_is_seen_whole(d: DecklinkDeviceInfo, devices: Seq<DecklinkDeviceInfo>)
    ensures
        d@.index == d.index,
        d@.name == d.name@,
        d@.sdi_channel == d.sdi_channel,
        d@.physical_port == d.physical_port,
        devices_view(devices).len() == devices.len(),
        forall|i: int|
            0 <= i < devices.len() ==> #[trigger] devices_view(devices)[i] == devices[i]@,
{
}

} // verus!
