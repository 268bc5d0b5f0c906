//! Enumeration: the devices of a host, from the shim's answers.
use vstd::prelude::*;
use vstd::slice::*;
use vstd::string::*;
use vstd::utf8::*;

use crate::device::{
    devices_view, parse_sdi_channel, sdi_channel_of, DecklinkDeviceInfo, DeviceInfoView,
};
use crate::ports::{
    complete_quad, is_quad, is_whole_card, law_only_a_whole_card_is_mapped,
    law_whole_card_is_mapped, lemma_quad_channels, quads, resolve_physical_ports, resolved,
};
use crate::shim::{RawDeviceName, ShimConstants};
use crate::text::{from_utf8_lossy, lossy_text, text_of};

verus! {

/// The device at `index` with display name `name`, before its connector is
/// resolved.
pub open spec fn named_device(index: int, name: Seq<char>) -> DeviceInfoView {
    DeviceInfoView {
        index: index as u32,
        name,
        sdi_channel: sdi_channel_of(name),
        physical_port: None,
    }
}

/// The devices that gave a name, in order, each with its own index.
pub open spec fn listed(names: Seq<Option<Seq<char>>>) -> Seq<DeviceInfoView>
    decreases names.len(),
{
    if names.len() == 0 {
        Seq::empty()
    } else {
        match names.last() {
            Some(name) => listed(names.drop_last()).push(named_device(names.len() - 1, name)),
            None => listed(names.drop_last()),
        }
    }
}

/// The names, each by its view.
pub open spec fn names_view(names: Seq<Option<String>>) -> Seq<Option<Seq<char>>> {
    Seq::new(names.len(), |i: int| text_of(names[i]))
}

/// The enumeration of the devices whose names are known, in order of their
/// index; a device that gave no name is left out.
pub fn describe_devices(names: Vec<Option<String>>) -> (r: Vec<DecklinkDeviceInfo>)
    requires
        names.len() <= u32::MAX,
    ensures
        devices_view(r@) == resolved(listed(names_view(names@))),
{
    let ghost all = names_view(names@);
    let mut r: Vec<DecklinkDeviceInfo> = Vec::new();
    let mut i: usize = 0;
    assert(devices_view(r@) =~= listed(all.take(0)));
    while i < names.len()
        invariant
            i <= names.len() <= u32::MAX,
            all == names_view(names@),
            devices_view(r@) == listed(all.take(i as int)),
        decreases names.len() - i,
    {
        assert(all.take(i + 1).drop_last() =~= all.take(i as int));
        let ghost before = r@;
        match &names[i] {
            Some(name) => {
                r.push(
                    DecklinkDeviceInfo {
                        index: i as u32,
                        name: name.clone(),
                        sdi_channel: parse_sdi_channel(name.as_str()),
                        physical_port: None,
                    },
                );
                assert(devices_view(r@) =~= devices_view(before).push(r@[before.len() as int]@));
            },
            None => {},
        }
        i += 1;
    }
    assert(all.take(all.len() as int) =~= all);
    resolve_physical_ports(r.as_mut_slice());
    r
}

/// The bytes of a C string: those before the first zero byte.
pub open spec fn c_string(buffer: Seq<u8>) -> Seq<u8> {
    match buffer.index_of_first(0) {
        Some(i) => buffer.take(i),
        None => buffer,
    }
}

/// The name that a buffer holds: the text its C string encodes, with what is
/// not UTF-8 replaced.
pub open spec fn buffer_name(buffer: Seq<u8>) -> Seq<char> {
    let bytes = c_string(buffer);
    if valid_utf8(bytes) {
        decode_utf8(bytes)
    } else {
        lossy_text(bytes)
    }
}

/// The names that the shim gave, device by device.
pub open spec fn answered_names(answers: Seq<RawDeviceName>, shim: ShimConstants) -> Seq<
    Option<Seq<char>>,
> {
    Seq::new(
        answers.len(),
        |i: int|
            if answers[i].rc == shim.ok {
                Some(buffer_name(answers[i].buffer@))
            } else {
                None
            },
    )
}

/// Decodes the name in a buffer.
fn decode_name(buffer: &Vec<u8>) -> (r: String)
    ensures
        r@ == buffer_name(buffer@),
{
    let mut n: usize = 0;
    while n < buffer.len() && buffer[n] != 0
        invariant
            n <= buffer.len(),
            forall|j: int| 0 <= j < n ==> buffer@[j] != 0,
        decreases buffer.len() - n,
    {
        n += 1;
    }
    proof {
        buffer@.index_of_first_ensures(0);
        if n == buffer.len() {
            assert(buffer@.take(n as int) =~= buffer@);
        } else {
            assert(buffer@[n as int] == 0);
        }
    }
    from_utf8_lossy(slice_subrange(buffer.as_slice(), 0, n))
}

/// The DeckLink devices on this host, from the shim's answers to the name
/// queries for indices 0, 1, 2 and so on.
///
/// No answers (Desktop Video is not installed, or no card is present) make an
/// empty list, so a probe on a host without SDI is a clean no-op.
pub fn enumerate_devices(answers: &Vec<RawDeviceName>, shim: &ShimConstants) -> (r: Vec<
    DecklinkDeviceInfo,
>)
    requires
        answers.len() <= u32::MAX,
    ensures
        devices_view(r@) == resolved(listed(answered_names(answers@, *shim))),
{
    let mut names: Vec<Option<String>> = Vec::new();
    let mut i: usize = 0;
    while i < answers.len()
        invariant
            i <= answers.len(),
            names_view(names@) =~= answered_names(answers@, *shim).take(i as int),
        decreases answers.len() - i,
    {
        let ghost before = names@;
        if answers[i].rc == shim.ok {
            names.push(Some(decode_name(&answers[i].buffer)));
        } else {
            names.push(None);
        }
        assert(names_view(names@) =~= names_view(before).push(text_of(names@[i as int])));
        i += 1;
    }
    assert(names_view(names@) =~= answered_names(answers@, *shim));
    describe_devices(names)
}

/// Whether the DeckLink API is reachable on this host, from the shim's answer:
/// Desktop Video is installed and its library could be loaded.
///
/// Distinct from an empty enumeration, which is a working API reporting no
/// cards fitted.
pub fn api_available(answer: i32) -> (r: bool)
    ensures
        r <==> answer != 0,
{
    answer != 0
}

// ---------------------------------------------------------------------------
// Laws
// ---------------------------------------------------------------------------

/// The enumeration holds exactly the devices that gave a name, in ascending
/// order of their index, each with what its name says.
pub proof fn law_enumeration_lists_named_devices(names: Seq<Option<Seq<char>>>)
    requires
        names.len() <= u32::MAX,
    ensures
        forall|k: int| #![trigger listed(names)[k]]
            0 <= k < listed(names).len() ==> {
                let d = listed(names)[k];
                d.index < names.len() && names[d.index as int] is Some && d == named_device(
                    d.index as int,
                    names[d.index as int]->0,
                )
            },
        forall|i: int|
            0 <= i < names.len() && (#[trigger] names[i]) is Some ==> listed(names).contains(
                named_device(i, names[i]->0),
            ),
        forall|k: int, l: int|
            0 <= k < l < listed(names).len() ==> listed(names)[k].index < listed(names)[l].index,
    decreases names.len(),
{
    if names.len() > 0 {
        let rest = names.drop_last();
        law_enumeration_lists_named_devices(rest);
        assert forall|k: int| #![trigger listed(names)[k]]
            0 <= k < listed(names).len() implies {
            let d = listed(names)[k];
            d.index < names.len() && names[d.index as int] is Some && d == named_device(
                d.index as int,
                names[d.index as int]->0,
            )
        } by {
            if k < listed(rest).len() {
                assert(listed(names)[k] == listed(rest)[k]);
                assert(names[listed(rest)[k].index as int] == rest[listed(rest)[k].index as int]);
            }
        }
        assert forall|i: int|
            0 <= i < names.len() && (#[trigger] names[i]) is Some implies listed(names).contains(
            named_device(i, names[i]->0),
        ) by {
            if i < rest.len() {
                assert(rest[i] == names[i]);
                let k = choose|k: int|
                    0 <= k < listed(rest).len() && listed(rest)[k] == named_device(i, names[i]->0);
                assert(listed(names)[k] == listed(rest)[k]);
            } else {
                assert(listed(names)[listed(names).len() - 1] == named_device(i, names[i]->0));
            }
        }
        assert forall|k: int, l: int|
            0 <= k < l < listed(names).len() implies listed(names)[k].index < listed(
            names,
        )[l].index by {
            if l < listed(rest).len() {
                assert(listed(names)[k] == listed(rest)[k]);
                assert(listed(names)[l] == listed(rest)[l]);
            } else {
                assert(listed(names)[k] == listed(rest)[k]);
                assert(listed(rest)[k].index < rest.len());
            }
        }
    }
}

/// Where no device gives a name, the enumeration is empty.
pub proof fn law_enumeration_without_names_is_empty(names: Seq<Option<Seq<char>>>)
    requires
        forall|i: int| 0 <= i < names.len() ==> (#[trigger] names[i]) is None,
    ensures
        resolved(listed(names)) == Seq::<DeviceInfoView>::empty(),
    decreases names.len(),
{
    if names.len() > 0 {
        assert(names[names.len() - 1] is None);
        assert forall|i: int| 0 <= i < names.len() - 1 implies (
        #[trigger] names.drop_last()[i]) is None by {
            assert(names[i] is None);
        }
        law_enumeration_without_names_is_empty(names.drop_last());
        assert(listed(names) == listed(names.drop_last()));
    } else {
        assert(resolved(listed(names)) =~= Seq::<DeviceInfoView>::empty());
    }
}

/// A connector is reported only for a sub-device of a complete Quad, and then
/// always.
pub proof fn law_enumeration_claims_only_complete_quads(names: Seq<Option<Seq<char>>>, k: int)
    requires
        names.len() <= u32::MAX,
        0 <= k < resolved(listed(names)).len(),
    ensures
        resolved(listed(names))[k].physical_port is Some <==> complete_quad(listed(names))
            && is_quad(listed(names)[k]),
{
    law_enumeration_lists_named_devices(names);
    if complete_quad(listed(names)) {
        lemma_quad_channels(listed(names));
        if is_quad(listed(names)[k]) {
            assert(quads(listed(names)).contains(k));
        }
    }
    let d = listed(names)[k];
    assert(d == named_device(d.index as int, names[d.index as int]->0));
}

/// A device is listed under the position of its name, with that name, the
/// channel in it, and no connector.
pub proof fn law_every_name_is_listed(names: Seq<Option<Seq<char>>>)
    requires
        names.len() <= u32::MAX,
    ensures
        forall|k: int|
            0 <= k < listed(names).len() ==> {
                let d = #[trigger] listed(names)[k];
                &&& d.index < names.len()
                &&& names[d.index as int] == Some(d.name)
                &&& d.sdi_channel == sdi_channel_of(d.name)
                &&& d.physical_port is None
            },
        forall|i: int|
            0 <= i < names.len() && (#[trigger] names[i]) is Some ==> exists|k: int|
                0 <= k < listed(names).len() && (#[trigger] listed(names)[k]).index == i,
        forall|k: int, l: int|
            0 <= k < l < listed(names).len() ==> listed(names)[k].index < listed(names)[l].index,
{
    law_enumeration_lists_named_devices(names);
    assert forall|k: int| 0 <= k < listed(names).len() implies {
        let d = #[trigger] listed(names)[k];
        &&& d.index < names.len()
        &&& names[d.index as int] == Some(d.name)
        &&& d.sdi_channel == sdi_channel_of(d.name)
        &&& d.physical_port is None
    } by {
        let d = listed(names)[k];
        assert(d == named_device(d.index as int, names[d.index as int]->0));
    }
    assert forall|i: int|
        0 <= i < names.len() && (#[trigger] names[i]) is Some implies exists|k: int|
        0 <= k < listed(names).len() && (#[trigger] listed(names)[k]).index == i by {
        let k = choose|k: int|
            0 <= k < listed(names).len() && listed(names)[k] == named_device(i, names[i]->0);
        assert(listed(names)[k].index == i);
    }
}

/// What the shim answered is what is enumerated: every device whose name query
/// succeeded, once, in ascending order of its index, with the name that it gave
/// and the channel in that name.
pub proof fn law_every_answer_is_enumerated(answers: Seq<RawDeviceName>, shim: ShimConstants)
    requires
        answers.len() <= u32::MAX,
    ensures
        ({
            let r = resolved(listed(answered_names(answers, shim)));
            &&& forall|k: int|
                0 <= k < r.len() ==> {
                    let d = #[trigger] r[k];
                    &&& d.index < answers.len()
                    &&& answers[d.index as int].rc == shim.ok
                    &&& d.name == buffer_name(answers[d.index as int].buffer@)
                    &&& d.sdi_channel == sdi_channel_of(d.name)
                }
            &&& forall|i: int|
                0 <= i < answers.len() && (#[trigger] answers[i]).rc == shim.ok ==> exists|k: int|
                    0 <= k < r.len() && (#[trigger] r[k]).index == i
            &&& forall|k: int, l: int| 0 <= k < l < r.len() ==> r[k].index < r[l].index
        }),
{
    let names = answered_names(answers, shim);
    let devices = listed(names);
    let r = resolved(devices);
    law_enumeration_lists_named_devices(names);
    assert(r.len() == devices.len());
    assert forall|k: int| 0 <= k < r.len() implies (#[trigger] r[k]).index == devices[k].index
        && r[k].name == devices[k].name && r[k].sdi_channel == devices[k].sdi_channel by {}
    assert forall|k: int| 0 <= k < r.len() implies {
        let d = #[trigger] r[k];
        &&& d.index < answers.len()
        &&& answers[d.index as int].rc == shim.ok
        &&& d.name == buffer_name(answers[d.index as int].buffer@)
        &&& d.sdi_channel == sdi_channel_of(d.name)
    } by {
        let d = devices[k];
        assert(d == named_device(d.index as int, names[d.index as int]->0));
    }
    assert forall|i: int|
        0 <= i < answers.len() && (#[trigger] answers[i]).rc == shim.ok implies exists|k: int|
        0 <= k < r.len() && (#[trigger] r[k]).index == i by {
        assert(names[i] is Some);
        let k = choose|k: int|
            0 <= k < devices.len() && devices[k] == named_device(i, names[i]->0);
        assert(r[k].index == i);
    }
    assert forall|k: int, l: int| 0 <= k < l < r.len() implies r[k].index < r[l].index by {
        assert(devices[k].index < devices[l].index);
    }
}

/// A connector is enumerated for the sub-devices of one whole Quad, for each its
/// own, and for no other device.
pub proof fn law_enumerated_ports_are_of_a_whole_card(
    names: Seq<Option<Seq<char>>>,
    at: Seq<int>,
    k: int,
)
    requires
        names.len() <= u32::MAX,
        0 <= k < resolved(listed(names)).len(),
    ensures
        ({
            let r = resolved(listed(names));
            &&& r[k].physical_port is Some ==> exists|at: Seq<int>| #[trigger]
                is_whole_card(r, at) && at.contains(k)
            &&& is_whole_card(r, at) ==> forall|c: int|
                0 <= c < 8 ==> r[#[trigger] at[c]].physical_port == Some(
                    seq![1u8, 3, 5, 7, 2, 4, 6, 8][c],
                )
        }),
{
    let devices = listed(names);
    let r = resolved(devices);
    law_enumeration_lists_named_devices(names);
    assert forall|i: int| 0 <= i < r.len() implies (#[trigger] r[i]).name == devices[i].name
        && r[i].sdi_channel == devices[i].sdi_channel by {}
    let d = devices[k];
    assert(d == named_device(d.index as int, names[d.index as int]->0));
    if r[k].physical_port is Some {
        assert(r[k] != devices[k]);
        law_only_a_whole_card_is_mapped(devices);
        let card = choose|card: Seq<int>| is_whole_card(devices, card);
        law_whole_card_is_mapped(devices, card);
        assert(card.contains(k));
        lemma_same_card(devices, r, card);
        assert(is_whole_card(r, card) && card.contains(k));
    }
    if is_whole_card(r, at) {
        lemma_same_card(r, devices, at);
        law_whole_card_is_mapped(devices, at);
    }
}

/// A whole card is one by the names and the channels of its sub-devices.
proof fn lemma_same_card(a: Seq<DeviceInfoView>, b: Seq<DeviceInfoView>, at: Seq<int>)
    requires
        is_whole_card(a, at),
        a.len() == b.len(),
        forall|i: int|
            0 <= i < a.len() ==> (#[trigger] a[i]).name == b[i].name && a[i].sdi_channel
                == b[i].sdi_channel,
    ensures
        is_whole_card(b, at),
{
    assert forall|i: int| 0 <= i < b.len() implies (#[trigger] b[i]).name == a[i].name by {}
    assert forall|k: int| 0 <= k < 8 implies 0 <= #[trigger] at[k] < b.len() && b[at[k]].name
        == a[at[k]].name && b[at[k]].sdi_channel == Some((k + 1) as u8) by {}
}

/// The name in a buffer is what was written there: any text without NUL, in
/// UTF-8, up to the first zero byte or to the end of the buffer.
pub proof fn law_name_reads_back(name: Seq<char>, rest: Seq<u8>)
    requires
        forall|i: int| 0 <= i < encode_utf8(name).len() ==> #[trigger] encode_utf8(name)[i] != 0,
    ensures
        buffer_name(encode_utf8(name) + seq![0u8] + rest) == name,
        buffer_name(encode_utf8(name)) == name,
{
    encode_utf8_valid_utf8(name);
    encode_utf8_decode_utf8(name);
    law_name_ends_at_the_first_zero(encode_utf8(name), rest);
}

/// Whatever follows the first zero byte of a buffer makes no difference, and
/// bytes that are no UTF-8 are replaced as `String::from_utf8_lossy` has it.
pub proof fn law_name_ends_at_the_first_zero(bytes: Seq<u8>, rest: Seq<u8>)
    requires
        forall|i: int| 0 <= i < bytes.len() ==> #[trigger] bytes[i] != 0,
    ensures
        buffer_name(bytes + seq![0u8] + rest) == buffer_name(bytes),
        valid_utf8(bytes) ==> buffer_name(bytes) == decode_utf8(bytes),
        !valid_utf8(bytes) ==> buffer_name(bytes) == lossy_text(bytes),
{
    let buffer = bytes + seq![0u8] + rest;
    buffer.index_of_first_ensures(0);
    bytes.index_of_first_ensures(0);
    assert(buffer[bytes.len() as int] == 0);
    assert forall|i: int| 0 <= i < bytes.len() implies #[trigger] buffer[i] != 0 by {
        assert(buffer[i] == bytes[i]);
    }
    assert(buffer.index_of_first(0) == Some(bytes.len() as int));
    assert(buffer.take(bytes.len() as int) =~= bytes);
}

/// A list of names is seen with every name, in order.
pub proof fn law_names_are_seen_whole(names: Seq<Option<String>>)
    ensures
        names_view(names).len() == names.len(),
        forall|i: int|
            0 <= i < names.len() ==> (names[i] is None <==> #[trigger] names_view(
                names,
            )[i] is None),
        forall|i: int|
            0 <= i < names.len() && names[i] is Some ==> #[trigger] names_view(names)[i] == Some(
                names[i]->0@,
            ),
{
}

} // verus!
