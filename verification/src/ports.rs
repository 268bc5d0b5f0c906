//! Connectors: which BNC of the card each device occupies.
use vstd::prelude::*;
use vstd::set_lib::*;
use vstd::string::*;

use crate::device::{devices_view, model_name, model_of, DecklinkDeviceInfo, DeviceInfoView};

verus! {

/// The only model whose physical connector layout is verified.
pub const QUAD_MODEL: &'static str = "DeckLink Quad";

/// Physical BNC per software channel on 8-port DeckLink Quad cards, indexed by
/// the software channel less one.
///
/// Counting the SDI connectors outward from the REF/genlock BNC, software
/// numbering interleaves: physical 1..8 are software 1, 5, 2, 6, 3, 7, 4, 8,
/// so sub-devices pair as (1,5), (2,6), (3,7), (4,8) across two adjacent
/// connectors.
pub const QUAD8_PHYSICAL_PORT: [u8; 8] = [1, 3, 5, 7, 2, 4, 6, 8];

/// The BNC of a software channel on an 8-port Quad.
pub open spec fn quad8_port(channel: Option<u8>) -> Option<u8> {
    match channel {
        Some(ch) => if 1 <= ch <= 4 {
            Some((2 * ch - 1) as u8)
        } else if 5 <= ch <= 8 {
            Some((2 * (ch - 4)) as u8)
        } else {
            None
        },
        None => None,
    }
}

/// A sub-device of the model whose layout is verified.
pub open spec fn is_quad(d: DeviceInfoView) -> bool {
    model_of(d.name) == QUAD_MODEL@
}

/// The positions of the Quad sub-devices in an enumeration.
pub open spec fn quads(devices: Seq<DeviceInfoView>) -> Set<int> {
    Set::new(|i: int| 0 <= i < devices.len() && is_quad(devices[i]))
}

/// Some Quad sub-device has this software channel.
pub open spec fn quad_has_channel(devices: Seq<DeviceInfoView>, ch: int) -> bool {
    exists|i: int| quads(devices).contains(i) && #[trigger] devices[i].sdi_channel == Some(ch as u8)
}

/// A complete 8-port Quad: eight sub-devices that cover channels 1 to 8.
pub open spec fn complete_quad(devices: Seq<DeviceInfoView>) -> bool {
    &&& quads(devices).len() == 8
    &&& forall|ch: int| 1 <= ch <= 8 ==> #[trigger] quad_has_channel(devices, ch)
}

/// The enumeration with the connectors filled in that are known: those of the
/// Quad sub-devices, when they make up one complete card.
pub open spec fn resolved(devices: Seq<DeviceInfoView>) -> Seq<DeviceInfoView> {
    if complete_quad(devices) {
        Seq::new(
            devices.len(),
            |i: int|
                if is_quad(devices[i]) {
                    DeviceInfoView {
                        physical_port: quad8_port(devices[i].sdi_channel),
                        ..devices[i]
                    }
                } else {
                    devices[i]
                },
        )
    } else {
        devices
    }
}

proof fn lemma_quads_finite(devices: Seq<DeviceInfoView>)
    ensures
        quads(devices).finite(),
{
    lemma_int_range(0, devices.len() as int);
    lemma_len_subset(quads(devices), set_int_range(0, devices.len() as int));
}

/// Whether the device is a sub-device of a Quad.
fn device_is_quad(device: &DecklinkDeviceInfo) -> (r: bool)
    ensures
        r == is_quad(device@),
{
    model_name(device.name.as_str()).to_owned() == QUAD_MODEL.to_owned()
}

/// The positions of the Quad sub-devices, in order.
fn find_quads(devices: &[DecklinkDeviceInfo]) -> (r: Vec<usize>)
    ensures
        r.len() == quads(devices_view(devices@)).len(),
        forall|i: int|
            quads(devices_view(devices@)).contains(i) <==> exists|k: int|
                0 <= k < r.len() && #[trigger] r@[k] == i,
        forall|k: int, l: int| 0 <= k < l < r.len() ==> r@[k] < r@[l],
{
    let ghost view = devices_view(devices@);
    let mut r: Vec<usize> = Vec::new();
    let mut i: usize = 0;
    assert(quads(view.take(0)) =~= Set::empty());
    while i < devices.len()
        invariant
            i <= devices.len(),
            view == devices_view(devices@),
            quads(view.take(i as int)).finite(),
            r.len() == quads(view.take(i as int)).len(),
            forall|k: int|
                0 <= k < r.len() ==> quads(view).contains(#[trigger] r@[k] as int) && r@[k] < i,
            forall|j: int|
                0 <= j < i && is_quad(#[trigger] view[j]) ==> exists|k: int|
                    0 <= k < r.len() && #[trigger] r@[k] == j,
            forall|k: int, l: int| 0 <= k < l < r.len() ==> r@[k] < r@[l],
        decreases devices.len() - i,
    {
        let ghost before = r@;
        if device_is_quad(&devices[i]) {
            r.push(i);
            proof {
                assert(view[i as int] == devices@[i as int]@);
                assert(quads(view.take(i + 1)) =~= quads(view.take(i as int)).insert(i as int));
                assert(r@[before.len() as int] == i);
                assert forall|j: int| 0 <= j < i + 1 && is_quad(#[trigger] view[j]) implies exists|
                    k: int,
                |
                    0 <= k < r.len() && #[trigger] r@[k] == j by {
                    if j < i {
                        let k = choose|k: int| 0 <= k < before.len() && #[trigger] before[k] == j;
                        assert(r@[k] == j);
                    }
                }
            }
        } else {
            assert(view[i as int] == devices@[i as int]@);
            assert(quads(view.take(i + 1)) =~= quads(view.take(i as int)));
        }
        i += 1;
    }
    assert(view.take(view.len() as int) =~= view);
    proof {
        assert forall|j: int| quads(view).contains(j) implies exists|k: int|
            0 <= k < r.len() && #[trigger] r@[k] == j by {
            assert(is_quad(view[j]));
        }
    }
    r
}

/// Whether some of the devices at `positions` has software channel `ch`.
fn covers_channel(devices: &[DecklinkDeviceInfo], positions: &Vec<usize>, ch: u8) -> (r: bool)
    requires
        forall|k: int| 0 <= k < positions.len() ==> #[trigger] positions@[k] < devices.len(),
    ensures
        r == exists|k: int|
            0 <= k < positions.len() && devices@[#[trigger] positions@[k] as int].sdi_channel
                == Some(ch),
{
    let mut k: usize = 0;
    while k < positions.len()
        invariant
            k <= positions.len(),
            forall|j: int| 0 <= j < positions.len() ==> #[trigger] positions@[j] < devices.len(),
            forall|j: int|
                0 <= j < k ==> devices@[#[trigger] positions@[j] as int].sdi_channel != Some(ch),
        decreases positions.len() - k,
    {
        let i: usize = positions[k];
        match devices[i].sdi_channel {
            Some(c) => if c == ch {
                assert(devices@[positions@[k as int] as int].sdi_channel == Some(ch));
                return true;
            },
            None => {},
        }
        k += 1;
    }
    false
}

/// The BNC of a software channel on an 8-port Quad.
fn quad8_physical_port(channel: Option<u8>) -> (r: Option<u8>)
    ensures
        r == quad8_port(channel),
{
    match channel {
        Some(ch) => if 1 <= ch && ch <= 8 {
            Some(QUAD8_PHYSICAL_PORT[ch as usize - 1])
        } else {
            None
        },
        None => None,
    }
}

/// Fills in [`DecklinkDeviceInfo::physical_port`] for the devices whose layout
/// is known.
///
/// The mapping is only claimed for a complete 8-port Quad: eight sub-devices
/// of that model covering channels 1 to 8. Any other model, a Quad that is not
/// all there, or two of them in one host leaves `physical_port` as it is: a
/// made-up port number is worse than no port number.
pub fn resolve_physical_ports(devices: &mut [DecklinkDeviceInfo])
    ensures
        devices_view(final(devices)@) == resolved(devices_view(old(devices)@)),
{
    let ghost view = devices_view(devices@);
    let quad = find_quads(devices);
    if quad.len() != QUAD8_PHYSICAL_PORT.len() {
        return;
    }
    proof {
        assert forall|k: int| 0 <= k < quad.len() implies #[trigger] quad@[k] < devices.len() by {
            assert(quads(view).contains(quad@[k] as int));
        }
    }
    let mut ch: u8 = 1;
    while ch <= 8
        invariant
            1 <= ch <= 9,
            view == devices_view(devices@),
            devices@ == old(devices)@,
            forall|i: int|
                quads(view).contains(i) <==> exists|k: int|
                    0 <= k < quad.len() && #[trigger] quad@[k] == i,
            forall|k: int| 0 <= k < quad.len() ==> #[trigger] quad@[k] < devices.len(),
            forall|c: int| 1 <= c < ch ==> #[trigger] quad_has_channel(view, c),
        decreases 9 - ch,
    {
        if !covers_channel(devices, &quad, ch) {
            proof {
                if quad_has_channel(view, ch as int) {
                    let i = choose|i: int|
                        quads(view).contains(i) && #[trigger] view[i].sdi_channel == Some(ch);
                    let k = choose|k: int| 0 <= k < quad.len() && #[trigger] quad@[k] == i;
                    assert(devices@[quad@[k] as int].sdi_channel == Some(ch));
                }
            }
            return;
        }
        proof {
            let k = choose|k: int|
                0 <= k < quad.len() && devices@[#[trigger] quad@[k] as int].sdi_channel == Some(ch);
            assert(quads(view).contains(quad@[k] as int));
            assert(view[quad@[k] as int].sdi_channel == Some(ch));
        }
        ch += 1;
    }
    assert(complete_quad(view));
    let mut k: usize = 0;
    while k < quad.len()
        invariant
            k <= quad.len(),
            view == devices_view(old(devices)@),
            complete_quad(view),
            devices@.len() == view.len(),
            forall|i: int|
                quads(view).contains(i) <==> exists|k: int|
                    0 <= k < quad.len() && #[trigger] quad@[k] == i,
            forall|k: int| 0 <= k < quad.len() ==> #[trigger] quad@[k] < devices.len(),
            forall|k: int, l: int| 0 <= k < l < quad.len() ==> quad@[k] < quad@[l],
            forall|j: int|
                0 <= j < k ==> devices@[#[trigger] quad@[j] as int]@ == resolved(
                    view,
                )[quad@[j] as int],
            forall|j: int|
                k <= j < quad.len() ==> devices@[#[trigger] quad@[j] as int]@
                    == view[quad@[j] as int],
            forall|i: int|
                0 <= i < view.len() && !quads(view).contains(i) ==> (#[trigger] devices@[i])@
                    == view[i],
        decreases quad.len() - k,
    {
        let i: usize = quad[k];
        let port = quad8_physical_port(devices[i].sdi_channel);
        let ghost before = devices@;
        devices[i].physical_port = port;
        proof {
            assert(quads(view).contains(i as int));
            assert(devices@ =~= before.update(i as int, devices@[i as int]));
            assert(before[quad@[k as int] as int]@ == view[quad@[k as int] as int]);
        }
        k += 1;
    }
    proof {
        assert forall|i: int| 0 <= i < view.len() implies (#[trigger] devices@[i])@ == resolved(
            view,
        )[i] by {
            if quads(view).contains(i) {
                let k = choose|k: int| 0 <= k < quad.len() && #[trigger] quad@[k] == i;
                assert(devices@[quad@[k] as int]@ == resolved(view)[quad@[k] as int]);
            } else {
                assert(!is_quad(view[i]));
            }
        }
        assert(devices_view(devices@) =~= resolved(view));
    }
}

// ---------------------------------------------------------------------------
// Laws
// ---------------------------------------------------------------------------

/// Unless a complete Quad enumerates, nothing is claimed of any device.
pub proof fn law_incomplete_card_says_nothing(devices: Seq<DeviceInfoView>)
    requires
        !complete_quad(devices),
    ensures
        resolved(devices) == devices,
{
}

/// Nothing but the connector is ever filled in, and that only for the Quad.
pub proof fn law_only_quad_ports_change(devices: Seq<DeviceInfoView>, i: int)
    requires
        0 <= i < devices.len(),
    ensures
        resolved(devices).len() == devices.len(),
        resolved(devices)[i] == (DeviceInfoView {
            physical_port: resolved(devices)[i].physical_port,
            ..devices[i]
        }),
        !is_quad(devices[i]) ==> resolved(devices)[i] == devices[i],
{
}

/// Sub-devices pair as (1,5), (2,6), (3,7), (4,8), each pair on two adjacent
/// connectors; counted outward, the connectors carry 1, 5, 2, 6, 3, 7, 4, 8.
pub proof fn law_pairs_share_adjacent_connectors(ch: u8)
    requires
        1 <= ch <= 4,
    ensures
        quad8_port(Some(ch)) == Some((2 * ch - 1) as u8),
        quad8_port(Some((ch + 4) as u8)) == Some((2 * ch) as u8),
{
}

/// The sub-devices of a complete Quad have the channels 1 to 8, each its own.
pub proof fn lemma_quad_channels(devices: Seq<DeviceInfoView>)
    requires
        complete_quad(devices),
    ensures
        forall|i: int| #[trigger]
            quads(devices).contains(i) ==> devices[i].sdi_channel is Some
                && 1 <= devices[i].sdi_channel->0 <= 8,
        forall|i: int, j: int|
            quads(devices).contains(i) && quads(devices).contains(j) && i != j
                ==> devices[i].sdi_channel != devices[j].sdi_channel,
{
    let channels = set_int_range(1, 9);
    let holder = |ch: int|
        choose|i: int|
            quads(devices).contains(i) && #[trigger] devices[i].sdi_channel == Some(ch as u8);
    let held = channels.map(holder);
    lemma_int_range(1, 9);
    lemma_quads_finite(devices);
    assert forall|ch: int| channels.contains(ch) implies quads(devices).contains(
        #[trigger] holder(ch),
    ) && devices[holder(ch)].sdi_channel == Some(ch as u8) by {
        assert(quad_has_channel(devices, ch));
    }
    assert(vstd::relations::injective_on(holder, channels)) by {
        assert forall|a: int, b: int|
            channels.contains(a) && channels.contains(b) && #[trigger] holder(a)
                == #[trigger] holder(b) implies a == b by {
            assert(devices[holder(a)].sdi_channel == Some(a as u8));
            assert(devices[holder(b)].sdi_channel == Some(b as u8));
        }
    }
    lemma_map_size(channels, held, holder);
    lemma_subset_equality(held, quads(devices));
    assert forall|i: int| #[trigger] quads(devices).contains(i) implies exists|ch: int|
        channels.contains(ch) && #[trigger] holder(ch) == i by {
        assert(held.contains(i));
    }
    assert forall|i: int, j: int|
        quads(devices).contains(i) && quads(devices).contains(j) && i
            != j implies devices[i].sdi_channel != devices[j].sdi_channel by {
        let a = choose|ch: int| channels.contains(ch) && #[trigger] holder(ch) == i;
        let b = choose|ch: int| channels.contains(ch) && #[trigger] holder(ch) == j;
        assert(a != b);
    }
}

/// Some Quad sub-device occupies this connector.
pub open spec fn quad_has_port(devices: Seq<DeviceInfoView>, p: int) -> bool {
    exists|i: int|
        quads(devices).contains(i) && #[trigger] devices[i].physical_port == Some(p as u8)
}

/// On a complete Quad every sub-device gets a connector from 1 to 8, no two
/// get the same one, and none of the eight is left over.
pub proof fn law_complete_card_gets_every_port(devices: Seq<DeviceInfoView>)
    requires
        complete_quad(devices),
    ensures
        forall|i: int| #[trigger]
            quads(devices).contains(i) ==> resolved(devices)[i].physical_port is Some
                && 1 <= resolved(devices)[i].physical_port->0 <= 8,
        forall|i: int, j: int|
            quads(devices).contains(i) && quads(devices).contains(j) && i != j
                ==> resolved(devices)[i].physical_port != resolved(devices)[j].physical_port,
        forall|p: int| 1 <= p <= 8 ==> #[trigger] quad_has_port(resolved(devices), p),
{
    lemma_quad_channels(devices);
    assert(quads(resolved(devices)) =~= quads(devices));
    assert forall|p: int| 1 <= p <= 8 implies #[trigger] quad_has_port(resolved(devices), p) by {
        let ch: int = if p % 2 == 1 {
            (p + 1) / 2
        } else {
            p / 2 + 4
        };
        assert(quad_has_channel(devices, ch));
        let i = choose|i: int|
            quads(devices).contains(i) && #[trigger] devices[i].sdi_channel == Some(ch as u8);
        assert(quads(devices).contains(i));
        assert(resolved(devices)[i].physical_port == quad8_port(Some(ch as u8)));
    }
}

/// Resolving twice is resolving once.
pub proof fn law_resolving_is_idempotent(devices: Seq<DeviceInfoView>)
    ensures
        resolved(resolved(devices)) == resolved(devices),
{
    let once = resolved(devices);
    if complete_quad(devices) {
        assert(quads(once) =~= quads(devices));
        assert forall|ch: int| 1 <= ch <= 8 implies #[trigger] quad_has_channel(once, ch) by {
            assert(quad_has_channel(devices, ch));
            let i = choose|i: int|
                quads(devices).contains(i) && #[trigger] devices[i].sdi_channel == Some(ch as u8);
            assert(once[i].sdi_channel == Some(ch as u8));
        }
        assert(resolved(once) =~= once);
    }
}

/// The Quad sub-devices of an enumeration are one whole card: `at` says where
/// those with channels 1 to 8 stand, in this order, and there are no others.
pub open spec fn is_whole_card(devices: Seq<DeviceInfoView>, at: Seq<int>) -> bool {
    &&& at.len() == 8
    &&& forall|k: int|
        0 <= k < 8 ==> {
            &&& 0 <= #[trigger] at[k] < devices.len()
            &&& model_of(devices[at[k]].name) == "DeckLink Quad"@
            &&& devices[at[k]].sdi_channel == Some((k + 1) as u8)
        }
    &&& forall|i: int|
        0 <= i < devices.len() && model_of(#[trigger] devices[i].name) == "DeckLink Quad"@
            ==> at.contains(i)
}

/// On a whole card, wherever its sub-devices stand in the enumeration and
/// whatever stands among them, channels 1 to 8 occupy the connectors 1, 3, 5,
/// 7, 2, 4, 6 and 8, and nothing else changes.
pub proof fn law_whole_card_is_mapped(devices: Seq<DeviceInfoView>, at: Seq<int>)
    requires
        is_whole_card(devices, at),
    ensures
        resolved(devices).len() == devices.len(),
        forall|k: int|
            0 <= k < 8 ==> resolved(devices)[#[trigger] at[k]] == (DeviceInfoView {
                physical_port: Some(seq![1u8, 3, 5, 7, 2, 4, 6, 8][k]),
                ..devices[at[k]]
            }),
        forall|i: int|
            0 <= i < devices.len() && !at.contains(i) ==> #[trigger] resolved(devices)[i]
                == devices[i],
{
    assert forall|j: int, k: int| 0 <= j < k < 8 implies at[j] != at[k] by {
        assert(devices[at[j]].sdi_channel == Some((j + 1) as u8));
        assert(devices[at[k]].sdi_channel == Some((k + 1) as u8));
    }
    assert forall|i: int| at.contains(i) implies quads(devices).contains(i) by {
        let k = choose|k: int| 0 <= k < at.len() && at[k] == i;
        assert(0 <= at[k] < devices.len());
    }
    assert forall|i: int| quads(devices).contains(i) implies at.contains(i) by {
        assert(model_of(devices[i].name) == "DeckLink Quad"@);
    }
    assert(quads(devices) =~= at.to_set());
    at.unique_seq_to_set();
    assert forall|ch: int| 1 <= ch <= 8 implies #[trigger] quad_has_channel(devices, ch) by {
        assert(at.contains(at[ch - 1]));
        assert(devices[at[ch - 1]].sdi_channel == Some(ch as u8));
    }
    assert forall|k: int| 0 <= k < 8 implies resolved(devices)[#[trigger] at[k]] == (
    DeviceInfoView {
        physical_port: Some(seq![1u8, 3, 5, 7, 2, 4, 6, 8][k]),
        ..devices[at[k]]
    }) by {
        assert(at.contains(at[k]));
        assert(k == 0 || k == 1 || k == 2 || k == 3 || k == 4 || k == 5 || k == 6 || k == 7);
    }
    assert forall|i: int|
        0 <= i < devices.len() && !at.contains(i) implies #[trigger] resolved(devices)[i]
        == devices[i] by {
        assert(!is_quad(devices[i])) by {
            if is_quad(devices[i]) {
                assert(quads(devices).contains(i));
            }
        }
    }
}

/// Where anything changes, the Quad sub-devices are one whole card: a card that
/// is not all there, one with other channels, or a second one, and nothing is
/// claimed.
pub proof fn law_only_a_whole_card_is_mapped(devices: Seq<DeviceInfoView>)
    requires
        resolved(devices) != devices,
    ensures
        exists|at: Seq<int>| is_whole_card(devices, at),
{
    lemma_quad_channels(devices);
    let holder = |ch: int|
        choose|i: int|
            quads(devices).contains(i) && #[trigger] devices[i].sdi_channel == Some(ch as u8);
    let at = Seq::new(8, |k: int| holder(k + 1));
    assert forall|k: int| 0 <= k < 8 implies quads(devices).contains(#[trigger] at[k])
        && devices[at[k]].sdi_channel == Some((k + 1) as u8) by {
        assert(quad_has_channel(devices, k + 1));
    }
    assert forall|i: int|
        0 <= i < devices.len() && model_of(#[trigger] devices[i].name)
            == "DeckLink Quad"@ implies at.contains(i) by {
        assert(is_quad(devices[i]));
        assert(quads(devices).contains(i));
        let k = devices[i].sdi_channel->0 - 1;
        assert(quads(devices).contains(at[k]));
        assert(devices[at[k]].sdi_channel == devices[i].sdi_channel);
        assert(at[k] == i);
    }
    assert(is_whole_card(devices, at)) by {
        assert forall|k: int| 0 <= k < 8 implies {
            &&& 0 <= #[trigger] at[k] < devices.len()
            &&& model_of(devices[at[k]].name) == "DeckLink Quad"@
            &&& devices[at[k]].sdi_channel == Some((k + 1) as u8)
        } by {
            assert(quads(devices).contains(at[k]));
            assert(is_quad(devices[at[k]]));
        }
    }
}

} // verus!
