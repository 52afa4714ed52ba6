//! Capability matcher: which descriptors are controllable targets.

use vstd::prelude::*;

use crate::catalog::device_views;
use crate::catalog::DeviceInfo;
use crate::catalog::DeviceInfoView;
use crate::signature::fields_changed;
use crate::signature::known_signatures_spec;
use crate::signature::well_separated;
use crate::signature::TargetSignature;
use crate::signature::K380_PID;
use crate::signature::K380_VID;
use crate::signature::TARGET_USAGE;
use crate::signature::TARGET_USAGE_PAGE;

verus! {

/// A descriptor is a target of `signatures` when its four identity fields
/// equal those of one of them.
pub open spec fn is_target_spec(device: DeviceInfoView, signatures: Seq<TargetSignature>) -> bool {
    exists|i: int| 0 <= i < signatures.len() && #[trigger] signatures[i] == device.signature()
}

/// A descriptor is available when it is a target of the supported signatures.
pub open spec fn is_available_spec(device: DeviceInfoView) -> bool {
    is_target_spec(device, known_signatures_spec())
}

/// `positions` lists the targets among `devices`: every position of a target,
/// once and in rising order, and no other.
pub open spec fn lists_targets(
    positions: Seq<usize>,
    devices: Seq<DeviceInfoView>,
    signatures: Seq<TargetSignature>,
) -> bool {
    &&& forall|k: int|
        0 <= k < positions.len() ==> (#[trigger] positions[k]) < devices.len() && is_target_spec(
            devices[positions[k] as int],
            signatures,
        )
    &&& forall|k: int, l: int|
        0 <= k < l < positions.len() ==> (#[trigger] positions[k]) < (#[trigger] positions[l])
    &&& forall|i: int|
        0 <= i < devices.len() && is_target_spec(#[trigger] devices[i], signatures) ==> exists|
            k: int,
        |
            0 <= k < positions.len() && #[trigger] positions[k] == i
}

/// `position` is where the first available device of `devices` stands.
pub open spec fn is_first_available(devices: Seq<DeviceInfoView>, position: int) -> bool {
    &&& 0 <= position < devices.len()
    &&& is_available_spec(devices[position])
    &&& forall|j: int| 0 <= j < position ==> !is_available_spec(#[trigger] devices[j])
}

/// None of `devices` is available.
pub open spec fn none_available(devices: Seq<DeviceInfoView>) -> bool {
    forall|j: int| 0 <= j < devices.len() ==> !is_available_spec(#[trigger] devices[j])
}

/// Whether `device` matches one of `signatures` in all four identity fields.
pub fn is_target(device: &DeviceInfo, signatures: &[TargetSignature]) -> (matched: bool)
    ensures
        matched == is_target_spec(device@, signatures@),
{
    let wanted = device.signature();
    let mut i: usize = 0;
    while i < signatures.len()
        invariant
            i <= signatures.len(),
            wanted == device@.signature(),
            forall|j: int| 0 <= j < i ==> #[trigger] signatures[j] != wanted,
        decreases signatures.len() - i,
    {
        if signatures[i] == wanted {
            return true;
        }
        i = i + 1;
    }
    false
}

/// Whether `device` is one that the Fn-lock command can be sent to.
pub fn is_device_available(device: &DeviceInfo) -> (available: bool)
    ensures
        available == is_available_spec(device@),
        available == (device@.product_id == K380_PID && device@.vendor_id == K380_VID
            && device@.usage == TARGET_USAGE && device@.usage_page == TARGET_USAGE_PAGE),
{
    let available = device.product_id() == K380_PID && device.vendor_id() == K380_VID
        && device.usage() == TARGET_USAGE && device.usage_page() == TARGET_USAGE_PAGE;
    proof {
        let table = known_signatures_spec();
        if available {
            assert(table[0] == device@.signature());
        }
    }
    available
}

/// The positions of the targets of `signatures` among `devices`. Two
/// descriptors that match the same signature are two targets.
pub fn targets(devices: &[DeviceInfo], signatures: &[TargetSignature]) -> (positions: Vec<usize>)
    ensures
        lists_targets(positions@, device_views(devices@), signatures@),
{
    let ghost views = device_views(devices@);
    let mut positions: Vec<usize> = Vec::new();
    let mut i: usize = 0;
    while i < devices.len()
        invariant
            i <= devices.len(),
            views == device_views(devices@),
            lists_targets(positions@, views.take(i as int), signatures@),
        decreases devices.len() - i,
    {
        let ghost before = positions@;
        assert(views[i as int] == devices[i as int]@);
        if is_target(&devices[i], signatures) {
            positions.push(i);
        }
        proof {
            let seen = views.take(i as int);
            let now = views.take(i + 1);
            assert forall|k: int| 0 <= k < positions.len() implies (#[trigger] positions[k])
                < now.len() && is_target_spec(now[positions[k] as int], signatures@) by {
                if k < before.len() {
                    assert(before[k] == positions[k]);
                    assert(seen[before[k] as int] == now[before[k] as int]);
                }
            }
            assert forall|k: int, l: int| 0 <= k < l < positions.len() implies (
            #[trigger] positions[k]) < (#[trigger] positions[l]) by {
                assert(before[k] == positions[k]);
                if l < before.len() {
                    assert(before[l] == positions[l]);
                }
            }
            assert forall|j: int|
                0 <= j < now.len() && is_target_spec(#[trigger] now[j], signatures@) implies exists|
                k: int,
            |
                0 <= k < positions.len() && #[trigger] positions[k] == j by {
                if j < i {
                    assert(seen[j] == now[j]);
                    let k = choose|k: int| 0 <= k < before.len() && #[trigger] before[k] == j;
                    assert(positions[k] == j);
                } else {
                    assert(positions[positions.len() - 1] == j);
                }
            }
        }
        i = i + 1;
    }
    assert(views.take(i as int) =~= views);
    positions
}

/// The position of the first device of `devices` that the Fn-lock command can
/// be sent to, if there is one.
pub fn find_device(devices: &[DeviceInfo]) -> (found: Option<usize>)
    ensures
        match found {
            Some(position) => is_first_available(device_views(devices@), position as int),
            None => none_available(device_views(devices@)),
        },
{
    let ghost views = device_views(devices@);
    let mut i: usize = 0;
    while i < devices.len()
        invariant
            i <= devices.len(),
            views == device_views(devices@),
            forall|j: int| 0 <= j < i ==> !is_available_spec(#[trigger] views[j]),
        decreases devices.len() - i,
    {
        assert(views[i as int] == devices[i as int]@);
        if is_device_available(&devices[i]) {
            return Some(i);
        }
        i = i + 1;
    }
    None
}

/// A target of a well-separated set of signatures is none any more once
/// exactly one of its four identity fields has changed.
pub proof fn lemma_one_changed_field_unmatches(
    device: DeviceInfoView,
    changed: DeviceInfoView,
    signatures: Seq<TargetSignature>,
)
    requires
        is_target_spec(device, signatures),
        fields_changed(device.signature(), changed.signature()) == 1,
        well_separated(signatures),
    ensures
        !is_target_spec(changed, signatures),
{
    let i = choose|i: int| 0 <= i < signatures.len() && #[trigger] signatures[i] == device.signature();
    if is_target_spec(changed, signatures) {
        let j = choose|j: int|
            0 <= j < signatures.len() && #[trigger] signatures[j] == changed.signature();
        assert(fields_changed(signatures[i], signatures[j]) != 1);
    }
}

/// An available device is none any more once any of its four identity fields
/// has changed.
pub proof fn lemma_changed_field_makes_unavailable(device: DeviceInfoView, changed: DeviceInfoView)
    requires
        is_available_spec(device),
        fields_changed(device.signature(), changed.signature()) >= 1,
    ensures
        !is_available_spec(changed),
{
}

} // verus!
