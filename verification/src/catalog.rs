//! Device catalog: the platform's records of HID interfaces, normalised into
//! descriptors.

use vstd::multiset::Multiset;
use vstd::prelude::*;
use vstd::seq_lib::group_to_multiset_ensures;

use crate::signature::TargetSignature;
use crate::text::is_trimmed;
use crate::text::lemma_trimmed_is_trimmed;
use crate::text::trim;
use crate::text::trimmed;

verus! {

/// One HID interface as the platform reports it at enumeration.
#[derive(Debug)]
pub struct HidRecord {
    /// The key under which the platform layer keeps its own reference to the
    /// interface, for a later open.
    pub handle: u64,
    pub vendor_id: u16,
    pub product_id: u16,
    pub usage: u16,
    pub usage_page: u16,
    /// The manufacturer string, where the platform could read one.
    pub manufacturer: Option<String>,
    /// The product string, where the platform could read one.
    pub product: Option<String>,
}

/// A [`HidRecord`] as contracts see it.
pub struct HidRecordView {
    pub handle: u64,
    pub vendor_id: u16,
    pub product_id: u16,
    pub usage: u16,
    pub usage_page: u16,
    pub manufacturer: Option<Seq<char>>,
    pub product: Option<Seq<char>>,
}

impl View for HidRecord {
    type V = HidRecordView;

    open spec fn view(&self) -> HidRecordView {
        HidRecordView {
            handle: self.handle,
            vendor_id: self.vendor_id,
            product_id: self.product_id,
            usage: self.usage,
            usage_page: self.usage_page,
            manufacturer: match self.manufacturer {
                Some(text) => Some(text@),
                None => None,
            },
            product: match self.product {
                Some(text) => Some(text@),
                None => None,
            },
        }
    }
}

/// Snapshot of one HID interface as seen at enumeration. It does not change
/// after it is made; a later enumeration makes new ones.
#[derive(Debug)]
pub struct DeviceInfo {
    handle: u64,
    product_name: String,
    vendor_name: String,
    product_id: u16,
    vendor_id: u16,
    usage: u16,
    usage_page: u16,
}

/// A [`DeviceInfo`] as contracts see it.
pub struct DeviceInfoView {
    pub handle: u64,
    pub product_name: Seq<char>,
    pub vendor_name: Seq<char>,
    pub product_id: u16,
    pub vendor_id: u16,
    pub usage: u16,
    pub usage_page: u16,
}

impl DeviceInfoView {
    /// The names carry no whitespace at either end.
    pub open spec fn is_normalized(self) -> bool {
        is_trimmed(self.product_name) && is_trimmed(self.vendor_name)
    }

    /// The four fields by which a device is matched.
    pub open spec fn signature(self) -> TargetSignature {
        TargetSignature {
            vendor_id: self.vendor_id,
            product_id: self.product_id,
            usage: self.usage,
            usage_page: self.usage_page,
        }
    }
}

impl View for DeviceInfo {
    type V = DeviceInfoView;

    closed spec fn view(&self) -> DeviceInfoView {
        DeviceInfoView {
            handle: self.handle,
            product_name: self.product_name@,
            vendor_name: self.vendor_name@,
            product_id: self.product_id,
            vendor_id: self.vendor_id,
            usage: self.usage,
            usage_page: self.usage_page,
        }
    }
}

/// What the session knows a device by: its four identity fields and its
/// position in the enumeration. The handle is no part of it, since handles do
/// not stay the same from one open to the next.
#[derive(Clone, Copy, Debug, PartialEq, Eq, Structural)]
pub struct DeviceIdentity {
    pub signature: TargetSignature,
    pub position: usize,
}

/// The identity of `device` at `position` of an enumeration.
pub open spec fn identity_of(device: DeviceInfoView, position: usize) -> DeviceIdentity {
    DeviceIdentity { signature: device.signature(), position }
}

/// The name that a descriptor shows for a platform string: the string
/// trimmed, or nothing where the platform gave none.
pub open spec fn display_name(text: Option<Seq<char>>) -> Seq<char> {
    match text {
        Some(text) => trimmed(text),
        None => Seq::empty(),
    }
}

/// The descriptor for a platform record.
pub open spec fn normalize(record: HidRecordView) -> DeviceInfoView {
    DeviceInfoView {
        handle: record.handle,
        product_name: display_name(record.product),
        vendor_name: display_name(record.manufacturer),
        product_id: record.product_id,
        vendor_id: record.vendor_id,
        usage: record.usage,
        usage_page: record.usage_page,
    }
}

/// The descriptors for a sequence of platform records, in their order.
pub open spec fn list_devices_spec(records: Seq<HidRecordView>) -> Seq<DeviceInfoView> {
    records.map_values(|record: HidRecordView| normalize(record))
}

/// The views of `records`.
pub open spec fn record_views(records: Seq<HidRecord>) -> Seq<HidRecordView> {
    records.map_values(|record: HidRecord| record@)
}

/// The views of `devices`.
pub open spec fn device_views(devices: Seq<DeviceInfo>) -> Seq<DeviceInfoView> {
    devices.map_values(|device: DeviceInfo| device@)
}

/// What `record` says of the interface, apart from the platform's reference
/// to it.
pub open spec fn record_content(record: HidRecordView) -> HidRecordView {
    HidRecordView { handle: 0, ..record }
}

/// What `device` says of the interface, apart from the platform's reference
/// to it.
pub open spec fn device_content(device: DeviceInfoView) -> DeviceInfoView {
    DeviceInfoView { handle: 0, ..device }
}

/// The contents of `records`, each as often as it occurs, in no order.
pub open spec fn record_contents(records: Seq<HidRecordView>) -> Multiset<HidRecordView> {
    records.map_values(|record: HidRecordView| record_content(record)).to_multiset()
}

/// The contents of `devices`, each as often as it occurs, in no order.
pub open spec fn device_contents(devices: Seq<DeviceInfoView>) -> Multiset<DeviceInfoView> {
    devices.map_values(|device: DeviceInfoView| device_content(device)).to_multiset()
}

/// Two sequences with the same elements, in whatever order, have the same
/// elements after one function is applied to each element.
proof fn lemma_map_keeps_same_elements<A, B>(first: Seq<A>, second: Seq<A>, f: spec_fn(A) -> B)
    requires
        first.to_multiset() == second.to_multiset(),
    ensures
        first.map_values(f).to_multiset() == second.map_values(f).to_multiset(),
    decreases first.len(),
{
    broadcast use group_to_multiset_ensures;

    first.to_multiset_ensures();
    second.to_multiset_ensures();
    if first.len() == 0 {
        assert(second.len() == 0);
        assert(first.map_values(f) =~= second.map_values(f));
    } else {
        let last = first.last();
        let front = first.drop_last();
        assert(first =~= front.push(last));
        assert(first.to_multiset() =~= front.to_multiset().insert(last));
        assert(second.to_multiset().count(last) > 0);
        assert(second.contains(last));
        let k = choose|k: int| 0 <= k < second.len() && second[k] == last;
        let others = second.remove(k);
        front.map_values(f).to_multiset_ensures();
        others.map_values(f).to_multiset_ensures();
        assert(others.to_multiset() =~= second.to_multiset().remove(last));
        assert(front.to_multiset() =~= others.to_multiset());
        lemma_map_keeps_same_elements(front, others, f);
        assert(first.map_values(f) =~= front.map_values(f).push(f(last)));
        assert(second.map_values(f) =~= others.map_values(f).insert(k, f(last)));
        assert(first.map_values(f).to_multiset() =~= front.map_values(f).to_multiset().insert(
            f(last),
        ));
        assert(second.map_values(f).to_multiset() =~= others.map_values(f).to_multiset().insert(
            f(last),
        ));
    }
}

/// Two enumerations whose records say the same of the same interfaces, in
/// whatever order and under whatever references, give descriptors that say
/// the same of the same interfaces.
pub proof fn lemma_same_records_list_same_devices(
    first: Seq<HidRecordView>,
    second: Seq<HidRecordView>,
)
    requires
        record_contents(first) == record_contents(second),
    ensures
        device_contents(list_devices_spec(first)) == device_contents(list_devices_spec(second)),
{
    let strip = |record: HidRecordView| record_content(record);
    let list = |record: HidRecordView| device_content(normalize(record));
    lemma_map_keeps_same_elements(first.map_values(strip), second.map_values(strip), list);
    assert(list_devices_spec(first).map_values(|device: DeviceInfoView| device_content(device))
        =~= first.map_values(strip).map_values(list));
    assert(list_devices_spec(second).map_values(|device: DeviceInfoView| device_content(device))
        =~= second.map_values(strip).map_values(list));
}

/// The names of a descriptor carry no whitespace at either end, whatever the
/// platform's strings were.
pub proof fn lemma_normalize_is_normalized(record: HidRecordView)
    ensures
        normalize(record).is_normalized(),
{
    if let Some(text) = record.product {
        lemma_trimmed_is_trimmed(text);
    }
    if let Some(text) = record.manufacturer {
        lemma_trimmed_is_trimmed(text);
    }
}

/// The trimmed copy of a platform string, empty where there is none.
fn display_name_of(text: &Option<String>) -> (name: String)
    ensures
        name@ == display_name(
            match *text {
                Some(text) => Some(text@),
                None => None,
            },
        ),
        is_trimmed(name@),
{
    match text {
        Some(text) => {
            proof {
                lemma_trimmed_is_trimmed(text@);
            }
            trim(text.as_str()).to_owned()
        },
        None => String::new(),
    }
}

impl DeviceInfo {
    #[verifier::type_invariant]
    spec fn names_are_trimmed(self) -> bool {
        is_trimmed(self.product_name@) && is_trimmed(self.vendor_name@)
    }

    /// The descriptor for `record`.
    pub fn from_record(record: &HidRecord) -> (device: DeviceInfo)
        ensures
            device@ == normalize(record@),
    {
        let product_name = display_name_of(&record.product);
        let vendor_name = display_name_of(&record.manufacturer);
        DeviceInfo {
            handle: record.handle,
            product_name,
            vendor_name,
            product_id: record.product_id,
            vendor_id: record.vendor_id,
            usage: record.usage,
            usage_page: record.usage_page,
        }
    }

    /// The key of the platform's own reference to the interface.
    pub fn handle(&self) -> (handle: u64)
        ensures
            handle == self@.handle,
    {
        self.handle
    }

    /// The product name: trimmed, possibly empty, for display only.
    pub fn product_name(&self) -> (name: &str)
        ensures
            name@ == self@.product_name,
            is_trimmed(name@),
    {
        proof {
            use_type_invariant(self);
        }
        self.product_name.as_str()
    }

    /// The vendor name: trimmed, possibly empty, for display only.
    pub fn vendor_name(&self) -> (name: &str)
        ensures
            name@ == self@.vendor_name,
            is_trimmed(name@),
    {
        proof {
            use_type_invariant(self);
        }
        self.vendor_name.as_str()
    }

    pub fn product_id(&self) -> (id: u16)
        ensures
            id == self@.product_id,
    {
        self.product_id
    }

    pub fn vendor_id(&self) -> (id: u16)
        ensures
            id == self@.vendor_id,
    {
        self.vendor_id
    }

    pub fn usage(&self) -> (usage: u16)
        ensures
            usage == self@.usage,
    {
        self.usage
    }

    pub fn usage_page(&self) -> (usage_page: u16)
        ensures
            usage_page == self@.usage_page,
    {
        self.usage_page
    }

    /// The four fields by which the device is matched.
    pub fn signature(&self) -> (signature: TargetSignature)
        ensures
            signature == self@.signature(),
    {
        TargetSignature {
            vendor_id: self.vendor_id,
            product_id: self.product_id,
            usage: self.usage,
            usage_page: self.usage_page,
        }
    }

    /// The identity of this device at `position` of its enumeration.
    pub fn identity(&self, position: usize) -> (identity: DeviceIdentity)
        ensures
            identity == identity_of(self@, position),
    {
        DeviceIdentity { signature: self.signature(), position }
    }
}

impl Clone for DeviceInfo {
    fn clone(&self) -> (copy: Self)
        ensures
            copy@ == self@,
    {
        proof {
            use_type_invariant(self);
        }
        DeviceInfo {
            handle: self.handle,
            product_name: self.product_name.clone(),
            vendor_name: self.vendor_name.clone(),
            product_id: self.product_id,
            vendor_id: self.vendor_id,
            usage: self.usage,
            usage_page: self.usage_page,
        }
    }
}

/// Normalises what the platform enumerated into descriptors, one per record
/// and in the records' order. Without a context there is nothing to list.
pub fn list_devices(api: Option<&Vec<HidRecord>>) -> (devices: Vec<DeviceInfo>)
    ensures
        device_views(devices@) == match api {
            Some(records) => list_devices_spec(record_views(records@)),
            None => Seq::empty(),
        },
{
    let mut devices: Vec<DeviceInfo> = Vec::new();
    if let Some(records) = api {
        let mut i: usize = 0;
        while i < records.len()
            invariant
                i <= records.len(),
                devices.len() == i,
                forall|j: int| 0 <= j < i ==> (#[trigger] devices[j])@ == normalize(records[j]@),
            decreases records.len() - i,
        {
            devices.push(DeviceInfo::from_record(&records[i]));
            i = i + 1;
        }
        assert(device_views(devices@) =~= list_devices_spec(record_views(records@)));
    } else {
        assert(device_views(devices@) =~= Seq::empty());
    }
    devices
}

} // verus!
