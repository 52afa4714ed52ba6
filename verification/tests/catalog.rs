use fnlock::catalog::list_devices;
use fnlock::catalog::DeviceInfo;
use fnlock::catalog::HidRecord;
use fnlock::signature::TargetSignature;

fn record(
    handle: u64,
    ids: (u16, u16, u16, u16),
    manufacturer: Option<&str>,
    product: Option<&str>,
) -> HidRecord {
    HidRecord {
        handle,
        vendor_id: ids.0,
        product_id: ids.1,
        usage: ids.2,
        usage_page: ids.3,
        manufacturer: manufacturer.map(|text| text.to_owned()),
        product: product.map(|text| text.to_owned()),
    }
}

fn content(device: &DeviceInfo) -> (String, String, u16, u16, u16, u16) {
    (
        device.vendor_name().to_owned(),
        device.product_name().to_owned(),
        device.vendor_id(),
        device.product_id(),
        device.usage(),
        device.usage_page(),
    )
}

#[test]
fn list_devices_without_context_is_empty() {
    assert!(list_devices(None).is_empty());
}

#[test]
fn list_devices_of_no_records_is_empty() {
    let records: Vec<HidRecord> = Vec::new();
    assert!(list_devices(Some(&records)).is_empty());
}

#[test]
fn list_devices_copies_identity_and_handle() {
    let records = vec![record(7, (0x046d, 0xb342, 0x0001, 0xff00), Some("Logitech"), Some("Keyboard K380"))];
    let devices = list_devices(Some(&records));
    assert_eq!(devices.len(), 1);
    let device = &devices[0];
    assert_eq!(device.handle(), 7);
    assert_eq!(device.vendor_id(), 0x046d);
    assert_eq!(device.product_id(), 0xb342);
    assert_eq!(device.usage(), 0x0001);
    assert_eq!(device.usage_page(), 0xff00);
    assert_eq!(device.vendor_name(), "Logitech");
    assert_eq!(device.product_name(), "Keyboard K380");
}

#[test]
fn list_devices_trims_names() {
    let records = vec![record(0, (1, 2, 3, 4), Some("  Logitech\t"), Some("\nKeyboard K380  "))];
    let devices = list_devices(Some(&records));
    assert_eq!(devices[0].vendor_name(), "Logitech");
    assert_eq!(devices[0].product_name(), "Keyboard K380");
}

#[test]
fn list_devices_gives_empty_names_for_missing_strings() {
    let records = vec![record(0, (1, 2, 3, 4), None, None), record(1, (1, 2, 3, 4), Some("   "), Some(""))];
    let devices = list_devices(Some(&records));
    assert_eq!(devices.len(), 2);
    for device in &devices {
        assert_eq!(device.vendor_name(), "");
        assert_eq!(device.product_name(), "");
    }
}

#[test]
fn list_devices_keeps_order_and_count() {
    let records = vec![
        record(10, (1, 1, 1, 1), None, Some("a")),
        record(11, (2, 2, 2, 2), None, Some("b")),
        record(12, (3, 3, 3, 3), None, Some("c")),
    ];
    let devices = list_devices(Some(&records));
    let names: Vec<&str> = devices.iter().map(|device| device.product_name()).collect();
    assert_eq!(names, vec!["a", "b", "c"]);
    let handles: Vec<u64> = devices.iter().map(|device| device.handle()).collect();
    assert_eq!(handles, vec![10, 11, 12]);
}

#[test]
fn reenumeration_gives_the_same_content() {
    let first = vec![
        record(0, (0x046d, 0xb342, 0x0001, 0xff00), Some("Logitech"), Some("Keyboard K380")),
        record(1, (0x1234, 0x0001, 0x0002, 0x0001), None, Some("Mouse")),
        record(2, (0x1234, 0x0001, 0x0002, 0x0001), None, Some("Mouse")),
    ];
    let second = vec![
        record(40, (0x1234, 0x0001, 0x0002, 0x0001), None, Some("Mouse")),
        record(41, (0x046d, 0xb342, 0x0001, 0xff00), Some("Logitech"), Some("Keyboard K380")),
        record(42, (0x1234, 0x0001, 0x0002, 0x0001), None, Some("Mouse")),
    ];
    let mut before: Vec<_> = list_devices(Some(&first)).iter().map(content).collect();
    let mut after: Vec<_> = list_devices(Some(&second)).iter().map(content).collect();
    before.sort();
    after.sort();
    assert_eq!(before, after);
}

#[test]
fn from_record_is_what_list_devices_gives() {
    let one = record(3, (5, 6, 7, 8), Some(" v "), Some(" p "));
    let device = DeviceInfo::from_record(&one);
    let listed = list_devices(Some(&vec![record(3, (5, 6, 7, 8), Some(" v "), Some(" p "))]));
    assert_eq!(content(&device), content(&listed[0]));
    assert_eq!(device.handle(), listed[0].handle());
}

#[test]
fn signature_and_identity_of_a_device() {
    let device = DeviceInfo::from_record(&record(9, (0x046d, 0xb342, 0x0001, 0xff00), None, None));
    let signature = TargetSignature { vendor_id: 0x046d, product_id: 0xb342, usage: 0x0001, usage_page: 0xff00 };
    assert_eq!(device.signature(), signature);
    let identity = device.identity(5);
    assert_eq!(identity.signature, signature);
    assert_eq!(identity.position, 5);
}

#[test]
fn clone_of_a_device_has_the_same_content() {
    let device = DeviceInfo::from_record(&record(9, (1, 2, 3, 4), Some("v"), Some("p")));
    let copy = device.clone();
    assert_eq!(content(&copy), content(&device));
    assert_eq!(copy.handle(), 9);
}
