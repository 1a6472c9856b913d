use ledger_client::apps::{parse_apps_page, InstalledApp};
use ledger_client::device_info::DeviceInfo;
use ledger_client::Error;

fn identity_payload(
    target_id: u32,
    version: &[u8],
    flags: &[u8],
    tail: &[u8],
) -> Vec<u8> {
    let mut d = Vec::new();
    d.extend_from_slice(&target_id.to_be_bytes());
    d.push(version.len() as u8);
    d.extend_from_slice(version);
    d.push(flags.len() as u8);
    d.extend_from_slice(flags);
    d.extend_from_slice(tail);
    d
}

#[test]
fn identity_application_mode() {
    // Application mode: one length-prefixed MCU version text follows.
    let mut tail = vec![4u8];
    tail.extend_from_slice(b"1.16");
    let d = identity_payload(0x31000000, b"2.1.0", &[0x01], &tail);
    let info = DeviceInfo::decode(&d).unwrap();
    assert_eq!(info.target_id, 0x31000000);
    assert_eq!(info.version, "2.1.0");
    assert_eq!(info.flags, vec![0x01]);
    assert!(!info.is_bootloader);
    assert_eq!(info.se_version, Some("2.1.0".to_string()));
    assert_eq!(info.se_target_id, 0x31000000);
    assert_eq!(info.mcu_version, Some("1.16".to_string()));
}

#[test]
fn identity_strips_trailing_nul_from_mcu() {
    let mut tail = vec![5u8];
    tail.extend_from_slice(b"1.16\0");
    let d = identity_payload(0x33000004, b"2.2.1", &[0xae, 0x01], &tail);
    let info = DeviceInfo::decode(&d).unwrap();
    assert_eq!(info.mcu_version, Some("1.16".to_string()));
    assert_eq!(info.flags, vec![0xae, 0x01]);
}

#[test]
fn identity_bootloader_with_secure_element_version() {
    // Bootloader mode, first part five bytes or more: it is the
    // secure-element version text, and the next part is the four-byte
    // secure-element target id.
    let mut tail = vec![5u8];
    tail.extend_from_slice(b"1.2.3");
    tail.push(4);
    tail.extend_from_slice(&[0x33, 0x00, 0x00, 0x01]);
    let d = identity_payload(0x05000000, b"0.0.0", &[], &tail);
    let info = DeviceInfo::decode(&d).unwrap();
    assert!(info.is_bootloader);
    assert_eq!(info.se_version, Some("1.2.3".to_string()));
    assert_eq!(info.se_target_id, 0x33000001);
    assert_eq!(info.mcu_version, None);
}

#[test]
fn identity_bootloader_with_bare_target_id() {
    // Bootloader mode, first part shorter than five bytes: it must be
    // exactly the four bytes of the secure-element target id.
    let tail = vec![4u8, 0x01, 0x02, 0x03, 0x04];
    let d = identity_payload(0x05000000, b"0.0.0", &[], &tail);
    let info = DeviceInfo::decode(&d).unwrap();
    assert!(info.is_bootloader);
    assert_eq!(info.se_version, None);
    assert_eq!(info.se_target_id, 0x01020304);
    assert_eq!(info.mcu_version, None);
}

#[test]
fn identity_bootloader_short_part_of_wrong_width_is_truncated() {
    let tail = vec![3u8, 0x01, 0x02, 0x03];
    let d = identity_payload(0x05000000, b"0.0.0", &[], &tail);
    assert_eq!(DeviceInfo::decode(&d).unwrap_err(), Error::TruncatedData);
}

#[test]
fn identity_too_short_is_truncated() {
    assert_eq!(DeviceInfo::decode(&vec![0x31, 0x00, 0x00]).unwrap_err(), Error::TruncatedData);
    assert_eq!(
        DeviceInfo::decode(&vec![0x31, 0x00, 0x00, 0x00]).unwrap_err(),
        Error::TruncatedData
    );
    // The version length byte declares more bytes than follow.
    assert_eq!(
        DeviceInfo::decode(&vec![0x31, 0x00, 0x00, 0x00, 0x09, b'2']).unwrap_err(),
        Error::TruncatedData
    );
}

#[test]
fn identity_invalid_version_text_is_encoding_error() {
    // 0xff 0xfe is not valid UTF-8; the flag length byte that follows is
    // present, so the failure is the text, not a short read.
    let d = identity_payload(0x31000000, &[0xff, 0xfe], &[], &[]);
    assert_eq!(DeviceInfo::decode(&d).unwrap_err(), Error::EncodingError);
}

fn record(name: &[u8], blocks: u16, flags: u16, declared: u8) -> Vec<u8> {
    let mut r = Vec::new();
    r.push(declared);
    r.extend_from_slice(&blocks.to_be_bytes());
    r.extend_from_slice(&flags.to_be_bytes());
    r.extend_from_slice(&[0x11u8; 32]); // code-data hash
    r.extend_from_slice(&[0x22u8; 32]); // content hash
    r.push(name.len() as u8);
    r.extend_from_slice(name);
    r
}

fn good_record(name: &[u8], blocks: u16, flags: u16) -> Vec<u8> {
    record(name, blocks, flags, name.len() as u8 + 70)
}

#[test]
fn inventory_single_record() {
    let mut page = vec![0x01u8];
    page.extend_from_slice(&good_record(b"Bitcoin", 300, 0xc000));
    let mut apps: Vec<InstalledApp> = Vec::new();
    parse_apps_page(&page, &mut apps).unwrap();
    assert_eq!(apps.len(), 1);
    assert_eq!(apps[0].name, "Bitcoin");
    assert_eq!(apps[0].blocks, 300);
    assert_eq!(apps[0].flags, 0xc000);
    assert_eq!(apps[0].hash_code_data, vec![0x11u8; 32]);
    assert_eq!(apps[0].hash, vec![0x22u8; 32]);
}

#[test]
fn inventory_marker_only_page_is_empty() {
    let mut apps: Vec<InstalledApp> = Vec::new();
    parse_apps_page(&vec![0x01], &mut apps).unwrap();
    assert!(apps.is_empty());
}

#[test]
fn inventory_same_records_any_page_split() {
    // The same two well-formed records, once in one page and once spread
    // over two pages, decode to the same list.
    let r1 = good_record(b"Bitcoin", 300, 0xc000);
    let r2 = good_record(b"Bitcoin Test", 301, 0x8000);

    let mut one_page = vec![0x01u8];
    one_page.extend_from_slice(&r1);
    one_page.extend_from_slice(&r2);
    let mut together: Vec<InstalledApp> = Vec::new();
    parse_apps_page(&one_page, &mut together).unwrap();

    let mut page_a = vec![0x01u8];
    page_a.extend_from_slice(&r1);
    let mut page_b = vec![0x01u8];
    page_b.extend_from_slice(&r2);
    let mut split: Vec<InstalledApp> = Vec::new();
    parse_apps_page(&page_a, &mut split).unwrap();
    parse_apps_page(&page_b, &mut split).unwrap();

    assert_eq!(together.len(), 2);
    assert_eq!(split.len(), 2);
    for (a, b) in together.iter().zip(split.iter()) {
        assert_eq!(a.name, b.name);
        assert_eq!(a.blocks, b.blocks);
        assert_eq!(a.flags, b.flags);
        assert_eq!(a.hash, b.hash);
        assert_eq!(a.hash_code_data, b.hash_code_data);
    }
    assert_eq!(together[0].name, "Bitcoin");
    assert_eq!(together[1].name, "Bitcoin Test");
}

#[test]
fn inventory_wrong_declared_length_is_invalid_record() {
    let mut page = vec![0x01u8];
    page.extend_from_slice(&record(b"Bitcoin", 300, 0xc000, 7 + 71));
    let mut apps: Vec<InstalledApp> = Vec::new();
    assert_eq!(parse_apps_page(&page, &mut apps).unwrap_err(), Error::InvalidRecord);
}

#[test]
fn inventory_short_record_is_truncated() {
    let mut page = vec![0x01u8];
    page.extend_from_slice(&good_record(b"Bitcoin", 300, 0xc000)[..40]);
    let mut apps: Vec<InstalledApp> = Vec::new();
    assert_eq!(parse_apps_page(&page, &mut apps).unwrap_err(), Error::TruncatedData);
}

#[test]
fn inventory_bad_name_text_is_encoding_error() {
    let mut page = vec![0x01u8];
    page.extend_from_slice(&good_record(&[0xff, 0xfe], 1, 0));
    let mut apps: Vec<InstalledApp> = Vec::new();
    assert_eq!(parse_apps_page(&page, &mut apps).unwrap_err(), Error::EncodingError);
}
