use dfu_core::error::DfuError;
use dfu_core::usb::{is_dfu_interface, parse_address, parse_hex_u16, parse_hex_u32, parse_usb_id};

fn invalid(r: Result<u16, DfuError>) -> String {
    match r {
        Err(DfuError::InvalidFirmware(m)) => m,
        other => panic!("unexpected {:?}", other),
    }
}

#[test]
fn dfu_interface_is_app_specific_class_dfu_subclass() {
    assert!(is_dfu_interface(0xFE, 0x01));
    assert!(!is_dfu_interface(0xFE, 0x02));
    assert!(!is_dfu_interface(0xFF, 0x01));
    assert!(!is_dfu_interface(0x03, 0x00));
}

#[test]
fn st_bootloader_ids_parse() {
    assert_eq!(parse_usb_id("0483", "VID").unwrap(), 0x0483);
    assert_eq!(parse_usb_id("df11", "PID").unwrap(), 0xDF11);
    assert_eq!(parse_usb_id("0xDF11", "PID").unwrap(), 0xDF11);
    assert_eq!(parse_usb_id("0x0483", "VID").unwrap(), 0x0483);
}

#[test]
fn every_listed_id_reads_back() {
    for v in [0u16, 1, 0x0483, 0xDF11, 0xFFFF, 0x1000] {
        let listed = format!("{:04x}", v);
        assert_eq!(parse_usb_id(&listed, "VID").unwrap(), v);
        assert_eq!(parse_usb_id(&format!("0x{}", listed), "VID").unwrap(), v);
    }
}

#[test]
fn id_parsing_follows_from_str_radix() {
    let cases = [
        "", "+", "-", "+ff", "-1", "10000", "FFFF", "0", "000000ff", "g1", "1 ", "0x", "x1", "ä",
    ];
    for text in cases {
        assert_eq!(parse_hex_u16(text), u16::from_str_radix(text, 16).ok(), "{:?}", text);
    }
}

#[test]
fn repeated_prefixes_are_dropped() {
    assert_eq!(parse_usb_id("0x0x12", "VID").unwrap(), 0x12);
    assert_eq!(parse_usb_id("0x", "VID").map_err(|_| ()), Err(()));
}

#[test]
fn bad_ids_are_refused_with_their_text() {
    assert_eq!(invalid(parse_usb_id("zz", "VID")), "invalid VID: zz");
    assert_eq!(invalid(parse_usb_id("", "PID")), "invalid PID: ");
    assert_eq!(invalid(parse_usb_id("0x10000", "PID")), "invalid PID: 0x10000");
}

#[test]
fn addresses_parse() {
    assert_eq!(parse_address("0x08000000").unwrap(), 0x0800_0000);
    assert_eq!(parse_address("08010000").unwrap(), 0x0801_0000);
    assert_eq!(parse_address("0xFFFFFFFF").unwrap(), u32::MAX);
    match parse_address("0x100000000") {
        Err(DfuError::InvalidFirmware(m)) => assert_eq!(m, "invalid address: 0x100000000"),
        other => panic!("unexpected {:?}", other),
    }
    for text in ["", "+", "+1", "ffffffff", "100000000", "0x10", "12z", "0000000000001"] {
        assert_eq!(parse_hex_u32(text), u32::from_str_radix(text, 16).ok(), "{:?}", text);
    }
}

#[test]
fn listing_line() {
    let dev = dfu_core::usb::DfuDevice {
        vendor_id: 0x0483,
        product_id: 0xdf11,
        bus: 3,
        address: 9,
        manufacturer: Some("STMicroelectronics".to_string()),
        product: Some("STM32  BOOTLOADER".to_string()),
        serial: None,
    };
    assert_eq!(
        dev.listing(),
        "  [0483:df11] bus 003 device 009 — STMicroelectronics STM32  BOOTLOADER"
    );
    let anonymous = dfu_core::usb::DfuDevice {
        vendor_id: 0xFFFF,
        product_id: 0,
        bus: 255,
        address: 120,
        manufacturer: None,
        product: None,
        serial: Some("x".to_string()),
    };
    assert_eq!(anonymous.listing(), "  [ffff:0000] bus 255 device 120 — unknown unknown");
    assert_eq!(
        anonymous.listing(),
        format!(
            "  [{:04x}:{:04x}] bus {:03} device {:03} — {} {}",
            anonymous.vendor_id, anonymous.product_id, anonymous.bus, anonymous.address, "unknown", "unknown"
        )
    );
}

#[test]
fn ids_copied_from_a_listing_read_back() {
    for (vid, pid) in [(0x0483u16, 0xdf11u16), (0, 0xffff), (0x1209, 0x0001)] {
        let dev = dfu_core::usb::DfuDevice {
            vendor_id: vid,
            product_id: pid,
            bus: 1,
            address: 2,
            manufacturer: None,
            product: None,
            serial: None,
        };
        let line = dev.listing();
        assert_eq!(parse_usb_id(&line[3..7], "VID").unwrap(), vid);
        assert_eq!(parse_usb_id(&line[8..12], "PID").unwrap(), pid);
    }
}

#[test]
fn padded_texts() {
    for v in [0u16, 0x483, 0xdf11, 0xffff] {
        assert_eq!(dfu_core::text::hex4_text(v), format!("{:04x}", v));
    }
    for b in [0u8, 7, 42, 255] {
        assert_eq!(dfu_core::text::decimal3_text(b), format!("{:03}", b));
    }
}
