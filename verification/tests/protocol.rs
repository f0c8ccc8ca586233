use dfu_core::error::DfuError;
use dfu_core::protocol::{
    mass_erase_command, set_address_command, state_from_reply, ControlSetup, DfuRequest,
    DfuStatusResponse, REQUEST_TYPE_IN, REQUEST_TYPE_OUT,
};
use dfu_core::state_machine::{DfuState, DfuStatus};
use dfu_core::text::{decimal_text, hex_byte_text};

fn protocol_message(e: DfuError) -> String {
    match e {
        DfuError::Protocol(m) => m,
        other => panic!("expected a protocol error, got {:?}", other),
    }
}

#[test]
fn state_codes_decode() {
    let expected = [
        DfuState::AppIdle,
        DfuState::AppDetach,
        DfuState::DfuIdle,
        DfuState::DfuDownloadSync,
        DfuState::DfuDownloadBusy,
        DfuState::DfuDownloadIdle,
        DfuState::DfuManifestSync,
        DfuState::DfuManifest,
        DfuState::DfuManifestWaitReset,
        DfuState::DfuUploadIdle,
        DfuState::DfuError,
    ];
    for (code, state) in expected.iter().enumerate() {
        assert_eq!(DfuState::from_u8(code as u8), Some(*state));
    }
    assert_eq!(DfuState::from_u8(11), None);
    assert_eq!(DfuState::from_u8(0xFF), None);
}

#[test]
fn dfu_mode_is_every_state_but_the_application_ones() {
    for code in 0u8..=10 {
        let state = DfuState::from_u8(code).unwrap();
        assert_eq!(state.is_dfu_mode(), code >= 2);
    }
}

#[test]
fn status_codes_decode() {
    assert_eq!(DfuStatus::from_u8(0x00), Some(DfuStatus::NoError));
    assert_eq!(DfuStatus::from_u8(0x01), Some(DfuStatus::ErrTarget));
    assert_eq!(DfuStatus::from_u8(0x0A), Some(DfuStatus::ErrFirmware));
    assert_eq!(DfuStatus::from_u8(0x0F), Some(DfuStatus::ErrStaledPkt));
    assert_eq!(DfuStatus::from_u8(0x10), None);
    for a in 0u8..=255 {
        for b in 0u8..=255 {
            if a != b && DfuStatus::from_u8(a).is_some() {
                assert_ne!(DfuStatus::from_u8(a), DfuStatus::from_u8(b));
            }
        }
    }
}

#[test]
fn names_match_debug_output() {
    for code in 0u8..=10 {
        let s = DfuState::from_u8(code).unwrap();
        assert_eq!(s.name(), format!("{:?}", s));
    }
    for code in 1u8..=0x0F {
        let s = DfuStatus::from_u8(code).unwrap();
        assert_eq!(s.name(), format!("{:?}", s));
    }
    assert_eq!(DfuStatus::NoError.name(), "Ok");
}

#[test]
fn status_reply_decodes() {
    let r = DfuStatusResponse::from_bytes(&[0x00, 0x10, 0x27, 0x00, 0x05, 0x07]).unwrap();
    assert_eq!(r.status, DfuStatus::NoError);
    assert_eq!(r.poll_timeout_ms, 10000);
    assert_eq!(r.state, DfuState::DfuDownloadIdle);
    assert_eq!(r.string_index, 7);
}

#[test]
fn status_reply_poll_timeout_is_24_bit_little_endian() {
    let r = DfuStatusResponse::from_bytes(&[0x00, 0xFF, 0xFF, 0xFF, 0x02, 0x00]).unwrap();
    assert_eq!(r.poll_timeout_ms, 0xFF_FFFF);
    let r = DfuStatusResponse::from_bytes(&[0x03, 0x01, 0x02, 0x03, 0x0A, 0x00, 0x99]).unwrap();
    assert_eq!(r.poll_timeout_ms, 0x03_0201);
    assert_eq!(r.status, DfuStatus::ErrWrite);
    assert_eq!(r.state, DfuState::DfuError);
}

#[test]
fn status_reply_too_short() {
    let e = DfuStatusResponse::from_bytes(&[0x00, 0x00, 0x00]).unwrap_err();
    assert_eq!(protocol_message(e), "status response too short: got 3 bytes, expected 6");
    let e = DfuStatusResponse::from_bytes(&[]).unwrap_err();
    assert_eq!(protocol_message(e), "status response too short: got 0 bytes, expected 6");
}

#[test]
fn status_reply_unknown_status() {
    let e = DfuStatusResponse::from_bytes(&[0x10, 0, 0, 0, 2, 0]).unwrap_err();
    assert_eq!(protocol_message(e), "unknown status byte: 0x10");
}

#[test]
fn status_reply_unknown_state() {
    let e = DfuStatusResponse::from_bytes(&[0x00, 0, 0, 0, 0x0B, 0]).unwrap_err();
    assert_eq!(protocol_message(e), "unknown state byte: 0x0b");
    let e = DfuStatusResponse::from_bytes(&[0x11, 0, 0, 0, 0xAB, 0]).unwrap_err();
    assert_eq!(protocol_message(e), "unknown status byte: 0x11");
}

#[test]
fn state_reply_decodes() {
    assert_eq!(state_from_reply(2).unwrap(), DfuState::DfuIdle);
    let e = state_from_reply(0xAB).unwrap_err();
    assert_eq!(protocol_message(e), "unknown state byte: 0xab");
}

#[test]
fn request_setups() {
    assert_eq!(
        DfuRequest::GetStatus.setup(0),
        ControlSetup { request_type: REQUEST_TYPE_IN, request: 3, value: 0, index: 0 }
    );
    assert_eq!(
        DfuRequest::GetState.setup(2),
        ControlSetup { request_type: 0xA1, request: 5, value: 0, index: 2 }
    );
    assert_eq!(
        DfuRequest::Download { block: 7 }.setup(1),
        ControlSetup { request_type: REQUEST_TYPE_OUT, request: 1, value: 7, index: 1 }
    );
    assert_eq!(
        DfuRequest::ClearStatus.setup(0),
        ControlSetup { request_type: 0x21, request: 4, value: 0, index: 0 }
    );
    assert_eq!(
        DfuRequest::Abort.setup(0),
        ControlSetup { request_type: 0x21, request: 6, value: 0, index: 0 }
    );
    assert_eq!(
        DfuRequest::Detach.setup(0),
        ControlSetup { request_type: 0x21, request: 0, value: 0, index: 0 }
    );
}

#[test]
fn set_address_command_is_little_endian() {
    assert_eq!(set_address_command(0x0800_0000), vec![0x21, 0x00, 0x00, 0x00, 0x08]);
    assert_eq!(set_address_command(0x1234_5678), vec![0x21, 0x78, 0x56, 0x34, 0x12]);
    for address in [0u32, 1, 0xFF, 0x100, 0x0801_0000, u32::MAX] {
        let c = set_address_command(address);
        assert_eq!(u32::from_le_bytes([c[1], c[2], c[3], c[4]]), address);
    }
}

#[test]
fn mass_erase_command_is_one_byte() {
    assert_eq!(mass_erase_command(), vec![0x41]);
}

#[test]
fn number_texts() {
    assert_eq!(decimal_text(0), "0");
    assert_eq!(decimal_text(9), "9");
    assert_eq!(decimal_text(10), "10");
    assert_eq!(decimal_text(2048), "2048");
    assert_eq!(decimal_text(usize::MAX), usize::MAX.to_string());
    for b in [0u8, 5, 0x0b, 0x10, 0xab, 0xff] {
        assert_eq!(hex_byte_text(b), format!("{:#04x}", b));
    }
}
