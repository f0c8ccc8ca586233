//! DFU 1.1 class requests, the status reply, and the DfuSe commands of the
//! STM32 bootloader.
use vstd::prelude::*;
use crate::error::{DfuError, DfuErrorView, viewed};
use crate::state_machine::{
    DfuState, DfuStatus, spec_state_from_u8, spec_status_from_u8,
};
use crate::text::{decimal, decimal_text, hex_byte, hex_byte_text, joined};

verus! {

pub const DFU_DETACH: u8 = 0;
pub const DFU_DNLOAD: u8 = 1;
pub const DFU_UPLOAD: u8 = 2;
pub const DFU_GETSTATUS: u8 = 3;
pub const DFU_CLRSTATUS: u8 = 4;
pub const DFU_GETSTATE: u8 = 5;
pub const DFU_ABORT: u8 = 6;

/// Interface class of a device-firmware-upgrade interface.
pub const USB_CLASS_APP_SPECIFIC: u8 = 0xFE;
/// Interface subclass of a device-firmware-upgrade interface.
pub const USB_SUBCLASS_DFU: u8 = 0x01;

/// `bmRequestType` of a class request to an interface, host to device.
pub const REQUEST_TYPE_OUT: u8 = 0x21;
/// `bmRequestType` of a class request to an interface, device to host.
pub const REQUEST_TYPE_IN: u8 = 0xA1;

/// Length of the reply to `DFU_GETSTATUS`.
pub const STATUS_REPLY_LEN: usize = 6;
/// Length of the reply to `DFU_GETSTATE`.
pub const STATE_REPLY_LEN: usize = 1;

/// DfuSe command byte that sets the address pointer.
pub const STM32_CMD_SET_ADDRESS: u8 = 0x21;
/// DfuSe command byte that erases the whole flash.
pub const STM32_CMD_ERASE_ALL: u8 = 0x41;

/// The decoded six-byte reply to `DFU_GETSTATUS`.
#[derive(Debug, Clone, Copy)]
pub struct DfuStatusResponse {
    pub status: DfuStatus,
    pub poll_timeout_ms: u32,
    pub state: DfuState,
    pub string_index: u8,
}

/// Message for a status reply of `len` bytes, fewer than six.
pub open spec fn too_short_message(len: nat) -> Seq<char> {
    "status response too short: got "@ + decimal(len) + " bytes, expected 6"@
}

/// Message for a status byte that is no DFU status code.
pub open spec fn unknown_status_message(b: u8) -> Seq<char> {
    "unknown status byte: "@ + hex_byte(b)
}

/// Message for a state byte that is no DFU state code.
pub open spec fn unknown_state_message(b: u8) -> Seq<char> {
    "unknown state byte: "@ + hex_byte(b)
}

/// The 24-bit little-endian `bwPollTimeout` field.
pub open spec fn poll_timeout(b1: u8, b2: u8, b3: u8) -> u32 {
    (b1 as nat + 256 * (b2 as nat) + 65536 * (b3 as nat)) as u32
}

/// What a state byte decodes to.
pub open spec fn spec_state_reply(b: u8) -> Result<DfuState, DfuErrorView> {
    match spec_state_from_u8(b) {
        Some(s) => Ok(s),
        None => Err(DfuErrorView::Protocol(unknown_state_message(b))),
    }
}

/// What a status reply decodes to: the first six bytes count, the rest is
/// ignored.
pub open spec fn spec_status_reply(bytes: Seq<u8>) -> Result<DfuStatusResponse, DfuErrorView> {
    if bytes.len() < 6 {
        Err(DfuErrorView::Protocol(too_short_message(bytes.len())))
    } else {
        match spec_status_from_u8(bytes[0]) {
            None => Err(DfuErrorView::Protocol(unknown_status_message(bytes[0]))),
            Some(status) => match spec_state_from_u8(bytes[4]) {
                None => Err(DfuErrorView::Protocol(unknown_state_message(bytes[4]))),
                Some(state) => Ok(
                    DfuStatusResponse {
                        status,
                        poll_timeout_ms: poll_timeout(bytes[1], bytes[2], bytes[3]),
                        state,
                        string_index: bytes[5],
                    },
                ),
            },
        }
    }
}

/// A status reply decodes exactly when it has at least six bytes, its
/// first byte is a status code and its fifth a state code; then the status
/// and state are those codes, the poll timeout is bytes 1 to 3 read little
/// endian, the string index is byte 5, and bytes after the sixth do not
/// matter.
pub proof fn lemma_status_reply_fields(bytes: Seq<u8>, extra: Seq<u8>)
    ensures
        (spec_status_reply(bytes) is Ok) <==> (bytes.len() >= 6 && spec_status_from_u8(bytes[0])
            is Some && spec_state_from_u8(bytes[4]) is Some),
        spec_status_reply(bytes) is Ok ==> {
            let r = spec_status_reply(bytes)->Ok_0;
            &&& Some(r.status) == spec_status_from_u8(bytes[0])
            &&& Some(r.state) == spec_state_from_u8(bytes[4])
            &&& r.poll_timeout_ms == bytes[1] + 0x100 * bytes[2] + 0x1_0000 * bytes[3]
            &&& r.string_index == bytes[5]
        },
        bytes.len() >= 6 ==> spec_status_reply(bytes + extra) == spec_status_reply(bytes),
        bytes.len() < 6 ==> spec_status_reply(bytes) is Err,
{
    if bytes.len() >= 6 {
        let b = bytes + extra;
        assert(b[0] == bytes[0] && b[1] == bytes[1] && b[2] == bytes[2] && b[3] == bytes[3]
            && b[4] == bytes[4] && b[5] == bytes[5]);
    }
}

/// Decodes the reply to `DFU_GETSTATE`.
pub fn state_from_reply(b: u8) -> (res: Result<DfuState, DfuError>)
    ensures
        viewed(res) == spec_state_reply(b),
{
    match DfuState::from_u8(b) {
        Some(s) => Ok(s),
        None => Err(DfuError::Protocol(joined("unknown state byte: ", hex_byte_text(b).as_str()))),
    }
}

impl DfuStatusResponse {
    /// Decodes the reply to `DFU_GETSTATUS`.
    pub fn from_bytes(bytes: &[u8]) -> (res: Result<DfuStatusResponse, DfuError>)
        ensures
            viewed(res) == spec_status_reply(bytes@),
            res is Ok ==> res->Ok_0.poll_timeout_ms < 0x100_0000,
    {
        if bytes.len() < 6 {
            let mut m = String::from_str("status response too short: got ");
            m.append(decimal_text(bytes.len()).as_str());
            m.append(" bytes, expected 6");
            return Err(DfuError::Protocol(m));
        }
        let status = match DfuStatus::from_u8(bytes[0]) {
            Some(s) => s,
            None => {
                return Err(
                    DfuError::Protocol(joined("unknown status byte: ", hex_byte_text(bytes[0]).as_str())),
                );
            },
        };
        let b1 = bytes[1];
        let b2 = bytes[2];
        let b3 = bytes[3];
        let poll_timeout_ms = (b1 as u32) | ((b2 as u32) << 8) | ((b3 as u32) << 16);
        assert(((b1 as u32) | ((b2 as u32) << 8) | ((b3 as u32) << 16)) == (b1 as u32) + 256 * (
        b2 as u32) + 65536 * (b3 as u32)) by (bit_vector);
        let state = match state_from_reply(bytes[4]) {
            Ok(s) => s,
            Err(e) => {
                return Err(e);
            },
        };
        Ok(DfuStatusResponse { status, poll_timeout_ms, state, string_index: bytes[5] })
    }
}

/// The setup stage of a class control transfer to the DFU interface.
#[derive(Debug, Clone, Copy, PartialEq, Eq, Structural)]
pub struct ControlSetup {
    /// `bmRequestType`.
    pub request_type: u8,
    /// `bRequest`.
    pub request: u8,
    /// `wValue`.
    pub value: u16,
    /// `wIndex`: the interface number.
    pub index: u16,
}

/// The DFU class requests that the host issues.
#[derive(Debug, Clone, Copy, PartialEq, Eq, Structural)]
pub enum DfuRequest {
    Detach,
    /// `DFU_DNLOAD` of the block with the given number.
    Download { block: u16 },
    GetStatus,
    ClearStatus,
    GetState,
    Abort,
}

impl DfuRequest {
    /// The setup stage of this request, addressed to `interface`.
    pub open spec fn spec_setup(self, interface: u8) -> ControlSetup {
        match self {
            DfuRequest::Detach => ControlSetup {
                request_type: REQUEST_TYPE_OUT,
                request: DFU_DETACH,
                value: 0,
                index: interface as u16,
            },
            DfuRequest::Download { block } => ControlSetup {
                request_type: REQUEST_TYPE_OUT,
                request: DFU_DNLOAD,
                value: block,
                index: interface as u16,
            },
            DfuRequest::GetStatus => ControlSetup {
                request_type: REQUEST_TYPE_IN,
                request: DFU_GETSTATUS,
                value: 0,
                index: interface as u16,
            },
            DfuRequest::ClearStatus => ControlSetup {
                request_type: REQUEST_TYPE_OUT,
                request: DFU_CLRSTATUS,
                value: 0,
                index: interface as u16,
            },
            DfuRequest::GetState => ControlSetup {
                request_type: REQUEST_TYPE_IN,
                request: DFU_GETSTATE,
                value: 0,
                index: interface as u16,
            },
            DfuRequest::Abort => ControlSetup {
                request_type: REQUEST_TYPE_OUT,
                request: DFU_ABORT,
                value: 0,
                index: interface as u16,
            },
        }
    }

    /// The setup stage of this request, addressed to `interface`.
    pub fn setup(&self, interface: u8) -> (res: ControlSetup)
        ensures
            res == self.spec_setup(interface),
    {
        let (request_type, request, value) = match self {
            DfuRequest::Detach => (REQUEST_TYPE_OUT, DFU_DETACH, 0u16),
            DfuRequest::Download { block } => (REQUEST_TYPE_OUT, DFU_DNLOAD, *block),
            DfuRequest::GetStatus => (REQUEST_TYPE_IN, DFU_GETSTATUS, 0u16),
            DfuRequest::ClearStatus => (REQUEST_TYPE_OUT, DFU_CLRSTATUS, 0u16),
            DfuRequest::GetState => (REQUEST_TYPE_IN, DFU_GETSTATE, 0u16),
            DfuRequest::Abort => (REQUEST_TYPE_OUT, DFU_ABORT, 0u16),
        };
        ControlSetup { request_type, request, value, index: interface as u16 }
    }
}

/// The class requests as DFU 1.1 numbers them, all addressed to the
/// interface: DFU_DETACH 0, DFU_DNLOAD 1 with the block number as
/// `wValue`, DFU_GETSTATUS 3, DFU_CLRSTATUS 4, DFU_GETSTATE 5, DFU_ABORT
/// 6; only GETSTATUS and GETSTATE read from the device.
pub proof fn lemma_request_table(req: DfuRequest, interface: u8)
    ensures
        req.spec_setup(interface).index == interface as u16,
        (req.spec_setup(interface).request_type == 0xA1) <==> (req is GetStatus || req is GetState),
        (req.spec_setup(interface).request_type == 0x21) <==> !(req is GetStatus || req is GetState),
        req is Detach ==> req.spec_setup(interface).request == 0 && req.spec_setup(interface).value == 0,
        req is Download ==> req.spec_setup(interface).request == 1 && req.spec_setup(interface).value
            == req->Download_block,
        req is GetStatus ==> req.spec_setup(interface).request == 3 && req.spec_setup(interface).value == 0,
        req is ClearStatus ==> req.spec_setup(interface).request == 4 && req.spec_setup(interface).value == 0,
        req is GetState ==> req.spec_setup(interface).request == 5 && req.spec_setup(interface).value == 0,
        req is Abort ==> req.spec_setup(interface).request == 6 && req.spec_setup(interface).value == 0,
{
}

/// The DfuSe "set address pointer" command for `address`: the command byte,
/// then the address in little-endian order.
pub open spec fn spec_set_address_command(address: u32) -> Seq<u8> {
    seq![
        STM32_CMD_SET_ADDRESS,
        (address % 0x100) as u8,
        (address / 0x100 % 0x100) as u8,
        (address / 0x1_0000 % 0x100) as u8,
        (address / 0x100_0000) as u8,
    ]
}

/// The payload of the block-0 download that points the STM32 bootloader at
/// `address`. Reading its four address bytes back gives `address`.
pub fn set_address_command(address: u32) -> (res: Vec<u8>)
    ensures
        res@ == spec_set_address_command(address),
        res@.len() == 5,
        res@[1] + 0x100 * res@[2] + 0x1_0000 * res@[3] + 0x100_0000 * res@[4] == address,
{
    let b0 = (address & 0xFF) as u8;
    let b1 = ((address >> 8) & 0xFF) as u8;
    let b2 = ((address >> 16) & 0xFF) as u8;
    let b3 = ((address >> 24) & 0xFF) as u8;
    assert(b0 == address % 0x100 && b1 == address / 0x100 % 0x100 && b2 == address / 0x1_0000
        % 0x100 && b3 == address / 0x100_0000) by (bit_vector)
        requires
            b0 == (address & 0xFF) as u8,
            b1 == ((address >> 8) & 0xFF) as u8,
            b2 == ((address >> 16) & 0xFF) as u8,
            b3 == ((address >> 24) & 0xFF) as u8,
    ;
    assert(b0 + 0x100 * b1 + 0x1_0000 * b2 + 0x100_0000 * b3 == address) by (bit_vector)
        requires
            b0 == address % 0x100,
            b1 == address / 0x100 % 0x100,
            b2 == address / 0x1_0000 % 0x100,
            b3 == address / 0x100_0000,
    ;
    let mut cmd = Vec::new();
    cmd.push(STM32_CMD_SET_ADDRESS);
    cmd.push(b0);
    cmd.push(b1);
    cmd.push(b2);
    cmd.push(b3);
    cmd
}

/// The payload of the block-0 download that erases the whole flash.
pub fn mass_erase_command() -> (res: Vec<u8>)
    ensures
        res@ == seq![STM32_CMD_ERASE_ALL],
{
    let mut cmd = Vec::new();
    cmd.push(STM32_CMD_ERASE_ALL);
    cmd
}

} // verus!
