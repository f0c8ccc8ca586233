//! The DFU device states and status codes of the DFU 1.1 specification.
use vstd::prelude::*;

verus! {

/// A device state as reported in the `bState` field of a status reply.
#[derive(Debug, Clone, Copy, PartialEq, Eq, Structural)]
pub enum DfuState {
    AppIdle,
    AppDetach,
    DfuIdle,
    DfuDownloadSync,
    DfuDownloadBusy,
    DfuDownloadIdle,
    DfuManifestSync,
    DfuManifest,
    DfuManifestWaitReset,
    DfuUploadIdle,
    DfuError,
}

/// The state that the wire code `value` stands for, if any.
pub open spec fn spec_state_from_u8(value: u8) -> Option<DfuState> {
    match value {
        0 => Some(DfuState::AppIdle),
        1 => Some(DfuState::AppDetach),
        2 => Some(DfuState::DfuIdle),
        3 => Some(DfuState::DfuDownloadSync),
        4 => Some(DfuState::DfuDownloadBusy),
        5 => Some(DfuState::DfuDownloadIdle),
        6 => Some(DfuState::DfuManifestSync),
        7 => Some(DfuState::DfuManifest),
        8 => Some(DfuState::DfuManifestWaitReset),
        9 => Some(DfuState::DfuUploadIdle),
        10 => Some(DfuState::DfuError),
        _ => None,
    }
}

impl DfuState {
    /// Decodes a state code; codes above 10 are not DFU states.
    pub fn from_u8(value: u8) -> (res: Option<DfuState>)
        ensures
            res == spec_state_from_u8(value),
            res is Some <==> value <= 10,
    {
        match value {
            0 => Some(DfuState::AppIdle),
            1 => Some(DfuState::AppDetach),
            2 => Some(DfuState::DfuIdle),
            3 => Some(DfuState::DfuDownloadSync),
            4 => Some(DfuState::DfuDownloadBusy),
            5 => Some(DfuState::DfuDownloadIdle),
            6 => Some(DfuState::DfuManifestSync),
            7 => Some(DfuState::DfuManifest),
            8 => Some(DfuState::DfuManifestWaitReset),
            9 => Some(DfuState::DfuUploadIdle),
            10 => Some(DfuState::DfuError),
            _ => None,
        }
    }

    /// Whether the device runs its DFU firmware rather than its application.
    pub open spec fn spec_is_dfu_mode(self) -> bool {
        !(self is AppIdle || self is AppDetach)
    }

    /// False for the two application states, true for the nine DFU states.
    pub fn is_dfu_mode(&self) -> (res: bool)
        ensures
            res == self.spec_is_dfu_mode(),
    {
        match self {
            DfuState::AppIdle | DfuState::AppDetach => false,
            _ => true,
        }
    }

    /// The variant's name, as `{:?}` writes it.
    pub open spec fn spec_name(self) -> Seq<char> {
        match self {
            DfuState::AppIdle => "AppIdle"@,
            DfuState::AppDetach => "AppDetach"@,
            DfuState::DfuIdle => "DfuIdle"@,
            DfuState::DfuDownloadSync => "DfuDownloadSync"@,
            DfuState::DfuDownloadBusy => "DfuDownloadBusy"@,
            DfuState::DfuDownloadIdle => "DfuDownloadIdle"@,
            DfuState::DfuManifestSync => "DfuManifestSync"@,
            DfuState::DfuManifest => "DfuManifest"@,
            DfuState::DfuManifestWaitReset => "DfuManifestWaitReset"@,
            DfuState::DfuUploadIdle => "DfuUploadIdle"@,
            DfuState::DfuError => "DfuError"@,
        }
    }

    /// The variant's name, as `{:?}` writes it.
    pub fn name(&self) -> (res: &'static str)
        ensures
            res@ == self.spec_name(),
    {
        match self {
            DfuState::AppIdle => "AppIdle",
            DfuState::AppDetach => "AppDetach",
            DfuState::DfuIdle => "DfuIdle",
            DfuState::DfuDownloadSync => "DfuDownloadSync",
            DfuState::DfuDownloadBusy => "DfuDownloadBusy",
            DfuState::DfuDownloadIdle => "DfuDownloadIdle",
            DfuState::DfuManifestSync => "DfuManifestSync",
            DfuState::DfuManifest => "DfuManifest",
            DfuState::DfuManifestWaitReset => "DfuManifestWaitReset",
            DfuState::DfuUploadIdle => "DfuUploadIdle",
            DfuState::DfuError => "DfuError",
        }
    }
}

/// A status code as reported in the `bStatus` field of a status reply.
#[derive(Debug, Clone, Copy, PartialEq, Eq, Structural)]
pub enum DfuStatus {
    /// No error condition is present (`OK` in the DFU specification).
    NoError,
    ErrTarget,
    ErrFile,
    ErrWrite,
    ErrErase,
    ErrCheckErased,
    ErrProg,
    ErrVerify,
    ErrAddress,
    ErrNotDone,
    ErrFirmware,
    ErrVendor,
    ErrUsbR,
    ErrPor,
    ErrUnknown,
    ErrStaledPkt,
}

/// The status that the wire code `value` stands for, if any.
pub open spec fn spec_status_from_u8(value: u8) -> Option<DfuStatus> {
    match value {
        0x00 => Some(DfuStatus::NoError),
        0x01 => Some(DfuStatus::ErrTarget),
        0x02 => Some(DfuStatus::ErrFile),
        0x03 => Some(DfuStatus::ErrWrite),
        0x04 => Some(DfuStatus::ErrErase),
        0x05 => Some(DfuStatus::ErrCheckErased),
        0x06 => Some(DfuStatus::ErrProg),
        0x07 => Some(DfuStatus::ErrVerify),
        0x08 => Some(DfuStatus::ErrAddress),
        0x09 => Some(DfuStatus::ErrNotDone),
        0x0A => Some(DfuStatus::ErrFirmware),
        0x0B => Some(DfuStatus::ErrVendor),
        0x0C => Some(DfuStatus::ErrUsbR),
        0x0D => Some(DfuStatus::ErrPor),
        0x0E => Some(DfuStatus::ErrUnknown),
        0x0F => Some(DfuStatus::ErrStaledPkt),
        _ => None,
    }
}

impl DfuStatus {
    /// Decodes a status code; codes above 0x0F are not DFU status codes.
    pub fn from_u8(value: u8) -> (res: Option<DfuStatus>)
        ensures
            res == spec_status_from_u8(value),
            res is Some <==> value <= 0x0F,
    {
        match value {
            0x00 => Some(DfuStatus::NoError),
            0x01 => Some(DfuStatus::ErrTarget),
            0x02 => Some(DfuStatus::ErrFile),
            0x03 => Some(DfuStatus::ErrWrite),
            0x04 => Some(DfuStatus::ErrErase),
            0x05 => Some(DfuStatus::ErrCheckErased),
            0x06 => Some(DfuStatus::ErrProg),
            0x07 => Some(DfuStatus::ErrVerify),
            0x08 => Some(DfuStatus::ErrAddress),
            0x09 => Some(DfuStatus::ErrNotDone),
            0x0A => Some(DfuStatus::ErrFirmware),
            0x0B => Some(DfuStatus::ErrVendor),
            0x0C => Some(DfuStatus::ErrUsbR),
            0x0D => Some(DfuStatus::ErrPor),
            0x0E => Some(DfuStatus::ErrUnknown),
            0x0F => Some(DfuStatus::ErrStaledPkt),
            _ => None,
        }
    }

    /// The variant's name, as `{:?}` writes it.
    pub open spec fn spec_name(self) -> Seq<char> {
        match self {
            DfuStatus::NoError => "Ok"@,
            DfuStatus::ErrTarget => "ErrTarget"@,
            DfuStatus::ErrFile => "ErrFile"@,
            DfuStatus::ErrWrite => "ErrWrite"@,
            DfuStatus::ErrErase => "ErrErase"@,
            DfuStatus::ErrCheckErased => "ErrCheckErased"@,
            DfuStatus::ErrProg => "ErrProg"@,
            DfuStatus::ErrVerify => "ErrVerify"@,
            DfuStatus::ErrAddress => "ErrAddress"@,
            DfuStatus::ErrNotDone => "ErrNotDone"@,
            DfuStatus::ErrFirmware => "ErrFirmware"@,
            DfuStatus::ErrVendor => "ErrVendor"@,
            DfuStatus::ErrUsbR => "ErrUsbR"@,
            DfuStatus::ErrPor => "ErrPor"@,
            DfuStatus::ErrUnknown => "ErrUnknown"@,
            DfuStatus::ErrStaledPkt => "ErrStaledPkt"@,
        }
    }

    /// The variant's name, as `{:?}` writes it.
    pub fn name(&self) -> (res: &'static str)
        ensures
            res@ == self.spec_name(),
    {
        match self {
            DfuStatus::NoError => "Ok",
            DfuStatus::ErrTarget => "ErrTarget",
            DfuStatus::ErrFile => "ErrFile",
            DfuStatus::ErrWrite => "ErrWrite",
            DfuStatus::ErrErase => "ErrErase",
            DfuStatus::ErrCheckErased => "ErrCheckErased",
            DfuStatus::ErrProg => "ErrProg",
            DfuStatus::ErrVerify => "ErrVerify",
            DfuStatus::ErrAddress => "ErrAddress",
            DfuStatus::ErrNotDone => "ErrNotDone",
            DfuStatus::ErrFirmware => "ErrFirmware",
            DfuStatus::ErrVendor => "ErrVendor",
            DfuStatus::ErrUsbR => "ErrUsbR",
            DfuStatus::ErrPor => "ErrPor",
            DfuStatus::ErrUnknown => "ErrUnknown",
            DfuStatus::ErrStaledPkt => "ErrStaledPkt",
        }
    }
}

/// Decoding a state code and decoding a status code are injective: two
/// different codes never decode to the same state, or to the same status.
pub proof fn lemma_codes_are_injective(a: u8, b: u8)
    ensures
        spec_state_from_u8(a) is Some && spec_state_from_u8(a) == spec_state_from_u8(b) ==> a == b,
        spec_status_from_u8(a) is Some && spec_status_from_u8(a) == spec_status_from_u8(b) ==> a == b,
{
}

/// The state codes of the DFU 1.1 table (`bState`), with the names that
/// messages print: 0 appIDLE, 1 appDETACH, 2 dfuIDLE, 3 dfuDNLOAD-SYNC,
/// 4 dfuDNBUSY, 5 dfuDNLOAD-IDLE, 6 dfuMANIFEST-SYNC, 7 dfuMANIFEST,
/// 8 dfuMANIFEST-WAIT-RESET, 9 dfuUPLOAD-IDLE, 10 dfuERROR; no other code.
pub proof fn lemma_state_code_table(value: u8)
    ensures
        value == 0 ==> spec_state_from_u8(value) == Some(DfuState::AppIdle)
            && DfuState::AppIdle.spec_name() == "AppIdle"@,
        value == 1 ==> spec_state_from_u8(value) == Some(DfuState::AppDetach)
            && DfuState::AppDetach.spec_name() == "AppDetach"@,
        value == 2 ==> spec_state_from_u8(value) == Some(DfuState::DfuIdle)
            && DfuState::DfuIdle.spec_name() == "DfuIdle"@,
        value == 3 ==> spec_state_from_u8(value) == Some(DfuState::DfuDownloadSync)
            && DfuState::DfuDownloadSync.spec_name() == "DfuDownloadSync"@,
        value == 4 ==> spec_state_from_u8(value) == Some(DfuState::DfuDownloadBusy)
            && DfuState::DfuDownloadBusy.spec_name() == "DfuDownloadBusy"@,
        value == 5 ==> spec_state_from_u8(value) == Some(DfuState::DfuDownloadIdle)
            && DfuState::DfuDownloadIdle.spec_name() == "DfuDownloadIdle"@,
        value == 6 ==> spec_state_from_u8(value) == Some(DfuState::DfuManifestSync)
            && DfuState::DfuManifestSync.spec_name() == "DfuManifestSync"@,
        value == 7 ==> spec_state_from_u8(value) == Some(DfuState::DfuManifest)
            && DfuState::DfuManifest.spec_name() == "DfuManifest"@,
        value == 8 ==> spec_state_from_u8(value) == Some(DfuState::DfuManifestWaitReset)
            && DfuState::DfuManifestWaitReset.spec_name() == "DfuManifestWaitReset"@,
        value == 9 ==> spec_state_from_u8(value) == Some(DfuState::DfuUploadIdle)
            && DfuState::DfuUploadIdle.spec_name() == "DfuUploadIdle"@,
        value == 10 ==> spec_state_from_u8(value) == Some(DfuState::DfuError)
            && DfuState::DfuError.spec_name() == "DfuError"@,
        value > 10 ==> spec_state_from_u8(value) is None,
{
}

/// The status codes of the DFU 1.1 table (`bStatus`), with the names that
/// messages print: 0x00 OK, 0x01 errTARGET, 0x02 errFILE, 0x03 errWRITE,
/// 0x04 errERASE, 0x05 errCHECK_ERASED, 0x06 errPROG, 0x07 errVERIFY,
/// 0x08 errADDRESS, 0x09 errNOTDONE, 0x0A errFIRMWARE, 0x0B errVENDOR,
/// 0x0C errUSBR, 0x0D errPOR, 0x0E errUNKNOWN, 0x0F errSTALLEDPKT; no
/// other code.
pub proof fn lemma_status_code_table(value: u8)
    ensures
        value == 0x00 ==> spec_status_from_u8(value) == Some(DfuStatus::NoError)
            && DfuStatus::NoError.spec_name() == "Ok"@,
        value == 0x01 ==> spec_status_from_u8(value) == Some(DfuStatus::ErrTarget)
            && DfuStatus::ErrTarget.spec_name() == "ErrTarget"@,
        value == 0x02 ==> spec_status_from_u8(value) == Some(DfuStatus::ErrFile)
            && DfuStatus::ErrFile.spec_name() == "ErrFile"@,
        value == 0x03 ==> spec_status_from_u8(value) == Some(DfuStatus::ErrWrite)
            && DfuStatus::ErrWrite.spec_name() == "ErrWrite"@,
        value == 0x04 ==> spec_status_from_u8(value) == Some(DfuStatus::ErrErase)
            && DfuStatus::ErrErase.spec_name() == "ErrErase"@,
        value == 0x05 ==> spec_status_from_u8(value) == Some(DfuStatus::ErrCheckErased)
            && DfuStatus::ErrCheckErased.spec_name() == "ErrCheckErased"@,
        value == 0x06 ==> spec_status_from_u8(value) == Some(DfuStatus::ErrProg)
            && DfuStatus::ErrProg.spec_name() == "ErrProg"@,
        value == 0x07 ==> spec_status_from_u8(value) == Some(DfuStatus::ErrVerify)
            && DfuStatus::ErrVerify.spec_name() == "ErrVerify"@,
        value == 0x08 ==> spec_status_from_u8(value) == Some(DfuStatus::ErrAddress)
            && DfuStatus::ErrAddress.spec_name() == "ErrAddress"@,
        value == 0x09 ==> spec_status_from_u8(value) == Some(DfuStatus::ErrNotDone)
            && DfuStatus::ErrNotDone.spec_name() == "ErrNotDone"@,
        value == 0x0A ==> spec_status_from_u8(value) == Some(DfuStatus::ErrFirmware)
            && DfuStatus::ErrFirmware.spec_name() == "ErrFirmware"@,
        value == 0x0B ==> spec_status_from_u8(value) == Some(DfuStatus::ErrVendor)
            && DfuStatus::ErrVendor.spec_name() == "ErrVendor"@,
        value == 0x0C ==> spec_status_from_u8(value) == Some(DfuStatus::ErrUsbR)
            && DfuStatus::ErrUsbR.spec_name() == "ErrUsbR"@,
        value == 0x0D ==> spec_status_from_u8(value) == Some(DfuStatus::ErrPor)
            && DfuStatus::ErrPor.spec_name() == "ErrPor"@,
        value == 0x0E ==> spec_status_from_u8(value) == Some(DfuStatus::ErrUnknown)
            && DfuStatus::ErrUnknown.spec_name() == "ErrUnknown"@,
        value == 0x0F ==> spec_status_from_u8(value) == Some(DfuStatus::ErrStaledPkt)
            && DfuStatus::ErrStaledPkt.spec_name() == "ErrStaledPkt"@,
        value > 0x0F ==> spec_status_from_u8(value) is None,
{
}

/// The device is in DFU mode exactly for the state codes 2 to 10; codes 0
/// and 1 are the application states.
pub proof fn lemma_dfu_mode_codes(value: u8)
    requires
        spec_state_from_u8(value) is Some,
    ensures
        spec_state_from_u8(value).unwrap().spec_is_dfu_mode() <==> value >= 2,
{
}

} // verus!
