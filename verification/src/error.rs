//! The errors of the library.
use vstd::prelude::*;

verus! {

/// A failure reported by the USB stack, one variant per libusb error code.
#[derive(Debug, Clone, Copy, PartialEq, Eq, Structural)]
pub enum UsbError {
    /// Input/output error.
    Io,
    /// Invalid parameter.
    InvalidParam,
    /// Access denied (insufficient permissions).
    Access,
    /// No such device (it may have been disconnected).
    NoDevice,
    /// Entity not found.
    NotFound,
    /// Resource busy.
    Busy,
    /// Operation timed out.
    Timeout,
    /// Overflow.
    Overflow,
    /// Pipe error.
    Pipe,
    /// System call interrupted (perhaps due to signal).
    Interrupted,
    /// Insufficient memory.
    NoMem,
    /// Operation not supported or unimplemented on this platform.
    NotSupported,
    /// The device returned a malformed descriptor.
    BadDescriptor,
    /// Other error.
    Other,
}

/// Everything that can go wrong while talking DFU to a device.
#[derive(Debug)]
pub enum DfuError {
    /// The USB transfer itself failed.
    Usb(UsbError),
    /// No device with the requested vendor and product id is attached.
    DeviceNotFound,
    /// The firmware image or the command line that names it is unusable.
    InvalidFirmware(String),
    /// The device answered in a way that the protocol does not allow here.
    Protocol(String),
    /// The device rejected a firmware block.
    TransferFailed { block: u32, reason: String },
    /// The device reported an error state.
    DeviceError(String),
}

/// A `DfuError` with its messages taken as character sequences.
pub enum DfuErrorView {
    Usb(UsbError),
    DeviceNotFound,
    InvalidFirmware(Seq<char>),
    Protocol(Seq<char>),
    TransferFailed { block: u32, reason: Seq<char> },
    DeviceError(Seq<char>),
}

impl View for DfuError {
    type V = DfuErrorView;

    open spec fn view(&self) -> DfuErrorView {
        match self {
            DfuError::Usb(e) => DfuErrorView::Usb(*e),
            DfuError::DeviceNotFound => DfuErrorView::DeviceNotFound,
            DfuError::InvalidFirmware(m) => DfuErrorView::InvalidFirmware(m@),
            DfuError::Protocol(m) => DfuErrorView::Protocol(m@),
            DfuError::TransferFailed { block, reason } => DfuErrorView::TransferFailed {
                block: *block,
                reason: reason@,
            },
            DfuError::DeviceError(m) => DfuErrorView::DeviceError(m@),
        }
    }
}

/// A result with its error taken by its view.
pub open spec fn viewed<T>(r: Result<T, DfuError>) -> Result<T, DfuErrorView> {
    match r {
        Ok(v) => Ok(v),
        Err(e) => Err(e@),
    }
}

} // verus!
