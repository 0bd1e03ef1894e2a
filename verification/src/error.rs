//! Error kinds reported by the binding.

use vstd::prelude::*;

verus! {

/// Failure of a USB operation, as the transport reports it.
#[derive(Debug, Clone, Copy, PartialEq, Eq, Structural)]
pub enum TransportError {
    /// Input/output error.
    Io,
    /// Invalid parameter.
    InvalidParam,
    /// Access denied.
    Access,
    /// The device is gone.
    NoDevice,
    /// Entity not found.
    NotFound,
    /// Resource busy.
    Busy,
    /// The operation timed out.
    Timeout,
    /// Overflow.
    Overflow,
    /// The endpoint stalled.
    Pipe,
    /// A system call was interrupted.
    Interrupted,
    /// Out of memory.
    NoMem,
    /// Not supported on this platform.
    NotSupported,
    /// The device returned a malformed descriptor.
    BadDescriptor,
    /// Any other error.
    Other,
}

/// Why a memory layout text was refused. An error of the parser carries the part of the
/// text that it could not read.
#[derive(Debug, PartialEq, Eq)]
pub enum MemoryLayoutError {
    /// A sector entry has no `*` between count and size; the field is the entry.
    InvalidPageFormat(String),
    /// The count of a sector entry is not a number; the field is the count.
    ParseErrorPageCount(String),
    /// The size of a sector entry is not a number, or the entry is too short to hold a unit;
    /// the field is the size.
    ParseErrorPageSize(String),
    /// The unit of a sector entry is none of `K`, `M` and a space; the field is the unit.
    InvalidPrefix(String),
    /// The text holds a character outside ASCII.
    NotAscii,
    /// A number in front of a unit is so large that the sector size leaves 32 bits.
    PageSizeTooLarge,
}

/// A layout error as a mathematical value.
pub enum MemoryLayoutErrorView {
    /// A sector entry without `*`.
    InvalidPageFormat(Seq<char>),
    /// A count that is no number.
    ParseErrorPageCount(Seq<char>),
    /// A size that is no number.
    ParseErrorPageSize(Seq<char>),
    /// A unit that is none.
    InvalidPrefix(Seq<char>),
    /// A character outside ASCII.
    NotAscii,
    /// A size that leaves 32 bits.
    PageSizeTooLarge,
}

impl View for MemoryLayoutError {
    type V = MemoryLayoutErrorView;

    open spec fn view(&self) -> MemoryLayoutErrorView {
        match self {
            MemoryLayoutError::InvalidPageFormat(s) => MemoryLayoutErrorView::InvalidPageFormat(s@),
            MemoryLayoutError::ParseErrorPageCount(s) => MemoryLayoutErrorView::ParseErrorPageCount(
                s@,
            ),
            MemoryLayoutError::ParseErrorPageSize(s) => MemoryLayoutErrorView::ParseErrorPageSize(
                s@,
            ),
            MemoryLayoutError::InvalidPrefix(s) => MemoryLayoutErrorView::InvalidPrefix(s@),
            MemoryLayoutError::NotAscii => MemoryLayoutErrorView::NotAscii,
            MemoryLayoutError::PageSizeTooLarge => MemoryLayoutErrorView::PageSizeTooLarge,
        }
    }
}

impl Clone for MemoryLayoutError {
    fn clone(&self) -> (res: MemoryLayoutError)
        ensures
            res == *self,
    {
        match self {
            MemoryLayoutError::InvalidPageFormat(s) => MemoryLayoutError::InvalidPageFormat(
                s.clone(),
            ),
            MemoryLayoutError::ParseErrorPageCount(s) => MemoryLayoutError::ParseErrorPageCount(
                s.clone(),
            ),
            MemoryLayoutError::ParseErrorPageSize(s) => MemoryLayoutError::ParseErrorPageSize(
                s.clone(),
            ),
            MemoryLayoutError::InvalidPrefix(s) => MemoryLayoutError::InvalidPrefix(s.clone()),
            MemoryLayoutError::NotAscii => MemoryLayoutError::NotAscii,
            MemoryLayoutError::PageSizeTooLarge => MemoryLayoutError::PageSizeTooLarge,
        }
    }
}

/// Why a functional descriptor was refused.
#[derive(Debug, Clone, Copy, PartialEq, Eq, Structural)]
pub enum FunctionalDescriptorError {
    /// The record carries the DFU functional tag but fewer than nine bytes; the field is the
    /// number of bytes that were there.
    DataTooShort(usize),
}

/// Everything that can go wrong while binding to a device or downloading to it.
#[derive(Debug, PartialEq, Eq)]
pub enum Error {
    /// No device with the requested vendor and product identifiers is on the bus.
    CouldNotOpenDevice,
    /// The memory layout of the interface string is malformed.
    MemoryLayout(MemoryLayoutError),
    /// A USB operation failed.
    LibUsb(TransportError),
    /// The device offers no language for its string descriptors.
    MissingLanguage,
    /// The configuration has no interface with the requested number.
    InvalidInterface,
    /// The interface has no alternate setting with the requested number.
    InvalidAlt,
    /// The interface string lacks one of its two `/` separators.
    InvalidInterfaceString,
    /// The address of the interface string is not `0x` followed by a 32-bit hexadecimal number.
    InvalidAddress,
    /// A functional descriptor is malformed: it carries the tag but not all of its bytes. The
    /// search for a functional descriptor passes such records over, so no resolution ends
    /// with this error.
    FunctionalDescriptor(FunctionalDescriptorError),
    /// No configuration of the device yields both a protocol and a functional descriptor.
    NoDfuCapableDeviceFound,
    /// The firmware image is longer than a transfer length can express.
    FileTooLarge,
}

/// An error as a mathematical value.
pub enum ErrorView {
    /// No matching device.
    CouldNotOpenDevice,
    /// A malformed memory layout.
    MemoryLayout(MemoryLayoutErrorView),
    /// A failed USB operation.
    LibUsb(TransportError),
    /// No language.
    MissingLanguage,
    /// No such interface.
    InvalidInterface,
    /// No such alternate setting.
    InvalidAlt,
    /// A separator is missing.
    InvalidInterfaceString,
    /// The address is none.
    InvalidAddress,
    /// A malformed functional descriptor.
    FunctionalDescriptor(FunctionalDescriptorError),
    /// No configuration is capable of DFU.
    NoDfuCapableDeviceFound,
    /// The image is too long.
    FileTooLarge,
}

impl View for Error {
    type V = ErrorView;

    open spec fn view(&self) -> ErrorView {
        match self {
            Error::CouldNotOpenDevice => ErrorView::CouldNotOpenDevice,
            Error::MemoryLayout(e) => ErrorView::MemoryLayout(e@),
            Error::LibUsb(e) => ErrorView::LibUsb(*e),
            Error::MissingLanguage => ErrorView::MissingLanguage,
            Error::InvalidInterface => ErrorView::InvalidInterface,
            Error::InvalidAlt => ErrorView::InvalidAlt,
            Error::InvalidInterfaceString => ErrorView::InvalidInterfaceString,
            Error::InvalidAddress => ErrorView::InvalidAddress,
            Error::FunctionalDescriptor(e) => ErrorView::FunctionalDescriptor(*e),
            Error::NoDfuCapableDeviceFound => ErrorView::NoDfuCapableDeviceFound,
            Error::FileTooLarge => ErrorView::FileTooLarge,
        }
    }
}

impl Clone for Error {
    fn clone(&self) -> (res: Error)
        ensures
            res == *self,
    {
        match self {
            Error::CouldNotOpenDevice => Error::CouldNotOpenDevice,
            Error::MemoryLayout(e) => Error::MemoryLayout(e.clone()),
            Error::LibUsb(e) => Error::LibUsb(*e),
            Error::MissingLanguage => Error::MissingLanguage,
            Error::InvalidInterface => Error::InvalidInterface,
            Error::InvalidAlt => Error::InvalidAlt,
            Error::InvalidInterfaceString => Error::InvalidInterfaceString,
            Error::InvalidAddress => Error::InvalidAddress,
            Error::FunctionalDescriptor(e) => Error::FunctionalDescriptor(*e),
            Error::NoDfuCapableDeviceFound => Error::NoDfuCapableDeviceFound,
            Error::FileTooLarge => Error::FileTooLarge,
        }
    }
}

} // verus!
