//! The binding to one interface of an opened device: what the protocol engine reads from it,
//! and how its control transfers are set up and judged. The transfers themselves are made by
//! the caller.

use vstd::prelude::*;
use crate::error::{Error, TransportError};
use crate::functional_descriptor::FunctionalDescriptor;
use crate::protocol::{DfuProtocol, ProtocolView};

verus! {

/// Milliseconds after which a control transfer of a binding gives up.
pub const TIMEOUT_MS: u64 = 3000;

/// The setup packet of a control transfer, and the time it may take.
#[derive(Debug, Clone, Copy, PartialEq, Eq)]
pub struct ControlSetup {
    /// Direction, type and recipient (`bmRequestType`).
    pub request_type: u8,
    /// The request (`bRequest`).
    pub request: u8,
    /// The value (`wValue`).
    pub value: u16,
    /// The index (`wIndex`).
    pub index: u16,
    /// Milliseconds after which the transfer gives up.
    pub timeout_ms: u64,
}

/// Reads `libusb1_sys::constants::LIBUSB_ENDPOINT_IN`, the bit of a request type that marks a
/// transfer from the device to the host: bit 7.
#[verifier::external_body]
pub(crate) fn endpoint_in() -> (bit: u8)
    ensures
        bit == 0x80,
{
    libusb1_sys::constants::LIBUSB_ENDPOINT_IN
}

/// Reads `libusb1_sys::constants::LIBUSB_REQUEST_GET_DESCRIPTOR`, the standard request that
/// fetches a descriptor: request 6.
#[verifier::external_body]
pub(crate) fn request_get_descriptor() -> (request: u8)
    ensures
        request == 0x06,
{
    libusb1_sys::constants::LIBUSB_REQUEST_GET_DESCRIPTOR
}

/// A bound interface: its protocol, its functional descriptor, its number and its timeout.
#[derive(Debug, Clone, PartialEq, Eq)]
pub struct DfuLibusb {
    protocol: DfuProtocol,
    timeout_ms: u64,
    iface: u16,
    functional_descriptor: FunctionalDescriptor,
}

/// A binding as a mathematical value.
pub struct BindingView {
    /// The protocol descriptor.
    pub protocol: ProtocolView,
    /// Milliseconds after which a control transfer gives up.
    pub timeout_ms: u64,
    /// Number of the bound interface, as it goes into the index of a setup packet.
    pub interface: u16,
    /// The functional descriptor.
    pub functional_descriptor: FunctionalDescriptor,
}

impl View for DfuLibusb {
    type V = BindingView;

    closed spec fn view(&self) -> BindingView {
        BindingView {
            protocol: self.protocol@,
            timeout_ms: self.timeout_ms,
            interface: self.iface,
            functional_descriptor: self.functional_descriptor,
        }
    }
}

/// The binding that resolution gives to interface `iface`.
pub open spec fn bound(
    protocol: ProtocolView,
    functional_descriptor: FunctionalDescriptor,
    iface: u8,
) -> BindingView {
    BindingView { protocol, timeout_ms: TIMEOUT_MS, interface: iface as u16, functional_descriptor }
}

/// The protocol `protocol` with its start address replaced; plain DFU has none.
pub open spec fn with_address(protocol: ProtocolView, address: u32) -> ProtocolView {
    match protocol {
        ProtocolView::Dfu => ProtocolView::Dfu,
        ProtocolView::Dfuse { address: _, pages } => ProtocolView::Dfuse { address, pages },
    }
}

impl DfuLibusb {
    /// Binds interface `iface` with what was resolved for it.
    pub fn new(
        protocol: DfuProtocol,
        functional_descriptor: FunctionalDescriptor,
        iface: u8,
    ) -> (res: DfuLibusb)
        ensures
            res@ == bound(protocol@, functional_descriptor, iface),
    {
        DfuLibusb { protocol, timeout_ms: TIMEOUT_MS, iface: iface as u16, functional_descriptor }
    }

    /// Sets up a transfer from the device. The direction bit of `request_type` is forced to
    /// "device to host", whatever the caller passed; its other bits are kept.
    pub fn read_control(&self, request_type: u8, request: u8, value: u16) -> (setup: ControlSetup)
        ensures
            setup.request_type == request_type | 0x80,
            setup.request_type & 0x80 == 0x80,
            setup.request_type & 0x7f == request_type & 0x7f,
            setup.request == request,
            setup.value == value,
            setup.index == self@.interface,
            setup.timeout_ms == self@.timeout_ms,
    {
        let direction = endpoint_in();
        assert((request_type | 0x80) & 0x80 == 0x80) by (bit_vector);
        assert((request_type | 0x80) & 0x7f == request_type & 0x7f) by (bit_vector);
        ControlSetup {
            request_type: request_type | direction,
            request,
            value,
            index: self.iface,
            timeout_ms: self.timeout_ms,
        }
    }

    /// Sets up a transfer to the device. The request type goes out as the caller passed it:
    /// no bit is set or cleared.
    pub fn write_control(&self, request_type: u8, request: u8, value: u16) -> (setup: ControlSetup)
        ensures
            setup.request_type == request_type,
            setup.request == request,
            setup.value == value,
            setup.index == self@.interface,
            setup.timeout_ms == self@.timeout_ms,
    {
        ControlSetup {
            request_type,
            request,
            value,
            index: self.iface,
            timeout_ms: self.timeout_ms,
        }
    }

    /// Judges what the transport returned for a control transfer: the number of bytes moved,
    /// or the transport's error. That the transport found a parameter invalid means that the
    /// engine and the transport disagree on the shape of the request; it is no outcome that a
    /// caller may pass on.
    pub fn control_result(outcome: Result<usize, TransportError>) -> (res: Result<usize, Error>)
        requires
            outcome != Err::<usize, TransportError>(TransportError::InvalidParam),
        ensures
            res == match outcome {
                Ok(n) => Ok::<usize, Error>(n),
                Err(e) => Err::<usize, Error>(Error::LibUsb(e)),
            },
            res != Err::<usize, Error>(Error::LibUsb(TransportError::InvalidParam)),
    {
        match outcome {
            Ok(n) => Ok(n),
            Err(e) => Err(Error::LibUsb(e)),
        }
    }

    /// Judges what the transport returned for a bus reset.
    pub fn usb_reset(outcome: Result<(), TransportError>) -> (res: Result<(), Error>)
        ensures
            res == match outcome {
                Ok(()) => Ok::<(), Error>(()),
                Err(e) => Err::<(), Error>(Error::LibUsb(e)),
            },
    {
        match outcome {
            Ok(()) => Ok(()),
            Err(e) => Err(Error::LibUsb(e)),
        }
    }

    /// Replaces the start address of a DfuSe protocol; the memory layout stays. To be called
    /// before a transfer begins.
    pub fn override_address(&mut self, address: u32)
        ensures
            final(self)@ == (BindingView {
                protocol: with_address(old(self)@.protocol, address),
                ..old(self)@
            }),
    {
        match &mut self.protocol {
            DfuProtocol::Dfu => {},
            DfuProtocol::Dfuse { address: start, memory_layout: _ } => {
                *start = address;
            },
        }
    }

    /// The protocol descriptor.
    pub fn protocol(&self) -> (res: &DfuProtocol)
        ensures
            res@ == self@.protocol,
    {
        &self.protocol
    }

    /// The functional descriptor.
    pub fn functional_descriptor(&self) -> (res: &FunctionalDescriptor)
        ensures
            *res == self@.functional_descriptor,
    {
        &self.functional_descriptor
    }

    /// Number of the bound interface.
    pub fn interface(&self) -> (res: u16)
        ensures
            res == self@.interface,
    {
        self.iface
    }

    /// Milliseconds after which a control transfer gives up.
    pub fn timeout_ms(&self) -> (res: u64)
        ensures
            res == self@.timeout_ms,
    {
        self.timeout_ms
    }
}

} // verus!
