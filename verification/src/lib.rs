//! Binding between a DFU protocol engine and a USB transport: descriptor parsing, control
//! transfer setup, device resolution and download sequencing, all free of I/O.

pub mod address;
pub mod binding;
pub mod descriptor;
pub mod download;
pub mod error;
pub mod functional_descriptor;
pub mod memory_layout;
pub mod progress;
pub mod protocol;
pub mod resolution;
pub mod resolver;
pub mod text;

pub use binding::{ControlSetup, DfuLibusb};
pub use descriptor::{Configuration, Interface, InterfaceSetting};
pub use download::{Command, Download, Event, Failure, Options, TransferError, Verdict};
pub use error::{Error, FunctionalDescriptorError, MemoryLayoutError, TransportError};
pub use functional_descriptor::FunctionalDescriptor;
pub use memory_layout::MemoryLayout;
pub use progress::Progress;
pub use protocol::DfuProtocol;
pub use resolver::{DeviceId, Reply, Request, Resolver, Step};
