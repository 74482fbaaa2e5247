//! USB communication with ESC/POS thermal printers.
//!
//! The library holds the decisions of a printer connection: which device of an
//! enumeration is the printer, which bulk endpoints carry the data, in which order
//! the device is opened, freed from its kernel driver and claimed, and what a
//! transfer hands back. The transfers themselves are made by the caller, who
//! reports each outcome to the state machines of this library.

pub mod error;
pub mod printer;

pub use error::Error;
pub use printer::connect::{
    ConnectEvent, ConnectOutcome, ConnectProgress, ConnectRequest, ConnectState, Connector,
    KernelDriver, PrinterConnection, UsbConnectionData, PRINTER_INTERFACE,
};
pub use printer::descriptor::{
    ConfigDescriptor, DeviceDescriptor, Direction, EndpointDescriptor, Interface,
    InterfaceDescriptor, TransferType,
};
pub use printer::printer_model::PrinterModel;
pub use printer::printer_profile::{
    PrinterConnectionData, PrinterProfile, PrinterProfileBuilder, DEFAULT_TIMEOUT_SECS,
};
pub use printer::resolver::{detect_endpoint, resolve, ResolvedEndpoints};
pub use printer::scripted::{ScriptedDevice, ScriptedHost, ScriptedTransport, WriteRun};
pub use printer::transfer::{
    complete_read, ReadRequest, WriteEvent, WriteProgress, WriteRequest, WriteState, Writer,
    OP_DELAY, READ_LENGTH,
};
