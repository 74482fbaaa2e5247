use super::descriptor::{ConfigDescriptor, DeviceDescriptor};
use super::printer_profile::{
    default_timeout, PrinterConnectionData, PrinterProfile, DEFAULT_TIMEOUT_SECS,
};
use super::resolver::{resolve, resolve_spec, ResolvedEndpoints};
use crate::error::Error;
use rusb::Error as UsbFault;
use std::time::Duration;
use vstd::prelude::*;

verus! {

/// The interface of the printer that a connection claims.
pub const PRINTER_INTERFACE: u8 = 0;

/// What is needed to find a printer on the bus and to talk to it.
#[derive(Clone, Copy, Debug, PartialEq, Eq)]
pub struct UsbConnectionData {
    /// Vendor id for the printer
    pub vendor_id: u16,
    /// product id for the printer
    pub product_id: u16,
    /// Endpoint where the usb data is meant to be written to
    pub endpoint_w: Option<u8>,
    /// Endpoint where the usb data is meant to be read from
    pub endpoint_r: Option<u8>,
    /// Timeout for bulk transfers
    pub timeout: Duration,
}

impl UsbConnectionData {
    /// Whether a device with this descriptor is the printer that is looked for.
    pub open spec fn matches(self, device: DeviceDescriptor) -> bool {
        device.vendor_id == self.vendor_id && device.product_id == self.product_id
    }

    /// The connection data of a printer known by its ids alone: both endpoints
    /// are left to discovery, and transfers get the default timeout.
    pub fn new(vendor_id: u16, product_id: u16) -> (data: UsbConnectionData)
        ensures
            data == (UsbConnectionData {
                vendor_id,
                product_id,
                endpoint_w: None,
                endpoint_r: None,
                timeout: default_timeout(),
            }),
    {
        UsbConnectionData {
            vendor_id,
            product_id,
            endpoint_w: None,
            endpoint_r: None,
            timeout: Duration::from_secs(DEFAULT_TIMEOUT_SECS),
        }
    }

    /// The USB connection data of a profile; `None` for a profile of another
    /// kind of connection.
    pub fn from_profile(profile: &PrinterProfile) -> (data: Option<UsbConnectionData>)
        ensures
            data == match profile.data() {
                PrinterConnectionData::Usb {
                    vendor_id,
                    product_id,
                    endpoint_w,
                    endpoint_r,
                    timeout,
                } => Some(
                    UsbConnectionData { vendor_id, product_id, endpoint_w, endpoint_r, timeout },
                ),
                _ => None,
            },
    {
        match profile.connection_data() {
            PrinterConnectionData::Usb { vendor_id, product_id, endpoint_w, endpoint_r, timeout } => {
                Some(
                    UsbConnectionData {
                        vendor_id: *vendor_id,
                        product_id: *product_id,
                        endpoint_w: *endpoint_w,
                        endpoint_r: *endpoint_r,
                        timeout: *timeout,
                    },
                )
            },
            _ => None,
        }
    }

    /// Whether a device with this descriptor is the printer that is looked for.
    pub fn is_device(&self, device: &DeviceDescriptor) -> (found: bool)
        ensures
            found == self.matches(*device),
    {
        device.vendor_id == self.vendor_id && device.product_id == self.product_id
    }
}

/// An established connection: the endpoints that the transfers use and the time
/// that each may take. The caller keeps the opened device beside it.
#[derive(Clone, Copy, Debug, PartialEq, Eq)]
pub struct PrinterConnection {
    /// Bulk write endpoint
    pub endpoint: u8,
    /// Bulk read endpoint
    pub endpoint_r: u8,
    /// Time to wait before giving up on a bulk transfer
    pub timeout: Duration,
}

/// What the caller is asked to do next while a connection is made.
#[derive(Clone, Copy, Debug, PartialEq, Eq, Structural)]
pub enum ConnectRequest {
    /// Enumerate the devices on the bus and report how many there are
    ListDevices,
    /// Read the device descriptor of the device at this place in the enumeration
    ReadDescriptor { device: usize },
    /// Read the active configuration of the device
    ReadConfig { device: usize },
    /// Open the device
    Open { device: usize },
    /// Ask whether a kernel driver holds the interface of the opened device
    QueryKernelDriver { device: usize, interface: u8 },
    /// Detach the kernel driver from the interface
    DetachKernelDriver { device: usize, interface: u8 },
    /// Claim the interface. `driver_unknown` says that the question for the
    /// kernel driver found no answer, which is worth a notice: the claim may
    /// fail on a driver that is still attached.
    ClaimInterface { device: usize, interface: u8, driver_unknown: bool },
}

/// What the host answered to a request.
#[derive(Clone, Copy, Debug)]
pub enum ConnectEvent<'a> {
    /// The number of enumerated devices, or why they could not be enumerated
    Devices(Result<usize, UsbFault>),
    /// The descriptor of the device asked for
    Descriptor(Result<DeviceDescriptor, UsbFault>),
    /// The active configuration of the device asked for
    Config(Result<&'a ConfigDescriptor, UsbFault>),
    /// Whether the device was opened
    Opened(Result<(), UsbFault>),
    /// Whether a kernel driver holds the interface
    KernelDriver(Result<bool, UsbFault>),
    /// Whether the kernel driver was detached
    Detached(Result<(), UsbFault>),
    /// Whether the interface was claimed
    Claimed(Result<(), UsbFault>),
}

/// What is known of the kernel driver on the printer's interface.
#[derive(Clone, Copy, Debug, PartialEq, Eq, Structural)]
pub enum KernelDriver {
    /// A kernel driver holds the interface
    Active,
    /// No kernel driver holds the interface
    Inactive,
    /// The host could not tell
    QueryFailed,
}

impl KernelDriver {
    /// Reads the answer of the host: a failed question is no failure of the
    /// connection, only a third state.
    pub fn from_query(answer: Result<bool, UsbFault>) -> (state: KernelDriver)
        ensures
            state == Self::of_query(answer),
    {
        match answer {
            Ok(true) => KernelDriver::Active,
            Ok(false) => KernelDriver::Inactive,
            Err(_) => KernelDriver::QueryFailed,
        }
    }

    /// The state that an answer of the host stands for.
    pub open spec fn of_query(answer: Result<bool, UsbFault>) -> KernelDriver {
        match answer {
            Ok(true) => KernelDriver::Active,
            Ok(false) => KernelDriver::Inactive,
            Err(_) => KernelDriver::QueryFailed,
        }
    }
}

/// How far a connection has come: which answer is awaited.
#[derive(Clone, Copy, Debug, PartialEq, Eq, Structural)]
pub enum ConnectState {
    /// The enumeration is awaited
    Listing,
    /// The descriptor of device `device` of `count` is awaited
    Scanning { device: usize, count: usize },
    /// The active configuration of the matching device is awaited
    Configuring { device: usize },
    /// The opening of the device is awaited
    Opening { device: usize, endpoints: ResolvedEndpoints },
    /// The answer on the kernel driver is awaited
    Querying { device: usize, endpoints: ResolvedEndpoints },
    /// The detaching of the kernel driver is awaited
    Detaching { device: usize, endpoints: ResolvedEndpoints },
    /// The claim of the interface is awaited
    Claiming { device: usize, endpoints: ResolvedEndpoints, driver_unknown: bool },
}

/// How an attempt to connect ended.
#[derive(Debug, PartialEq, Eq)]
pub struct ConnectOutcome {
    /// The connection; `Ok(None)` where no enumerated device is the printer
    pub result: Result<Option<PrinterConnection>, Error>,
    /// Whether the device had been opened and must now be closed again, which
    /// releases what was claimed on it
    pub close_device: bool,
}

/// The decisions of an attempt to connect. The caller performs each request on
/// the host and reports the answer to [`Connector::step`], until that returns an
/// outcome.
#[derive(Clone, Copy, Debug, PartialEq, Eq)]
pub struct Connector {
    /// The printer that is looked for
    pub data: UsbConnectionData,
    /// The answer that is awaited
    pub state: ConnectState,
}

/// One step of an attempt to connect.
#[derive(Debug, PartialEq, Eq)]
pub enum ConnectProgress {
    /// The attempt goes on: the connector's request is to be performed next
    Continue(Connector),
    /// The attempt has ended
    Finished(ConnectOutcome),
}

/// The outcome of an attempt that failed on the host.
pub open spec fn failed_on_host(fault: UsbFault, close_device: bool) -> ConnectOutcome {
    ConnectOutcome { result: Err(Error::UsbError(fault)), close_device }
}

/// The outcome of an attempt that got through: the connection with the resolved
/// endpoints and the timeout asked for.
pub open spec fn connected(data: UsbConnectionData, endpoints: ResolvedEndpoints) -> ConnectOutcome {
    ConnectOutcome {
        result: Ok(
            Some(
                PrinterConnection {
                    endpoint: endpoints.write_address,
                    endpoint_r: endpoints.read_address,
                    timeout: data.timeout,
                },
            ),
        ),
        close_device: false,
    }
}

impl ConnectState {
    /// The request whose answer the state awaits.
    pub open spec fn request(self) -> ConnectRequest {
        match self {
            ConnectState::Listing => ConnectRequest::ListDevices,
            ConnectState::Scanning { device, count } => ConnectRequest::ReadDescriptor { device },
            ConnectState::Configuring { device } => ConnectRequest::ReadConfig { device },
            ConnectState::Opening { device, endpoints } => ConnectRequest::Open { device },
            ConnectState::Querying { device, endpoints } => ConnectRequest::QueryKernelDriver {
                device,
                interface: PRINTER_INTERFACE,
            },
            ConnectState::Detaching { device, endpoints } => ConnectRequest::DetachKernelDriver {
                device,
                interface: PRINTER_INTERFACE,
            },
            ConnectState::Claiming {
                device,
                endpoints,
                driver_unknown,
            } => ConnectRequest::ClaimInterface {
                device,
                interface: PRINTER_INTERFACE,
                driver_unknown,
            },
        }
    }

    /// Whether the device is open while this answer is awaited.
    pub open spec fn holds_device(self) -> bool {
        self is Querying || self is Detaching || self is Claiming
    }
}

/// The outcome of an attempt that found no device with the ids looked for.
pub open spec fn not_found() -> ConnectOutcome {
    ConnectOutcome { result: Ok(None), close_device: false }
}

impl Connector {
    /// The step that the connector takes on an answer of the host. An answer
    /// to another request than the one awaited changes nothing.
    pub open spec fn step_spec(self, event: ConnectEvent) -> ConnectProgress {
        let data = self.data;
        match (self.state, event) {
            (ConnectState::Listing, ConnectEvent::Devices(Err(fault))) => ConnectProgress::Finished(
                failed_on_host(fault, false),
            ),
            (ConnectState::Listing, ConnectEvent::Devices(Ok(count))) => if count == 0 {
                ConnectProgress::Finished(not_found())
            } else {
                ConnectProgress::Continue(
                    Connector { data, state: ConnectState::Scanning { device: 0, count } },
                )
            },
            (
                ConnectState::Scanning { device, count },
                ConnectEvent::Descriptor(Err(fault)),
            ) => ConnectProgress::Finished(failed_on_host(fault, false)),
            (
                ConnectState::Scanning { device, count },
                ConnectEvent::Descriptor(Ok(descriptor)),
            ) => if data.matches(descriptor) {
                ConnectProgress::Continue(
                    Connector { data, state: ConnectState::Configuring { device } },
                )
            } else if device + 1 < count {
                ConnectProgress::Continue(
                    Connector {
                        data,
                        state: ConnectState::Scanning { device: (device + 1) as usize, count },
                    },
                )
            } else {
                ConnectProgress::Finished(not_found())
            },
            (
                ConnectState::Configuring { device },
                ConnectEvent::Config(Err(fault)),
            ) => ConnectProgress::Finished(failed_on_host(fault, false)),
            (ConnectState::Configuring { device }, ConnectEvent::Config(Ok(config))) => match resolve_spec(
                config.endpoints(),
                data.endpoint_w,
                data.endpoint_r,
            ) {
                Err(error) => ConnectProgress::Finished(
                    ConnectOutcome { result: Err(error), close_device: false },
                ),
                Ok(endpoints) => ConnectProgress::Continue(
                    Connector { data, state: ConnectState::Opening { device, endpoints } },
                ),
            },
            (
                ConnectState::Opening { device, endpoints },
                ConnectEvent::Opened(Err(fault)),
            ) => ConnectProgress::Finished(failed_on_host(fault, false)),
            (
                ConnectState::Opening { device, endpoints },
                ConnectEvent::Opened(Ok(_)),
            ) => ConnectProgress::Continue(
                Connector { data, state: ConnectState::Querying { device, endpoints } },
            ),
            (
                ConnectState::Querying { device, endpoints },
                ConnectEvent::KernelDriver(answer),
            ) => match KernelDriver::of_query(answer) {
                KernelDriver::Active => ConnectProgress::Continue(
                    Connector { data, state: ConnectState::Detaching { device, endpoints } },
                ),
                KernelDriver::Inactive => ConnectProgress::Continue(
                    Connector {
                        data,
                        state: ConnectState::Claiming { device, endpoints, driver_unknown: false },
                    },
                ),
                KernelDriver::QueryFailed => ConnectProgress::Continue(
                    Connector {
                        data,
                        state: ConnectState::Claiming { device, endpoints, driver_unknown: true },
                    },
                ),
            },
            (
                ConnectState::Detaching { device, endpoints },
                ConnectEvent::Detached(Err(fault)),
            ) => ConnectProgress::Finished(failed_on_host(fault, true)),
            (
                ConnectState::Detaching { device, endpoints },
                ConnectEvent::Detached(Ok(_)),
            ) => ConnectProgress::Continue(
                Connector {
                    data,
                    state: ConnectState::Claiming { device, endpoints, driver_unknown: false },
                },
            ),
            (
                ConnectState::Claiming { device, endpoints, driver_unknown },
                ConnectEvent::Claimed(Err(fault)),
            ) => ConnectProgress::Finished(failed_on_host(fault, true)),
            (
                ConnectState::Claiming { device, endpoints, driver_unknown },
                ConnectEvent::Claimed(Ok(_)),
            ) => ConnectProgress::Finished(connected(data, endpoints)),
            _ => ConnectProgress::Continue(self),
        }
    }

    /// Begins an attempt to connect: the enumeration is the first request.
    pub fn new(data: UsbConnectionData) -> (connector: Connector)
        ensures
            connector == (Connector { data, state: ConnectState::Listing }),
    {
        Connector { data, state: ConnectState::Listing }
    }

    /// The request that the caller is to perform next.
    pub fn request(&self) -> (request: ConnectRequest)
        ensures
            request == self.state.request(),
    {
        match self.state {
            ConnectState::Listing => ConnectRequest::ListDevices,
            ConnectState::Scanning { device, .. } => ConnectRequest::ReadDescriptor { device },
            ConnectState::Configuring { device } => ConnectRequest::ReadConfig { device },
            ConnectState::Opening { device, .. } => ConnectRequest::Open { device },
            ConnectState::Querying { device, .. } => ConnectRequest::QueryKernelDriver {
                device,
                interface: PRINTER_INTERFACE,
            },
            ConnectState::Detaching { device, .. } => ConnectRequest::DetachKernelDriver {
                device,
                interface: PRINTER_INTERFACE,
            },
            ConnectState::Claiming { device, driver_unknown, .. } => ConnectRequest::ClaimInterface {
                device,
                interface: PRINTER_INTERFACE,
                driver_unknown,
            },
        }
    }

    /// Takes the answer of the host to the pending request and decides how the
    /// attempt goes on. The first failure ends it, but for the question for the
    /// kernel driver: where that finds no answer the interface is claimed as if
    /// no driver were attached. A device that does not match is passed over; the
    /// first that matches is the only one tried.
    pub fn step(self, event: ConnectEvent) -> (progress: ConnectProgress)
        ensures
            progress == self.step_spec(event),
    {
        let data = self.data;
        match self.state {
            ConnectState::Listing => match event {
                ConnectEvent::Devices(Err(fault)) => failure(fault, false),
                ConnectEvent::Devices(Ok(count)) => {
                    if count == 0 {
                        nothing_found()
                    } else {
                        go_on(data, ConnectState::Scanning { device: 0, count })
                    }
                },
                _ => ConnectProgress::Continue(self),
            },
            ConnectState::Scanning { device, count } => match event {
                ConnectEvent::Descriptor(Err(fault)) => failure(fault, false),
                ConnectEvent::Descriptor(Ok(descriptor)) => {
                    if data.is_device(&descriptor) {
                        go_on(data, ConnectState::Configuring { device })
                    } else if count > 0 && device < count - 1 {
                        go_on(data, ConnectState::Scanning { device: device + 1, count })
                    } else {
                        nothing_found()
                    }
                },
                _ => ConnectProgress::Continue(self),
            },
            ConnectState::Configuring { device } => match event {
                ConnectEvent::Config(Err(fault)) => failure(fault, false),
                ConnectEvent::Config(Ok(config)) => {
                    match resolve(config, data.endpoint_w, data.endpoint_r) {
                        Err(error) => ConnectProgress::Finished(
                            ConnectOutcome { result: Err(error), close_device: false },
                        ),
                        Ok(endpoints) => go_on(data, ConnectState::Opening { device, endpoints }),
                    }
                },
                _ => ConnectProgress::Continue(self),
            },
            ConnectState::Opening { device, endpoints } => match event {
                ConnectEvent::Opened(Err(fault)) => failure(fault, false),
                ConnectEvent::Opened(Ok(_)) => go_on(
                    data,
                    ConnectState::Querying { device, endpoints },
                ),
                _ => ConnectProgress::Continue(self),
            },
            ConnectState::Querying { device, endpoints } => match event {
                ConnectEvent::KernelDriver(answer) => match KernelDriver::from_query(answer) {
                    KernelDriver::Active => go_on(
                        data,
                        ConnectState::Detaching { device, endpoints },
                    ),
                    KernelDriver::Inactive => go_on(
                        data,
                        ConnectState::Claiming { device, endpoints, driver_unknown: false },
                    ),
                    KernelDriver::QueryFailed => go_on(
                        data,
                        ConnectState::Claiming { device, endpoints, driver_unknown: true },
                    ),
                },
                _ => ConnectProgress::Continue(self),
            },
            ConnectState::Detaching { device, endpoints } => match event {
                ConnectEvent::Detached(Err(fault)) => failure(fault, true),
                ConnectEvent::Detached(Ok(_)) => go_on(
                    data,
                    ConnectState::Claiming { device, endpoints, driver_unknown: false },
                ),
                _ => ConnectProgress::Continue(self),
            },
            ConnectState::Claiming { device, endpoints, driver_unknown } => match event {
                ConnectEvent::Claimed(Err(fault)) => failure(fault, true),
                ConnectEvent::Claimed(Ok(_)) => ConnectProgress::Finished(
                    ConnectOutcome {
                        result: Ok(
                            Some(
                                PrinterConnection {
                                    endpoint: endpoints.write_address,
                                    endpoint_r: endpoints.read_address,
                                    timeout: data.timeout,
                                },
                            ),
                        ),
                        close_device: false,
                    },
                ),
                _ => ConnectProgress::Continue(self),
            },
        }
    }
}

/// The attempt ends on a failure of the host.
fn failure(fault: UsbFault, close_device: bool) -> (progress: ConnectProgress)
    ensures
        progress == ConnectProgress::Finished(failed_on_host(fault, close_device)),
{
    ConnectProgress::Finished(ConnectOutcome { result: Err(Error::UsbError(fault)), close_device })
}

/// The attempt ends without a printer.
fn nothing_found() -> (progress: ConnectProgress)
    ensures
        progress == ConnectProgress::Finished(not_found()),
{
    ConnectProgress::Finished(ConnectOutcome { result: Ok(None), close_device: false })
}

/// The attempt goes on in the given state.
fn go_on(data: UsbConnectionData, state: ConnectState) -> (progress: ConnectProgress)
    ensures
        progress == ConnectProgress::Continue(Connector { data, state }),
{
    ConnectProgress::Continue(Connector { data, state })
}

/// Whatever the host answers: an attempt that ends while the device is open
/// asks for the device to be closed exactly where it failed, one that ends
/// before the device was opened never does, and the device is held from the
/// moment its opening succeeded until the attempt ends.
pub proof fn law_opened_device_is_closed_on_failure(connector: Connector, event: ConnectEvent)
    ensures
        match connector.step_spec(event) {
            ConnectProgress::Finished(outcome) => outcome.close_device == (
            connector.state.holds_device() && outcome.result is Err),
            ConnectProgress::Continue(next) => next.state.holds_device() == (
            connector.state.holds_device() || (connector.state is Opening && event matches ConnectEvent::Opened(
                Ok(_),
            ))),
        },
{
}

} // verus!
