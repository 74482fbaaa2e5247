use super::connect::{
    connected, failed_on_host, not_found, ConnectEvent, ConnectOutcome, ConnectProgress,
    ConnectRequest, ConnectState, Connector, PrinterConnection, UsbConnectionData,
};
use super::descriptor::{ConfigDescriptor, DeviceDescriptor};
use super::resolver::{resolve_spec, ResolvedEndpoints};
use super::transfer::{
    complete_read, zero_padded, WriteRequest, WriteEvent, WriteProgress, WriteState, Writer,
    OP_DELAY,
};
use crate::error::Error;
use rusb::Error as UsbFault;
use vstd::prelude::*;

verus! {

/// A device of a scripted host: the answer that it gives to each request.
#[derive(Debug)]
pub struct ScriptedDevice {
    /// Answer to the reading of the device descriptor
    pub descriptor: Result<DeviceDescriptor, UsbFault>,
    /// Answer to the reading of the active configuration
    pub config: Result<ConfigDescriptor, UsbFault>,
    /// Answer to the opening of the device
    pub open: Result<(), UsbFault>,
    /// Answer to the question for a kernel driver on the interface
    pub kernel_driver: Result<bool, UsbFault>,
    /// Answer to the detaching of the kernel driver
    pub detach: Result<(), UsbFault>,
    /// Answer to the claim of the interface
    pub claim: Result<(), UsbFault>,
}

/// A host that answers from a script: the devices of its enumeration in order,
/// or the failure of the enumeration. It stands in for the bus where none is at
/// hand, and says what a run of the [`Connector`] against a given bus comes to.
#[derive(Debug)]
pub struct ScriptedHost {
    /// The enumerated devices, or why the enumeration fails
    pub devices: Result<Vec<ScriptedDevice>, UsbFault>,
}

/// The outcome once the interface of `device` is to be claimed.
pub open spec fn claim_spec(
    data: UsbConnectionData,
    device: ScriptedDevice,
    endpoints: ResolvedEndpoints,
) -> ConnectOutcome {
    match device.claim {
        Err(fault) => failed_on_host(fault, true),
        Ok(_) => connected(data, endpoints),
    }
}

/// The outcome once `device` has been opened: a kernel driver that is known to
/// hold the interface is detached first, and a failure to detach it is final.
pub open spec fn attach_spec(
    data: UsbConnectionData,
    device: ScriptedDevice,
    endpoints: ResolvedEndpoints,
) -> ConnectOutcome {
    match (device.kernel_driver, device.detach) {
        (Ok(true), Err(fault)) => failed_on_host(fault, true),
        _ => claim_spec(data, device, endpoints),
    }
}

/// The outcome once `device` has been found to be the printer: its
/// configuration is read, the endpoints are resolved, and the device is opened.
pub open spec fn device_spec(data: UsbConnectionData, device: ScriptedDevice) -> ConnectOutcome {
    match device.config {
        Err(fault) => failed_on_host(fault, false),
        Ok(config) => match resolve_spec(config.endpoints(), data.endpoint_w, data.endpoint_r) {
            Err(error) => ConnectOutcome { result: Err(error), close_device: false },
            Ok(endpoints) => match device.open {
                Err(fault) => failed_on_host(fault, false),
                Ok(_) => attach_spec(data, device, endpoints),
            },
        },
    }
}

/// The outcome of the scan from the device at `from` on: the first device whose
/// descriptor cannot be read ends the attempt, the first whose ids match is the
/// printer, and a scan that comes to the end has found nothing.
pub open spec fn scan_spec(
    data: UsbConnectionData,
    devices: Seq<ScriptedDevice>,
    from: int,
) -> ConnectOutcome
    decreases devices.len() - from,
{
    if from < 0 || from >= devices.len() {
        not_found()
    } else {
        match devices[from].descriptor {
            Err(fault) => failed_on_host(fault, false),
            Ok(descriptor) => if data.matches(descriptor) {
                device_spec(data, devices[from])
            } else {
                scan_spec(data, devices, from + 1)
            },
        }
    }
}

/// The number of steps within which an attempt on this host ends from a state
/// on, at the most.
pub open spec fn steps_ahead(state: ConnectState, host: ScriptedHost) -> nat {
    match state {
        ConnectState::Listing => 6 + host.devices->Ok_0@.len(),
        ConnectState::Scanning { device, count } => (5 + count - device) as nat,
        ConnectState::Configuring { device } => 4,
        ConnectState::Opening { device, endpoints } => 3,
        ConnectState::Querying { device, endpoints } => 2,
        ConnectState::Detaching { device, endpoints } => 1,
        ConnectState::Claiming { device, endpoints, driver_unknown } => 0,
    }
}

/// Whether a state can have come up in an attempt on this host.
pub open spec fn fits_host(state: ConnectState, host: ScriptedHost) -> bool {
    &&& host.can_answer(state.request())
    &&& state matches ConnectState::Scanning { device, count } ==> count == host.devices->Ok_0@.len()
}

/// The outcome that an attempt on this host comes to from a state on.
pub open spec fn outcome_from(connector: Connector, host: ScriptedHost) -> ConnectOutcome {
    let data = connector.data;
    let devices = host.devices->Ok_0@;
    match connector.state {
        ConnectState::Listing => host.connect_spec(data),
        ConnectState::Scanning { device, count } => scan_spec(data, devices, device as int),
        ConnectState::Configuring { device } => device_spec(data, devices[device as int]),
        ConnectState::Opening { device, endpoints } => match devices[device as int].open {
            Err(fault) => failed_on_host(fault, false),
            Ok(_) => attach_spec(data, devices[device as int], endpoints),
        },
        ConnectState::Querying { device, endpoints } => attach_spec(
            data,
            devices[device as int],
            endpoints,
        ),
        ConnectState::Detaching { device, endpoints } => match devices[device as int].detach {
            Err(fault) => failed_on_host(fault, true),
            Ok(_) => claim_spec(data, devices[device as int], endpoints),
        },
        ConnectState::Claiming { device, endpoints, driver_unknown } => claim_spec(
            data,
            devices[device as int],
            endpoints,
        ),
    }
}

/// One step on the answer of the host keeps the outcome that the attempt comes
/// to, and brings the attempt nearer to its end.
pub proof fn lemma_step_keeps_outcome(connector: Connector, host: ScriptedHost)
    requires
        fits_host(connector.state, host),
    ensures
        match connector.step_spec(host.answer_spec(connector.state.request())) {
            ConnectProgress::Finished(outcome) => outcome == outcome_from(connector, host),
            ConnectProgress::Continue(next) => {
                &&& next.data == connector.data
                &&& fits_host(next.state, host)
                &&& outcome_from(next, host) == outcome_from(connector, host)
                &&& steps_ahead(next.state, host) < steps_ahead(connector.state, host)
            },
        },
{
    let data = connector.data;
    let devices = host.devices->Ok_0@;
    match connector.state {
        ConnectState::Scanning { device, count } => {
            if devices[device as int].descriptor matches Ok(descriptor) && !data.matches(
                descriptor,
            ) {
                assert(scan_spec(data, devices, device as int) == scan_spec(
                    data,
                    devices,
                    device + 1,
                ));
            }
        },
        _ => {},
    }
}

/// A scan from `from` on that meets only readable descriptors without a match
/// before the device at `upto` goes on as a scan from `upto` on.
proof fn lemma_scan_skips(
    data: UsbConnectionData,
    devices: Seq<ScriptedDevice>,
    from: int,
    upto: int,
)
    requires
        0 <= from <= upto <= devices.len(),
        forall|j: int|
            from <= j < upto ==> (#[trigger] devices[j]).descriptor is Ok && !data.matches(
                devices[j].descriptor->Ok_0,
            ),
    ensures
        scan_spec(data, devices, from) == scan_spec(data, devices, upto),
    decreases upto - from,
{
    if from < upto {
        lemma_scan_skips(data, devices, from + 1, upto);
    }
}

/// The first device with the ids looked for decides the attempt: what comes of
/// connecting to it is the outcome, whatever devices follow it and whatever
/// would come of them.
pub proof fn law_first_match_decides(host: ScriptedHost, data: UsbConnectionData, first: int)
    requires
        host.devices is Ok,
        0 <= first < host.devices->Ok_0@.len(),
        host.devices->Ok_0@[first].descriptor is Ok,
        data.matches(host.devices->Ok_0@[first].descriptor->Ok_0),
        forall|j: int|
            0 <= j < first ==> (#[trigger] host.devices->Ok_0@[j]).descriptor is Ok
                && !data.matches(host.devices->Ok_0@[j].descriptor->Ok_0),
    ensures
        host.connect_spec(data) == device_spec(data, host.devices->Ok_0@[first]),
{
    lemma_scan_skips(data, host.devices->Ok_0@, 0, first);
}

/// Where the enumeration succeeds, every device descriptor can be read and no
/// device has the vendor and product id looked for, the attempt ends without a
/// connection and without an error.
pub proof fn law_no_match_is_not_found(host: ScriptedHost, data: UsbConnectionData)
    requires
        host.devices is Ok,
        forall|i: int|
            0 <= i < host.devices->Ok_0@.len() ==> (#[trigger] host.devices->Ok_0@[i]).descriptor
                is Ok && !data.matches(host.devices->Ok_0@[i].descriptor->Ok_0),
    ensures
        host.connect_spec(data) == not_found(),
{
    lemma_scan_skips(data, host.devices->Ok_0@, 0, host.devices->Ok_0@.len() as int);
}

/// A scan that finds nothing has read the descriptor of every device from its
/// start on, and none matched.
proof fn lemma_scan_not_found(data: UsbConnectionData, devices: Seq<ScriptedDevice>, from: int)
    requires
        0 <= from,
        scan_spec(data, devices, from).result == Ok::<Option<PrinterConnection>, Error>(None),
    ensures
        forall|i: int|
            from <= i < devices.len() ==> (#[trigger] devices[i]).descriptor is Ok
                && !data.matches(devices[i].descriptor->Ok_0),
    decreases devices.len() - from,
{
    if from < devices.len() {
        lemma_scan_not_found(data, devices, from + 1);
    }
}

/// An attempt that ends without a connection and without an error has found
/// no device with the ids looked for: the enumeration succeeded, every device
/// descriptor was read, and none matched.
pub proof fn law_not_found_means_no_match(host: ScriptedHost, data: UsbConnectionData)
    requires
        host.connect_spec(data).result == Ok::<Option<PrinterConnection>, Error>(None),
    ensures
        host.devices is Ok,
        forall|i: int|
            0 <= i < host.devices->Ok_0@.len() ==> (#[trigger] host.devices->Ok_0@[i]).descriptor
                is Ok && !data.matches(host.devices->Ok_0@[i].descriptor->Ok_0),
{
    lemma_scan_not_found(data, host.devices->Ok_0@, 0);
}

/// The scan asks for a device to be closed only where it ends in an error.
proof fn lemma_scan_closes_on_failure(
    data: UsbConnectionData,
    devices: Seq<ScriptedDevice>,
    from: int,
)
    requires
        0 <= from,
    ensures
        scan_spec(data, devices, from).close_device ==> scan_spec(data, devices, from).result
            is Err,
    decreases devices.len() - from,
{
    if from < devices.len() {
        lemma_scan_closes_on_failure(data, devices, from + 1);
    }
}

/// A connection that stands is never asked to be closed, and an attempt that
/// asks for the device to be closed has failed.
pub proof fn law_only_failures_close(host: ScriptedHost, data: UsbConnectionData)
    ensures
        host.connect_spec(data).close_device ==> host.connect_spec(data).result is Err,
{
    if host.devices is Ok {
        lemma_scan_closes_on_failure(data, host.devices->Ok_0@, 0);
    }
}

impl ScriptedHost {
    /// The outcome of an attempt to connect to the printer of `data` on this host.
    pub open spec fn connect_spec(self, data: UsbConnectionData) -> ConnectOutcome {
        match self.devices {
            Err(fault) => failed_on_host(fault, false),
            Ok(devices) => scan_spec(data, devices@, 0),
        }
    }

    /// Whether the host has a device to perform the request on.
    pub open spec fn can_answer(self, request: ConnectRequest) -> bool {
        match request {
            ConnectRequest::ListDevices => true,
            ConnectRequest::ReadDescriptor { device } => self.has_device(device),
            ConnectRequest::ReadConfig { device } => self.has_device(device),
            ConnectRequest::Open { device } => self.has_device(device),
            ConnectRequest::QueryKernelDriver { device, interface } => self.has_device(device),
            ConnectRequest::DetachKernelDriver { device, interface } => self.has_device(device),
            ConnectRequest::ClaimInterface { device, interface, driver_unknown } => self.has_device(
                device,
            ),
        }
    }

    /// Whether the enumeration succeeds and holds a device at this place.
    pub open spec fn has_device(self, device: usize) -> bool {
        self.devices is Ok && device < self.devices->Ok_0@.len()
    }

    /// The answer of the host to a request.
    pub open spec fn answer_spec(self, request: ConnectRequest) -> ConnectEvent<'static> {
        let devices = self.devices->Ok_0@;
        match request {
            ConnectRequest::ListDevices => ConnectEvent::Devices(
                match self.devices {
                    Ok(list) => Ok(list.len()),
                    Err(fault) => Err(fault),
                },
            ),
            ConnectRequest::ReadDescriptor { device } => ConnectEvent::Descriptor(
                devices[device as int].descriptor,
            ),
            ConnectRequest::ReadConfig { device } => ConnectEvent::Config(
                match devices[device as int].config {
                    Ok(config) => Ok(&config),
                    Err(fault) => Err(fault),
                },
            ),
            ConnectRequest::Open { device } => ConnectEvent::Opened(devices[device as int].open),
            ConnectRequest::QueryKernelDriver { device, interface } => ConnectEvent::KernelDriver(
                devices[device as int].kernel_driver,
            ),
            ConnectRequest::DetachKernelDriver { device, interface } => ConnectEvent::Detached(
                devices[device as int].detach,
            ),
            ConnectRequest::ClaimInterface {
                device,
                interface,
                driver_unknown,
            } => ConnectEvent::Claimed(devices[device as int].claim),
        }
    }

    /// Answers a request from the script.
    fn answer(&self, request: ConnectRequest) -> (event: ConnectEvent<'_>)
        requires
            self.can_answer(request),
        ensures
            event == self.answer_spec(request),
    {
        match &self.devices {
            Err(fault) => ConnectEvent::Devices(Err(*fault)),
            Ok(devices) => match request {
                ConnectRequest::ListDevices => ConnectEvent::Devices(Ok(devices.len())),
                ConnectRequest::ReadDescriptor { device } => ConnectEvent::Descriptor(
                    devices[device].descriptor,
                ),
                ConnectRequest::ReadConfig { device } => ConnectEvent::Config(
                    match &devices[device].config {
                        Ok(config) => Ok(config),
                        Err(fault) => Err(*fault),
                    },
                ),
                ConnectRequest::Open { device } => ConnectEvent::Opened(devices[device].open),
                ConnectRequest::QueryKernelDriver { device, .. } => ConnectEvent::KernelDriver(
                    devices[device].kernel_driver,
                ),
                ConnectRequest::DetachKernelDriver { device, .. } => ConnectEvent::Detached(
                    devices[device].detach,
                ),
                ConnectRequest::ClaimInterface { device, .. } => ConnectEvent::Claimed(
                    devices[device].claim,
                ),
            },
        }
    }
    /// Runs an attempt to connect against the script: each request of a
    /// [`Connector`] is answered from it, until the connector has its outcome.
    pub fn connect(&self, data: UsbConnectionData) -> (outcome: ConnectOutcome)
        ensures
            outcome == self.connect_spec(data),
    {
        let mut connector = Connector::new(data);
        loop
            invariant
                connector.data == data,
                fits_host(connector.state, *self),
                outcome_from(connector, *self) == self.connect_spec(data),
            decreases steps_ahead(connector.state, *self),
        {
            proof {
                lemma_step_keeps_outcome(connector, *self);
            }
            let event = self.answer(connector.request());
            match connector.step(event) {
                ConnectProgress::Continue(next) => {
                    connector = next;
                },
                ConnectProgress::Finished(outcome) => {
                    return outcome;
                },
            }
        }
    }
}

/// The number of steps within which a write ends from a state on, at the most.
pub open spec fn steps_left(state: WriteState) -> nat {
    match state {
        WriteState::Transferring => 1,
        WriteState::Settling => 0,
    }
}

/// A printer that answers transfers from a script.
#[derive(Debug)]
pub struct ScriptedTransport {
    /// Whether a bulk write is taken whole, or how it fails
    pub write: Result<(), UsbFault>,
    /// The bytes that a bulk read returns, or how it fails
    pub read: Result<Vec<u8>, UsbFault>,
}

/// A write as the scripted printer saw it.
#[derive(Debug, PartialEq, Eq)]
pub struct WriteRun {
    /// The result of the write
    pub result: Result<(), Error>,
    /// The requests that were performed, in their order
    pub requests: Vec<WriteRequest>,
}

impl ScriptedTransport {
    /// The requests that a write on the connection makes of this printer.
    pub open spec fn write_requests(self, connection: PrinterConnection) -> Seq<WriteRequest> {
        let transfer = WriteRequest::BulkOut {
            endpoint: connection.endpoint,
            timeout: connection.timeout,
        };
        match self.write {
            Ok(_) => seq![transfer, WriteRequest::Settle { millis: OP_DELAY }],
            Err(_) => seq![transfer],
        }
    }

    /// The result of a write to this printer.
    pub open spec fn write_result(self) -> Result<(), Error> {
        match self.write {
            Ok(_) => Ok(()),
            Err(fault) => Err(Error::UsbError(fault)),
        }
    }

    /// Runs a write of `bytes` against the script: each request of a [`Writer`]
    /// is noted and answered, until the writer has its result. A write that the
    /// printer takes is followed by the rest; one that fails is not.
    pub fn write_raw(&self, connection: PrinterConnection, bytes: &[u8]) -> (run: WriteRun)
        ensures
            run.result == self.write_result(),
            run.requests@ == self.write_requests(connection),
    {
        let mut writer = Writer::new(connection);
        let mut requests: Vec<WriteRequest> = Vec::new();
        loop
            invariant
                writer.connection == connection,
                writer.state is Transferring ==> requests@ == Seq::<WriteRequest>::empty(),
                writer.state is Settling ==> self.write is Ok && requests@ == seq![
                    WriteRequest::BulkOut {
                        endpoint: connection.endpoint,
                        timeout: connection.timeout,
                    },
                ],
            decreases steps_left(writer.state),
        {
            let request = writer.request();
            requests.push(request);
            let event = match request {
                WriteRequest::Settle { .. } => WriteEvent::Settled,
                WriteRequest::BulkOut { .. } => WriteEvent::Transferred(
                    match self.write {
                        Ok(_) => Ok(bytes.len()),
                        Err(fault) => Err(fault),
                    },
                ),
            };
            match writer.step(event) {
                WriteProgress::Continue(next) => {
                    writer = next;
                },
                WriteProgress::Finished(result) => {
                    return WriteRun { result, requests };
                },
            }
        }
    }

    /// Runs a read against the script: the bytes that the script returns, cut to
    /// the length of a read and filled up with zeros, or the scripted failure.
    pub fn read_raw(&self, connection: PrinterConnection) -> (buffer: Result<[u8; 20], Error>)
        ensures
            match self.read {
                Err(fault) => buffer == Err::<[u8; 20], Error>(Error::UsbError(fault)),
                Ok(received) => buffer is Ok && buffer->Ok_0@ == zero_padded(received@),
            },
    {
        match &self.read {
            Err(fault) => complete_read(Err(*fault)),
            Ok(received) => complete_read(Ok(received.as_slice())),
        }
    }
}

} // verus!
