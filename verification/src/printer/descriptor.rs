use vstd::prelude::*;

verus! {

/// How an endpoint moves its data.
#[derive(Clone, Copy, Debug, PartialEq, Eq, Structural)]
pub enum TransferType {
    /// Control endpoint
    Control,
    /// Isochronous endpoint
    Isochronous,
    /// Bulk endpoint
    Bulk,
    /// Interrupt endpoint
    Interrupt,
}

/// The direction of an endpoint, seen from the host.
#[derive(Clone, Copy, Debug, PartialEq, Eq, Structural)]
pub enum Direction {
    /// Device to host
    In,
    /// Host to device
    Out,
}

/// One endpoint of an alternate setting.
#[derive(Clone, Copy, Debug, PartialEq, Eq, Structural)]
pub struct EndpointDescriptor {
    /// Transfer type of the endpoint
    pub transfer_type: TransferType,
    /// Direction of the endpoint
    pub direction: Direction,
    /// Address of the endpoint
    pub address: u8,
}

impl EndpointDescriptor {
    /// Whether this is a bulk endpoint of the given direction.
    pub open spec fn is_bulk(self, direction: Direction) -> bool {
        self.transfer_type == TransferType::Bulk && self.direction == direction
    }

    /// Whether this is a bulk endpoint of the given direction.
    pub fn carries_bulk(&self, direction: Direction) -> (b: bool)
        ensures
            b == self.is_bulk(direction),
    {
        self.transfer_type == TransferType::Bulk && self.direction == direction
    }
}

/// One alternate setting of an interface, with its endpoints in the order in
/// which the device reports them.
#[derive(Clone, Debug)]
pub struct InterfaceDescriptor {
    /// Endpoints of the setting
    pub endpoints: Vec<EndpointDescriptor>,
}

/// An interface of a configuration: its alternate settings in reported order.
#[derive(Clone, Debug)]
pub struct Interface {
    /// Alternate settings of the interface
    pub descriptors: Vec<InterfaceDescriptor>,
}

/// The active configuration of a device: its interfaces in reported order.
#[derive(Clone, Debug)]
pub struct ConfigDescriptor {
    /// Interfaces of the configuration
    pub interfaces: Vec<Interface>,
}

/// Vendor and product id of an enumerated device.
#[derive(Clone, Copy, Debug, PartialEq, Eq, Structural)]
pub struct DeviceDescriptor {
    /// Vendor id of the device
    pub vendor_id: u16,
    /// Product id of the device
    pub product_id: u16,
}

/// The endpoints of a run of alternate settings, one setting after the other.
pub open spec fn endpoints_of_settings(settings: Seq<InterfaceDescriptor>) -> Seq<EndpointDescriptor>
    decreases settings.len(),
{
    if settings.len() == 0 {
        Seq::empty()
    } else {
        endpoints_of_settings(settings.drop_last()) + settings.last().endpoints@
    }
}

/// The endpoints of a run of interfaces, one interface after the other.
pub open spec fn endpoints_of_interfaces(interfaces: Seq<Interface>) -> Seq<EndpointDescriptor>
    decreases interfaces.len(),
{
    if interfaces.len() == 0 {
        Seq::empty()
    } else {
        endpoints_of_interfaces(interfaces.drop_last()) + endpoints_of_settings(
            interfaces.last().descriptors@,
        )
    }
}

impl Interface {
    /// Every endpoint of the interface, in reported order.
    pub open spec fn endpoints(self) -> Seq<EndpointDescriptor> {
        endpoints_of_settings(self.descriptors@)
    }
}

impl ConfigDescriptor {
    /// Every endpoint of the configuration, in the order in which a walk through
    /// interfaces, alternate settings and endpoints meets them.
    pub open spec fn endpoints(self) -> Seq<EndpointDescriptor> {
        endpoints_of_interfaces(self.interfaces@)
    }
}

} // verus!
