use std::time::Duration;
use vstd::prelude::*;

verus! {

/// The duration that `Duration::from_secs` returns for a number of seconds.
pub uninterp spec fn duration_of_secs(secs: u64) -> Duration;

/// `Duration::from_secs`: the duration of that many whole seconds. The result is
/// determined by the argument alone; the contract gives it a name.
pub assume_specification[ Duration::from_secs ](secs: u64) -> (d: Duration)
    ensures
        d == duration_of_secs(secs),
;

/// `Clone::clone` of a `Duration`: the type is `Copy`, so the clone is the same
/// duration.
pub assume_specification[ <Duration as Clone>::clone ](d: &Duration) -> (r: Duration)
    ensures
        r == *d,
;

/// Seconds that a bulk transfer may take when nothing else is asked for.
pub const DEFAULT_TIMEOUT_SECS: u64 = 2;

/// The timeout of a connection for which none was chosen.
pub open spec fn default_timeout() -> Duration {
    duration_of_secs(DEFAULT_TIMEOUT_SECS)
}

/// Available connections with the printer
///
/// Determines the kind of connection that will be sustained with the printer.
/// Prefer the builders ([`PrinterProfile::usb_builder`],
/// [`PrinterProfile::terminal_builder`]) to writing a value by hand.
#[derive(Clone, Debug)]
pub enum PrinterConnectionData {
    /// Usb connection
    Usb {
        /// Vendor id for the printer
        vendor_id: u16,
        /// product id for the printer
        product_id: u16,
        /// Endpoint where the usb data is meant to be written to
        endpoint_w: Option<u8>,
        /// Endpoint where the usb data is meant to be read from
        endpoint_r: Option<u8>,
        /// Timeout for bulk transfers
        timeout: Duration,
    },
    /// Network connection (no transport exists for it)
    Network { _host: String, _port: u16 },
    /// Terminal printer, used for really simple previews.
    Terminal,
}

/// The USB connection data that a vendor id and a product id give by default:
/// both endpoints left to discovery, and the default timeout.
pub open spec fn default_usb_data(vendor_id: u16, product_id: u16) -> PrinterConnectionData {
    PrinterConnectionData::Usb {
        vendor_id,
        product_id,
        endpoint_w: None,
        endpoint_r: None,
        timeout: default_timeout(),
    }
}

/// Details required to connect and print
///
/// The bare minimum needed for a USB printer is the product id and the vendor id.
#[derive(Clone, Debug)]
pub struct PrinterProfile {
    /// Connection that the printer is reached by
    pub(crate) printer_connection_data: PrinterConnectionData,
}

impl PrinterProfile {
    /// The connection data that the profile holds.
    pub closed spec fn data(&self) -> PrinterConnectionData {
        self.printer_connection_data
    }

    /// Create custom printing details
    ///
    /// See one of the builders instead ([`PrinterProfile::usb_builder`] and
    /// [`PrinterProfile::terminal_builder`]).
    pub fn new(printer_connection_data: PrinterConnectionData) -> (profile: PrinterProfile)
        ensures
            profile.data() == printer_connection_data,
    {
        PrinterProfile { printer_connection_data }
    }

    /// Creates a [`PrinterProfileBuilder`] set for usb printing.
    ///
    /// Equivalent to a call of [`PrinterProfileBuilder::new_usb`].
    pub fn usb_builder(vendor_id: u16, product_id: u16) -> (builder: PrinterProfileBuilder)
        ensures
            builder.data() == default_usb_data(vendor_id, product_id),
    {
        PrinterProfileBuilder::new_usb(vendor_id, product_id)
    }

    /// Creates a [`PrinterProfileBuilder`] set for terminal printing
    ///
    /// Equivalent to a call of [`PrinterProfileBuilder::new_terminal`].
    pub fn terminal_builder() -> (builder: PrinterProfileBuilder)
        ensures
            builder.data() == PrinterConnectionData::Terminal,
    {
        PrinterProfileBuilder::new_terminal()
    }

    /// The connection that the printer is reached by.
    pub fn connection_data(&self) -> (data: &PrinterConnectionData)
        ensures
            *data == self.data(),
    {
        &self.printer_connection_data
    }
}

/// Helper structure to create a [`PrinterProfile`]
pub struct PrinterProfileBuilder {
    /// The connection to the printer
    printer_connection_data: PrinterConnectionData,
}

impl PrinterProfileBuilder {
    /// The connection data that the builder has gathered.
    pub closed spec fn data(&self) -> PrinterConnectionData {
        self.printer_connection_data
    }

    /// Creates a new [`PrinterProfileBuilder`] set for usb printing
    ///
    /// The vendor id and the product id are enough: the bulk endpoints are looked
    /// up in the device's configuration when the connection is made.
    pub fn new_usb(vendor_id: u16, product_id: u16) -> (builder: PrinterProfileBuilder)
        ensures
            builder.data() == default_usb_data(vendor_id, product_id),
    {
        PrinterProfileBuilder {
            printer_connection_data: PrinterConnectionData::Usb {
                vendor_id,
                product_id,
                endpoint_w: None,
                endpoint_r: None,
                timeout: Duration::from_secs(DEFAULT_TIMEOUT_SECS),
            },
        }
    }

    /// Creates a new [`PrinterProfileBuilder`] set for terminal printing
    pub fn new_terminal() -> (builder: PrinterProfileBuilder)
        ensures
            builder.data() == PrinterConnectionData::Terminal,
    {
        PrinterProfileBuilder { printer_connection_data: PrinterConnectionData::Terminal }
    }

    /// Build the `PrinterProfile` that lies beneath the builder
    pub fn build(self) -> (profile: PrinterProfile)
        ensures
            profile.data() == self.data(),
    {
        PrinterProfile { printer_connection_data: self.printer_connection_data }
    }
}

} // verus!
