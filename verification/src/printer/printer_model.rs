use super::printer_profile::{default_timeout, PrinterConnectionData, PrinterProfile, DEFAULT_TIMEOUT_SECS};
use std::time::Duration;
use vstd::prelude::*;

verus! {

/// Printers known to this library
pub enum PrinterModel {
    /// ZKTeco mini printer
    ZKTeco,
    /// Epson most used printer
    TMT20,
}

impl PrinterModel {
    /// Vendor id, product id, write endpoint and read endpoint of each model.
    pub open spec fn ids(self) -> (u16, u16, Option<u8>, Option<u8>) {
        match self {
            PrinterModel::ZKTeco => (0x6868u16, 0x0200u16, Some(0x02u8), None),
            PrinterModel::TMT20 => (0x04b8u16, 0x0e15u16, Some(0x01u8), None),
        }
    }

    /// Get the vendor, product id and endpoint of the current model
    pub fn vp_id(&self) -> (ids: (u16, u16, Option<u8>, Option<u8>))
        ensures
            ids == self.ids(),
    {
        match self {
            PrinterModel::ZKTeco => (0x6868, 0x0200, Some(0x02), None),
            PrinterModel::TMT20 => (0x04b8, 0x0e15, Some(0x01), None),
        }
    }

    /// Obtain the details to connect to a printer model through usb
    pub fn usb_profile(&self) -> (profile: PrinterProfile)
        ensures
            profile.data() == (PrinterConnectionData::Usb {
                vendor_id: self.ids().0,
                product_id: self.ids().1,
                endpoint_w: self.ids().2,
                endpoint_r: self.ids().3,
                timeout: default_timeout(),
            }),
    {
        let (vendor_id, product_id, endpoint_w, endpoint_r) = self.vp_id();
        PrinterProfile::new(
            PrinterConnectionData::Usb {
                vendor_id,
                product_id,
                endpoint_w,
                endpoint_r,
                timeout: Duration::from_secs(DEFAULT_TIMEOUT_SECS),
            },
        )
    }
}

} // verus!
