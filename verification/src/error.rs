use rusb::Error as UsbFault;
use std::io::Error as IoFault;
use vstd::prelude::*;
use vstd::string::StringExecFns;

verus! {

/// `rusb::Error`, the error codes with which the host USB stack reports a
/// failure. Nothing is known here of a value but its identity: it is carried
/// from the caller's transfer into the library's results as it came.
#[verifier::external_type_specification]
#[verifier::external_body]
pub struct ExUsbFault(UsbFault);

/// `Clone::clone` of `rusb::Error`: the type is `Copy`, so the clone is the
/// same code.
pub assume_specification[ <UsbFault as Clone>::clone ](e: &UsbFault) -> (r: UsbFault)
    ensures
        r == *e,
;

/// Errors that this crate reports.
#[derive(Debug, PartialEq, Eq, Clone)]
pub enum Error {
    /// A failure of the host USB stack
    UsbError(UsbFault),
    /// No bulk endpoint could be found
    NoBulkEndpoint,
    /// I/O error
    IoError,
    /// Generic error
    PrinterError(String),
}

/// The text that `Display` of `rusb::Error` writes for an error code.
pub uninterp spec fn usb_fault_text(fault: UsbFault) -> Seq<char>;

/// `Display` of `rusb::Error`, called through `to_string`: the text is chosen by
/// the code alone, and the contract gives it a name.
#[verifier::external_body]
fn describe_fault(fault: &UsbFault) -> (text: String)
    ensures
        text@ == usb_fault_text(*fault),
{
    fault.to_string()
}

impl Error {
    /// The message of the error, where `fault_text` describes the failure of the
    /// host that a `UsbError` holds.
    pub open spec fn text(self, fault_text: Seq<char>) -> Seq<char> {
        match self {
            Error::UsbError(_) => "USB error: "@ + fault_text,
            Error::NoBulkEndpoint => "No bulk endpoint could be found"@,
            Error::IoError => "I/O Error"@,
            Error::PrinterError(detail) => "Printer error: "@ + detail@,
        }
    }

    /// The message of the error, with `fault_text` as the description of the
    /// host's failure in a `UsbError`.
    pub fn describe(&self, fault_text: &str) -> (text: String)
        ensures
            text@ == self.text(fault_text@),
    {
        match self {
            Error::UsbError(_) => String::from_str("USB error: ").concat(fault_text),
            Error::NoBulkEndpoint => String::from_str("No bulk endpoint could be found"),
            Error::IoError => String::from_str("I/O Error"),
            Error::PrinterError(detail) => String::from_str("Printer error: ").concat(
                detail.as_str(),
            ),
        }
    }

    /// The message of the error; a `UsbError` is described in the words of the
    /// host USB stack.
    pub fn to_string(&self) -> (text: String)
        ensures
            text@ == match *self {
                Error::UsbError(fault) => self.text(usb_fault_text(fault)),
                _ => self.text(Seq::empty()),
            },
    {
        match self {
            Error::UsbError(fault) => {
                let fault_text = describe_fault(fault);
                self.describe(fault_text.as_str())
            },
            _ => self.describe(""),
        }
    }
}

/// `std::io::Error`, the error of std's I/O functions. Nothing is known here of
/// a value, and nothing of it is kept.
#[verifier::external_type_specification]
#[verifier::external_body]
pub struct ExIoFault(IoFault);

impl From<IoFault> for Error {
    /// Any failure of std's I/O is an `IoError`.
    fn from(_e: IoFault) -> (error: Error) {
        Error::IoError
    }
}

impl vstd::std_specs::convert::FromSpecImpl<IoFault> for Error {
    open spec fn obeys_from_spec() -> bool {
        true
    }

    open spec fn from_spec(_e: IoFault) -> Error {
        Error::IoError
    }
}

} // verus!
