use vstd::prelude::*;
use vstd::string::*;

use crate::text::{decimal, decimal_text, join};

verus! {

/// Why a request could not be served.
#[derive(Debug)]
pub enum UnifiError {
    /// The request carried no machine identifier.
    MissingSystemId,
    /// No managed device lists a machine with this identifier.
    MachineNotFound(String),
    /// The controller's device listing failed.
    DeviceListError(String),
    /// The controller's base address is malformed.
    FailedToConstructUrl(String),
    /// No device matches this address or identifier.
    DeviceNotFound(String),
    /// The device has no port with this index.
    MachinePortIdIncorrect(usize),
    /// The controller did not accept the port override.
    FailedToPowerOn(String),
    /// The machine identifier of the request is not text.
    FailedToConvertSystemId(String),
    /// The controller refused the login.
    AuthError(String),
}

/// A `UnifiError` with its texts as sequences of characters.
pub enum ErrorView {
    MissingSystemId,
    MachineNotFound(Seq<char>),
    DeviceListError(Seq<char>),
    FailedToConstructUrl(Seq<char>),
    DeviceNotFound(Seq<char>),
    MachinePortIdIncorrect(usize),
    FailedToPowerOn(Seq<char>),
    FailedToConvertSystemId(Seq<char>),
    AuthError(Seq<char>),
}

impl View for UnifiError {
    type V = ErrorView;

    open spec fn view(&self) -> ErrorView {
        match self {
            UnifiError::MissingSystemId => ErrorView::MissingSystemId,
            UnifiError::MachineNotFound(s) => ErrorView::MachineNotFound(s@),
            UnifiError::DeviceListError(s) => ErrorView::DeviceListError(s@),
            UnifiError::FailedToConstructUrl(s) => ErrorView::FailedToConstructUrl(s@),
            UnifiError::DeviceNotFound(s) => ErrorView::DeviceNotFound(s@),
            UnifiError::MachinePortIdIncorrect(p) => ErrorView::MachinePortIdIncorrect(*p),
            UnifiError::FailedToPowerOn(s) => ErrorView::FailedToPowerOn(s@),
            UnifiError::FailedToConvertSystemId(s) => ErrorView::FailedToConvertSystemId(s@),
            UnifiError::AuthError(s) => ErrorView::AuthError(s@),
        }
    }
}

/// The HTTP status that answers a request failed with `e`: 400 for a request
/// whose machine identifier is missing or not text (the caller's fault), 422
/// for a malformed controller address, 500 for every other failure.
pub open spec fn status_of(e: ErrorView) -> u16 {
    match e {
        ErrorView::MissingSystemId => 400,
        ErrorView::FailedToConvertSystemId(_) => 400,
        ErrorView::FailedToConstructUrl(_) => 422,
        _ => 500,
    }
}

/// The human-readable message that answers a request failed with `e`.
pub open spec fn message_of(e: ErrorView) -> Seq<char> {
    match e {
        ErrorView::DeviceListError(s) => "Failed to list devices, error: "@ + s,
        ErrorView::FailedToConstructUrl(s) => s,
        ErrorView::MissingSystemId => "System ID was not found in MaaS request."@,
        ErrorView::DeviceNotFound(s) => "Device with mac address "@ + s + " was not found!"@,
        ErrorView::MachineNotFound(s) => "Machine with system id "@ + s + " was not found!"@,
        ErrorView::MachinePortIdIncorrect(p) => "Found no machine on port "@ + decimal(p as nat)
            + "!"@,
        ErrorView::FailedToPowerOn(s) => "Failed to power on a port on the device "@ + s + "!"@,
        ErrorView::FailedToConvertSystemId(s) => "Failed to convert system_id to string: "@ + s,
        ErrorView::AuthError(s) => "Failed to log in to the controller: "@ + s,
    }
}

fn enclose(head: &str, s: &String, tail: &str) -> (r: String)
    ensures
        r@ == head@ + s@ + tail@,
{
    let mut r = join(head, s.as_str());
    r.append(tail);
    r
}

impl UnifiError {
    /// The HTTP status of the answer to a request that failed with this error.
    pub fn status_code(&self) -> (r: u16)
        ensures
            r == status_of(self@),
    {
        match self {
            UnifiError::MissingSystemId => 400,
            UnifiError::FailedToConvertSystemId(_) => 400,
            UnifiError::FailedToConstructUrl(_) => 422,
            _ => 500,
        }
    }

    /// The message of the answer to a request that failed with this error.
    pub fn message(&self) -> (r: String)
        ensures
            r@ == message_of(self@),
    {
        match self {
            UnifiError::DeviceListError(s) => join("Failed to list devices, error: ", s.as_str()),
            UnifiError::FailedToConstructUrl(s) => s.clone(),
            UnifiError::MissingSystemId => String::from_str("System ID was not found in MaaS request."),
            UnifiError::DeviceNotFound(s) => enclose("Device with mac address ", s, " was not found!"),
            UnifiError::MachineNotFound(s) => enclose("Machine with system id ", s, " was not found!"),
            UnifiError::MachinePortIdIncorrect(p) => {
                let digits = decimal_text(*p);
                enclose("Found no machine on port ", &digits, "!")
            },
            UnifiError::FailedToPowerOn(s) => enclose(
                "Failed to power on a port on the device ",
                s,
                "!",
            ),
            UnifiError::FailedToConvertSystemId(s) => join(
                "Failed to convert system_id to string: ",
                s.as_str(),
            ),
            UnifiError::AuthError(s) => join("Failed to log in to the controller: ", s.as_str()),
        }
    }
}

} // verus!
