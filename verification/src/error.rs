//! The errors of the driver, and the texts that describe them.

use crate::text::{decimal_string, decimal_text};
use vstd::prelude::*;
use vstd::string::to_string_from_display_ensures;

verus! {

/// Why a request to the device failed.
#[derive(Debug)]
pub enum GpsdoError<InterfaceError> {
    /// The transport failed. The cause is kept as the transport gave it.
    UsbInterfaceError(InterfaceError),
    /// The device answered with fewer bytes than the report needs.
    ShortDataError { expected: usize, received: usize },
}

impl<InterfaceError> From<InterfaceError> for GpsdoError<InterfaceError> {
    fn from(cause: InterfaceError) -> (error: Self) {
        GpsdoError::UsbInterfaceError(cause)
    }
}

impl<InterfaceError> vstd::std_specs::convert::FromSpecImpl<InterfaceError> for GpsdoError<InterfaceError> {
    open spec fn obeys_from_spec() -> bool {
        true
    }

    open spec fn from_spec(cause: InterfaceError) -> Self {
        GpsdoError::UsbInterfaceError(cause)
    }
}

/// Text of a transport failure whose cause reads `cause`.
pub open spec fn transport_failure_text(cause: Seq<char>) -> Seq<char> {
    "underlying usb interface errored: "@ + cause
}

/// Text of an answer of `received` bytes where `expected` were needed.
pub open spec fn short_data_text(expected: nat, received: nat) -> Seq<char> {
    "received less data than expected from device, expected "@ + decimal_text(expected)
        + ", received "@ + decimal_text(received)
}

/// Describes a transport failure whose cause reads `cause`. The cause's text
/// is taken over unchanged, after a fixed introduction.
pub fn transport_failure_message(cause: &str) -> (text: String)
    ensures
        text@ == transport_failure_text(cause@),
{
    String::from_str("underlying usb interface errored: ").concat(cause)
}

/// Describes an answer of `received` bytes where `expected` were needed.
pub fn short_data_message(expected: usize, received: usize) -> (text: String)
    ensures
        text@ == short_data_text(expected as nat, received as nat),
{
    let expected_text = decimal_string(expected);
    let received_text = decimal_string(received);
    let text = String::from_str("received less data than expected from device, expected ").concat(
        expected_text.as_str(),
    ).concat(", received ").concat(received_text.as_str());
    assert(text@ =~= short_data_text(expected as nat, received as nat));
    text
}

impl<InterfaceError> GpsdoError<InterfaceError> {
    /// Describes the error for a reader. A transport failure is described by
    /// the text its cause displays as.
    pub fn message(&self) -> (text: String) where InterfaceError: core::fmt::Display
        ensures
            self matches GpsdoError::UsbInterfaceError(cause) ==> exists|cause_text: String|
                #[trigger] to_string_from_display_ensures(cause, cause_text) && text@
                    == transport_failure_text(cause_text@),
            (self matches GpsdoError::ShortDataError { expected, received } ==> text@
                == short_data_text(expected as nat, received as nat)),
    {
        match self {
            GpsdoError::UsbInterfaceError(cause) => {
                let cause_text = cause.to_string();
                transport_failure_message(cause_text.as_str())
            },
            GpsdoError::ShortDataError { expected, received } => short_data_message(
                *expected,
                *received,
            ),
        }
    }
}

} // verus!
