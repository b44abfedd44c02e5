//! What the driver needs from a USB HID backend.

use vstd::prelude::*;

verus! {

/// A USB HID backend through which the device can be reached. Each call is
/// one exchange with the device, and may fail with the backend's own error.
///
/// What an exchange can yield is the backend's to say: each method comes
/// with a relation that holds of every call of it. The driver's contracts
/// speak of the backend through these relations alone.
pub trait UsbInterface {
    /// The backend's error. The driver hands it on without looking inside.
    type InterfaceError;

    /// Whether a read into a buffer that holds `before` can leave `after`
    /// in it and return `received`. A backend that does not say admits
    /// every outcome.
    open spec fn read_yields(
        &self,
        before: Seq<u8>,
        after: Seq<u8>,
        received: Result<usize, Self::InterfaceError>,
    ) -> bool {
        true
    }

    /// Whether a request for the feature report `report_id` into a buffer
    /// that holds `before` can leave `after` in it and return `received`.
    /// A backend that does not say admits every outcome.
    open spec fn feature_report_yields(
        &self,
        report_id: u8,
        before: Seq<u8>,
        after: Seq<u8>,
        received: Result<usize, Self::InterfaceError>,
    ) -> bool {
        true
    }

    /// Whether a request for the serial number can return `serial`. A
    /// backend that does not say admits every outcome.
    open spec fn serial_number_yields(
        &self,
        serial: Result<Option<String>, Self::InterfaceError>,
    ) -> bool {
        true
    }

    /// Reads an input report into `buf` and returns how many bytes of it
    /// were received, which may be fewer than `buf` holds.
    fn hid_read(&self, buf: &mut [u8]) -> (received: Result<usize, Self::InterfaceError>)
        ensures
            self.read_yields(old(buf)@, final(buf)@, received),
    ;

    /// Reads the feature report `report_id` into `buf` and returns how many
    /// bytes of it were received. The report's data starts at `buf[0]`: the
    /// report id is not part of it. The caller provides a buffer of one byte
    /// more than the data it asks for.
    fn hid_get_feature_report(
        &self,
        report_id: u8,
        buf: &mut [u8],
    ) -> (received: Result<usize, Self::InterfaceError>)
        requires
            old(buf)@.len() > 0,
        ensures
            self.feature_report_yields(report_id, old(buf)@, final(buf)@, received),
    ;

    /// Reads the serial number of the device, `None` if it has none.
    fn serial_number(&self) -> (serial: Result<Option<String>, Self::InterfaceError>)
        ensures
            self.serial_number_yields(serial),
    ;
}

} // verus!
