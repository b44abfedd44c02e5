//! The rules of the HID backend: which of the attached devices it takes, and
//! how it frames a feature report. The exchange with the device itself is
//! left to the caller.

use crate::consts::{PID_LEO_BODNAR_GPSDO, PID_LEO_BODNAR_MINI_GPSDO, VID_LEO_BONDAR};
use vstd::prelude::*;

verus! {

/// What the HID layer tells about an attached device before it is opened.
pub struct DeviceDescriptor {
    /// USB vendor identifier.
    pub vendor_id: u16,
    /// USB product identifier.
    pub product_id: u16,
    /// Serial number, if the device reports one.
    pub serial_number: Option<String>,
}

/// Whether the identifiers are those of a supported oscillator.
pub open spec fn is_supported(vendor_id: u16, product_id: u16) -> bool {
    vendor_id == VID_LEO_BONDAR && (product_id == PID_LEO_BODNAR_GPSDO || product_id
        == PID_LEO_BODNAR_MINI_GPSDO)
}

/// Whether the device reports exactly the serial number `serial_number`.
pub open spec fn has_serial_number(descriptor: DeviceDescriptor, serial_number: Seq<char>) -> bool {
    descriptor.serial_number matches Some(serial) && serial@ == serial_number
}

/// Whether `descriptor` is a device that a search may return. With a serial
/// number asked for, any device of the vendor that reports this serial
/// number; without one, any supported oscillator.
pub open spec fn is_wanted(descriptor: DeviceDescriptor, serial_number: Option<String>) -> bool {
    match serial_number {
        Some(wanted) => descriptor.vendor_id == VID_LEO_BONDAR && has_serial_number(
            descriptor,
            wanted@,
        ),
        None => is_supported(descriptor.vendor_id, descriptor.product_id),
    }
}

/// The bytes of a reply after the report id in front of them is dropped:
/// the `size` bytes behind the first move one place to the front, the rest
/// stay.
pub open spec fn without_report_id(reply: Seq<u8>, size: int) -> Seq<u8>
    recommends
        0 <= size < reply.len(),
{
    Seq::new(reply.len(), |i: int| if i < size { reply[i + 1] } else { reply[i] })
}

/// Tests whether `descriptor` carries the serial number `wanted`.
fn serial_number_is(descriptor: &DeviceDescriptor, wanted: &String) -> (same: bool)
    ensures
        same == has_serial_number(*descriptor, wanted@),
{
    match &descriptor.serial_number {
        Some(serial) => *serial == *wanted,
        None => false,
    }
}

/// Tests whether `descriptor` is a device that a search for `serial_number`
/// may return.
fn wanted(descriptor: &DeviceDescriptor, serial_number: &Option<String>) -> (wanted: bool)
    ensures
        wanted == is_wanted(*descriptor, *serial_number),
{
    match serial_number {
        Some(serial) => descriptor.vendor_id == VID_LEO_BONDAR && serial_number_is(
            descriptor,
            serial,
        ),
        None => GpsdoHidApiInterface::is_supported_vid_pid(descriptor),
    }
}

/// The HID backend's side of the transport: the choice of the device and the
/// framing of feature reports on the platform at hand.
pub struct GpsdoHidApiInterface {
    reply_keeps_report_id: bool,
}

impl GpsdoHidApiInterface {
    /// Whether the platform's HID layer leaves the report id in front of the
    /// data of a feature report.
    pub closed spec fn keeps_report_id(&self) -> bool {
        self.reply_keeps_report_id
    }

    /// The backend for a platform whose HID layer leaves the report id in
    /// front of a feature report's data (`true`) or hands out the data alone
    /// (`false`).
    pub fn new(reply_keeps_report_id: bool) -> (interface: Self)
        ensures
            interface.keeps_report_id() == reply_keeps_report_id,
    {
        GpsdoHidApiInterface { reply_keeps_report_id }
    }

    /// Whether the platform's HID layer leaves the report id in front of the
    /// data of a feature report.
    pub fn reply_keeps_report_id(&self) -> (keeps: bool)
        ensures
            keeps == self.keeps_report_id(),
    {
        self.reply_keeps_report_id
    }

    /// Whether the device is a supported oscillator, by its vendor and
    /// product identifiers.
    pub fn is_supported_vid_pid(descriptor: &DeviceDescriptor) -> (supported: bool)
        ensures
            supported == is_supported(descriptor.vendor_id, descriptor.product_id),
    {
        let product_id: u16 = descriptor.product_id;
        descriptor.vendor_id == VID_LEO_BONDAR && (product_id == PID_LEO_BODNAR_GPSDO || product_id
            == PID_LEO_BODNAR_MINI_GPSDO)
    }

    /// Finds the oscillator among the attached devices: the first in
    /// `devices` that is wanted, by its position, or `None` if none is.
    pub fn find_gpsdo(
        devices: &[DeviceDescriptor],
        serial_number: Option<String>,
    ) -> (found: Option<usize>)
        ensures
            found matches Some(index) ==> index < devices@.len() && is_wanted(
                devices@[index as int],
                serial_number,
            ),
            found matches Some(index) ==> forall|i: int|
                0 <= i < index ==> !is_wanted(#[trigger] devices@[i], serial_number),
            found is None ==> forall|i: int|
                0 <= i < devices@.len() ==> !is_wanted(#[trigger] devices@[i], serial_number),
    {
        let mut index: usize = 0;
        while index < devices.len()
            invariant
                index <= devices@.len(),
                forall|i: int| 0 <= i < index ==> !is_wanted(#[trigger] devices@[i], serial_number),
            decreases devices@.len() - index,
        {
            if wanted(&devices[index], &serial_number) {
                return Some(index);
            }
            index = index + 1;
        }
        None
    }

    /// Prepares the buffer of a feature-report request: the HID layer takes
    /// the report id from the first byte.
    pub fn begin_feature_report(&self, report_id: u8, buf: &mut [u8])
        requires
            old(buf)@.len() > 0,
        ensures
            final(buf)@ == old(buf)@.update(0, report_id),
    {
        buf[0] = report_id;
    }

    /// Brings the reply to a feature-report request into the form the driver
    /// reads, with the data at the start of `buf`, and returns the number of
    /// bytes received. `size` is what the HID layer returned. Where the
    /// layer leaves the report id in front, the `size` bytes behind it move
    /// one place to the front; elsewhere the buffer stays as it is.
    pub fn end_feature_report(
        &self,
        report_id: u8,
        buf: &mut [u8],
        size: usize,
    ) -> (received: usize)
        requires
            self.keeps_report_id() ==> size < old(buf)@.len() && old(buf)@[0] == report_id,
        ensures
            received == size,
            self.keeps_report_id() ==> final(buf)@ == without_report_id(old(buf)@, size as int),
            !self.keeps_report_id() ==> final(buf)@ == old(buf)@,
    {
        if self.reply_keeps_report_id {
            let ghost reply = buf@;
            let mut index: usize = 0;
            while index < size
                invariant
                    index <= size < buf@.len(),
                    buf@.len() == reply.len(),
                    forall|i: int| 0 <= i < index ==> buf@[i] == reply[i + 1],
                    forall|i: int| index <= i < buf@.len() ==> buf@[i] == reply[i],
                decreases size - index,
            {
                let next: u8 = buf[index + 1];
                buf[index] = next;
                index = index + 1;
            }
            assert(buf@ =~= without_report_id(reply, size as int));
        }
        size
    }
}

} // verus!
