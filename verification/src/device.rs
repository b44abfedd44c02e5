//! The device itself: one request per call, decoded into a value or an
//! error.

use crate::config::{
    config_of_report, lemma_config_of_report_wf, GpsdoConfig, CONFIG_BUFFER_LEN, CONFIG_REPORT_ID,
    CONFIG_REPORT_LEN,
};
use crate::error::GpsdoError;
use crate::status::{
    lemma_status_locked_iff_both_locks, status_of_report, GpsdoStatus, STATUS_REPORT_LEN,
};
use crate::transport::UsbInterface;
use vstd::prelude::*;

verus! {

/// The content of a request buffer of `len` bytes before the transport fills
/// it: all zero.
pub open spec fn zeroed(len: nat) -> Seq<u8> {
    Seq::new(len, |i: int| 0u8)
}

/// Whether `result` is what a configuration request yields when the
/// transport answered `transfer` and left `report` in the buffer: the
/// transport's failure, wrapped; or a complaint about an answer shorter than
/// `CONFIG_REPORT_LEN` bytes; or else the configuration that `report` holds.
pub open spec fn is_config_outcome<E>(
    transfer: Result<usize, E>,
    report: Seq<u8>,
    result: Result<GpsdoConfig, GpsdoError<E>>,
) -> bool {
    match transfer {
        Err(cause) => result == Err::<GpsdoConfig, GpsdoError<E>>(
            GpsdoError::UsbInterfaceError(cause),
        ),
        Ok(received) => if received < CONFIG_REPORT_LEN {
            result == Err::<GpsdoConfig, GpsdoError<E>>(
                GpsdoError::ShortDataError { expected: CONFIG_REPORT_LEN, received },
            )
        } else {
            result matches Ok(config) && config@ == config_of_report(report)
        },
    }
}

/// Whether `result` is what a status request yields when the transport
/// answered `transfer` and left `report` in the buffer: the transport's
/// failure, wrapped; or a complaint about an answer shorter than
/// `STATUS_REPORT_LEN` bytes; or else the status that `report` holds.
pub open spec fn is_status_outcome<E>(
    transfer: Result<usize, E>,
    report: Seq<u8>,
    result: Result<GpsdoStatus, GpsdoError<E>>,
) -> bool {
    match transfer {
        Err(cause) => result == Err::<GpsdoStatus, GpsdoError<E>>(
            GpsdoError::UsbInterfaceError(cause),
        ),
        Ok(received) => if received < STATUS_REPORT_LEN {
            result == Err::<GpsdoStatus, GpsdoError<E>>(
                GpsdoError::ShortDataError { expected: STATUS_REPORT_LEN, received },
            )
        } else {
            result matches Ok(status) && status@ == status_of_report(report)
        },
    }
}

/// What a serial-number request yields when the transport answered
/// `transfer`: the transport's failure, wrapped, or else its answer as it
/// is. A device without a serial number is no failure.
pub open spec fn serial_number_outcome<E>(transfer: Result<Option<String>, E>) -> Result<
    Option<String>,
    GpsdoError<E>,
> {
    match transfer {
        Err(cause) => Err(GpsdoError::UsbInterfaceError(cause)),
        Ok(serial) => Ok(serial),
    }
}

/// Turns the transport's answer to a configuration request into the
/// driver's: `transfer` is what the transport returned, `report` the buffer
/// it filled.
pub fn config_from_transfer<E>(
    transfer: Result<usize, E>,
    report: &[u8; CONFIG_BUFFER_LEN],
) -> (result: Result<GpsdoConfig, GpsdoError<E>>)
    ensures
        is_config_outcome(transfer, report@, result),
        result is Ok <==> (transfer matches Ok(received) && received >= CONFIG_REPORT_LEN),
{
    match transfer {
        Err(cause) => Err(GpsdoError::from(cause)),
        Ok(received) => {
            if received < CONFIG_REPORT_LEN {
                Err(GpsdoError::ShortDataError { expected: CONFIG_REPORT_LEN, received })
            } else {
                Ok(GpsdoConfig::from_report(report))
            }
        },
    }
}

/// Turns the transport's answer to a status request into the driver's:
/// `transfer` is what the transport returned, `report` the buffer it filled.
/// An answer of one byte is an error like an empty one.
pub fn status_from_transfer<E>(
    transfer: Result<usize, E>,
    report: &[u8; STATUS_REPORT_LEN],
) -> (result: Result<GpsdoStatus, GpsdoError<E>>)
    ensures
        is_status_outcome(transfer, report@, result),
        result is Ok <==> (transfer matches Ok(received) && received >= STATUS_REPORT_LEN),
{
    match transfer {
        Err(cause) => Err(GpsdoError::from(cause)),
        Ok(received) => {
            if received < STATUS_REPORT_LEN {
                Err(GpsdoError::ShortDataError { expected: STATUS_REPORT_LEN, received })
            } else {
                Ok(GpsdoStatus::from_report(report))
            }
        },
    }
}

/// Turns the transport's answer to a serial-number request into the
/// driver's.
pub fn serial_number_from_transfer<E>(
    transfer: Result<Option<String>, E>,
) -> (result: Result<Option<String>, GpsdoError<E>>)
    ensures
        result == serial_number_outcome(transfer),
{
    match transfer {
        Err(cause) => Err(GpsdoError::from(cause)),
        Ok(serial) => Ok(serial),
    }
}

/// A GPS-disciplined oscillator behind a USB HID backend. The device borrows
/// the backend and keeps no state of its own.
pub struct GpsdoDevice<'a, Interface: UsbInterface> {
    interface: &'a Interface,
}

impl<'a, Interface: UsbInterface> GpsdoDevice<'a, Interface> {
    /// The backend that the device talks through.
    pub closed spec fn interface(&self) -> &'a Interface {
        self.interface
    }

    /// A device reached through `interface`.
    pub fn new(interface: &'a Interface) -> (device: Self)
        ensures
            device.interface() == interface,
    {
        GpsdoDevice { interface }
    }

    /// Asks the backend for the serial number of the device, once. The
    /// result is the backend's answer, with a failure wrapped.
    pub fn serial_number(
        &self,
    ) -> (result: Result<Option<String>, GpsdoError<Interface::InterfaceError>>)
        ensures
            exists|transfer: Result<Option<String>, Interface::InterfaceError>|
                #[trigger] self.interface().serial_number_yields(transfer) && result
                    == serial_number_outcome(transfer),
            result matches Err(error) ==> error is UsbInterfaceError,
    {
        let transfer = self.interface.serial_number();
        let result = serial_number_from_transfer(transfer);
        assert(self.interface().serial_number_yields(transfer) && result == serial_number_outcome(
            transfer,
        ));
        result
    }

    /// Asks the backend for the configuration report, once, into a zeroed
    /// buffer of `CONFIG_BUFFER_LEN` bytes, and decodes the answer.
    pub fn config(&self) -> (result: Result<GpsdoConfig, GpsdoError<Interface::InterfaceError>>)
        ensures
            exists|transfer: Result<usize, Interface::InterfaceError>, report: Seq<u8>|
                report.len() == CONFIG_BUFFER_LEN && #[trigger] self.interface().feature_report_yields(
                    CONFIG_REPORT_ID,
                    zeroed(CONFIG_BUFFER_LEN as nat),
                    report,
                    transfer,
                ) && is_config_outcome(transfer, report, result),
            (result matches Err(GpsdoError::ShortDataError { expected, received }) ==> expected
                == CONFIG_REPORT_LEN && received < CONFIG_REPORT_LEN),
            result matches Ok(config) ==> config@.wf(),
    {
        let mut buf = [0u8; CONFIG_BUFFER_LEN];
        assert(buf@ =~= zeroed(CONFIG_BUFFER_LEN as nat));
        let transfer = self.interface.hid_get_feature_report(CONFIG_REPORT_ID, &mut buf);
        let result = config_from_transfer(transfer, &buf);
        assert(buf@.len() == CONFIG_BUFFER_LEN);
        assert(self.interface().feature_report_yields(
            CONFIG_REPORT_ID,
            zeroed(CONFIG_BUFFER_LEN as nat),
            buf@,
            transfer,
        ) && is_config_outcome(transfer, buf@, result));
        proof {
            lemma_config_of_report_wf(buf@);
        }
        result
    }

    /// Asks the backend for a status report, once, into a zeroed buffer of
    /// `STATUS_REPORT_LEN` bytes, and decodes the answer.
    pub fn status(&self) -> (result: Result<GpsdoStatus, GpsdoError<Interface::InterfaceError>>)
        ensures
            exists|transfer: Result<usize, Interface::InterfaceError>, report: Seq<u8>|
                report.len() == STATUS_REPORT_LEN && #[trigger] self.interface().read_yields(
                    zeroed(STATUS_REPORT_LEN as nat),
                    report,
                    transfer,
                ) && is_status_outcome(transfer, report, result),
            (result matches Err(GpsdoError::ShortDataError { expected, received }) ==> expected
                == STATUS_REPORT_LEN && received < STATUS_REPORT_LEN),
            result matches Ok(status) ==> status@.wf(),
    {
        let mut buf = [0u8; STATUS_REPORT_LEN];
        assert(buf@ =~= zeroed(STATUS_REPORT_LEN as nat));
        let transfer = self.interface.hid_read(&mut buf);
        let result = status_from_transfer(transfer, &buf);
        assert(buf@.len() == STATUS_REPORT_LEN);
        assert(self.interface().read_yields(zeroed(STATUS_REPORT_LEN as nat), buf@, transfer)
            && is_status_outcome(transfer, buf@, result));
        proof {
            lemma_status_locked_iff_both_locks(buf@);
        }
        result
    }
}

} // verus!
