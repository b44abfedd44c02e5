//! Lock status of the oscillator, as carried by the two-byte status report.

use crate::layout::{bit0, bit1, is_bit0_set, is_bit1_set};
use vstd::prelude::*;

verus! {

/// Number of bytes of a status report.
pub const STATUS_REPORT_LEN: usize = 2;

/// Mask of the two lock bits in the second byte of a status report.
pub const LOCK_BITS: u8 = 0x03;

/// Mathematical content of a [`GpsdoStatus`].
pub struct GpsdoStatusView {
    /// Number of times the lock was lost since the device started.
    pub loss_count: nat,
    /// Whether the receiver is locked to the satellites.
    pub sat_lock: bool,
    /// Whether the PLL is locked.
    pub pll_lock: bool,
    /// Whether the device as a whole is locked.
    pub locked: bool,
}

impl GpsdoStatusView {
    /// The overall lock is the conjunction of the two partial locks.
    pub open spec fn wf(self) -> bool {
        &&& self.loss_count <= u8::MAX
        &&& self.locked == (self.sat_lock && self.pll_lock)
    }
}

/// What a status report says. Byte 0 counts the lock losses. In byte 1 a
/// *clear* bit means locked: bit 0 for the satellites, bit 1 for the PLL, and
/// the device is locked when neither of the two is set.
pub open spec fn status_of_report(report: Seq<u8>) -> GpsdoStatusView
    recommends
        report.len() >= STATUS_REPORT_LEN,
{
    GpsdoStatusView {
        loss_count: report[0] as nat,
        sat_lock: !bit0(report[1]),
        pll_lock: !bit1(report[1]),
        locked: report[1] % 4 == 0,
    }
}

/// For every status report the overall lock holds exactly when both the
/// satellite lock and the PLL lock hold.
pub proof fn lemma_status_locked_iff_both_locks(report: Seq<u8>)
    requires
        report.len() >= STATUS_REPORT_LEN,
    ensures
        status_of_report(report).locked == (status_of_report(report).sat_lock && status_of_report(
            report,
        ).pll_lock),
        status_of_report(report).wf(),
{
    let flags = report[1];
    assert((flags % 4 == 0) == (flags % 2 != 1 && (flags / 2) % 2 != 1)) by (bit_vector);
}

/// Lock status of the oscillator at the time of one status report.
#[derive(Debug)]
pub struct GpsdoStatus {
    loss_count: u8,
    sat_lock: bool,
    pll_lock: bool,
    locked: bool,
}

impl View for GpsdoStatus {
    type V = GpsdoStatusView;

    closed spec fn view(&self) -> GpsdoStatusView {
        GpsdoStatusView {
            loss_count: self.loss_count as nat,
            sat_lock: self.sat_lock,
            pll_lock: self.pll_lock,
            locked: self.locked,
        }
    }
}

impl GpsdoStatus {
    #[verifier::type_invariant]
    spec fn inv(self) -> bool {
        self@.wf()
    }

    /// Decodes the first two bytes of a status report.
    pub fn from_report(report: &[u8]) -> (status: GpsdoStatus)
        requires
            report@.len() >= STATUS_REPORT_LEN,
        ensures
            status@ == status_of_report(report@),
    {
        let loss_count: u8 = report[0];
        let flags: u8 = report[1];
        let sat_lock = !is_bit0_set(flags);
        let pll_lock = !is_bit1_set(flags);
        let locked = flags & LOCK_BITS == 0;
        assert((flags & 0x03 == 0) == (flags % 4 == 0)) by (bit_vector);
        proof {
            lemma_status_locked_iff_both_locks(report@);
        }
        GpsdoStatus { loss_count, sat_lock, pll_lock, locked }
    }

    /// Number of times the lock was lost since the device started.
    pub fn loss_count(&self) -> (count: u8)
        ensures
            count == self@.loss_count,
    {
        self.loss_count
    }

    /// Whether the receiver is locked to the satellites.
    pub fn sat_locked(&self) -> (locked: bool)
        ensures
            locked == self@.sat_lock,
    {
        self.sat_lock
    }

    /// Whether the PLL is locked.
    pub fn pll_locked(&self) -> (locked: bool)
        ensures
            locked == self@.pll_lock,
    {
        self.pll_lock
    }

    /// Whether the device as a whole is locked, which it is exactly when both
    /// the satellites and the PLL are.
    pub fn locked(&self) -> (locked: bool)
        ensures
            locked == self@.locked,
            locked == (self@.sat_lock && self@.pll_lock),
    {
        proof {
            use_type_invariant(self);
        }
        self.locked
    }
}

} // verus!
