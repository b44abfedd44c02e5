//! Clock-synthesis configuration of the oscillator, as carried by the
//! configuration feature report, and the frequencies that follow from it.

use crate::layout::{
    bit0, bit1, is_bit0_set, is_bit1_set, lemma_register24_bound, read_register24, register24,
    register_limit,
};
use vstd::prelude::*;

verus! {

/// Identifier of the feature report that carries the configuration.
pub const CONFIG_REPORT_ID: u8 = 9;

/// Number of leading bytes of the configuration report that carry fields.
pub const CONFIG_REPORT_LEN: usize = 21;

/// Size of the buffer handed to the transport for a configuration report.
/// Bytes past `CONFIG_REPORT_LEN` are reserved.
pub const CONFIG_BUFFER_LEN: usize = 61;

/// What the hardware adds to the stored code of a high-speed divider.
pub const HIGH_SPEED_OFFSET: u16 = 4;

/// Mathematical content of a [`GpsdoConfig`].
pub struct GpsdoConfigView {
    /// Whether output 1 is enabled.
    pub output1: bool,
    /// Whether output 2 is enabled.
    pub output2: bool,
    /// Code of the output drive level.
    pub level: u8,
    /// Reference input frequency in Hz.
    pub fin: nat,
    /// Divider of the reference input.
    pub n3: nat,
    /// High-speed divider of the feedback path.
    pub n2_hs: nat,
    /// Low-speed divider of the feedback path.
    pub n2_ls: nat,
    /// High-speed divider shared by both outputs.
    pub n1_hs: nat,
    /// Low-speed divider of output 1.
    pub nc1_ls: nat,
    /// Low-speed divider of output 2.
    pub nc2_ls: nat,
    /// Code of the skew between the two outputs.
    pub skew: u8,
    /// Code of the PLL bandwidth mode.
    pub bw: u8,
}

impl GpsdoConfigView {
    /// The ranges that the report format gives the fields. No divider is
    /// zero.
    pub open spec fn wf(self) -> bool {
        &&& self.fin < register_limit()
        &&& 1 <= self.n3 <= register_limit()
        &&& 4 <= self.n2_hs <= 259
        &&& 1 <= self.n2_ls <= register_limit()
        &&& 4 <= self.n1_hs <= 259
        &&& 1 <= self.nc1_ls <= register_limit()
        &&& 1 <= self.nc2_ls <= register_limit()
    }

    /// Frequency at the phase detector: the reference divided by `n3`.
    pub open spec fn f3(self) -> nat {
        self.fin / self.n3
    }

    /// Frequency of the PLL's oscillator.
    pub open spec fn fosc(self) -> nat {
        self.fin * self.n2_hs * self.n2_ls / self.n3
    }

    /// Frequency at output 1.
    pub open spec fn fout1(self) -> nat {
        self.fosc() / (self.n1_hs * self.nc1_ls)
    }

    /// Frequency at output 2.
    pub open spec fn fout2(self) -> nat {
        self.fosc() / (self.n1_hs * self.nc2_ls)
    }
}

/// What a configuration report says. Registers are 24 bits wide and
/// little-endian; the low-speed dividers and `n3` are stored less one, the
/// high-speed dividers less four.
pub open spec fn config_of_report(report: Seq<u8>) -> GpsdoConfigView
    recommends
        report.len() >= CONFIG_REPORT_LEN,
{
    GpsdoConfigView {
        output1: bit0(report[0]),
        output2: bit1(report[0]),
        level: report[1],
        fin: register24(report, 2),
        n3: register24(report, 5) + 1,
        n2_hs: report[8] as nat + 4,
        n2_ls: register24(report, 9) + 1,
        n1_hs: report[12] as nat + 4,
        nc1_ls: register24(report, 13) + 1,
        nc2_ls: register24(report, 16) + 1,
        skew: report[19],
        bw: report[20],
    }
}

/// Whatever the bytes of a report are, every divider it encodes is at least
/// 1, and every field is within the range of its encoding.
pub proof fn lemma_config_of_report_wf(report: Seq<u8>)
    requires
        report.len() >= CONFIG_REPORT_LEN,
    ensures
        config_of_report(report).n3 >= 1,
        config_of_report(report).n2_ls >= 1,
        config_of_report(report).nc1_ls >= 1,
        config_of_report(report).nc2_ls >= 1,
        config_of_report(report).n2_hs >= 4,
        config_of_report(report).n1_hs >= 4,
        config_of_report(report).wf(),
{
    lemma_register24_bound(report, 2);
    lemma_register24_bound(report, 5);
    lemma_register24_bound(report, 9);
    lemma_register24_bound(report, 13);
    lemma_register24_bound(report, 16);
}

/// The divisors of the derived frequencies are never zero, and each derived
/// frequency fits the integer type it is returned in.
pub proof fn lemma_frequencies_bounded(config: GpsdoConfigView)
    requires
        config.wf(),
    ensures
        config.n3 > 0,
        config.n1_hs * config.nc1_ls > 0,
        config.n1_hs * config.nc2_ls > 0,
        config.f3() <= u32::MAX,
        config.fin * config.n2_hs * config.n2_ls <= u64::MAX,
        config.fosc() <= u64::MAX,
        config.fout1() <= config.fosc(),
        config.fout2() <= config.fosc(),
{
    let fin = config.fin as int;
    let n3 = config.n3 as int;
    let n2_hs = config.n2_hs as int;
    let n2_ls = config.n2_ls as int;
    let n1_hs = config.n1_hs as int;
    let nc1_ls = config.nc1_ls as int;
    let nc2_ls = config.nc2_ls as int;
    assert(fin / n3 <= fin) by (nonlinear_arith)
        requires
            0 <= fin,
            1 <= n3,
    ;
    let product = fin * n2_hs * n2_ls;
    assert(0 <= product <= 0x100_0000 * 259 * 0x100_0000) by (nonlinear_arith)
        requires
            product == fin * n2_hs * n2_ls,
            0 <= fin < 0x100_0000,
            4 <= n2_hs <= 259,
            1 <= n2_ls <= 0x100_0000,
    ;
    assert(0 <= product / n3 <= product) by (nonlinear_arith)
        requires
            0 <= product,
            1 <= n3,
    ;
    let fosc = product / n3;
    assert(config.fosc() == fosc);
    let d1 = n1_hs * nc1_ls;
    let d2 = n1_hs * nc2_ls;
    assert(d1 > 0 && fosc / d1 <= fosc) by (nonlinear_arith)
        requires
            d1 == n1_hs * nc1_ls,
            4 <= n1_hs,
            1 <= nc1_ls,
            0 <= fosc,
    ;
    assert(d2 > 0 && fosc / d2 <= fosc) by (nonlinear_arith)
        requires
            d2 == n1_hs * nc2_ls,
            4 <= n1_hs,
            1 <= nc2_ls,
            0 <= fosc,
    ;
}

/// Clock-synthesis configuration of the oscillator at the time of one
/// configuration report.
#[derive(Debug)]
pub struct GpsdoConfig {
    output1: bool,
    output2: bool,
    level: u8,
    fin: u32,
    n3: u32,
    n2_hs: u16,
    n2_ls: u32,
    n1_hs: u16,
    nc1_ls: u32,
    nc2_ls: u32,
    skew: u8,
    bw: u8,
}

impl View for GpsdoConfig {
    type V = GpsdoConfigView;

    closed spec fn view(&self) -> GpsdoConfigView {
        GpsdoConfigView {
            output1: self.output1,
            output2: self.output2,
            level: self.level,
            fin: self.fin as nat,
            n3: self.n3 as nat,
            n2_hs: self.n2_hs as nat,
            n2_ls: self.n2_ls as nat,
            n1_hs: self.n1_hs as nat,
            nc1_ls: self.nc1_ls as nat,
            nc2_ls: self.nc2_ls as nat,
            skew: self.skew,
            bw: self.bw,
        }
    }
}

impl GpsdoConfig {
    #[verifier::type_invariant]
    spec fn inv(self) -> bool {
        self@.wf()
    }

    /// Decodes the first `CONFIG_REPORT_LEN` bytes of a configuration report.
    /// Later bytes are ignored.
    pub fn from_report(report: &[u8]) -> (config: GpsdoConfig)
        requires
            report@.len() >= CONFIG_REPORT_LEN,
        ensures
            config@ == config_of_report(report@),
            config@.wf(),
    {
        let output1 = is_bit0_set(report[0]);
        let output2 = is_bit1_set(report[0]);
        let level: u8 = report[1];
        let fin: u32 = read_register24(report, 2);
        let n3: u32 = read_register24(report, 5) + 1;
        let n2_hs: u16 = report[8] as u16 + HIGH_SPEED_OFFSET;
        let n2_ls: u32 = read_register24(report, 9) + 1;
        let n1_hs: u16 = report[12] as u16 + HIGH_SPEED_OFFSET;
        let nc1_ls: u32 = read_register24(report, 13) + 1;
        let nc2_ls: u32 = read_register24(report, 16) + 1;
        let skew: u8 = report[19];
        let bw: u8 = report[20];
        proof {
            lemma_config_of_report_wf(report@);
        }
        GpsdoConfig {
            output1,
            output2,
            level,
            fin,
            n3,
            n2_hs,
            n2_ls,
            n1_hs,
            nc1_ls,
            nc2_ls,
            skew,
            bw,
        }
    }

    /// Whether output 1 is enabled.
    pub fn output1(&self) -> (enabled: bool)
        ensures
            enabled == self@.output1,
    {
        self.output1
    }

    /// Whether output 2 is enabled.
    pub fn output2(&self) -> (enabled: bool)
        ensures
            enabled == self@.output2,
    {
        self.output2
    }

    /// Code of the output drive level, as the device stores it.
    pub fn level(&self) -> (level: u8)
        ensures
            level == self@.level,
    {
        self.level
    }

    /// Reference input frequency in Hz.
    pub fn fin(&self) -> (fin: u32)
        ensures
            fin == self@.fin,
            fin < register_limit(),
    {
        proof {
            use_type_invariant(self);
        }
        self.fin
    }

    /// Divider of the reference input. Never zero.
    pub fn n3(&self) -> (n3: u32)
        ensures
            n3 == self@.n3,
            n3 >= 1,
    {
        proof {
            use_type_invariant(self);
        }
        self.n3
    }

    /// High-speed divider of the feedback path. At least 4.
    pub fn n2_hs(&self) -> (n2_hs: u16)
        ensures
            n2_hs == self@.n2_hs,
            n2_hs >= 4,
    {
        proof {
            use_type_invariant(self);
        }
        self.n2_hs
    }

    /// Low-speed divider of the feedback path. Never zero.
    pub fn n2_ls(&self) -> (n2_ls: u32)
        ensures
            n2_ls == self@.n2_ls,
            n2_ls >= 1,
    {
        proof {
            use_type_invariant(self);
        }
        self.n2_ls
    }

    /// High-speed divider shared by both outputs. At least 4.
    pub fn n1_hs(&self) -> (n1_hs: u16)
        ensures
            n1_hs == self@.n1_hs,
            n1_hs >= 4,
    {
        proof {
            use_type_invariant(self);
        }
        self.n1_hs
    }

    /// Low-speed divider of output 1. Never zero.
    pub fn nc1_ls(&self) -> (nc1_ls: u32)
        ensures
            nc1_ls == self@.nc1_ls,
            nc1_ls >= 1,
    {
        proof {
            use_type_invariant(self);
        }
        self.nc1_ls
    }

    /// Low-speed divider of output 2. Never zero.
    pub fn nc2_ls(&self) -> (nc2_ls: u32)
        ensures
            nc2_ls == self@.nc2_ls,
            nc2_ls >= 1,
    {
        proof {
            use_type_invariant(self);
        }
        self.nc2_ls
    }

    /// Code of the skew between the two outputs.
    pub fn skew(&self) -> (skew: u8)
        ensures
            skew == self@.skew,
    {
        self.skew
    }

    /// Code of the PLL bandwidth mode.
    pub fn bw(&self) -> (bw: u8)
        ensures
            bw == self@.bw,
    {
        self.bw
    }

    /// Frequency at the phase detector, rounded down.
    pub fn f3(&self) -> (f3: u32)
        ensures
            f3 == self@.f3(),
            f3 == self@.fin / self@.n3,
    {
        proof {
            use_type_invariant(self);
        }
        self.fin / self.n3
    }

    /// Frequency of the PLL's oscillator, rounded down. The product is
    /// formed in 64 bits, where it cannot overflow.
    pub fn fosc(&self) -> (fosc: u64)
        ensures
            fosc == self@.fosc(),
            fosc == self@.fin * self@.n2_hs * self@.n2_ls / self@.n3,
    {
        proof {
            use_type_invariant(self);
            lemma_frequencies_bounded(self@);
            let fin = self.fin as int;
            let n2_hs = self.n2_hs as int;
            let n2_ls = self.n2_ls as int;
            assert(fin * (n2_hs * n2_ls) == fin * n2_hs * n2_ls) by (nonlinear_arith);
            assert(0 <= n2_hs * n2_ls <= 259 * 0x100_0000) by (nonlinear_arith)
                requires
                    4 <= n2_hs <= 259,
                    1 <= n2_ls <= 0x100_0000,
            ;
        }
        let feedback: u64 = self.n2_hs as u64 * self.n2_ls as u64;
        let scaled: u64 = self.fin as u64 * feedback;
        scaled / self.n3 as u64
    }

    /// Frequency at output 1, rounded down.
    pub fn fout1(&self) -> (fout1: u64)
        ensures
            fout1 == self@.fout1(),
            fout1 == self@.fosc() / (self@.n1_hs * self@.nc1_ls),
    {
        proof {
            use_type_invariant(self);
            lemma_frequencies_bounded(self@);
            let n1_hs = self.n1_hs as int;
            let nc1_ls = self.nc1_ls as int;
            assert(0 < n1_hs * nc1_ls <= 259 * 0x100_0000) by (nonlinear_arith)
                requires
                    4 <= n1_hs <= 259,
                    1 <= nc1_ls <= 0x100_0000,
            ;
        }
        let divisor: u64 = self.n1_hs as u64 * self.nc1_ls as u64;
        self.fosc() / divisor
    }

    /// Frequency at output 2, rounded down.
    pub fn fout2(&self) -> (fout2: u64)
        ensures
            fout2 == self@.fout2(),
            fout2 == self@.fosc() / (self@.n1_hs * self@.nc2_ls),
    {
        proof {
            use_type_invariant(self);
            lemma_frequencies_bounded(self@);
            let n1_hs = self.n1_hs as int;
            let nc2_ls = self.nc2_ls as int;
            assert(0 < n1_hs * nc2_ls <= 259 * 0x100_0000) by (nonlinear_arith)
                requires
                    4 <= n1_hs <= 259,
                    1 <= nc2_ls <= 0x100_0000,
            ;
        }
        let divisor: u64 = self.n1_hs as u64 * self.nc2_ls as u64;
        self.fosc() / divisor
    }
}

} // verus!
