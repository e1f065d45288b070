//! The clock tree as arithmetic: what a configuration asks for, whether the hardware can run
//! it, the frequencies that result and the register writes that bring them about.
//!
//! [`ClockConfig`] and what hangs on it is the model: plain mathematics over unbounded
//! integers. The executable builder in [`crate::rcc`] is proved to compute exactly these
//! values, and the laws at the end of this file are proved of the model.

use vstd::prelude::*;
use crate::rcc::ClockSource;
use crate::time::Hertz;
use crate::registers::{
    ahb_prescale_code, apb_prescale_code, flash_latency_code, pll_p_code, PllInput, RegisterWrite,
    SystemClock,
};

verus! {

/// Frequency of the internal oscillator.
pub const HSI_HZ: u32 = 16_000_000;

/// The PLL input divider is chosen so that the PLL is fed at most this frequency.
pub const PLL_INPUT_MAX_HZ: u32 = 2_000_000;

/// Lowest frequency at which the VCO locks.
pub const VCO_MIN_HZ: u32 = 100_000_000;

/// Highest frequency at which the VCO locks.
pub const VCO_MAX_HZ: u32 = 432_000_000;

/// Ceiling of the AHB (core, memory and DMA) clock.
pub const HCLK_MAX_HZ: u32 = 168_000_000;

/// Ceiling of the APB1 (low-speed peripheral) clock.
pub const PCLK1_MAX_HZ: u32 = 42_000_000;

/// Ceiling of the APB2 (high-speed peripheral) clock.
pub const PCLK2_MAX_HZ: u32 = 84_000_000;

/// Why a configuration cannot be committed. None of these is recoverable: the configuration
/// is wrong, and running the part on it anyway is not an option.
#[derive(Clone, Copy, PartialEq, Eq, Debug)]
pub enum ClockError {
    /// The PLL input divider `m` is outside 2..=63.
    InvalidPllM,
    /// The PLL multiplier `n` is outside 50..=432.
    InvalidPllN,
    /// The PLL main output divider `p` is not one of 2, 4, 6, 8.
    InvalidPllP,
    /// The PLL secondary output divider `q` is outside 2..=15.
    InvalidPllQ,
    /// The VCO would run outside 100 MHz..=432 MHz.
    VcoOutOfRange,
    /// The AHB divisor is not one of 1, 2, 4, 8, 16, 64, 128, 256, 512.
    InvalidAhbPrescale,
    /// The AHB clock would exceed 168 MHz.
    HclkTooFast,
    /// The APB1 divisor is not one of 1, 2, 4, 8, 16.
    InvalidApb1Prescale,
    /// The APB1 clock would exceed 42 MHz.
    Pclk1TooFast,
    /// The APB2 divisor is not one of 1, 2, 4, 8, 16.
    InvalidApb2Prescale,
    /// The APB2 clock would exceed 84 MHz.
    Pclk2TooFast,
}

/// The four coefficients of the main PLL.
pub struct PllCoefficients {
    /// Input divider.
    pub m: nat,
    /// Multiplier.
    pub n: nat,
    /// Main output divider.
    pub p: nat,
    /// Secondary output divider.
    pub q: nat,
}

/// The input divider that `enable_pll` picks for a source: 8 for the internal oscillator, and
/// for an external one the source frequency over 2 MHz, rounded up.
pub open spec fn pll_input_divider(source: ClockSource) -> nat {
    match source {
        ClockSource::HSI => 8,
        ClockSource::HSE(freq) => ((freq.0 + PLL_INPUT_MAX_HZ - 1) / (PLL_INPUT_MAX_HZ as int)) as nat,
    }
}

impl PllCoefficients {
    /// VCO frequency for a PLL fed from `input_hz`.
    pub open spec fn vco_hz(self, input_hz: nat) -> nat {
        (input_hz / self.m) * self.n
    }

    /// Main output frequency for a PLL fed from `input_hz`.
    pub open spec fn output_hz(self, input_hz: nat) -> nat {
        self.vco_hz(input_hz) / self.p
    }

    /// The first PLL rule that the coefficients break, taken in the order `m`, `n`, `p`, `q`,
    /// VCO range.
    pub open spec fn error(self, input_hz: nat) -> Option<ClockError> {
        if !(2 <= self.m <= 63) {
            Some(ClockError::InvalidPllM)
        } else if !(50 <= self.n <= 432) {
            Some(ClockError::InvalidPllN)
        } else if pll_p_code(self.p) is None {
            Some(ClockError::InvalidPllP)
        } else if !(2 <= self.q <= 15) {
            Some(ClockError::InvalidPllQ)
        } else if !(VCO_MIN_HZ <= self.vco_hz(input_hz) <= VCO_MAX_HZ) {
            Some(ClockError::VcoOutOfRange)
        } else {
            None
        }
    }

    /// All PLL rules hold.
    pub open spec fn valid(self, input_hz: nat) -> bool {
        &&& 2 <= self.m <= 63
        &&& 50 <= self.n <= 432
        &&& (self.p == 2 || self.p == 4 || self.p == 6 || self.p == 8)
        &&& 2 <= self.q <= 15
        &&& VCO_MIN_HZ <= self.vco_hz(input_hz) <= VCO_MAX_HZ
    }
}

/// The frequencies of a committed clock tree, with the APB divisors that were applied.
pub struct Frequencies {
    /// AHB clock, in Hz.
    pub hclk: nat,
    /// APB1 clock, in Hz.
    pub pclk1: nat,
    /// APB2 clock, in Hz.
    pub pclk2: nat,
    /// APB1 divisor.
    pub ppre1: nat,
    /// APB2 divisor.
    pub ppre2: nat,
    /// System clock, in Hz.
    pub sysclk: nat,
}

impl Frequencies {
    /// No bus runs faster than the hardware allows, the APB divisors are ones the hardware
    /// offers, and each APB clock is the system clock over its divisor.
    pub open spec fn within_limits(self) -> bool {
        &&& self.hclk <= HCLK_MAX_HZ
        &&& self.hclk <= self.sysclk
        &&& self.pclk1 <= PCLK1_MAX_HZ
        &&& self.pclk2 <= PCLK2_MAX_HZ
        &&& apb_prescale_code(self.ppre1) is Some
        &&& apb_prescale_code(self.ppre2) is Some
        &&& self.pclk1 == self.sysclk / self.ppre1
        &&& self.pclk2 == self.sysclk / self.ppre2
    }
}

/// What a commit yields: the frequencies, and the register writes in the order in which they
/// must reach the hardware.
pub struct PlanView {
    /// The frequencies once the writes are done.
    pub clocks: Frequencies,
    /// The writes, first to last.
    pub writes: Seq<RegisterWrite>,
}

/// A requested clock configuration.
pub struct ClockConfig {
    /// Oscillator that feeds the system clock or the PLL.
    pub source: ClockSource,
    /// PLL coefficients, if the PLL is enabled.
    pub pll: Option<PllCoefficients>,
    /// AHB divisor, if one was set.
    pub ahb_prescale: Option<nat>,
    /// APB1 divisor, if one was set.
    pub apb1_prescale: Option<nat>,
    /// APB2 divisor, if one was set.
    pub apb2_prescale: Option<nat>,
}

impl ClockConfig {
    /// The state of a fresh builder: internal oscillator, PLL bypassed, nothing divided.
    pub open spec fn initial() -> ClockConfig {
        ClockConfig {
            source: ClockSource::HSI,
            pll: None,
            ahb_prescale: None,
            apb1_prescale: None,
            apb2_prescale: None,
        }
    }

    /// The AHB divisor in effect.
    pub open spec fn ahb(self) -> nat {
        match self.ahb_prescale {
            Some(scale) => scale,
            None => 1,
        }
    }

    /// The APB1 divisor in effect.
    pub open spec fn apb1(self) -> nat {
        match self.apb1_prescale {
            Some(scale) => scale,
            None => 1,
        }
    }

    /// The APB2 divisor in effect.
    pub open spec fn apb2(self) -> nat {
        match self.apb2_prescale {
            Some(scale) => scale,
            None => 1,
        }
    }

    /// System clock: the PLL main output if the PLL is enabled, else the source itself.
    pub open spec fn sysclk_hz(self) -> nat {
        match self.pll {
            Some(pll) => pll.output_hz(self.source.hz()),
            None => self.source.hz(),
        }
    }

    /// AHB clock.
    pub open spec fn hclk_hz(self) -> nat {
        self.sysclk_hz() / self.ahb()
    }

    /// APB1 clock.
    pub open spec fn pclk1_hz(self) -> nat {
        self.sysclk_hz() / self.apb1()
    }

    /// APB2 clock.
    pub open spec fn pclk2_hz(self) -> nat {
        self.sysclk_hz() / self.apb2()
    }

    /// The first PLL rule broken, if the PLL is enabled and breaks one.
    pub open spec fn pll_error(self) -> Option<ClockError> {
        match self.pll {
            Some(pll) => pll.error(self.source.hz()),
            None => None,
        }
    }

    /// The first bus rule broken: for AHB, then APB1, then APB2, the divisor must be offered
    /// by the hardware and the resulting clock must stay under the bus's ceiling.
    pub open spec fn bus_error(self) -> Option<ClockError> {
        if ahb_prescale_code(self.ahb()) is None {
            Some(ClockError::InvalidAhbPrescale)
        } else if self.hclk_hz() > HCLK_MAX_HZ {
            Some(ClockError::HclkTooFast)
        } else if apb_prescale_code(self.apb1()) is None {
            Some(ClockError::InvalidApb1Prescale)
        } else if self.pclk1_hz() > PCLK1_MAX_HZ {
            Some(ClockError::Pclk1TooFast)
        } else if apb_prescale_code(self.apb2()) is None {
            Some(ClockError::InvalidApb2Prescale)
        } else if self.pclk2_hz() > PCLK2_MAX_HZ {
            Some(ClockError::Pclk2TooFast)
        } else {
            None
        }
    }

    /// Why the configuration is refused, or `None` if it can be committed. The PLL rules are
    /// checked before the bus rules.
    pub open spec fn error(self) -> Option<ClockError> {
        match self.pll_error() {
            Some(e) => Some(e),
            None => self.bus_error(),
        }
    }

    /// Every rule holds, in whatever order one checks them.
    pub open spec fn valid(self) -> bool {
        &&& self.pll matches Some(pll) ==> pll.valid(self.source.hz())
        &&& ahb_prescale_code(self.ahb()) is Some
        &&& apb_prescale_code(self.apb1()) is Some
        &&& apb_prescale_code(self.apb2()) is Some
        &&& self.hclk_hz() <= HCLK_MAX_HZ
        &&& self.pclk1_hz() <= PCLK1_MAX_HZ
        &&& self.pclk2_hz() <= PCLK2_MAX_HZ
    }

    /// The frequencies that the configuration leads to.
    pub open spec fn clocks(self) -> Frequencies {
        Frequencies {
            hclk: self.hclk_hz(),
            pclk1: self.pclk1_hz(),
            pclk2: self.pclk2_hz(),
            ppre1: self.apb1(),
            ppre2: self.apb2(),
            sysclk: self.sysclk_hz(),
        }
    }

    /// The bus prescaler writes and the flash latency write. They come first: the wait
    /// states must be in place before the system clock is switched.
    pub open spec fn bus_writes(self) -> Seq<RegisterWrite> {
        seq![
            RegisterWrite::Hpre(ahb_prescale_code(self.ahb()).unwrap()),
            RegisterWrite::Ppre1(apb_prescale_code(self.apb1()).unwrap()),
            RegisterWrite::Ppre2(apb_prescale_code(self.apb2()).unwrap()),
            RegisterWrite::Latency(flash_latency_code(self.hclk_hz())),
        ]
    }

    /// Which oscillator the source is.
    pub open spec fn pll_input(self) -> PllInput {
        match self.source {
            ClockSource::HSI => PllInput::Internal,
            ClockSource::HSE(_) => PllInput::External,
        }
    }

    /// The PLL writes: input selection, then `m`, `n`, `p` and `q`. Empty if the PLL is
    /// bypassed.
    pub open spec fn pll_writes(self) -> Seq<RegisterWrite> {
        match self.pll {
            Some(pll) => seq![
                RegisterWrite::PllSrc(self.pll_input()),
                RegisterWrite::PllM(pll.m as u8),
                RegisterWrite::PllN(pll.n as u16),
                RegisterWrite::PllP(pll_p_code(pll.p).unwrap()),
                RegisterWrite::PllQ(pll.q as u8),
            ],
            None => Seq::empty(),
        }
    }

    /// What the system clock is switched to.
    pub open spec fn system_clock(self) -> SystemClock {
        match self.pll {
            Some(_) => SystemClock::Pll,
            None => match self.source {
                ClockSource::HSI => SystemClock::Hsi,
                ClockSource::HSE(_) => SystemClock::Hse,
            },
        }
    }

    /// All register writes of a commit, in order: buses and flash latency, PLL, and last the
    /// switch of the system clock.
    pub open spec fn writes(self) -> Seq<RegisterWrite> {
        self.bus_writes() + self.pll_writes() + seq![RegisterWrite::Sw(self.system_clock())]
    }

    /// What committing the configuration yields.
    pub open spec fn plan(self) -> PlanView {
        PlanView { clocks: self.clocks(), writes: self.writes() }
    }
}

/// The input divider of an external source is its frequency over 2 MHz, rounded up: the
/// least number of 2 MHz steps that reach the frequency.
pub proof fn lemma_input_divider_is_ceiling(freq: Hertz)
    ensures
        freq.0 <= pll_input_divider(ClockSource::HSE(freq)) * PLL_INPUT_MAX_HZ,
        pll_input_divider(ClockSource::HSE(freq)) * PLL_INPUT_MAX_HZ < freq.0 + PLL_INPUT_MAX_HZ,
{
}

/// The input divider brings any source of 2 MHz or more down to between 1 MHz and 2 MHz,
/// which is what the PLL wants to be fed.
pub proof fn lemma_input_divider_feeds_the_pll(source: ClockSource)
    requires
        source.hz() >= PLL_INPUT_MAX_HZ,
    ensures
        1_000_000 <= source.hz() / pll_input_divider(source) <= PLL_INPUT_MAX_HZ,
{
    let hz: int = source.hz() as int;
    let m: int = pll_input_divider(source) as int;
    assert(1_000_000 * m <= hz <= 2_000_000 * m);
    assert(1_000_000 <= hz / m <= 2_000_000) by (nonlinear_arith)
        requires
            1 <= m,
            1_000_000 * m <= hz <= 2_000_000 * m,
    ;
}

/// A configuration is accepted exactly when every rule holds. The order of the checks
/// decides which error is reported, never whether there is one.
pub proof fn lemma_accepted_iff_valid(config: ClockConfig)
    ensures
        config.error() is None <==> config.valid(),
{
}

/// The frequencies of an accepted configuration are within the limits of the part.
pub proof fn lemma_accepted_within_limits(config: ClockConfig)
    requires
        config.error() is None,
    ensures
        config.clocks().within_limits(),
{
    let sysclk: nat = config.sysclk_hz();
    let ahb: nat = config.ahb();
    assert(sysclk / ahb <= sysclk) by (nonlinear_arith)
        requires
            1 <= ahb,
    ;
}

/// Every write of an accepted configuration fits the width of its field.
pub proof fn lemma_writes_fit(config: ClockConfig)
    requires
        config.error() is None,
    ensures
        forall|i: int| 0 <= i < config.writes().len() ==> (#[trigger] config.writes()[i]).fits(),
{
}

/// The flash latency is the fourth write and the switch of the system clock is the last one,
/// and the only one of its kind: the wait states are in place before the core speeds up.
pub proof fn lemma_switch_comes_last(config: ClockConfig)
    ensures
        config.writes().len() >= 5,
        config.writes()[3] is Latency,
        config.writes().last() is Sw,
        forall|i: int|
            0 <= i < config.writes().len() - 1 ==> !((#[trigger] config.writes()[i]) is Sw),
{
}

} // verus!
