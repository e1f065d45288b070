//! Reset and clock control.

use vstd::prelude::*;
use crate::flash::ACR;
use crate::registers::{
    ahb_prescale_bits, apb_prescale_bits, flash_latency, pll_p_bits, pll_p_code, PllInput,
    RegisterWrite, SystemClock,
};
use crate::time::Hertz;
use crate::tree::{
    pll_input_divider, ClockConfig, ClockError, Frequencies, PlanView, PllCoefficients,
    HCLK_MAX_HZ, HSI_HZ, PCLK1_MAX_HZ, PCLK2_MAX_HZ, PLL_INPUT_MAX_HZ, VCO_MAX_HZ, VCO_MIN_HZ,
};

verus! {

/// Extension trait to constrain the RCC peripheral.
pub trait RccExt {
    /// Constrains the RCC peripheral: the handle is used up, and what comes back are the bus
    /// tokens and a clock builder in its initial state.
    fn constrain(self) -> (rcc: Rcc)
        ensures
            rcc.cfgr@ == ClockConfig::initial(),
    ;
}

/// The RCC peripheral as the device hands it out. It cannot be copied, and constraining it
/// uses it up, so one handle yields one set of tokens.
pub struct RccHandle {
    _0: (),
}

impl RccHandle {
    /// The handle of the device's RCC. There is one RCC, so make one handle, where the
    /// peripherals of the device are taken.
    pub fn new() -> RccHandle {
        RccHandle { _0: () }
    }
}

impl RccExt for RccHandle {
    fn constrain(self) -> (rcc: Rcc) {
        Rcc {
            ahb1: AHB1 { _0: () },
            ahb2: AHB2 { _0: () },
            ahb3: AHB3 { _0: () },
            apb1: APB1 { _0: () },
            apb2: APB2 { _0: () },
            cfgr: CFGRBuilder {
                source: ClockSource::HSI,
                pll: None,
                ahb_prescale: None,
                apb1_prescale: None,
                apb2_prescale: None,
            },
        }
    }
}

/// Constrained RCC peripheral.
pub struct Rcc {
    /// Token of the AHB1 registers.
    pub ahb1: AHB1,
    /// Token of the AHB2 registers.
    pub ahb2: AHB2,
    /// Token of the AHB3 registers.
    pub ahb3: AHB3,
    /// Token of the APB1 registers.
    pub apb1: APB1,
    /// Token of the APB2 registers.
    pub apb2: APB2,
    /// Clock configuration.
    pub cfgr: CFGRBuilder,
}

/// Token of the AMBA High-performance Bus 1 (AHB1) enable, low-power enable and reset
/// registers.
pub struct AHB1 {
    _0: (),
}

/// Token of the AMBA High-performance Bus 2 (AHB2) enable, low-power enable and reset
/// registers.
pub struct AHB2 {
    _0: (),
}

/// Token of the AMBA High-performance Bus 3 (AHB3) enable, low-power enable and reset
/// registers.
pub struct AHB3 {
    _0: (),
}

/// Token of the Advanced Peripheral Bus 1 (APB1) enable, low-power enable and reset
/// registers.
pub struct APB1 {
    _0: (),
}

/// Token of the Advanced Peripheral Bus 2 (APB2) enable, low-power enable and reset
/// registers.
pub struct APB2 {
    _0: (),
}

/// Clock source to use. HSI is the internal low-precision source at 16 MHz. HSE is an external
/// source fed into OSC_IN; that its frequency suits the oscillator is up to the caller.
#[derive(Clone, Copy, PartialEq, Eq, Debug)]
pub enum ClockSource {
    /// The internal oscillator.
    HSI,
    /// An external oscillator of the given frequency.
    HSE(Hertz),
}

impl ClockSource {
    /// Frequency of the source, in Hz.
    pub open spec fn hz(self) -> nat {
        match self {
            ClockSource::HSI => HSI_HZ as nat,
            ClockSource::HSE(freq) => freq.0 as nat,
        }
    }

    /// Frequency of the source, in Hz.
    pub fn frequency(&self) -> (hz: u32)
        ensures
            hz == self.hz(),
    {
        match self {
            ClockSource::HSI => HSI_HZ,
            ClockSource::HSE(freq) => freq.0,
        }
    }

    /// The PLL input divider for this source: what brings it down to 2 MHz or just below.
    pub fn input_divider(&self) -> (m: u32)
        ensures
            m == pll_input_divider(*self),
    {
        match self {
            ClockSource::HSI => 8,
            ClockSource::HSE(freq) => {
                let whole: u32 = freq.0 / PLL_INPUT_MAX_HZ;
                if freq.0 % PLL_INPUT_MAX_HZ == 0 {
                    whole
                } else {
                    whole + 1
                }
            },
        }
    }
}

/// Checks the coefficients of a PLL fed from `source_hz`.
///
/// Returns the main output frequency and the `PLLP` code of `p` if every PLL rule holds, else
/// the first rule broken.
fn checked_pll(source_hz: u32, m: u32, n: u32, p: u32, q: u32) -> (res: Result<
    (u32, u8),
    ClockError,
>)
    ensures
        match res {
            Ok((hz, p_bits)) => {
                &&& coefficients(m, n, p, q).error(source_hz as nat) is None
                &&& hz == coefficients(m, n, p, q).output_hz(source_hz as nat)
                &&& pll_p_code(p as nat) == Some(p_bits)
            },
            Err(e) => coefficients(m, n, p, q).error(source_hz as nat) == Some(e),
        },
{
    if m < 2 || m > 63 {
        return Err(ClockError::InvalidPllM);
    }
    if n < 50 || n > 432 {
        return Err(ClockError::InvalidPllN);
    }
    let p_bits: u8 = match pll_p_bits(p) {
        Some(bits) => bits,
        None => {
            return Err(ClockError::InvalidPllP);
        },
    };
    if q < 2 || q > 15 {
        return Err(ClockError::InvalidPllQ);
    }
    let input: u32 = source_hz / m;
    assert(input * n <= 0xffff_ffff * 432) by (nonlinear_arith)
        requires
            input <= 0xffff_ffff,
            n <= 432,
    ;
    let vco: u64 = (input as u64) * (n as u64);
    if vco < VCO_MIN_HZ as u64 || vco > VCO_MAX_HZ as u64 {
        return Err(ClockError::VcoOutOfRange);
    }
    let output: u64 = vco / (p as u64);
    Ok((output as u32, p_bits))
}

/// Checks the coefficients of a PLL fed from `source_hz` and computes its main output.
///
/// Returns the output frequency if every PLL rule holds, else the first rule broken, the
/// rules taken in the order `m`, `n`, `p`, `q`, VCO range.
pub fn pll_output_hz(source_hz: u32, m: u32, n: u32, p: u32, q: u32) -> (res: Result<
    u32,
    ClockError,
>)
    ensures
        match res {
            Ok(hz) => {
                &&& coefficients(m, n, p, q).error(source_hz as nat) is None
                &&& hz == coefficients(m, n, p, q).output_hz(source_hz as nat)
            },
            Err(e) => coefficients(m, n, p, q).error(source_hz as nat) == Some(e),
        },
{
    match checked_pll(source_hz, m, n, p, q) {
        Ok((hz, _)) => Ok(hz),
        Err(e) => Err(e),
    }
}

/// The coefficients as the model has them.
pub open spec fn coefficients(m: u32, n: u32, p: u32, q: u32) -> PllCoefficients {
    PllCoefficients { m: m as nat, n: n as nat, p: p as nat, q: q as nat }
}

/// Clock configuration: collects what is wanted, and checks it all when it is committed.
pub struct CFGRBuilder {
    /// Clock source for system or pll. Defaults to HSI
    source: ClockSource,
    /// Pll clock. m, n, p, q coefficients
    pll: Option<(u32, u32, u32, u32)>,
    /// AHB bus clock prescaler
    ahb_prescale: Option<u32>,
    /// APB1 bus clock
    apb1_prescale: Option<u32>,
    /// APB2 bus clock
    apb2_prescale: Option<u32>,
}

/// A divisor as the model has it.
pub open spec fn divisor(scale: Option<u32>) -> Option<nat> {
    match scale {
        Some(s) => Some(s as nat),
        None => None,
    }
}

impl View for CFGRBuilder {
    type V = ClockConfig;

    closed spec fn view(&self) -> ClockConfig {
        ClockConfig {
            source: self.source,
            pll: match self.pll {
                Some((m, n, p, q)) => Some(coefficients(m, n, p, q)),
                None => None,
            },
            ahb_prescale: divisor(self.ahb_prescale),
            apb1_prescale: divisor(self.apb1_prescale),
            apb2_prescale: divisor(self.apb2_prescale),
        }
    }
}

impl CFGRBuilder {
    /// Sets the input clock source to be used for either the System clock directly or the PLL.
    /// Defaults to HSI.
    ///
    /// A PLL that is already enabled keeps the input divider it was given.
    pub fn source(self, source: ClockSource) -> (cfgr: CFGRBuilder)
        ensures
            cfgr@ == (ClockConfig { source: source, ..self@ }),
    {
        let mut cfgr = self;
        cfgr.source = source;
        cfgr
    }

    /// Enables the PLL with the coefficients n, p and q. The input divider m is derived from
    /// the source that is set at this moment.
    pub fn enable_pll(self, pll_n: u32, pll_p: u32, pll_q: u32) -> (cfgr: CFGRBuilder)
        ensures
            cfgr@ == (ClockConfig {
                pll: Some(
                    PllCoefficients {
                        m: pll_input_divider(self@.source),
                        n: pll_n as nat,
                        p: pll_p as nat,
                        q: pll_q as nat,
                    },
                ),
                ..self@
            }),
    {
        let pll_m: u32 = self.source.input_divider();
        let mut cfgr = self;
        cfgr.pll = Some((pll_m, pll_n, pll_p, pll_q));
        cfgr
    }

    /// Configures the AHB prescale value.
    pub fn ahb_prescale(self, scale: u32) -> (cfgr: CFGRBuilder)
        ensures
            cfgr@ == (ClockConfig { ahb_prescale: Some(scale as nat), ..self@ }),
    {
        let mut cfgr = self;
        cfgr.ahb_prescale = Some(scale);
        cfgr
    }

    /// Configures the APB1 prescale value.
    pub fn apb1_prescale(self, scale: u32) -> (cfgr: CFGRBuilder)
        ensures
            cfgr@ == (ClockConfig { apb1_prescale: Some(scale as nat), ..self@ }),
    {
        let mut cfgr = self;
        cfgr.apb1_prescale = Some(scale);
        cfgr
    }

    /// Configures the APB2 prescale value.
    pub fn apb2_prescale(self, scale: u32) -> (cfgr: CFGRBuilder)
        ensures
            cfgr@ == (ClockConfig { apb2_prescale: Some(scale as nat), ..self@ }),
    {
        let mut cfgr = self;
        cfgr.apb2_prescale = Some(scale);
        cfgr
    }

    /// Freezes the configuration.
    ///
    /// Checks the PLL rules, then the bus rules, and refuses with the first one broken.
    /// Otherwise the plan holds the frozen clocks and every register write that brings the
    /// hardware there, in order. The flash token is borrowed for the call because the plan
    /// writes the access control register; the token itself is left as it was.
    pub fn build(self, acr: &mut ACR) -> (res: Result<ClockPlan, ClockError>)
        ensures
            *final(acr) == *old(acr),
            commits(self@, res),
    {
        let source_hz: u32 = self.source.frequency();
        let mut pll_writes: Vec<RegisterWrite> = Vec::new();
        let sysclk: u32 = match self.pll {
            Some((m, n, p, q)) => {
                let (hz, p_bits): (u32, u8) = match checked_pll(source_hz, m, n, p, q) {
                    Ok(checked) => checked,
                    Err(e) => {
                        return Err(e);
                    },
                };
                let input: PllInput = match self.source {
                    ClockSource::HSI => PllInput::Internal,
                    ClockSource::HSE(_) => PllInput::External,
                };
                pll_writes.push(RegisterWrite::PllSrc(input));
                pll_writes.push(RegisterWrite::PllM(m as u8));
                pll_writes.push(RegisterWrite::PllN(n as u16));
                pll_writes.push(RegisterWrite::PllP(p_bits));
                pll_writes.push(RegisterWrite::PllQ(q as u8));
                hz
            },
            None => source_hz,
        };
        assert(pll_writes@ =~= self@.pll_writes());

        let ahb: u32 = match self.ahb_prescale {
            Some(scale) => scale,
            None => 1,
        };
        let hpre: u8 = match ahb_prescale_bits(ahb) {
            Some(bits) => bits,
            None => {
                return Err(ClockError::InvalidAhbPrescale);
            },
        };
        let hclk: u32 = sysclk / ahb;
        if hclk > HCLK_MAX_HZ {
            return Err(ClockError::HclkTooFast);
        }

        let apb1: u32 = match self.apb1_prescale {
            Some(scale) => scale,
            None => 1,
        };
        let ppre1_bits: u8 = match apb_prescale_bits(apb1) {
            Some(bits) => bits,
            None => {
                return Err(ClockError::InvalidApb1Prescale);
            },
        };
        let pclk1: u32 = sysclk / apb1;
        if pclk1 > PCLK1_MAX_HZ {
            return Err(ClockError::Pclk1TooFast);
        }

        let apb2: u32 = match self.apb2_prescale {
            Some(scale) => scale,
            None => 1,
        };
        let ppre2_bits: u8 = match apb_prescale_bits(apb2) {
            Some(bits) => bits,
            None => {
                return Err(ClockError::InvalidApb2Prescale);
            },
        };
        let pclk2: u32 = sysclk / apb2;
        if pclk2 > PCLK2_MAX_HZ {
            return Err(ClockError::Pclk2TooFast);
        }

        let switch: SystemClock = match self.pll {
            Some(_) => SystemClock::Pll,
            None => match self.source {
                ClockSource::HSI => SystemClock::Hsi,
                ClockSource::HSE(_) => SystemClock::Hse,
            },
        };
        let mut writes: Vec<RegisterWrite> = Vec::new();
        writes.push(RegisterWrite::Hpre(hpre));
        writes.push(RegisterWrite::Ppre1(ppre1_bits));
        writes.push(RegisterWrite::Ppre2(ppre2_bits));
        writes.push(RegisterWrite::Latency(flash_latency(hclk)));
        assert(writes@ =~= self@.bus_writes());
        writes.append(&mut pll_writes);
        writes.push(RegisterWrite::Sw(switch));
        assert(writes@ =~= self@.writes());

        let clocks = Clocks {
            hclk: Hertz(hclk),
            pclk1: Hertz(pclk1),
            pclk2: Hertz(pclk2),
            ppre1: apb1 as u8,
            ppre2: apb2 as u8,
            sysclk: Hertz(sysclk),
        };
        Ok(ClockPlan { clocks, writes })
    }
}

/// `res` is what committing `config` returns: the plan of the configuration if no rule is
/// broken, else the first rule broken.
pub open spec fn commits(config: ClockConfig, res: Result<ClockPlan, ClockError>) -> bool {
    match res {
        Ok(plan) => config.error() is None && plan@ == config.plan(),
        Err(e) => config.error() == Some(e),
    }
}

/// Committing is a function of the builder's state alone. Two builders in the same state,
/// though made from different handles and committed with different flash tokens, are
/// refused for the same reason or yield the same frozen clocks and the same register
/// writes in the same order.
pub proof fn lemma_commit_is_deterministic(
    a: CFGRBuilder,
    b: CFGRBuilder,
    x: Result<ClockPlan, ClockError>,
    y: Result<ClockPlan, ClockError>,
)
    requires
        a@ == b@,
        commits(a@, x),
        commits(b@, y),
    ensures
        match (x, y) {
            (Ok(p), Ok(q)) => p@ == q@,
            (Err(e), Err(f)) => e == f,
            _ => false,
        },
{
}

/// The outcome of a commit: what to write, and what then holds.
#[derive(PartialEq, Eq, Debug)]
pub struct ClockPlan {
    clocks: Clocks,
    writes: Vec<RegisterWrite>,
}

impl View for ClockPlan {
    type V = PlanView;

    closed spec fn view(&self) -> PlanView {
        PlanView { clocks: self.clocks@, writes: self.writes@ }
    }
}

impl ClockPlan {
    /// The register writes, in the order in which they must be carried out.
    pub fn writes(&self) -> (writes: &Vec<RegisterWrite>)
        ensures
            writes@ == self@.writes,
    {
        &self.writes
    }

    /// The frozen clocks. They describe the hardware once the writes have been carried out.
    pub fn clocks(&self) -> (clocks: Clocks)
        ensures
            clocks@ == self@.clocks,
    {
        self.clocks
    }
}

/// Frozen clock frequencies
///
/// The existence of this value indicates that the clock configuration cannot be changed
#[derive(Clone, Copy, PartialEq, Eq, Debug)]
pub struct Clocks {
    /// HCLK to AHB, core, memory and DMA
    hclk: Hertz,
    /// APB1 peripheral bus clock
    pclk1: Hertz,
    /// APB2 peripheral bus clock
    pclk2: Hertz,
    /// APB1 prescale constant
    ppre1: u8,
    /// APB2 prescale constant
    ppre2: u8,
    /// System (core) frequency
    sysclk: Hertz,
}

impl View for Clocks {
    type V = Frequencies;

    closed spec fn view(&self) -> Frequencies {
        Frequencies {
            hclk: self.hclk.0 as nat,
            pclk1: self.pclk1.0 as nat,
            pclk2: self.pclk2.0 as nat,
            ppre1: self.ppre1 as nat,
            ppre2: self.ppre2 as nat,
            sysclk: self.sysclk.0 as nat,
        }
    }
}

impl Clocks {
    /// Frozen clocks are only ever made by a commit, so they are within the limits of the
    /// part.
    #[verifier::type_invariant]
    spec fn limits_hold(self) -> bool {
        self@.within_limits()
    }

    /// Returns the frequency of the AHB
    pub fn hclk(&self) -> (freq: Hertz)
        ensures
            freq.0 == self@.hclk,
            self@.within_limits(),
    {
        proof {
            use_type_invariant(self);
        }
        self.hclk
    }

    /// Returns the frequency of the APB1
    pub fn pclk1(&self) -> (freq: Hertz)
        ensures
            freq.0 == self@.pclk1,
            self@.within_limits(),
    {
        proof {
            use_type_invariant(self);
        }
        self.pclk1
    }

    /// Returns the frequency of the APB2
    pub fn pclk2(&self) -> (freq: Hertz)
        ensures
            freq.0 == self@.pclk2,
            self@.within_limits(),
    {
        proof {
            use_type_invariant(self);
        }
        self.pclk2
    }

    /// Returns the divisor applied to the APB1
    pub fn ppre1(&self) -> (scale: u8)
        ensures
            scale == self@.ppre1,
            self@.within_limits(),
    {
        proof {
            use_type_invariant(self);
        }
        self.ppre1
    }

    /// Returns the divisor applied to the APB2
    pub fn ppre2(&self) -> (scale: u8)
        ensures
            scale == self@.ppre2,
            self@.within_limits(),
    {
        proof {
            use_type_invariant(self);
        }
        self.ppre2
    }

    /// Returns the system (core) frequency
    pub fn sysclk(&self) -> (freq: Hertz)
        ensures
            freq.0 == self@.sysclk,
            self@.within_limits(),
    {
        proof {
            use_type_invariant(self);
        }
        self.sysclk
    }
}

} // verus!
