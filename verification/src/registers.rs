//! Register fields of the clock tree and the codes that go into them.
//!
//! Nothing here touches hardware. A [`RegisterWrite`] names one field and the value it is to
//! receive; whoever holds the access tokens carries the writes out, each as a
//! read-modify-write that leaves the sibling fields of the register alone.

use vstd::prelude::*;

verus! {

/// The oscillator selected as PLL input (field `PLLSRC`).
#[derive(Clone, Copy, PartialEq, Eq, Debug)]
pub enum PllInput {
    /// The internal oscillator.
    Internal,
    /// The external oscillator.
    External,
}

/// What drives the system clock (field `SW`).
#[derive(Clone, Copy, PartialEq, Eq, Debug)]
pub enum SystemClock {
    /// The internal oscillator, directly.
    Hsi,
    /// The external oscillator, directly.
    Hse,
    /// The main PLL output.
    Pll,
}

/// One write of one register field.
#[derive(Clone, Copy, PartialEq, Eq, Debug)]
pub enum RegisterWrite {
    /// AHB prescaler, 4-bit code (`CFGR.HPRE`).
    Hpre(u8),
    /// APB1 prescaler, 3-bit code (`CFGR.PPRE1`).
    Ppre1(u8),
    /// APB2 prescaler, 3-bit code (`CFGR.PPRE2`): a field of its own, apart from `PPRE1`.
    Ppre2(u8),
    /// Flash wait states, 3-bit code (`ACR.LATENCY`).
    Latency(u8),
    /// PLL input selection, one bit (`PLLCFGR.PLLSRC`).
    PllSrc(PllInput),
    /// PLL input divider, 6 bits (`PLLCFGR.PLLM`).
    PllM(u8),
    /// PLL multiplier, 9 bits (`PLLCFGR.PLLN`).
    PllN(u16),
    /// PLL main output divider, 2-bit code (`PLLCFGR.PLLP`).
    PllP(u8),
    /// PLL secondary output divider, 4 bits (`PLLCFGR.PLLQ`).
    PllQ(u8),
    /// System clock selection, 2-bit code (`CFGR.SW`).
    Sw(SystemClock),
}

impl RegisterWrite {
    /// The value fits the width of its field.
    pub open spec fn fits(self) -> bool {
        match self {
            RegisterWrite::Hpre(bits) => bits < 16,
            RegisterWrite::Ppre1(bits) => bits < 8,
            RegisterWrite::Ppre2(bits) => bits < 8,
            RegisterWrite::Latency(bits) => bits < 8,
            RegisterWrite::PllSrc(_) => true,
            RegisterWrite::PllM(bits) => bits < 64,
            RegisterWrite::PllN(bits) => bits < 512,
            RegisterWrite::PllP(bits) => bits < 4,
            RegisterWrite::PllQ(bits) => bits < 16,
            RegisterWrite::Sw(_) => true,
        }
    }
}

/// The `HPRE` code of an AHB divisor; `None` for a divisor the hardware does not offer.
pub open spec fn ahb_prescale_code(scale: nat) -> Option<u8> {
    if scale == 1 {
        Some(0b0000u8)
    } else if scale == 2 {
        Some(0b1000u8)
    } else if scale == 4 {
        Some(0b1001u8)
    } else if scale == 8 {
        Some(0b1010u8)
    } else if scale == 16 {
        Some(0b1011u8)
    } else if scale == 64 {
        Some(0b1100u8)
    } else if scale == 128 {
        Some(0b1101u8)
    } else if scale == 256 {
        Some(0b1110u8)
    } else if scale == 512 {
        Some(0b1111u8)
    } else {
        None
    }
}

/// The `PPRE1` / `PPRE2` code of an APB divisor; `None` for a divisor the hardware does not
/// offer.
pub open spec fn apb_prescale_code(scale: nat) -> Option<u8> {
    if scale == 1 {
        Some(0b000u8)
    } else if scale == 2 {
        Some(0b100u8)
    } else if scale == 4 {
        Some(0b101u8)
    } else if scale == 8 {
        Some(0b110u8)
    } else if scale == 16 {
        Some(0b111u8)
    } else {
        None
    }
}

/// The `PLLP` code of a main output divider; `None` for a divider the hardware does not offer.
pub open spec fn pll_p_code(p: nat) -> Option<u8> {
    if p == 2 {
        Some(0b00u8)
    } else if p == 4 {
        Some(0b01u8)
    } else if p == 6 {
        Some(0b10u8)
    } else if p == 8 {
        Some(0b11u8)
    } else {
        None
    }
}

/// The `LATENCY` code for a core clock of `hclk` Hz: one more wait state for every 30 MHz
/// begun, each bound inclusive, and the code of the top range for anything above it.
pub open spec fn flash_latency_code(hclk: nat) -> u8 {
    if hclk <= 30_000_000 {
        0b000u8
    } else if hclk <= 60_000_000 {
        0b001u8
    } else if hclk <= 90_000_000 {
        0b010u8
    } else if hclk <= 120_000_000 {
        0b011u8
    } else if hclk <= 150_000_000 {
        0b100u8
    } else {
        0b101u8
    }
}

/// Looks an AHB divisor up in the `HPRE` table.
pub fn ahb_prescale_bits(scale: u32) -> (bits: Option<u8>)
    ensures
        bits == ahb_prescale_code(scale as nat),
{
    match scale {
        1 => Some(0b0000),
        2 => Some(0b1000),
        4 => Some(0b1001),
        8 => Some(0b1010),
        16 => Some(0b1011),
        64 => Some(0b1100),
        128 => Some(0b1101),
        256 => Some(0b1110),
        512 => Some(0b1111),
        _ => None,
    }
}

/// Looks an APB divisor up in the `PPRE` table.
pub fn apb_prescale_bits(scale: u32) -> (bits: Option<u8>)
    ensures
        bits == apb_prescale_code(scale as nat),
{
    match scale {
        1 => Some(0b000),
        2 => Some(0b100),
        4 => Some(0b101),
        8 => Some(0b110),
        16 => Some(0b111),
        _ => None,
    }
}

/// Looks a PLL main output divider up in the `PLLP` table.
pub fn pll_p_bits(p: u32) -> (bits: Option<u8>)
    ensures
        bits == pll_p_code(p as nat),
{
    match p {
        2 => Some(0b00),
        4 => Some(0b01),
        6 => Some(0b10),
        8 => Some(0b11),
        _ => None,
    }
}

/// Picks the flash wait states for a core clock of `hclk` Hz.
pub fn flash_latency(hclk: u32) -> (bits: u8)
    ensures
        bits == flash_latency_code(hclk as nat),
{
    if hclk <= 30_000_000 {
        0b000
    } else if hclk <= 60_000_000 {
        0b001
    } else if hclk <= 90_000_000 {
        0b010
    } else if hclk <= 120_000_000 {
        0b011
    } else if hclk <= 150_000_000 {
        0b100
    } else {
        0b101
    }
}

/// Up to 180 MHz, which covers every core clock the part can run at, the latency code is the
/// number of whole 30 MHz ranges that lie below the frequency.
pub proof fn lemma_latency_counts_ranges(hclk: nat)
    requires
        0 < hclk <= 180_000_000,
    ensures
        flash_latency_code(hclk) == (hclk - 1) / 30_000_000,
{
}

/// A faster core clock never gets fewer wait states.
pub proof fn lemma_latency_is_monotonic(slow: nat, fast: nat)
    requires
        slow <= fast,
    ensures
        flash_latency_code(slow) <= flash_latency_code(fast),
{
}

} // verus!
