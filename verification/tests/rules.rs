use stm32f40x_hal::flash::{FlashExt, FlashHandle};
use stm32f40x_hal::rcc::{pll_output_hz, CFGRBuilder, ClockPlan, ClockSource, RccExt, RccHandle};
use stm32f40x_hal::registers::RegisterWrite;
use stm32f40x_hal::time::Hertz;
use stm32f40x_hal::tree::ClockError;

fn builder() -> CFGRBuilder {
    RccHandle::new().constrain().cfgr
}

fn commit(cfgr: CFGRBuilder) -> Result<ClockPlan, ClockError> {
    let mut flash = FlashHandle::new().constrain();
    cfgr.build(&mut flash.acr)
}

fn hse(hz: u32) -> ClockSource {
    ClockSource::HSE(Hertz(hz))
}

#[test]
fn input_divider_below_2_is_refused() {
    // 2 MHz in: m = 1
    assert_eq!(commit(builder().source(hse(2_000_000)).enable_pll(100, 2, 4)), Err(ClockError::InvalidPllM));
    // nothing in: m = 0
    assert_eq!(commit(builder().source(hse(0)).enable_pll(100, 2, 4)), Err(ClockError::InvalidPllM));
    assert_eq!(pll_output_hz(16_000_000, 1, 100, 2, 4), Err(ClockError::InvalidPllM));
    assert_eq!(pll_output_hz(16_000_000, 0, 100, 2, 4), Err(ClockError::InvalidPllM));
}

#[test]
fn input_divider_above_63_is_refused() {
    // 126.000001 MHz in: m = 64
    assert_eq!(
        commit(builder().source(hse(126_000_001)).enable_pll(100, 2, 4)),
        Err(ClockError::InvalidPllM)
    );
    assert_eq!(pll_output_hz(128_000_000, 64, 100, 2, 4), Err(ClockError::InvalidPllM));
}

#[test]
fn input_divider_bounds_are_inclusive() {
    // m = 2: 4 MHz / 2 * 100 = 200 MHz, / 2
    assert_eq!(pll_output_hz(4_000_000, 2, 100, 2, 4), Ok(100_000_000));
    // m = 63: 126 MHz / 63 * 100 = 200 MHz, / 2
    assert_eq!(pll_output_hz(126_000_000, 63, 100, 2, 4), Ok(100_000_000));
}

#[test]
fn multiplier_outside_50_to_432_is_refused() {
    assert_eq!(commit(builder().enable_pll(49, 2, 4)), Err(ClockError::InvalidPllN));
    assert_eq!(commit(builder().enable_pll(433, 2, 4)), Err(ClockError::InvalidPllN));
    assert_eq!(commit(builder().enable_pll(0, 2, 4)), Err(ClockError::InvalidPllN));
}

#[test]
fn multiplier_bounds_are_inclusive() {
    // 2 MHz * 50 = 100 MHz, the lowest VCO frequency
    assert_eq!(pll_output_hz(16_000_000, 8, 50, 2, 4), Ok(50_000_000));
    // 1 MHz * 432 = 432 MHz, the highest
    assert_eq!(pll_output_hz(16_000_000, 16, 432, 8, 4), Ok(54_000_000));
}

#[test]
fn main_divider_outside_its_set_is_refused() {
    assert_eq!(commit(builder().enable_pll(100, 3, 4)), Err(ClockError::InvalidPllP));
    assert_eq!(commit(builder().enable_pll(100, 0, 4)), Err(ClockError::InvalidPllP));
    assert_eq!(commit(builder().enable_pll(100, 1, 4)), Err(ClockError::InvalidPllP));
    assert_eq!(commit(builder().enable_pll(100, 10, 4)), Err(ClockError::InvalidPllP));
    assert_eq!(commit(builder().enable_pll(100, 16, 4)), Err(ClockError::InvalidPllP));
}

#[test]
fn every_main_divider_divides_the_vco() {
    assert_eq!(pll_output_hz(16_000_000, 8, 120, 2, 5), Ok(120_000_000));
    assert_eq!(pll_output_hz(16_000_000, 8, 120, 4, 5), Ok(60_000_000));
    assert_eq!(pll_output_hz(16_000_000, 8, 120, 6, 5), Ok(40_000_000));
    assert_eq!(pll_output_hz(16_000_000, 8, 120, 8, 5), Ok(30_000_000));
}

#[test]
fn main_divider_code_reaches_the_plan() {
    let plan = commit(builder().enable_pll(120, 6, 5)).unwrap();
    assert_eq!(plan.clocks().sysclk(), Hertz(40_000_000));
    assert_eq!(plan.writes()[7], RegisterWrite::PllP(0b10));
    assert_eq!(plan.writes()[8], RegisterWrite::PllQ(5));
    let plan = commit(builder().enable_pll(120, 8, 15)).unwrap();
    assert_eq!(plan.writes()[7], RegisterWrite::PllP(0b11));
    assert_eq!(plan.writes()[8], RegisterWrite::PllQ(15));
    let plan = commit(builder().enable_pll(120, 4, 2).apb1_prescale(2)).unwrap();
    assert_eq!(plan.clocks().sysclk(), Hertz(60_000_000));
    assert_eq!(plan.writes()[7], RegisterWrite::PllP(0b01));
    assert_eq!(plan.writes()[8], RegisterWrite::PllQ(2));
}

#[test]
fn secondary_divider_outside_2_to_15_is_refused() {
    assert_eq!(commit(builder().enable_pll(100, 2, 1)), Err(ClockError::InvalidPllQ));
    assert_eq!(commit(builder().enable_pll(100, 2, 16)), Err(ClockError::InvalidPllQ));
    assert_eq!(commit(builder().enable_pll(100, 2, 0)), Err(ClockError::InvalidPllQ));
}

#[test]
fn vco_below_100_mhz_is_refused() {
    // m = 2, 1.5 MHz * 50 = 75 MHz
    assert_eq!(
        commit(builder().source(hse(3_000_000)).enable_pll(50, 2, 4)),
        Err(ClockError::VcoOutOfRange)
    );
    // 1 MHz * 99 = 99 MHz
    assert_eq!(pll_output_hz(16_000_000, 16, 99, 2, 4), Err(ClockError::VcoOutOfRange));
}

#[test]
fn vco_above_432_mhz_is_refused() {
    // 2 MHz * 217 = 434 MHz
    assert_eq!(commit(builder().enable_pll(217, 4, 4)), Err(ClockError::VcoOutOfRange));
    // 2 MHz * 216 = 432 MHz
    let plan = commit(builder().enable_pll(216, 4, 9).apb1_prescale(4).apb2_prescale(2)).unwrap();
    assert_eq!(plan.clocks().sysclk(), Hertz(108_000_000));
}

#[test]
fn vco_too_large_for_32_bits_is_refused() {
    // The PLL was enabled on the internal source, m = 8; the source set afterwards gives
    // 500 MHz * 432, far above what 32 bits hold.
    assert_eq!(
        commit(builder().enable_pll(432, 2, 4).source(hse(4_000_000_000))),
        Err(ClockError::VcoOutOfRange)
    );
    assert_eq!(pll_output_hz(4_294_967_295, 2, 432, 2, 4), Err(ClockError::VcoOutOfRange));
}

#[test]
fn vco_divides_the_input_before_it_multiplies() {
    // 16 MHz / 9 = 1_777_777 (rounded down), * 100 = 177_777_700, / 2
    assert_eq!(pll_output_hz(16_000_000, 9, 100, 2, 4), Ok(88_888_850));
}

#[test]
fn pll_rules_are_checked_in_the_order_m_n_p_q_vco() {
    assert_eq!(pll_output_hz(16_000_000, 1, 0, 3, 0), Err(ClockError::InvalidPllM));
    assert_eq!(pll_output_hz(16_000_000, 8, 0, 3, 0), Err(ClockError::InvalidPllN));
    assert_eq!(pll_output_hz(16_000_000, 8, 336, 3, 0), Err(ClockError::InvalidPllP));
    assert_eq!(pll_output_hz(16_000_000, 8, 336, 2, 0), Err(ClockError::InvalidPllQ));
    assert_eq!(pll_output_hz(16_000_000, 8, 336, 2, 7), Err(ClockError::VcoOutOfRange));
}

#[test]
fn pll_rules_come_before_bus_rules() {
    assert_eq!(
        commit(builder().ahb_prescale(3).apb1_prescale(3).enable_pll(336, 2, 7)),
        Err(ClockError::VcoOutOfRange)
    );
    assert_eq!(
        commit(builder().ahb_prescale(3).apb1_prescale(3).enable_pll(168, 2, 7)),
        Err(ClockError::InvalidAhbPrescale)
    );
}

#[test]
fn bus_rules_are_checked_ahb_then_apb1_then_apb2() {
    let fast = || builder().source(hse(200_000_000));
    assert_eq!(
        commit(fast().ahb_prescale(3).apb1_prescale(3).apb2_prescale(3)),
        Err(ClockError::InvalidAhbPrescale)
    );
    assert_eq!(commit(fast().apb1_prescale(3).apb2_prescale(3)), Err(ClockError::HclkTooFast));
    assert_eq!(
        commit(fast().ahb_prescale(2).apb1_prescale(3).apb2_prescale(3)),
        Err(ClockError::InvalidApb1Prescale)
    );
    assert_eq!(
        commit(fast().ahb_prescale(2).apb1_prescale(4).apb2_prescale(3)),
        Err(ClockError::Pclk1TooFast)
    );
    assert_eq!(
        commit(fast().ahb_prescale(2).apb1_prescale(8).apb2_prescale(3)),
        Err(ClockError::InvalidApb2Prescale)
    );
    assert_eq!(
        commit(fast().ahb_prescale(2).apb1_prescale(8).apb2_prescale(2)),
        Err(ClockError::Pclk2TooFast)
    );
    assert!(commit(fast().ahb_prescale(2).apb1_prescale(8).apb2_prescale(4)).is_ok());
}

#[test]
fn invalid_ahb_divisors_are_refused() {
    for scale in [0u32, 3, 5, 6, 7, 9, 15, 17, 32, 63, 65, 127, 255, 511, 513, 1024, u32::MAX] {
        assert_eq!(
            commit(builder().ahb_prescale(scale)),
            Err(ClockError::InvalidAhbPrescale),
            "ahb_prescale({scale})"
        );
    }
}

#[test]
fn invalid_apb_divisors_are_refused() {
    for scale in [0u32, 3, 5, 6, 7, 9, 15, 17, 32, 64, 128, 256, 512, u32::MAX] {
        assert_eq!(
            commit(builder().apb1_prescale(scale)),
            Err(ClockError::InvalidApb1Prescale),
            "apb1_prescale({scale})"
        );
        assert_eq!(
            commit(builder().apb2_prescale(scale)),
            Err(ClockError::InvalidApb2Prescale),
            "apb2_prescale({scale})"
        );
    }
}

#[test]
fn ahb_ceiling_is_inclusive() {
    let at = builder().source(hse(168_000_000)).apb1_prescale(4).apb2_prescale(2);
    assert_eq!(commit(at).unwrap().clocks().hclk(), Hertz(168_000_000));
    let over = builder().source(hse(168_000_001)).apb1_prescale(4).apb2_prescale(2);
    assert_eq!(commit(over), Err(ClockError::HclkTooFast));
}

#[test]
fn apb1_ceiling_is_inclusive() {
    assert_eq!(commit(builder().source(hse(42_000_000))).unwrap().clocks().pclk1(), Hertz(42_000_000));
    assert_eq!(commit(builder().source(hse(42_000_001))), Err(ClockError::Pclk1TooFast));
}

#[test]
fn apb2_ceiling_is_inclusive() {
    let at = builder().source(hse(84_000_000)).apb1_prescale(2);
    assert_eq!(commit(at).unwrap().clocks().pclk2(), Hertz(84_000_000));
    // 84_000_002 / 2 = 42_000_001 would trip APB1 first, so divide APB1 by 4
    let over = builder().source(hse(84_000_001)).apb1_prescale(4);
    assert_eq!(commit(over), Err(ClockError::Pclk2TooFast));
}

#[test]
fn an_external_source_is_not_checked_against_the_oscillator_range() {
    // 1 Hz is no crystal, but no rule of the clock tree forbids it.
    let plan = commit(builder().source(hse(1))).unwrap();
    assert_eq!(plan.clocks().sysclk(), Hertz(1));
    let plan = commit(builder().source(hse(0))).unwrap();
    assert_eq!(plan.clocks().sysclk(), Hertz(0));
}
