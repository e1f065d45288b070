//! Clock-tree configuration for the STM32F40x family.
//!
//! The library decides; it does not touch hardware. A [`rcc::CFGRBuilder`] collects the
//! wanted oscillator, PLL coefficients and bus prescalers. Committing it checks every
//! derived frequency against the limits of the part and yields a [`rcc::ClockPlan`]: the
//! register writes, in the order in which they must be carried out, and the frozen
//! [`rcc::Clocks`] that hold once they are.

pub mod flash;
pub mod rcc;
pub mod registers;
pub mod time;
pub mod tree;
