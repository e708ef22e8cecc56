//! Interrupt vector numbers of the nRF52's peripherals, as assigned by the
//! silicon.

use vstd::prelude::*;

verus! {

pub const POWER_CLOCK: u32 = 0;
pub const RADIO: u32 = 1;
pub const UART0: u32 = 2;
pub const SPI0_TWI0: u32 = 3;
pub const SPI1_TWI1: u32 = 4;
pub const NFCT: u32 = 5;
pub const GPIOTE: u32 = 6;
pub const ADC: u32 = 7;
pub const TIMER0: u32 = 8;
pub const TIMER1: u32 = 9;
pub const TIMER2: u32 = 10;
pub const RTC0: u32 = 11;
pub const TEMP: u32 = 12;
pub const RNG: u32 = 13;
pub const ECB: u32 = 14;
pub const CCM_AAR: u32 = 15;
pub const WDT: u32 = 16;
pub const RTC1: u32 = 17;
pub const QDEC: u32 = 18;
pub const LPCOMP: u32 = 19;
pub const SPIM2_SPIS2_SPI2: u32 = 35;

} // verus!
