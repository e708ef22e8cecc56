//! The vector-to-handler table and the arbitration of shared vectors.

use vstd::prelude::*;
use crate::peripheral::Peripheral;
use crate::peripheral_interrupts::{
    ADC, ECB, GPIOTE, POWER_CLOCK, RADIO, RNG, RTC1, SPI0_TWI0, SPI1_TWI1, SPIM2_SPIS2_SPI2,
    TEMP, TIMER0, TIMER1, TIMER2, UART0,
};

verus! {

/// Where a recognized vector goes.
#[derive(Clone, Copy, Debug, PartialEq, Eq, Structural)]
pub enum Route {
    /// The vector belongs to one peripheral, whose handler always runs.
    Single(Peripheral),
    /// Two peripherals share the vector and must never be enabled together;
    /// whichever is enabled when it fires gets it.
    Shared(Peripheral, Peripheral),
}

/// The outcome of arbitrating a shared vector.
#[derive(Clone, Copy, Debug, PartialEq, Eq, Structural)]
pub enum Dispatch {
    /// Exactly this member is enabled: its handler runs.
    Handle(Peripheral),
    /// No member is enabled: the vector fired spuriously and nothing runs.
    Spurious,
    /// Both members are enabled, which the group forbids: a fatal
    /// configuration error, and neither handler may run.
    Conflict(Peripheral, Peripheral),
}

/// Arbitration of a group `(a, b)` given whether each member reports enabled.
pub open spec fn arbitration(a: Peripheral, b: Peripheral, a_enabled: bool, b_enabled: bool) -> Dispatch {
    if a_enabled && b_enabled {
        Dispatch::Conflict(a, b)
    } else if a_enabled {
        Dispatch::Handle(a)
    } else if b_enabled {
        Dispatch::Handle(b)
    } else {
        Dispatch::Spurious
    }
}

/// Decides which member of the shared group `(a, b)` services the vector.
pub fn arbitrate(a: Peripheral, b: Peripheral, a_enabled: bool, b_enabled: bool) -> (d: Dispatch)
    ensures
        d == arbitration(a, b, a_enabled, b_enabled),
        a_enabled && !b_enabled ==> d == Dispatch::Handle(a),
        !a_enabled && b_enabled ==> d == Dispatch::Handle(b),
        !a_enabled && !b_enabled ==> d == Dispatch::Spurious,
        a_enabled && b_enabled ==> d == Dispatch::Conflict(a, b),
{
    match (a_enabled, b_enabled) {
        (false, false) => Dispatch::Spurious,
        (true, false) => Dispatch::Handle(a),
        (false, true) => Dispatch::Handle(b),
        (true, true) => Dispatch::Conflict(a, b),
    }
}

/// A chip model's mapping from vector numbers to peripheral handlers, chosen
/// once at boot.
pub trait InterruptServiceTrait {
    /// The route of `interrupt`, or `None` where this chip model does not
    /// support it.
    spec fn route_of(&self, interrupt: u32) -> Option<Route>;

    /// Looks up `interrupt`; `None` means it is not supported by this chip.
    fn service_interrupt(&self, interrupt: u32) -> (r: Option<Route>)
        ensures
            r == self.route_of(interrupt),
    ;
}

/// The nRF52's vector table. The GPIO port is the board's, so it is supplied
/// at construction.
pub open spec fn nrf52_route(gpio_port: u8, interrupt: u32) -> Option<Route> {
    if interrupt == ECB {
        Some(Route::Single(Peripheral::Aesecb))
    } else if interrupt == GPIOTE {
        Some(Route::Single(Peripheral::GpioPort(gpio_port)))
    } else if interrupt == POWER_CLOCK {
        Some(Route::Single(Peripheral::Power))
    } else if interrupt == RADIO {
        Some(Route::Shared(Peripheral::Ieee802154Radio, Peripheral::BleRadio))
    } else if interrupt == RNG {
        Some(Route::Single(Peripheral::Trng))
    } else if interrupt == RTC1 {
        Some(Route::Single(Peripheral::Rtc))
    } else if interrupt == TEMP {
        Some(Route::Single(Peripheral::Temp))
    } else if interrupt == TIMER0 {
        Some(Route::Single(Peripheral::Timer0))
    } else if interrupt == TIMER1 {
        Some(Route::Single(Peripheral::Alarm1))
    } else if interrupt == TIMER2 {
        Some(Route::Single(Peripheral::Timer2))
    } else if interrupt == UART0 {
        Some(Route::Single(Peripheral::Uarte0))
    } else if interrupt == SPI0_TWI0 {
        Some(Route::Shared(Peripheral::Spim0, Peripheral::Twim0))
    } else if interrupt == SPI1_TWI1 {
        Some(Route::Shared(Peripheral::Spim1, Peripheral::Twim1))
    } else if interrupt == SPIM2_SPIS2_SPI2 {
        Some(Route::Single(Peripheral::Spim2))
    } else if interrupt == ADC {
        Some(Route::Single(Peripheral::Adc))
    } else {
        None
    }
}

/// The nRF52's interrupt service.
pub struct InterruptService {
    /// The board's GPIO port, which receives GPIO events.
    pub gpio_port: u8,
}

impl InterruptService {
    /// An interrupt service that hands GPIO events to port `gpio_port`.
    pub fn new(gpio_port: u8) -> (s: InterruptService)
        ensures
            s.gpio_port == gpio_port,
    {
        InterruptService { gpio_port }
    }
}

impl InterruptServiceTrait for InterruptService {
    open spec fn route_of(&self, interrupt: u32) -> Option<Route> {
        nrf52_route(self.gpio_port, interrupt)
    }

    fn service_interrupt(&self, interrupt: u32) -> (r: Option<Route>) {
        if interrupt == ECB {
            Some(Route::Single(Peripheral::Aesecb))
        } else if interrupt == GPIOTE {
            Some(Route::Single(Peripheral::GpioPort(self.gpio_port)))
        } else if interrupt == POWER_CLOCK {
            Some(Route::Single(Peripheral::Power))
        } else if interrupt == RADIO {
            Some(Route::Shared(Peripheral::Ieee802154Radio, Peripheral::BleRadio))
        } else if interrupt == RNG {
            Some(Route::Single(Peripheral::Trng))
        } else if interrupt == RTC1 {
            Some(Route::Single(Peripheral::Rtc))
        } else if interrupt == TEMP {
            Some(Route::Single(Peripheral::Temp))
        } else if interrupt == TIMER0 {
            Some(Route::Single(Peripheral::Timer0))
        } else if interrupt == TIMER1 {
            Some(Route::Single(Peripheral::Alarm1))
        } else if interrupt == TIMER2 {
            Some(Route::Single(Peripheral::Timer2))
        } else if interrupt == UART0 {
            Some(Route::Single(Peripheral::Uarte0))
        } else if interrupt == SPI0_TWI0 {
            Some(Route::Shared(Peripheral::Spim0, Peripheral::Twim0))
        } else if interrupt == SPI1_TWI1 {
            Some(Route::Shared(Peripheral::Spim1, Peripheral::Twim1))
        } else if interrupt == SPIM2_SPIS2_SPI2 {
            Some(Route::Single(Peripheral::Spim2))
        } else if interrupt == ADC {
            Some(Route::Single(Peripheral::Adc))
        } else {
            None
        }
    }
}

} // verus!
