use vstd::prelude::*;

verus! {

/// A peripheral driver that the chip can hand an interrupt to.
#[derive(Clone, Copy, Debug, PartialEq, Eq, Structural)]
pub enum Peripheral {
    /// AES-ECB block cipher engine.
    Aesecb,
    /// The board's GPIO port, identified by its index.
    GpioPort(u8),
    /// Power and clock management.
    Power,
    /// The IEEE 802.15.4 radio driver.
    Ieee802154Radio,
    /// The Bluetooth Low Energy radio driver.
    BleRadio,
    /// True random number generator.
    Trng,
    /// Real-time counter 1.
    Rtc,
    /// Temperature sensor.
    Temp,
    /// Timer 0.
    Timer0,
    /// Timer 1, used as an alarm.
    Alarm1,
    /// Timer 2.
    Timer2,
    /// UART with EasyDMA.
    Uarte0,
    /// SPI master 0.
    Spim0,
    /// Two-wire (I2C) master 0.
    Twim0,
    /// SPI master 1.
    Spim1,
    /// Two-wire (I2C) master 1.
    Twim1,
    /// SPI master 2.
    Spim2,
    /// Analog-to-digital converter.
    Adc,
    /// Non-volatile memory controller.
    Nvmc,
}

/// A software-posted unit of work, run outside interrupt context.
#[derive(Clone, Copy, Debug, PartialEq, Eq, Structural)]
pub enum DeferredCallTask {
    /// The non-volatile memory controller finished an erase or write.
    Nvmc,
}

/// The driver that runs a deferred task.
pub open spec fn task_handler(task: DeferredCallTask) -> Peripheral {
    match task {
        DeferredCallTask::Nvmc => Peripheral::Nvmc,
    }
}

impl DeferredCallTask {
    /// The driver that carries out the task `self`.
    pub fn handler(self) -> (p: Peripheral)
        ensures
            p == task_handler(self),
    {
        match self {
            DeferredCallTask::Nvmc => Peripheral::Nvmc,
        }
    }
}

} // verus!
