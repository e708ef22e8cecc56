use nrf52::chip::{Action, Event, NRF52};
use nrf52::peripheral::{DeferredCallTask, Peripheral};
use nrf52::peripheral_interrupts::{
    ADC, ECB, GPIOTE, NFCT, RADIO, SPI0_TWI0, SPI1_TWI1, SPIM2_SPIS2_SPI2, TIMER1, UART0,
};
use nrf52::router::{arbitrate, Dispatch, InterruptService, InterruptServiceTrait, Route};

/// A deferred-call queue, an interrupt controller and peripherals, all
/// recording what the servicing loop asked of them.
struct Bench {
    deferred: Vec<DeferredCallTask>,
    pending: Vec<u32>,
    enabled: Vec<Peripheral>,
    log: Vec<Action>,
    halted: bool,
}

impl Bench {
    fn new(deferred: Vec<DeferredCallTask>, pending: Vec<u32>, enabled: Vec<Peripheral>) -> Bench {
        Bench { deferred, pending, enabled, log: Vec::new(), halted: false }
    }

    fn deferred_has_tasks(&self) -> bool {
        !self.deferred.is_empty()
    }

    fn nvic_has_pending(&self) -> bool {
        !self.pending.is_empty()
    }

    /// Runs one call of the servicing loop to its end.
    fn service(&mut self, chip: &mut NRF52<InterruptService>) {
        let mut event = Event::Begin;
        loop {
            assert!(chip.accepts(event));
            let action = chip.step(event);
            self.log.push(action);
            event = match action {
                Action::TakeDeferred => {
                    if self.deferred.is_empty() {
                        Event::Deferred(None)
                    } else {
                        Event::Deferred(Some(self.deferred.remove(0)))
                    }
                }
                Action::NextVector => Event::Vector(self.pending.iter().copied().min()),
                Action::QueryEnabled(a, b) => {
                    Event::Enabled(self.enabled.contains(&a), self.enabled.contains(&b))
                }
                Action::ClearPending(v) => {
                    self.pending.retain(|&p| p != v);
                    Event::Done
                }
                Action::Handle(_) | Action::ReportUnsupported(_) | Action::Enable(_) => Event::Done,
                Action::Fatal(_, _) => {
                    self.halted = true;
                    return;
                }
                Action::Finish => return,
            };
        }
    }

    fn handled(&self) -> Vec<Peripheral> {
        self.log
            .iter()
            .filter_map(|a| match a {
                Action::Handle(p) => Some(*p),
                _ => None,
            })
            .collect()
    }
}

fn chip() -> NRF52<InterruptService> {
    NRF52::new(InterruptService::new(0))
}

#[test]
fn end_to_end_nvmc_then_radio() {
    let mut c = chip();
    let mut b = Bench::new(
        vec![DeferredCallTask::Nvmc],
        vec![RADIO],
        vec![Peripheral::Ieee802154Radio],
    );
    assert!(c.has_pending_interrupts(b.nvic_has_pending(), b.deferred_has_tasks()));
    b.service(&mut c);
    assert_eq!(
        b.log,
        vec![
            Action::TakeDeferred,
            Action::Handle(Peripheral::Nvmc),
            Action::TakeDeferred,
            Action::NextVector,
            Action::QueryEnabled(Peripheral::Ieee802154Radio, Peripheral::BleRadio),
            Action::Handle(Peripheral::Ieee802154Radio),
            Action::ClearPending(RADIO),
            Action::Enable(RADIO),
            Action::TakeDeferred,
            Action::NextVector,
            Action::Finish,
        ]
    );
    assert!(!b.deferred_has_tasks());
    assert!(!b.nvic_has_pending());
    assert!(!c.has_pending_interrupts(b.nvic_has_pending(), b.deferred_has_tasks()));
}

#[test]
fn exhaustion_drains_both_sources() {
    let mut c = chip();
    let mut b = Bench::new(
        vec![DeferredCallTask::Nvmc, DeferredCallTask::Nvmc],
        vec![UART0, ADC, 40, TIMER1],
        vec![],
    );
    b.service(&mut c);
    assert!(!b.halted);
    assert!(!b.deferred_has_tasks());
    assert!(!b.nvic_has_pending());
    assert_eq!(
        b.handled(),
        vec![
            Peripheral::Nvmc,
            Peripheral::Nvmc,
            Peripheral::Uarte0,
            Peripheral::Adc,
            Peripheral::Alarm1,
        ]
    );
    assert_eq!(b.log.last(), Some(&Action::Finish));
}

#[test]
fn deferred_call_runs_before_vector() {
    let mut c = chip();
    let mut b = Bench::new(vec![DeferredCallTask::Nvmc], vec![UART0], vec![]);
    b.service(&mut c);
    assert_eq!(b.handled(), vec![Peripheral::Nvmc, Peripheral::Uarte0]);
    let first_vector = b.log.iter().position(|a| *a == Action::NextVector).unwrap();
    let nvmc = b.log.iter().position(|a| *a == Action::Handle(Peripheral::Nvmc)).unwrap();
    assert!(nvmc < first_vector);
}

#[test]
fn unknown_vector_is_reported_and_rearmed() {
    let mut c = chip();
    let mut b = Bench::new(vec![], vec![40], vec![]);
    b.service(&mut c);
    assert_eq!(
        b.log,
        vec![
            Action::TakeDeferred,
            Action::NextVector,
            Action::ReportUnsupported(40),
            Action::ClearPending(40),
            Action::Enable(40),
            Action::TakeDeferred,
            Action::NextVector,
            Action::Finish,
        ]
    );
    assert!(b.handled().is_empty());
}

#[test]
fn each_vector_cleared_and_enabled_once() {
    let mut c = chip();
    let mut b = Bench::new(vec![], vec![GPIOTE, SPI0_TWI0, 40], vec![Peripheral::Twim0]);
    b.service(&mut c);
    for v in [GPIOTE, SPI0_TWI0, 40] {
        let clears: Vec<usize> = (0..b.log.len()).filter(|&i| b.log[i] == Action::ClearPending(v)).collect();
        let enables: Vec<usize> = (0..b.log.len()).filter(|&i| b.log[i] == Action::Enable(v)).collect();
        assert_eq!(clears.len(), 1);
        assert_eq!(enables.len(), 1);
        assert_eq!(enables[0], clears[0] + 1);
        assert_eq!(b.log[enables[0] + 1], Action::TakeDeferred);
    }
    assert_eq!(b.handled(), vec![Peripheral::Twim0, Peripheral::GpioPort(0)]);
}

#[test]
fn shared_vector_spurious_is_rearmed_without_handler() {
    let mut c = chip();
    let mut b = Bench::new(vec![], vec![SPI1_TWI1], vec![]);
    b.service(&mut c);
    assert!(b.handled().is_empty());
    assert!(!b.log.contains(&Action::ReportUnsupported(SPI1_TWI1)));
    assert!(b.log.contains(&Action::Enable(SPI1_TWI1)));
    assert!(!b.nvic_has_pending());
}

#[test]
fn shared_vector_conflict_halts() {
    let mut c = chip();
    let mut b = Bench::new(
        vec![],
        vec![RADIO, UART0],
        vec![Peripheral::Ieee802154Radio, Peripheral::BleRadio],
    );
    b.service(&mut c);
    assert!(b.halted);
    assert_eq!(
        b.log.last(),
        Some(&Action::Fatal(Peripheral::Ieee802154Radio, Peripheral::BleRadio))
    );
    assert!(b.handled().is_empty());
    assert!(!c.accepts(Event::Done));
    assert!(!c.accepts(Event::Begin));
}

#[test]
fn step_refuses_out_of_turn_events() {
    let c = chip();
    assert!(c.accepts(Event::Begin));
    assert!(!c.accepts(Event::Done));
    assert!(!c.accepts(Event::Vector(Some(RADIO))));
    assert!(!c.accepts(Event::Deferred(None)));
}

#[test]
fn loop_can_run_again_after_finishing() {
    let mut c = chip();
    let mut b = Bench::new(vec![], vec![], vec![]);
    b.service(&mut c);
    assert_eq!(b.log, vec![Action::TakeDeferred, Action::NextVector, Action::Finish]);
    assert!(c.accepts(Event::Begin));
    b.pending.push(ADC);
    b.service(&mut c);
    assert_eq!(b.handled(), vec![Peripheral::Adc]);
}

#[test]
fn has_pending_interrupts_is_either_source() {
    let c = chip();
    assert!(!c.has_pending_interrupts(false, false));
    assert!(c.has_pending_interrupts(true, false));
    assert!(c.has_pending_interrupts(false, true));
    assert!(c.has_pending_interrupts(true, true));
}

#[test]
fn arbitrate_exactly_one_enabled() {
    let a = Peripheral::Spim0;
    let b = Peripheral::Twim0;
    assert_eq!(arbitrate(a, b, true, false), Dispatch::Handle(a));
    assert_eq!(arbitrate(a, b, false, true), Dispatch::Handle(b));
}

#[test]
fn arbitrate_none_enabled() {
    assert_eq!(arbitrate(Peripheral::Spim1, Peripheral::Twim1, false, false), Dispatch::Spurious);
}

#[test]
fn arbitrate_both_enabled() {
    assert_eq!(
        arbitrate(Peripheral::Ieee802154Radio, Peripheral::BleRadio, true, true),
        Dispatch::Conflict(Peripheral::Ieee802154Radio, Peripheral::BleRadio)
    );
}

#[test]
fn vector_table() {
    let s = InterruptService::new(3);
    assert_eq!(s.service_interrupt(GPIOTE), Some(Route::Single(Peripheral::GpioPort(3))));
    assert_eq!(s.service_interrupt(UART0), Some(Route::Single(Peripheral::Uarte0)));
    assert_eq!(s.service_interrupt(TIMER1), Some(Route::Single(Peripheral::Alarm1)));
    assert_eq!(s.service_interrupt(SPIM2_SPIS2_SPI2), Some(Route::Single(Peripheral::Spim2)));
    assert_eq!(s.service_interrupt(ECB), Some(Route::Single(Peripheral::Aesecb)));
    assert_eq!(
        s.service_interrupt(RADIO),
        Some(Route::Shared(Peripheral::Ieee802154Radio, Peripheral::BleRadio))
    );
    assert_eq!(
        s.service_interrupt(SPI1_TWI1),
        Some(Route::Shared(Peripheral::Spim1, Peripheral::Twim1))
    );
    assert_eq!(s.service_interrupt(NFCT), None);
    assert_eq!(s.service_interrupt(u32::MAX), None);
}

#[test]
fn deferred_task_handler() {
    assert_eq!(DeferredCallTask::Nvmc.handler(), Peripheral::Nvmc);
}

#[test]
fn new_chip_is_idle() {
    let c = chip();
    assert!(c.accepts(Event::Begin));
    assert!(!c.accepts(Event::Enabled(false, false)));
}
