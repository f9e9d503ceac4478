use msp432_razcal::registers::{ReadWriteAccess, Reg};
use msp432_razcal::spi::{
    ClockPhase, ClockPolarity, FallingEdgeSample, HighIdle, LowIdle, RisingEdgeSample, SpiMode,
};
use msp432_razcal::watchdog::WatchdogTimer;
use msp432_razcal::Edge;

#[test]
fn spi_clock_settings() {
    assert!(!LowIdle::get_idle_state());
    assert!(HighIdle::get_idle_state());
    assert_eq!(RisingEdgeSample::get_sample_edge(), Edge::RisingEdge);
    assert_eq!(FallingEdgeSample::get_sample_edge(), Edge::FallingEdge);
    let _mode = SpiMode::new(HighIdle, FallingEdgeSample);
}

#[test]
fn watchdog_is_owned_once_and_holds_with_password() {
    let mut in_use = false;
    let mut wdt = WatchdogTimer::acquire(&mut in_use).unwrap();
    assert!(WatchdogTimer::acquire(&mut in_use).is_none());
    let mut control: Reg<ReadWriteAccess> = Reg::new(0x6904);
    wdt.disable(&mut control);
    assert_eq!(control.read(), 0x5A84);
    wdt.enable(&mut control);
    assert_eq!(control.read(), 0x5A04);
    wdt.release(&mut in_use);
    assert!(WatchdogTimer::acquire(&mut in_use).is_some());
}
