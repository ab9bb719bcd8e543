//! The assistant's pins.

use banc::board::{
    capture_control_handler, capture_read_handler, i2c_transaction_handler, pin_index,
    spi_transfer_handler, uart_config_handler, uart_tx_handler, Monitor, MonitorEvent,
    MonitorStart, MonitorStep, PinSetup, PinTable,
};
use banc::icd::{
    CaptureAction, CaptureControl, CaptureRead, Chunk, Error, GpioConfig, GpioRead, GpioSet,
    I2cTransaction, Level, PinEvent, PinMode, PinMonitor, Pull, SpiTransfer, UartConfig,
};

#[test]
fn the_board_has_eight_pins() {
    assert_eq!(pin_index(0), Some(0));
    assert_eq!(pin_index(7), Some(7));
    assert_eq!(pin_index(8), None);
    assert_eq!(pin_index(255), None);
}

#[test]
fn pins_are_set_up_and_driven() {
    let pins = PinTable::new();
    assert_eq!(
        pins.gpio_config_handler(GpioConfig { pin: 2, mode: PinMode::Input(Pull::Up) }),
        Ok(PinSetup { index: 2, pull: Pull::Up, output: false })
    );
    assert_eq!(
        pins.gpio_config_handler(GpioConfig { pin: 3, mode: PinMode::Output }),
        Ok(PinSetup { index: 3, pull: Pull::Floating, output: true })
    );
    assert_eq!(pins.gpio_set_handler(GpioSet { pin: 1, level: Level::High }), Ok((1, true)));
    assert_eq!(pins.gpio_set_handler(GpioSet { pin: 1, level: Level::Low }), Ok((1, false)));
    assert_eq!(pins.gpio_read_pin(GpioRead { pin: 4 }), Ok(4));
    assert_eq!(pins.gpio_read_handler(GpioRead { pin: 4 }, true), Ok(Level::High));
    assert_eq!(pins.gpio_read_handler(GpioRead { pin: 4 }, false), Ok(Level::Low));
    assert_eq!(
        pins.gpio_set_handler(GpioSet { pin: 8, level: Level::Low }),
        Err(Error::Unsupported)
    );
    assert_eq!(pins.gpio_read_handler(GpioRead { pin: 9 }, true), Err(Error::Unsupported));
}

#[test]
fn a_monitored_pin_is_busy() {
    let mut pins = PinTable::new();
    let watch = PinMonitor { pin: 5, enable: true };
    assert_eq!(pins.pin_monitor_handler(watch), MonitorStart::Watch(5));
    assert_eq!(pins.pin_monitor_handler(watch), MonitorStart::Refuse(Error::Busy));
    assert_eq!(pins.gpio_read_pin(GpioRead { pin: 5 }), Err(Error::Busy));
    assert_eq!(
        pins.gpio_config_handler(GpioConfig { pin: 5, mode: PinMode::Output }),
        Err(Error::Busy)
    );
    assert_eq!(pins.gpio_read_pin(GpioRead { pin: 6 }), Ok(6));
    assert_eq!(
        pins.pin_monitor_handler(PinMonitor { pin: 5, enable: false }),
        MonitorStart::SignalStop(5)
    );
    pins.hand_back(5);
    assert_eq!(pins.gpio_read_pin(GpioRead { pin: 5 }), Ok(5));
    assert_eq!(
        pins.pin_monitor_handler(PinMonitor { pin: 9, enable: true }),
        MonitorStart::Refuse(Error::Unsupported)
    );
}

#[test]
fn only_a_disable_made_while_it_runs_stops_a_monitor() {
    let mut pins = PinTable::new();
    let on = PinMonitor { pin: 3, enable: true };
    let off = PinMonitor { pin: 3, enable: false };
    // Nothing runs yet: this disable is forgotten when a monitor starts.
    assert_eq!(pins.pin_monitor_handler(off), MonitorStart::SignalStop(3));
    assert_eq!(pins.pin_monitor_handler(on), MonitorStart::Watch(3));
    assert!(!pins.take_stop(3));
    // A disable for another pin is none of its business.
    assert_eq!(
        pins.pin_monitor_handler(PinMonitor { pin: 4, enable: false }),
        MonitorStart::SignalStop(4)
    );
    assert!(!pins.take_stop(3));
    // Its own is, and a request that is refused does not undo it.
    assert_eq!(pins.pin_monitor_handler(off), MonitorStart::SignalStop(3));
    assert_eq!(pins.pin_monitor_handler(on), MonitorStart::Refuse(Error::Busy));
    assert!(pins.take_stop(3));
    assert!(!pins.take_stop(3));
}

#[test]
fn an_unheard_monitor_does_not_start() {
    let mut pins = PinTable::new();
    let watch = PinMonitor { pin: 0, enable: true };
    assert_eq!(pins.pin_monitor_handler(watch), MonitorStart::Watch(0));
    assert!(pins.pin_monitor_replied(0, 0, false).is_none());
    assert_eq!(pins.pin_monitor_handler(watch), MonitorStart::Watch(0));
    let monitor = pins.pin_monitor_replied(0, 0, true).unwrap();
    assert_eq!((monitor.pin, monitor.seq), (0, 0));
    assert_eq!(pins.gpio_read_pin(GpioRead { pin: 0 }), Err(Error::Busy));
}

#[test]
fn edges_are_numbered() {
    let mut monitor = Monitor::new(3);
    let up = MonitorEvent::Edge { is_high: true, timestamp_us: 10 };
    assert_eq!(
        monitor.step(up),
        MonitorStep::Publish {
            seq: 0,
            event: PinEvent { pin: 3, level: Level::High, timestamp_us: 10 }
        }
    );
    monitor.seq = u16::MAX;
    let down = MonitorEvent::Edge { is_high: false, timestamp_us: 11 };
    assert_eq!(
        monitor.step(down),
        MonitorStep::Publish {
            seq: u16::MAX,
            event: PinEvent { pin: 3, level: Level::Low, timestamp_us: 11 }
        }
    );
    assert_eq!(monitor.seq, 0);
    assert_eq!(monitor.step(MonitorEvent::Stop), MonitorStep::End);
}

#[test]
fn what_the_board_lacks_is_unsupported() {
    let empty = || heapless::Vec::new();
    let chunk = Chunk { data: empty() };
    assert_eq!(chunk.clone(), chunk);
    assert!(matches!(uart_config_handler(UartConfig { baud: 9600 }), Err(Error::Unsupported)));
    assert!(matches!(uart_tx_handler(Chunk { data: empty() }), Err(Error::Unsupported)));
    assert!(matches!(
        spi_transfer_handler(SpiTransfer { write: empty() }),
        Err(Error::Unsupported)
    ));
    assert!(matches!(
        i2c_transaction_handler(I2cTransaction { addr: 1, write: empty(), read_len: 1 }),
        Err(Error::Unsupported)
    ));
    assert!(matches!(
        capture_control_handler(CaptureControl { pin: 0, action: CaptureAction::Start }),
        Err(Error::Unsupported)
    ));
    assert!(matches!(
        capture_read_handler(CaptureRead { offset: 0 }),
        Err(Error::Unsupported)
    ));
}
