use telemetry::device::Device;
use telemetry::peripherals::{GpioPin, SpiInterface, TimerUnit, UartPort};
use telemetry::registers::RegisterValue;
use telemetry::traits::HalTrait;

#[test]
fn test_register_value_bit_operations() {
    let mut val = RegisterValue(0);
    val.set_bit(3);
    assert!(val.is_bit_set(3));
    assert!(!val.is_bit_set(2));

    val.clear_bit(3);
    assert!(!val.is_bit_set(3));
}

#[test]
fn test_register_value_field_operations() {
    let mut val = RegisterValue(0);
    val.set_bits(2, 6, 0b1010);
    assert_eq!(val.get_bits(2, 6), 0b1010);
    assert_eq!(val.as_u32(), 0b101000);
}

#[test]
fn gpio_pin_toggles() {
    let mut pin = GpioPin::new(7);
    assert_eq!(pin.pin_num(), 7);
    assert!(!pin.is_high());
    pin.set_high().unwrap();
    assert!(pin.is_high());
    pin.toggle().unwrap();
    assert!(!pin.is_high());
    pin.set_low().unwrap();
    assert!(!pin.is_high());
}

#[test]
fn uart_requires_open_port() {
    let mut port = UartPort::new(1, 115_200);
    assert!(port.write(&[1, 2, 3]).is_err());
    port.open().unwrap();
    assert!(port.write(&[1, 2, 3]).is_ok());
    assert_eq!(port.read().unwrap(), Vec::<u8>::new());
    port.close().unwrap();
    assert!(port.read().is_err());
}

#[test]
fn spi_transfer_echoes_when_active() {
    let mut spi = SpiInterface::new(0, 1_000_000);
    assert!(spi.transfer(&[9, 8]).is_err());
    spi.initialize().unwrap();
    assert_eq!(spi.transfer(&[9, 8]).unwrap(), vec![9, 8]);
    spi.deinitialize().unwrap();
    assert!(spi.transfer(&[9, 8]).is_err());
}

#[test]
fn timer_interval_needs_running_timer() {
    let mut timer = TimerUnit::new(2, 64);
    assert!(!timer.is_running());
    assert!(timer.set_interval_ms(10).is_err());
    timer.start().unwrap();
    assert!(timer.is_running());
    assert!(timer.set_interval_ms(10).is_ok());
    timer.stop().unwrap();
    assert!(!timer.is_running());
}

#[test]
fn device_lifecycle() {
    let mut device = Device::new("imu".to_string());
    assert_eq!(device.health_check().unwrap(), false);
    device.initialize().unwrap();
    assert_eq!(device.health_check().unwrap(), true);
    device.shutdown().unwrap();
    assert_eq!(device.health_check().unwrap(), false);
}
