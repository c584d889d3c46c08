use gpio_server::config::{GpioConfig, GpioMode, GpioPinConfig};
use gpio_server::registry::{prepare_gpio, GpioHandlers, OpenError};

#[test]
fn empty_registry_holds_no_pin() {
    let h = GpioHandlers::new();
    assert!(!h.has_input(17));
    assert!(!h.has_output(27));
}

#[test]
fn empty_config_builds_empty_registry() {
    let config = GpioConfig::from_records(&vec![]).unwrap();
    let h = prepare_gpio(&config).unwrap();
    assert!(!h.has_input(0));
    assert!(!h.has_output(0));
}

// No board has GPIO lines numbered this high, so these pins cannot be opened
// on any machine: with a sysfs GPIO interface the export is refused, and
// without one the interface is missing.
#[test]
fn unopenable_pin_aborts_build() {
    let config = GpioConfig::from_records(&vec![(65535, 0), (65534, 1)]).unwrap();
    let err = prepare_gpio(&config).err().unwrap();
    assert_eq!(err.number, 65535);
    assert_eq!(err.mode, GpioMode::INPUT);
    assert!(err.message().starts_with("Could not open gpio 65535 on input mode: "));
}

#[test]
fn unopenable_output_pin_aborts_build() {
    let config = GpioConfig::from_records(&vec![(65534, 1)]).unwrap();
    let err = prepare_gpio(&config).err().unwrap();
    assert_eq!(err.number, 65534);
    assert_eq!(err.mode, GpioMode::OUTPUT);
    assert!(err.message().starts_with("Could not open gpio 65534 on output mode: "));
}

#[test]
fn open_error_names_pin_and_cause() {
    let cause = std::io::Error::new(std::io::ErrorKind::Other, "device busy");
    let err = OpenError::new(GpioPinConfig { number: 27, mode: GpioMode::OUTPUT }, &cause);
    assert_eq!(err.number, 27);
    assert_eq!(err.mode, GpioMode::OUTPUT);
    assert_eq!(err.cause, "device busy");
    assert_eq!(err.message(), "Could not open gpio 27 on output mode: device busy");
}

#[test]
fn open_error_message_for_input_pin() {
    let cause = std::io::Error::new(std::io::ErrorKind::NotFound, "no such file");
    let err = OpenError::new(GpioPinConfig { number: 4, mode: GpioMode::INPUT }, &cause);
    assert_eq!(err.message(), "Could not open gpio 4 on input mode: no such file");
}
