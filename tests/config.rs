use gpio_server::config::{GpioConfig, GpioMode, GpioPinConfig, InvalidModeError};

#[test]
fn mode_codes_decode() {
    assert_eq!(GpioMode::from_code(0), Some(GpioMode::INPUT));
    assert_eq!(GpioMode::from_code(1), Some(GpioMode::OUTPUT));
    assert_eq!(GpioMode::from_code(2), None);
    assert_eq!(GpioMode::from_code(255), None);
}

#[test]
fn mode_codes_encode() {
    assert_eq!(GpioMode::INPUT.code(), 0);
    assert_eq!(GpioMode::OUTPUT.code(), 1);
}

#[test]
fn records_decode_in_order() {
    let config = GpioConfig::from_records(&vec![(17, 0), (27, 1)]).unwrap();
    assert_eq!(
        config.pins,
        vec![
            GpioPinConfig { number: 17, mode: GpioMode::INPUT },
            GpioPinConfig { number: 27, mode: GpioMode::OUTPUT },
        ]
    );
}

#[test]
fn duplicate_numbers_are_kept() {
    let config = GpioConfig::from_records(&vec![(5, 0), (5, 0), (5, 1)]).unwrap();
    assert_eq!(config.pins.len(), 3);
    assert_eq!(config.pins[2], GpioPinConfig { number: 5, mode: GpioMode::OUTPUT });
}

#[test]
fn empty_records_decode_to_empty_config() {
    let config = GpioConfig::from_records(&vec![]).unwrap();
    assert!(config.pins.is_empty());
}

#[test]
fn unknown_mode_is_refused() {
    let r = GpioConfig::from_records(&vec![(17, 0), (27, 2), (22, 7)]);
    assert_eq!(r.unwrap_err(), InvalidModeError { index: 1, code: 2 });
}

#[test]
fn unknown_mode_in_first_record_is_refused() {
    let r = GpioConfig::from_records(&vec![(65535, 9)]);
    assert_eq!(r.unwrap_err(), InvalidModeError { index: 0, code: 9 });
}
