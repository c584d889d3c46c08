//! The GPIO crate's pin handles, and what this library relies on of them.
use vstd::prelude::*;
use gpio::sysfs::{SysFsGpioInput, SysFsGpioOutput};
use gpio::GpioIn;

verus! {

/// An opened sysfs input pin; opaque.
#[verifier::external_type_specification]
#[verifier::external_body]
pub struct ExSysFsGpioInput(SysFsGpioInput);

/// An opened sysfs output pin; opaque.
#[verifier::external_type_specification]
#[verifier::external_body]
pub struct ExSysFsGpioOutput(SysFsGpioOutput);

/// An I/O error from the operating system; opaque.
#[verifier::external_type_specification]
#[verifier::external_body]
pub struct ExIoError(std::io::Error);


/// Relies on gpio::sysfs::SysFsGpioInput::open: exports the pin, sets its
/// direction and opens its value file. Any of these may fail with an I/O
/// error; nothing is promised of the outcome.
pub assume_specification[ SysFsGpioInput::open ](gpio_num: u16) -> Result<SysFsGpioInput, std::io::Error>;

/// Relies on gpio::sysfs::SysFsGpioOutput::open, as for input pins.
pub assume_specification[ SysFsGpioOutput::open ](gpio_num: u16) -> Result<SysFsGpioOutput, std::io::Error>;

/// Relies on gpio::GpioIn::read_value for sysfs input pins: rewinds the
/// value file and reads one byte, `'1'` giving `GpioValue::High` and `'0'`
/// `GpioValue::Low`; anything else, or a failed read, is an I/O error. The
/// level is handed back through the crate's `From<GpioValue> for bool`
/// (`High` is `true`). Nothing is promised of the outcome.
#[verifier::external_body]
pub(crate) fn read_input_level(pin: &mut SysFsGpioInput) -> Result<bool, std::io::Error> {
    pin.read_value().map(bool::from)
}

} // verus!
