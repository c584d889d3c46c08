//! The pin configuration: which pins are opened, and in which direction.
use vstd::prelude::*;

verus! {

/// Direction in which a pin is opened. Encoded as `0` (input) or `1` (output).
#[derive(Clone, Copy, Debug, PartialEq, Eq, Structural)]
pub enum GpioMode {
    INPUT,
    OUTPUT,
}

/// What a mode code decodes to, if anything.
pub open spec fn mode_of_code(code: u8) -> Option<GpioMode> {
    if code == 0 {
        Some(GpioMode::INPUT)
    } else if code == 1 {
        Some(GpioMode::OUTPUT)
    } else {
        None
    }
}

/// A configuration record held a mode code that names no direction.
#[derive(Clone, Copy, Debug, PartialEq, Eq, Structural)]
pub struct InvalidModeError {
    /// Position of the offending record in the configuration.
    pub index: usize,
    /// The code that was found there.
    pub code: u8,
}

impl GpioMode {
    /// Decodes a mode code; anything but `0` or `1` is refused.
    pub fn from_code(code: u8) -> (r: Option<GpioMode>)
        ensures
            r == mode_of_code(code),
    {
        if code == 0 {
            Some(GpioMode::INPUT)
        } else if code == 1 {
            Some(GpioMode::OUTPUT)
        } else {
            None
        }
    }

    /// The code this mode is written as.
    pub fn code(&self) -> (r: u8)
        ensures
            mode_of_code(r) == Some(*self),
    {
        match self {
            GpioMode::INPUT => 0,
            GpioMode::OUTPUT => 1,
        }
    }
}

/// One configured pin.
#[derive(Clone, Copy, Debug, PartialEq, Eq, Structural)]
pub struct GpioPinConfig {
    pub number: u16,
    pub mode: GpioMode,
}

/// The ordered list of configured pins.
#[derive(Clone, Debug)]
pub struct GpioConfig {
    pub pins: Vec<GpioPinConfig>,
}

/// The records decode one by one into the pins, in order.
pub open spec fn decodes_to(records: Seq<(u16, u8)>, pins: Seq<GpioPinConfig>) -> bool {
    &&& pins.len() == records.len()
    &&& forall|i: int|
        0 <= i < records.len() ==> Some(#[trigger] pins[i].mode) == mode_of_code(records[i].1)
            && pins[i].number == records[i].0
}

/// Some record holds a code that names no direction.
pub open spec fn has_invalid_mode(records: Seq<(u16, u8)>) -> bool {
    exists|i: int| 0 <= i < records.len() && mode_of_code(#[trigger] records[i].1) is None
}

/// `e` points at the first record whose code names no direction.
pub open spec fn first_invalid_mode(records: Seq<(u16, u8)>, e: InvalidModeError) -> bool {
    &&& e.index < records.len()
    &&& records[e.index as int].1 == e.code
    &&& mode_of_code(e.code) is None
    &&& forall|j: int| 0 <= j < e.index ==> mode_of_code(#[trigger] records[j].1) is Some
}

impl GpioConfig {
    /// Builds a configuration from `(number, mode code)` records, in order.
    /// Fails on the first record whose mode code is neither `0` nor `1`.
    pub fn from_records(records: &Vec<(u16, u8)>) -> (r: Result<GpioConfig, InvalidModeError>)
        ensures
            r is Ok <==> !has_invalid_mode(records@),
            r matches Ok(c) ==> decodes_to(records@, c.pins@),
            r matches Err(e) ==> first_invalid_mode(records@, e),
    {
        let mut pins: Vec<GpioPinConfig> = Vec::new();
        let mut i: usize = 0;
        while i < records.len()
            invariant
                i <= records.len(),
                decodes_to(records@.take(i as int), pins@),
                forall|j: int| 0 <= j < i ==> mode_of_code(#[trigger] records@[j].1) is Some,
            decreases records.len() - i,
        {
            let (number, code) = records[i];
            match GpioMode::from_code(code) {
                Some(mode) => {
                    pins.push(GpioPinConfig { number, mode });
                },
                None => {
                    return Err(InvalidModeError { index: i, code });
                },
            }
            i = i + 1;
        }
        assert(records@.take(i as int) =~= records@);
        Ok(GpioConfig { pins })
    }
}

} // verus!
