//! The pin registry: one opened handle per configured pin, kept apart by
//! direction and keyed by pin number.
use vstd::prelude::*;
use vstd::string::StringExecFns;
use vstd::std_specs::hash::group_hash_axioms;
use vstd::string::to_string_from_display_ensures;
use std::collections::HashMap;
use gpio::sysfs::{SysFsGpioInput, SysFsGpioOutput};
use crate::hardware::read_input_level;
use crate::config::{GpioConfig, GpioMode, GpioPinConfig};

verus! {

broadcast use group_hash_axioms;

/// The pin numbers configured in direction `mode`.
pub open spec fn numbers_with_mode(pins: Seq<GpioPinConfig>, mode: GpioMode) -> Set<u16> {
    Set::new(|n: u16| exists|i: int| 0 <= i < pins.len() && #[trigger] pins[i] == (GpioPinConfig { number: n, mode }))
}

/// Text of the error that stops the registry from being built.
pub open spec fn open_error_message(number: Seq<char>, mode: GpioMode, cause: Seq<char>) -> Seq<char> {
    "Could not open gpio "@ + number + match mode {
        GpioMode::INPUT => " on input mode: "@,
        GpioMode::OUTPUT => " on output mode: "@,
    } + cause
}

/// A configured pin could not be opened.
#[derive(Clone, Debug)]
pub struct OpenError {
    pub number: u16,
    pub mode: GpioMode,
    /// What the operating system reported.
    pub cause: String,
}

impl OpenError {
    /// The error for `pin`, whose opening failed with `cause`.
    pub fn new(pin: GpioPinConfig, cause: &std::io::Error) -> (r: OpenError)
        ensures
            r.number == pin.number,
            r.mode == pin.mode,
            to_string_from_display_ensures(cause, r.cause),
    {
        OpenError { number: pin.number, mode: pin.mode, cause: cause.to_string() }
    }

    /// The error as one line of text.
    pub fn message(&self) -> (r: String)
        ensures
            exists|n: String|
                to_string_from_display_ensures(&self.number, n)
                    && r@ == open_error_message(n@, self.mode, self.cause@),
    {
        let n = self.number.to_string();
        let mut r = String::from_str("Could not open gpio ");
        r.append(n.as_str());
        match self.mode {
            GpioMode::INPUT => r.append(" on input mode: "),
            GpioMode::OUTPUT => r.append(" on output mode: "),
        }
        r.append(self.cause.as_str());
        proof {
            reveal_strlit("Could not open gpio ");
            reveal_strlit(" on input mode: ");
            reveal_strlit(" on output mode: ");
        }
        assert(r@ == open_error_message(n@, self.mode, self.cause@));
        r
    }
}

/// An opened input pin, with the number it was opened for.
pub(crate) struct InputPin {
    pub(crate) handle: SysFsGpioInput,
    pub(crate) number: Ghost<u16>,
}

/// An opened output pin, with the number it was opened for.
pub(crate) struct OutputPin {
    pub(crate) handle: SysFsGpioOutput,
    pub(crate) number: Ghost<u16>,
}

/// Opens pin `number` for input.
pub(crate) fn open_input(number: u16) -> (r: Result<InputPin, std::io::Error>)
    ensures
        r matches Ok(p) ==> p.number@ == number,
{
    match SysFsGpioInput::open(number) {
        Ok(handle) => Ok(InputPin { handle, number: Ghost(number) }),
        Err(err) => Err(err),
    }
}

/// Opens pin `number` for output.
pub(crate) fn open_output(number: u16) -> (r: Result<OutputPin, std::io::Error>)
    ensures
        r matches Ok(p) ==> p.number@ == number,
{
    match SysFsGpioOutput::open(number) {
        Ok(handle) => Ok(OutputPin { handle, number: Ghost(number) }),
        Err(err) => Err(err),
    }
}

/// The opened pins, by direction. Built once; its pin numbers never change.
pub struct GpioHandlers {
    inputs: HashMap<u16, InputPin>,
    outputs: HashMap<u16, OutputPin>,
}

impl GpioHandlers {
    /// Numbers of the pins opened for input.
    pub closed spec fn input_pins(&self) -> Set<u16> {
        self.inputs@.dom()
    }

    /// Numbers of the pins opened for output.
    pub closed spec fn output_pins(&self) -> Set<u16> {
        self.outputs@.dom()
    }

    /// Each handle is kept under the number of the pin it was opened for.
    pub closed spec fn handles_match(&self) -> bool {
        &&& forall|n: u16| #[trigger] self.inputs@.contains_key(n) ==> self.inputs@[n].number@ == n
        &&& forall|n: u16| #[trigger] self.outputs@.contains_key(n) ==> self.outputs@[n].number@ == n
    }

    /// A registry that holds no pin.
    pub fn new() -> (r: GpioHandlers)
        ensures
            r.input_pins() == Set::<u16>::empty(),
            r.output_pins() == Set::<u16>::empty(),
            r.handles_match(),
    {
        GpioHandlers { inputs: HashMap::new(), outputs: HashMap::new() }
    }

    /// Whether pin `number` is held as an input.
    pub fn has_input(&self, number: u16) -> (r: bool)
        ensures
            r == self.input_pins().contains(number),
    {
        self.inputs.contains_key(&number)
    }

    /// Whether pin `number` is held as an output.
    pub fn has_output(&self, number: u16) -> (r: bool)
        ensures
            r == self.output_pins().contains(number),
    {
        self.outputs.contains_key(&number)
    }

    /// Keeps an opened input handle under its pin number, in place of any
    /// handle held there before.
    pub(crate) fn insert_input(&mut self, number: u16, pin: InputPin)
        requires
            old(self).handles_match(),
            pin.number@ == number,
        ensures
            final(self).input_pins() == old(self).input_pins().insert(number),
            final(self).output_pins() == old(self).output_pins(),
            final(self).handles_match(),
    {
        self.inputs.insert(number, pin);
    }

    /// Keeps an opened output handle under its pin number, in place of any
    /// handle held there before.
    pub(crate) fn insert_output(&mut self, number: u16, pin: OutputPin)
        requires
            old(self).handles_match(),
            pin.number@ == number,
        ensures
            final(self).input_pins() == old(self).input_pins(),
            final(self).output_pins() == old(self).output_pins().insert(number),
            final(self).handles_match(),
    {
        self.outputs.insert(number, pin);
    }

    /// Reads the level of input pin `id`: `None` where no input pin has that
    /// number (output pins are never read), else what the hardware gave,
    /// `true` for high. The registry keeps the same pins either way.
    pub fn read_input(&mut self, id: u16) -> (r: Option<Result<bool, std::io::Error>>)
        ensures
            r is None <==> !old(self).input_pins().contains(id),
            final(self).input_pins() == old(self).input_pins(),
            final(self).output_pins() == old(self).output_pins(),
            old(self).handles_match() ==> final(self).handles_match(),
    {
        match self.inputs.remove(&id) {
            Some(mut pin) => {
                let level = read_input_level(&mut pin.handle);
                self.inputs.insert(id, pin);
                assert(self.inputs@.dom() =~= old(self).inputs@.dom());
                Some(level)
            },
            None => None,
        }
    }
}

/// Opens every configured pin in its direction, in order. The first pin that
/// cannot be opened stops the whole build; no partial registry is returned.
pub fn prepare_gpio(config: &GpioConfig) -> (r: Result<GpioHandlers, OpenError>)
    ensures
        r matches Ok(h) ==> h.input_pins() == numbers_with_mode(config.pins@, GpioMode::INPUT)
            && h.output_pins() == numbers_with_mode(config.pins@, GpioMode::OUTPUT)
            && h.handles_match(),
        r matches Err(e) ==> exists|i: int|
            0 <= i < config.pins@.len() && #[trigger] config.pins@[i] == (GpioPinConfig {
                number: e.number,
                mode: e.mode,
            }),
        r matches Err(e) ==> exists|err: std::io::Error|
            to_string_from_display_ensures(&err, e.cause),
{
    let mut handlers = GpioHandlers::new();
    let mut i: usize = 0;
    while i < config.pins.len()
        invariant
            i <= config.pins@.len(),
            handlers.input_pins() == numbers_with_mode(config.pins@.take(i as int), GpioMode::INPUT),
            handlers.output_pins() == numbers_with_mode(config.pins@.take(i as int), GpioMode::OUTPUT),
            handlers.handles_match(),
        decreases config.pins@.len() - i,
    {
        let pin = config.pins[i];
        proof {
            lemma_numbers_with_mode_push(config.pins@, i as int, GpioMode::INPUT);
            lemma_numbers_with_mode_push(config.pins@, i as int, GpioMode::OUTPUT);
        }
        match pin.mode {
            GpioMode::INPUT => match open_input(pin.number) {
                Ok(handle) => handlers.insert_input(pin.number, handle),
                Err(err) => {
                    return Err(OpenError::new(pin, &err));
                },
            },
            GpioMode::OUTPUT => match open_output(pin.number) {
                Ok(handle) => handlers.insert_output(pin.number, handle),
                Err(err) => {
                    return Err(OpenError::new(pin, &err));
                },
            },
        }
        i = i + 1;
    }
    assert(config.pins@.take(i as int) =~= config.pins@);
    Ok(handlers)
}

/// Taking one more pin adds its number to the set of its own direction only.
proof fn lemma_numbers_with_mode_push(pins: Seq<GpioPinConfig>, i: int, mode: GpioMode)
    requires
        0 <= i < pins.len(),
    ensures
        numbers_with_mode(pins.take(i + 1), mode) == if pins[i].mode == mode {
            numbers_with_mode(pins.take(i), mode).insert(pins[i].number)
        } else {
            numbers_with_mode(pins.take(i), mode)
        },
{
    let next = pins.take(i + 1);
    let prev = pins.take(i);
    assert(next[i] == pins[i]);
    assert forall|j: int| 0 <= j < i implies next[j] == #[trigger] prev[j] by {}
    if pins[i].mode == mode {
        assert(numbers_with_mode(next, mode) =~= numbers_with_mode(prev, mode).insert(pins[i].number));
    } else {
        assert(numbers_with_mode(next, mode) =~= numbers_with_mode(prev, mode));
    }
}

} // verus!
