//! The read operation: one request for one input pin's value, and what is
//! answered to it.
use vstd::prelude::*;
use vstd::string::StringExecFns;
use vstd::string::to_string_from_display_ensures;
use crate::registry::GpioHandlers;

verus! {

/// What a read request is answered with.
#[derive(Clone, Debug, PartialEq, Eq)]
pub enum ReadOutcome {
    /// The pin's level: `0` for low, `1` for high.
    Value(u8),
    /// No input pin has the requested number.
    NotFound,
    /// The hardware read failed; the text says why.
    ReadFailed(String),
}

/// The integer a level is reported as.
pub open spec fn level_code(high: bool) -> u8 {
    if high {
        1
    } else {
        0
    }
}

/// Text of a failed read, ending with the cause reported by the operating
/// system.
pub open spec fn read_failure_message(cause: Seq<char>) -> Seq<char> {
    "Could not read pin "@ + cause
}

/// Text answered to a request for a number that no input pin has.
pub open spec fn not_found_message() -> Seq<char> {
    "GPIO pin not found for read"@
}

/// `r` is an answer that a read of pin `id` may give on registry `before`,
/// which is `after` once the read is done: the pins held stay the same, the
/// request is not found exactly when no input pin has that number, and an
/// input pin gives its level or a failure whose text ends with what the
/// operating system reported. Each handle stays under its own pin's number.
pub open spec fn is_read_of(before: GpioHandlers, id: u16, r: ReadOutcome, after: GpioHandlers) -> bool {
    &&& after.input_pins() == before.input_pins()
    &&& after.output_pins() == before.output_pins()
    &&& before.handles_match() ==> after.handles_match()
    &&& r matches ReadOutcome::ReadFailed(m) ==> exists|e: std::io::Error, c: String|
        to_string_from_display_ensures(&e, c) && m@ == read_failure_message(c@)
    &&& (r == ReadOutcome::NotFound <==> !before.input_pins().contains(id))
    &&& before.input_pins().contains(id) ==> r == ReadOutcome::Value(0) || r == ReadOutcome::Value(1)
        || r is ReadFailed
}

/// The outcome of a hardware read: the level as `0` or `1`, or the failure.
pub fn outcome_of_read(level: Result<bool, std::io::Error>) -> (r: ReadOutcome)
    ensures
        level matches Ok(high) ==> r == ReadOutcome::Value(level_code(high)),
        level matches Err(e) ==> r matches ReadOutcome::ReadFailed(m) && exists|c: String|
            to_string_from_display_ensures(&e, c) && m@ == read_failure_message(c@),
{
    match level {
        Ok(high) => ReadOutcome::Value(if high { 1 } else { 0 }),
        Err(err) => {
            let cause = err.to_string();
            let mut m = String::from_str("Could not read pin ");
            m.append(cause.as_str());
            proof {
                reveal_strlit("Could not read pin ");
            }
            assert(m@ == read_failure_message(cause@));
            ReadOutcome::ReadFailed(m)
        },
    }
}

/// Answers a request for input pin `id`. Only input pins are read: a number
/// held only as an output pin is not found. A failed read fails this request
/// alone and leaves the registry as it was.
pub fn gpio_read(handlers: &mut GpioHandlers, id: u16) -> (r: ReadOutcome)
    ensures
        is_read_of(*old(handlers), id, r, *final(handlers)),
{
    match handlers.read_input(id) {
        Some(level) => outcome_of_read(level),
        None => ReadOutcome::NotFound,
    }
}

/// Reads run one at a time, in whichever order, answer alike: two reads of
/// pins `a` and `b` find the same pins whether `a` or `b` goes first, and
/// leave the registry with the pins it started with. A read changes no
/// state that a later read looks at.
pub proof fn lemma_read_order_irrelevant(
    start: GpioHandlers,
    a: u16,
    b: u16,
    first_a: ReadOutcome,
    then_b: ReadOutcome,
    mid_ab: GpioHandlers,
    end_ab: GpioHandlers,
    first_b: ReadOutcome,
    then_a: ReadOutcome,
    mid_ba: GpioHandlers,
    end_ba: GpioHandlers,
)
    requires
        is_read_of(start, a, first_a, mid_ab),
        is_read_of(mid_ab, b, then_b, end_ab),
        is_read_of(start, b, first_b, mid_ba),
        is_read_of(mid_ba, a, then_a, end_ba),
    ensures
        (first_a == ReadOutcome::NotFound) == (then_a == ReadOutcome::NotFound),
        (then_b == ReadOutcome::NotFound) == (first_b == ReadOutcome::NotFound),
        end_ab.input_pins() == start.input_pins(),
        end_ab.output_pins() == start.output_pins(),
        end_ba.input_pins() == start.input_pins(),
        end_ba.output_pins() == start.output_pins(),
{
}

impl ReadOutcome {
    /// The HTTP status a response to this outcome carries.
    pub fn status_code(&self) -> (r: u16)
        ensures
            r == match self {
                ReadOutcome::Value(_) => 200u16,
                ReadOutcome::NotFound => 404u16,
                ReadOutcome::ReadFailed(_) => 500u16,
            },
    {
        match self {
            ReadOutcome::Value(_) => 200,
            ReadOutcome::NotFound => 404,
            ReadOutcome::ReadFailed(_) => 500,
        }
    }

    /// The value a successful response reports.
    pub fn value(&self) -> (r: Option<u8>)
        ensures
            r == match self {
                ReadOutcome::Value(v) => Some(*v),
                _ => None::<u8>,
            },
    {
        match self {
            ReadOutcome::Value(v) => Some(*v),
            _ => None,
        }
    }

    /// The error text a failed response reports.
    pub fn error_text(&self) -> (r: Option<String>)
        ensures
            self matches ReadOutcome::Value(_) ==> r is None,
            self matches ReadOutcome::NotFound ==> r matches Some(t) && t@ == not_found_message(),
            self matches ReadOutcome::ReadFailed(m) ==> r matches Some(t) && t@ == m@,
    {
        match self {
            ReadOutcome::Value(_) => None,
            ReadOutcome::NotFound => Some(String::from_str("GPIO pin not found for read")),
            ReadOutcome::ReadFailed(m) => Some(m.clone()),
        }
    }
}

} // verus!
