use vstd::prelude::*;

verus! {

/// The two failure kinds this library raises.
///
/// `NotWhitelist` carries the offending identifier (a denomination, a contract
/// address, or a fixed tag naming the failing asset class); it is recoverable
/// by the caller. `EncodingOrCalendar` signals that an instruction payload
/// could not be encoded or that a timestamp has no calendar form; it is a
/// fatal condition for the current operation.
#[derive(Clone, Debug)]
pub enum ContractError {
    NotWhitelist { which: String },
    EncodingOrCalendar { msg: String },
}

} // verus!
