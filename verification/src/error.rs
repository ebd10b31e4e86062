use vstd::prelude::*;

verus! {

/// Everything that can go wrong while talking to the radio.
#[derive(Debug, PartialEq, Eq)]
pub enum Error {
    /// The underlying attribute store failed to read or write an attribute;
    /// the payload carries the store's own description of the failure.
    IIOError(String),
    /// A status string read from the hardware did not match its grammar.
    ParsingError,
    /// A gain-control-mode string was none of the known mode names;
    /// the payload is the offending string.
    InvalidGainControlMode(String),
    /// A requested sample rate lies below the chip's minimum baseband rate.
    InvalidSampleRate,
    /// No device of the given name exists in the hardware context.
    CantFindDevice(String),
    /// No channel of the given name exists on the device.
    CantFindChannel(String),
    /// An integer attribute's value does not fit the target numeric range.
    FailedDownconvIntAttr,
}

impl Error {
    /// Errors that an attribute store itself may report: I/O failures and
    /// missing devices or channels. The rate logic never produces these.
    pub open spec fn is_store_error(&self) -> bool {
        self matches Error::IIOError(_) || self matches Error::CantFindDevice(_)
            || self matches Error::CantFindChannel(_)
    }
}

} // verus!
