use vstd::prelude::*;

verus! {

/// The closed set of failures the application can report.
///
/// `CounterOverflow` and `CounterUnderflow` are raised by the state machine
/// itself. The remaining kinds name the terminal and input failures that the
/// surrounding program maps onto this type, so that every failure the process
/// can end with has exactly one name here.
#[derive(Debug, Clone, Copy)]
pub enum AppError {
    /// An increment was requested while the focused counter already showed
    /// its maximum value.
    CounterOverflow,
    /// A decrement was requested while the focused counter showed zero.
    CounterUnderflow,
    /// The terminal could not be put into the mode the application draws in.
    TerminalInitError,
    /// The terminal could not be put back into its prior mode.
    TerminalRestoreError,
    /// The blocking read of the next input event failed.
    InputReadError,
}

impl AppError {
    /// The diagnostic text for each error kind.
    pub open spec fn spec_message(self) -> Seq<char> {
        match self {
            AppError::CounterOverflow => "counter overflow"@,
            AppError::CounterUnderflow => "counter underflow"@,
            AppError::TerminalInitError => "failed to initialize terminal"@,
            AppError::TerminalRestoreError => "failed to restore terminal"@,
            AppError::InputReadError => "failed to read input event"@,
        }
    }

    /// The diagnostic text shown to the user when this error ends the run.
    pub fn message(&self) -> (s: String)
        ensures
            s@ == self.spec_message(),
    {
        match self {
            AppError::CounterOverflow => String::from_str("counter overflow"),
            AppError::CounterUnderflow => String::from_str("counter underflow"),
            AppError::TerminalInitError => String::from_str("failed to initialize terminal"),
            AppError::TerminalRestoreError => String::from_str("failed to restore terminal"),
            AppError::InputReadError => String::from_str("failed to read input event"),
        }
    }
}

} // verus!
