use vstd::prelude::*;
use crate::errors::AppError;

verus! {

/// One counter panel: a value bounded to `0..=2` and a flag saying whether
/// the panel currently holds keyboard focus.
#[derive(Debug)]
pub struct Counter {
    pub focused: bool,
    pub counter: u8,
}

impl Counter {
    /// A counter is well formed when its value stays within the displayed
    /// range `0..=2`.
    pub open spec fn wf(self) -> bool {
        self.counter <= 2
    }

    /// The counter that holds focus at startup: focused, value zero.
    pub fn start_focused() -> (c: Counter)
        ensures
            c.focused,
            c.counter == 0,
    {
        Counter { focused: true, counter: 0 }
    }

    /// Raises the value by one. At the maximum value the request is refused
    /// with `CounterOverflow` and the value is left unchanged (clamped);
    /// a value out of range is never stored.
    pub fn increment(&mut self) -> (r: Result<(), AppError>)
        requires
            old(self).wf(),
        ensures
            final(self).wf(),
            final(self).focused == old(self).focused,
            old(self).counter < 2 ==> r == Ok::<(), AppError>(())
                && final(self).counter == old(self).counter + 1,
            old(self).counter == 2 ==> r == Err::<(), AppError>(AppError::CounterOverflow)
                && final(self).counter == old(self).counter,
    {
        if self.counter < 2 {
            self.counter = self.counter + 1;
            Ok(())
        } else {
            Err(AppError::CounterOverflow)
        }
    }

    /// Lowers the value by one. At zero the request is refused with
    /// `CounterUnderflow` and the value is left unchanged: underflow is
    /// reported as a typed error rather than treated as a fault.
    pub fn decrement(&mut self) -> (r: Result<(), AppError>)
        requires
            old(self).wf(),
        ensures
            final(self).wf(),
            final(self).focused == old(self).focused,
            old(self).counter >= 1 ==> r == Ok::<(), AppError>(())
                && final(self).counter == old(self).counter - 1,
            old(self).counter == 0 ==> r == Err::<(), AppError>(AppError::CounterUnderflow)
                && final(self).counter == old(self).counter,
    {
        if self.counter >= 1 {
            self.counter = self.counter - 1;
            Ok(())
        } else {
            Err(AppError::CounterUnderflow)
        }
    }

    /// The digits shown for this counter's value inside its panel.
    pub open spec fn spec_value_string(self) -> Seq<char> {
        if self.counter == 0 {
            "0"@
        } else if self.counter == 1 {
            "1"@
        } else {
            "2"@
        }
    }

    /// The text of this counter's value, as drawn inside its panel.
    pub fn value_string(&self) -> (s: String)
        requires
            self.wf(),
        ensures
            s@ == self.spec_value_string(),
    {
        if self.counter == 0 {
            String::from_str("0")
        } else if self.counter == 1 {
            String::from_str("1")
        } else {
            String::from_str("2")
        }
    }
}

impl Default for Counter {
    /// An unfocused counter at zero.
    fn default() -> (c: Counter)
        ensures
            !c.focused,
            c.counter == 0,
    {
        Counter { focused: false, counter: 0 }
    }
}

} // verus!
