use vstd::prelude::*;
use crate::counter::Counter;
use crate::errors::AppError;

verus! {

/// One logical key, as the state machine reads it: a printable character,
/// or any other key.
#[derive(Debug, Clone, Copy)]
pub enum KeyCode {
    Char(char),
    Other,
}

/// One input event, as the state machine reads it: a key press carrying its
/// key, or anything else (a key release or repeat, a resize, ...), which the
/// state machine ignores.
#[derive(Debug, Clone, Copy)]
pub enum InputEvent {
    KeyPress(KeyCode),
    Other,
}

/// The focus index after moving one panel to the right, wrapping from the
/// last panel back to the first.
pub open spec fn focus_next_of(i: int, n: int) -> int {
    if i == n - 1 {
        0
    } else {
        i + 1
    }
}

/// The focus index after moving one panel to the left, wrapping from the
/// first panel back to the last.
pub open spec fn focus_prev_of(i: int, n: int) -> int {
    if i == 0 {
        n - 1
    } else {
        i - 1
    }
}

/// The whole application state: the ordered counters, which panel holds
/// focus, and whether a quit was requested.
#[derive(Debug)]
pub struct App {
    pub focus_on: usize,
    pub counters: Vec<Counter>,
    pub exit: bool,
}

impl App {
    /// The values of all counters, in panel order.
    pub open spec fn values(self) -> Seq<u8> {
        self.counters@.map(|i: int, c: Counter| c.counter)
    }

    /// The value of the counter that holds focus.
    pub open spec fn focused_value(self) -> u8 {
        self.counters@[self.focus_on as int].counter
    }

    /// The focus marks agree with the focus index: a counter is marked
    /// focused exactly when it is the one at `focus_on`.
    pub open spec fn focus_marks_match(self) -> bool {
        forall|i: int|
            0 <= i < self.counters@.len()
                ==> ((#[trigger] self.counters@[i]).focused <==> i == self.focus_on)
    }

    /// The state invariant: at least one counter, the focus index in range,
    /// the focus marks consistent with it, and every value in range.
    pub open spec fn wf(self) -> bool {
        &&& self.counters@.len() >= 1
        &&& self.focus_on < self.counters@.len()
        &&& self.focus_marks_match()
        &&& forall|i: int| 0 <= i < self.counters@.len() ==> (#[trigger] self.counters@[i]).wf()
    }
}

/// `post` is `pre` with a quit recorded: only the exit flag changes.
pub open spec fn quit_step(pre: App, post: App) -> bool {
    &&& post.exit
    &&& post.focus_on == pre.focus_on
    &&& post.counters == pre.counters
}

/// `post` is `pre` with focus moved to panel `new_focus`: no counter value
/// and no other field changes.
pub open spec fn focus_step(pre: App, post: App, new_focus: int) -> bool {
    &&& post.exit == pre.exit
    &&& post.focus_on == new_focus
    &&& post.counters@.len() == pre.counters@.len()
    &&& forall|i: int|
        0 <= i < pre.counters@.len()
            ==> (#[trigger] post.counters@[i]).counter == pre.counters@[i].counter
}

/// `post` and `r` are the outcome of incrementing the focused counter of
/// `pre`: below the maximum the value rises by exactly one; at the maximum
/// the step fails with `CounterOverflow` and changes no value. Focus, the
/// exit flag and all other counters never change.
pub open spec fn increment_step(pre: App, post: App, r: Result<(), AppError>) -> bool {
    &&& post.exit == pre.exit
    &&& post.focus_on == pre.focus_on
    &&& post.counters@.len() == pre.counters@.len()
    &&& forall|i: int|
        0 <= i < pre.counters@.len() && i != pre.focus_on
            ==> #[trigger] post.counters@[i] == pre.counters@[i]
    &&& post.counters@[pre.focus_on as int].focused == pre.counters@[pre.focus_on as int].focused
    &&& if pre.focused_value() < 2 {
        &&& r == Ok::<(), AppError>(())
        &&& post.focused_value() == pre.focused_value() + 1
    } else {
        &&& r == Err::<(), AppError>(AppError::CounterOverflow)
        &&& post.focused_value() == pre.focused_value()
    }
}

/// `post` and `r` are the outcome of decrementing the focused counter of
/// `pre`: above zero the value falls by exactly one; at zero the step fails
/// with `CounterUnderflow` and changes no value. Focus, the exit flag and
/// all other counters never change.
pub open spec fn decrement_step(pre: App, post: App, r: Result<(), AppError>) -> bool {
    &&& post.exit == pre.exit
    &&& post.focus_on == pre.focus_on
    &&& post.counters@.len() == pre.counters@.len()
    &&& forall|i: int|
        0 <= i < pre.counters@.len() && i != pre.focus_on
            ==> #[trigger] post.counters@[i] == pre.counters@[i]
    &&& post.counters@[pre.focus_on as int].focused == pre.counters@[pre.focus_on as int].focused
    &&& if pre.focused_value() >= 1 {
        &&& r == Ok::<(), AppError>(())
        &&& post.focused_value() == pre.focused_value() - 1
    } else {
        &&& r == Err::<(), AppError>(AppError::CounterUnderflow)
        &&& post.focused_value() == pre.focused_value()
    }
}

/// What one key does to the state: the full transition relation of
/// `App::handle_key_event`. `q` quits, `l` and `h` move focus right and
/// left, `k` and `j` raise and lower the focused counter, and every other
/// key leaves the state exactly as it was.
pub open spec fn key_step(pre: App, code: KeyCode, post: App, r: Result<(), AppError>) -> bool {
    match code {
        KeyCode::Char(c) => {
            if c == 'q' {
                &&& quit_step(pre, post)
                &&& r == Ok::<(), AppError>(())
            } else if c == 'l' {
                &&& focus_step(pre, post, focus_next_of(pre.focus_on as int, pre.counters@.len() as int))
                &&& r == Ok::<(), AppError>(())
            } else if c == 'h' {
                &&& focus_step(pre, post, focus_prev_of(pre.focus_on as int, pre.counters@.len() as int))
                &&& r == Ok::<(), AppError>(())
            } else if c == 'j' {
                decrement_step(pre, post, r)
            } else if c == 'k' {
                increment_step(pre, post, r)
            } else {
                &&& post == pre
                &&& r == Ok::<(), AppError>(())
            }
        },
        KeyCode::Other => {
            &&& post == pre
            &&& r == Ok::<(), AppError>(())
        },
    }
}

impl App {
    /// Records a quit request; every other field is left as it is.
    /// Idempotent: quitting twice is the same as quitting once.
    pub fn exit(&mut self)
        ensures
            quit_step(*old(self), *final(self)),
    {
        self.exit = true;
    }

    /// Moves focus one panel to the right, wrapping from the last panel back
    /// to the first. Always succeeds; no counter value changes.
    pub fn next_counter(&mut self) -> (r: Result<(), AppError>)
        requires
            old(self).wf(),
        ensures
            final(self).wf(),
            focus_step(
                *old(self),
                *final(self),
                focus_next_of(old(self).focus_on as int, old(self).counters@.len() as int),
            ),
            r == Ok::<(), AppError>(()),
    {
        let i = self.focus_on;
        let c = &mut self.counters[i];
        c.focused = false;
        if self.focus_on == self.counters.len() - 1 {
            self.focus_on = 0;
        } else {
            self.focus_on = self.focus_on + 1;
        }
        let j = self.focus_on;
        let c = &mut self.counters[j];
        c.focused = true;
        Ok(())
    }

    /// Moves focus one panel to the left, wrapping from the first panel back
    /// to the last. Always succeeds; no counter value changes.
    pub fn previous_counter(&mut self) -> (r: Result<(), AppError>)
        requires
            old(self).wf(),
        ensures
            final(self).wf(),
            focus_step(
                *old(self),
                *final(self),
                focus_prev_of(old(self).focus_on as int, old(self).counters@.len() as int),
            ),
            r == Ok::<(), AppError>(()),
    {
        let i = self.focus_on;
        let c = &mut self.counters[i];
        c.focused = false;
        if self.focus_on == 0 {
            self.focus_on = self.counters.len() - 1;
        } else {
            self.focus_on = self.focus_on - 1;
        }
        let j = self.focus_on;
        let c = &mut self.counters[j];
        c.focused = true;
        Ok(())
    }

    /// Raises the focused counter by one; at the maximum the key fails with
    /// `CounterOverflow` and the state is left unchanged.
    pub fn increment_current_counter(&mut self) -> (r: Result<(), AppError>)
        requires
            old(self).wf(),
        ensures
            final(self).wf(),
            increment_step(*old(self), *final(self), r),
    {
        let i = self.focus_on;
        let c = &mut self.counters[i];
        c.increment()
    }

    /// Lowers the focused counter by one; at zero the key fails with
    /// `CounterUnderflow` and the state is left unchanged.
    pub fn decrement_current_counter(&mut self) -> (r: Result<(), AppError>)
        requires
            old(self).wf(),
        ensures
            final(self).wf(),
            decrement_step(*old(self), *final(self), r),
    {
        let i = self.focus_on;
        let c = &mut self.counters[i];
        c.decrement()
    }

    /// Applies one key to the state, as `key_step` describes: `q` quits,
    /// `l`/`h` move focus, `k`/`j` change the focused counter, and any other
    /// key is a no-op.
    pub fn handle_key_event(&mut self, code: KeyCode) -> (r: Result<(), AppError>)
        requires
            old(self).wf(),
        ensures
            final(self).wf(),
            key_step(*old(self), code, *final(self), r),
    {
        match code {
            KeyCode::Char(c) => {
                if c == 'q' {
                    self.exit();
                    Ok(())
                } else if c == 'l' {
                    self.next_counter()
                } else if c == 'h' {
                    self.previous_counter()
                } else if c == 'j' {
                    self.decrement_current_counter()
                } else if c == 'k' {
                    self.increment_current_counter()
                } else {
                    Ok(())
                }
            },
            KeyCode::Other => Ok(()),
        }
    }

    /// Applies one input event. Only key presses act on the state; any other
    /// event leaves it exactly as it was.
    pub fn handle_event(&mut self, event: InputEvent) -> (r: Result<(), AppError>)
        requires
            old(self).wf(),
        ensures
            final(self).wf(),
            event matches InputEvent::KeyPress(code) ==> key_step(*old(self), code, *final(self), r),
            event is Other ==> *final(self) == *old(self) && r == Ok::<(), AppError>(()),
    {
        match event {
            InputEvent::KeyPress(code) => self.handle_key_event(code),
            InputEvent::Other => Ok(()),
        }
    }

    /// Checks the state invariant at run time, so that unverified callers
    /// can test it before relying on it.
    pub fn is_well_formed(&self) -> (b: bool)
        ensures
            b == self.wf(),
    {
        if self.counters.len() < 1 {
            return false;
        }
        if self.focus_on >= self.counters.len() {
            return false;
        }
        let mut i: usize = 0;
        while i < self.counters.len()
            invariant
                i <= self.counters@.len(),
                self.focus_on < self.counters@.len(),
                forall|k: int|
                    0 <= k < i
                        ==> ((#[trigger] self.counters@[k]).focused <==> k == self.focus_on)
                            && self.counters@[k].wf(),
            decreases self.counters@.len() - i,
        {
            let c = &self.counters[i];
            if c.counter > 2 {
                return false;
            }
            if c.focused != (i == self.focus_on) {
                return false;
            }
            i = i + 1;
        }
        true
    }
}

impl Default for App {
    /// The startup state: three counters at zero, focus on the first, no
    /// quit requested.
    fn default() -> (app: App)
        ensures
            app.wf(),
            !app.exit,
            app.focus_on == 0,
            app.counters@.len() == 3,
            forall|i: int| 0 <= i < app.counters@.len() ==> (#[trigger] app.counters@[i]).counter == 0,
    {
        let mut counters: Vec<Counter> = Vec::new();
        counters.push(Counter::start_focused());
        counters.push(Counter::default());
        counters.push(Counter::default());
        App { focus_on: 0, counters, exit: false }
    }
}

/// Law: in a well-formed state exactly one counter is marked focused, and it
/// is the one at `focus_on`.
pub proof fn lemma_exactly_one_focused(app: App)
    requires
        app.wf(),
    ensures
        app.counters@[app.focus_on as int].focused,
        forall|i: int|
            0 <= i < app.counters@.len() && i != app.focus_on
                ==> !(#[trigger] app.counters@[i]).focused,
{
}

/// Law: once a quit is recorded, no later event clears it. The main loop
/// stops as soon as `exit` is set, so nothing is drawn and no input is read
/// past the quit.
pub proof fn lemma_exit_is_stable(pre: App, event: InputEvent, post: App, r: Result<(), AppError>)
    requires
        pre.exit,
        event matches InputEvent::KeyPress(code) ==> key_step(pre, code, post, r),
        event is Other ==> post == pre,
    ensures
        post.exit,
{
}

/// Law: moving focus one panel to the right and then one to the left
/// returns the focus index to where it started, for any number of panels,
/// and no counter value changes along the way.
pub proof fn lemma_focus_next_then_prev(pre: App, mid: App, post: App)
    requires
        pre.wf(),
        focus_step(pre, mid, focus_next_of(pre.focus_on as int, pre.counters@.len() as int)),
        focus_step(mid, post, focus_prev_of(mid.focus_on as int, mid.counters@.len() as int)),
    ensures
        post.focus_on == pre.focus_on,
        post.values() == pre.values(),
{
    assert(post.values() =~= pre.values());
}

/// Law: moving focus one panel to the left and then one to the right
/// returns the focus index to where it started, for any number of panels,
/// and no counter value changes along the way.
pub proof fn lemma_focus_prev_then_next(pre: App, mid: App, post: App)
    requires
        pre.wf(),
        focus_step(pre, mid, focus_prev_of(pre.focus_on as int, pre.counters@.len() as int)),
        focus_step(mid, post, focus_next_of(mid.focus_on as int, mid.counters@.len() as int)),
    ensures
        post.focus_on == pre.focus_on,
        post.values() == pre.values(),
{
    assert(post.values() =~= pre.values());
}

} // verus!
