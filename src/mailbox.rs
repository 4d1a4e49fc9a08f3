use vstd::prelude::*;

use crate::error::{Error, WVResult};

verus! {

/// A mailbox with room for one result: the outcome of the last invoke message
/// or dispatched closure, waiting for the event loop to read it.
pub struct ResultSlot {
    value: Option<WVResult>,
}

impl View for ResultSlot {
    type V = Option<WVResult>;

    closed spec fn view(&self) -> Option<WVResult> {
        self.value
    }
}

impl ResultSlot {
    /// An empty mailbox.
    pub fn new() -> (r: ResultSlot)
        ensures
            r@ is None,
    {
        ResultSlot { value: None }
    }

    /// Leaves `r` in the mailbox. A mailbox that still holds an unread result
    /// keeps it, and `r` is handed back instead of overwriting it.
    pub fn put(&mut self, r: WVResult) -> (rejected: Option<WVResult>)
        ensures
            old(self)@ is None ==> final(self)@ == Some(r) && rejected is None,
            old(self)@ is Some ==> final(self)@ == old(self)@ && rejected == Some(r),
    {
        if self.value.is_some() {
            Some(r)
        } else {
            self.value = Some(r);
            None
        }
    }

    /// Reads the mailbox and empties it.
    pub fn take(&mut self) -> (r: Option<WVResult>)
        ensures
            r == old(self)@,
            final(self)@ is None,
    {
        self.value.take()
    }

    /// Whether the mailbox holds no unread result.
    pub fn is_empty(&self) -> (r: bool)
        ensures
            r == (self@ is None),
    {
        self.value.is_none()
    }
}

/// What one iteration of the event loop reports, from whether the native loop
/// ended and what the mailbox held: nothing once the loop has ended, else the
/// unread result, or success when there was none.
pub fn step_outcome(closed: bool, pending: Option<WVResult>) -> (r: Option<WVResult>)
    ensures
        closed ==> r is None,
        !closed && pending is None ==> r == Some(Ok::<(), Error>(())),
        !closed && pending is Some ==> r == pending,
{
    if closed {
        None
    } else {
        match pending {
            Some(p) => Some(p),
            None => Some(Ok(())),
        }
    }
}

/// Whether the event loop stops after an iteration that reported `outcome`,
/// and with what: success once the window is closed, the first error that a
/// handler or closure returned; `None` to go on.
pub fn loop_verdict(outcome: Option<WVResult>) -> (r: Option<WVResult>)
    ensures
        outcome is None ==> r == Some(Ok::<(), Error>(())),
        outcome == Some(Ok::<(), Error>(())) ==> r is None,
        outcome matches Some(Err(e)) ==> r == Some(Err::<(), Error>(e)),
{
    match outcome {
        None => Some(Ok(())),
        Some(Ok(())) => None,
        Some(Err(e)) => Some(Err(e)),
    }
}

/// Maps a native status to a result: 0 is success, anything else is `err`.
pub fn status_outcome(status: i32, err: Error) -> (r: WVResult)
    ensures
        status == 0 ==> r == Ok::<(), Error>(()),
        status != 0 ==> r == Err::<(), Error>(err),
{
    if status == 0 {
        Ok(())
    } else {
        Err(err)
    }
}

} // verus!
