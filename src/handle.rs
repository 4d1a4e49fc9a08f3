use vstd::prelude::*;
use std::sync::Arc;

use crate::error::{Error, WVResult};
use crate::native::{Native, Notify};
use crate::task::{Closure, Task};
use crate::webview::{guarded_value, read_lock, share, Shared, Window};

verus! {

/// What a dispatch returns, from whether the window was alive when the
/// closure was handed over: success, or `Dispatch` for a window torn down.
pub fn dispatch_outcome(alive: bool) -> (r: WVResult)
    ensures
        alive ==> r == Ok::<(), Error>(()),
        !alive ==> r == Err::<(), Error>(Error::Dispatch),
{
    if alive {
        Ok(())
    } else {
        Err(Error::Dispatch)
    }
}

/// A handle to a window that any thread may hold, clone and use to schedule
/// closures on the window's thread.
#[verifier::reject_recursive_types(T)]
#[verifier::reject_recursive_types(N)]
pub struct Handle<T, N: Native> {
    shared: Arc<Shared<T, N>>,
}

impl<T, N: Native> Handle<T, N> {
    /// A handle on what a window shares.
    pub fn new(shared: Arc<Shared<T, N>>) -> (r: Self)
        ensures
            r.shared() == shared,
    {
        Handle { shared }
    }

    pub closed spec fn shared(&self) -> Arc<Shared<T, N>> {
        self.shared
    }
}

impl<T: Send + 'static, N: Native + Send + 'static> Handle<T, N> {
    /// Schedules `func` to run once on the window's thread, during a later
    /// iteration of its event loop; its result is what that iteration
    /// returns. Fails with `Dispatch`, and never runs `func`, when the window
    /// has been torn down.
    pub fn dispatch<F>(&self, func: F) -> (r: WVResult)
        where
            F: FnOnce(&mut Window<T, N>) -> WVResult + Send + 'static,
        requires
            forall|v: &mut Window<T, N>| func.requires((v,)),
        ensures
            r == Ok::<(), Error>(()) || r == Err::<(), Error>(Error::Dispatch),
    {
        // The read guard keeps teardown waiting until the closure is queued
        // and the loop woken.
        let guard = read_lock(&self.shared.alive);
        let alive = match &guard {
            Some(g) => guarded_value(g),
            None => false,
        };
        dispatch_outcome(alive)?;
        let task: Box<dyn Task<T, N>> = Box::new(Closure::new(func));
        let (mut queue, write) = self.shared.queue.acquire_write();
        queue.tasks.push(std::sync::Mutex::new(task));
        write.release_write(queue);
        self.shared.notifier.notify();
        Ok(())
    }
}

impl<T, N: Native> Clone for Handle<T, N> {
    fn clone(&self) -> (r: Self)
        ensures
            r.shared() == self.shared(),
    {
        Handle { shared: share(&self.shared) }
    }
}

} // verus!
