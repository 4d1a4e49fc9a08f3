use vstd::prelude::*;
use vstd::rwlock::{RwLock, RwLockPredicate};
use std::sync::Arc;

use crate::color::Color;
use crate::dialog::{DialogBuilder, DialogFlags, DialogType};
use crate::error::{Error, WVResult};
use crate::handle::Handle;
use crate::mailbox::{status_outcome, step_outcome, ResultSlot};
use crate::native::{report_of, LoopEvent, LoopReport, Native, NativeCall, WindowConfig};
use crate::task::{Handler, Invoke, Task};
use crate::text::{has_nul, NativeText};
use vstd::std_specs::convert::IntoSpec;

verus! {

/// std's reader-writer lock, which guards the application's data. The
/// library only creates it and hands it out; callers lock it themselves.
#[verifier::external_type_specification]
#[verifier::external_body]
#[verifier::reject_recursive_types(T)]
pub struct ExStdRwLock<T: ?Sized>(std::sync::RwLock<T>);

/// Relies on std::sync::RwLock::new: it makes an unlocked lock around `t`,
/// and promises nothing that a caller here would use.
pub assume_specification<T>[ std::sync::RwLock::<T>::new ](t: T) -> std::sync::RwLock<T>;

/// std's mutual-exclusion lock. Each queued closure sits in one, which lets
/// the queue be shared between threads while a closure need only be `Send`.
/// It is never locked: a closure leaves it through `into_inner`.
#[verifier::external_type_specification]
#[verifier::external_body]
#[verifier::reject_recursive_types(T)]
pub struct ExStdMutex<T: ?Sized>(std::sync::Mutex<T>);

/// Relies on std::sync::Mutex::new: it makes an unlocked mutex around `t`.
pub assume_specification<T>[ std::sync::Mutex::<T>::new ](t: T) -> std::sync::Mutex<T>;

/// Relies on std::sync::Mutex::into_inner: it hands back the value that the
/// mutex holds, or nothing when the mutex is poisoned.
#[verifier::external_body]
fn into_inner<X>(cell: std::sync::Mutex<X>) -> Option<X> {
    cell.into_inner().ok()
}

/// std's guard of a read lock; the lock is released when it is dropped.
#[verifier::external_type_specification]
#[verifier::external_body]
#[verifier::reject_recursive_types(T)]
pub struct ExStdRwLockReadGuard<'a, T: ?Sized>(std::sync::RwLockReadGuard<'a, T>);

/// Relies on std::sync::RwLock::read: it waits until no writer holds the lock
/// and hands back a read guard, or nothing when the lock is poisoned.
#[verifier::external_body]
pub(crate) fn read_lock(lock: &std::sync::RwLock<bool>) -> Option<std::sync::RwLockReadGuard<'_, bool>> {
    lock.read().ok()
}

/// std's guard of a write lock; the lock is released when it is dropped.
#[verifier::external_type_specification]
#[verifier::external_body]
#[verifier::reject_recursive_types(T)]
pub struct ExStdRwLockWriteGuard<'a, T: ?Sized + 'a>(std::sync::RwLockWriteGuard<'a, T>);

/// Relies on std::sync::RwLock::write: it waits until no reader or writer
/// holds the lock and hands back a write guard, or nothing when the lock is
/// poisoned. It does not unwind here: this thread holds no guard of the lock.
#[verifier::external_body]
fn write_lock(lock: &std::sync::RwLock<bool>) -> Option<std::sync::RwLockWriteGuard<'_, bool>>
    opens_invariants none
    no_unwind
{
    lock.write().ok()
}

/// Relies on RwLockWriteGuard's DerefMut: writes `value` under the lock.
#[verifier::external_body]
fn store(guard: &mut std::sync::RwLockWriteGuard<'_, bool>, value: bool)
    opens_invariants none
    no_unwind
{
    **guard = value;
}

/// Relies on RwLockReadGuard's Deref: the value under the lock.
#[verifier::external_body]
pub(crate) fn guarded_value(guard: &std::sync::RwLockReadGuard<'_, bool>) -> bool {
    **guard
}

/// Relies on Arc::clone: the new pointer shares the value of `a`.
#[verifier::external_body]
pub(crate) fn share<X>(a: &Arc<X>) -> (r: Arc<X>)
    ensures
        r == *a,
{
    a.clone()
}

/// The closures waiting to run on the window's thread, oldest first.
#[verifier::reject_recursive_types(T)]
#[verifier::reject_recursive_types(N)]
pub struct TaskQueue<T, N: Native> {
    pub tasks: Vec<std::sync::Mutex<Box<dyn Task<T, N>>>>,
}

/// Every queue is a valid content of the queue's lock.
pub struct AnyQueue;

impl<T, N: Native> RwLockPredicate<TaskQueue<T, N>> for AnyQueue {
    open spec fn inv(self, q: TaskQueue<T, N>) -> bool {
        true
    }
}

/// What the window shares with the handles of other threads: whether it is
/// still alive, under a lock that a dispatch holds for reading while it hands
/// its closure over and that teardown takes for writing; its queue of
/// dispatched closures; and a way to wake its loop.
#[verifier::reject_recursive_types(T)]
#[verifier::reject_recursive_types(N)]
pub struct Shared<T, N: Native> {
    pub(crate) alive: Arc<std::sync::RwLock<bool>>,
    pub(crate) queue: RwLock<TaskQueue<T, N>, AnyQueue>,
    pub(crate) notifier: N::Notifier,
}

/// Marks the window dead when it goes away, so that no closure is queued for a
/// window that no longer exists.
pub struct LiveGuard {
    flag: Arc<std::sync::RwLock<bool>>,
}

impl Drop for LiveGuard {
    /// Takes the write lock, which waits until every dispatch in progress has
    /// released its read guard, and marks the window dead for every later
    /// dispatch. Only this guard writes, so no writer poisons the lock.
    fn drop(&mut self)
        opens_invariants none
        no_unwind
    {
        match write_lock(&self.flag) {
            Some(mut guard) => store(&mut guard, false),
            None => {},
        }
    }
}

/// The window's state: the application's data, the invoke handler, the
/// mailbox of the last result, and what it shares with handles.
#[verifier::reject_recursive_types(T)]
#[verifier::reject_recursive_types(N)]
pub struct WebViewStateData<T, N: Native> {
    user_data: Arc<std::sync::RwLock<T>>,
    invoke_handler: Option<Box<dyn Invoke<T, N>>>,
    result: ResultSlot,
    live: Arc<Shared<T, N>>,
}

impl<T, N: Native> WebViewStateData<T, N> {
    /// The state of a new window, with its data and invoke handler, an empty
    /// mailbox and an empty queue.
    pub fn new(data: T, invoke_handler: Box<dyn Invoke<T, N>>, notifier: N::Notifier) -> (r: Self)
        ensures
            r.pending() is None,
            r.handler() == Some(invoke_handler),
            forall|arg: Seq<char>, x: WVResult|
                r.handler()->0.may_return(arg, x) == invoke_handler.may_return(arg, x),
    {
        let queue = TaskQueue { tasks: Vec::new() };
        let shared = Shared {
            alive: Arc::new(std::sync::RwLock::new(true)),
            queue: RwLock::new(queue, Ghost(AnyQueue)),
            notifier,
        };
        let ghost given = invoke_handler;
        let handler = Some(invoke_handler);
        assert(handler == Some(given));
        WebViewStateData {
            user_data: Arc::new(std::sync::RwLock::new(data)),
            invoke_handler: handler,
            result: ResultSlot::new(),
            live: Arc::new(shared),
        }
    }

    /// The unread result in the mailbox.
    pub closed spec fn pending(&self) -> Option<WVResult> {
        self.result@
    }

    /// The invoke handler; it is out only while it runs.
    pub closed spec fn handler(&self) -> Option<Box<dyn Invoke<T, N>>> {
        self.invoke_handler
    }

    /// The lock around the application's data.
    pub closed spec fn data(&self) -> Arc<std::sync::RwLock<T>> {
        self.user_data
    }

    /// What the window shares with its handles.
    pub closed spec fn shared(&self) -> Arc<Shared<T, N>> {
        self.live
    }

    /// The application's data, shared behind a lock.
    pub fn user_data(&self) -> (r: Arc<std::sync::RwLock<T>>)
        ensures
            r == self.data(),
    {
        share(&self.user_data)
    }

    /// What the window shares with its handles.
    pub fn live_lock(&self) -> (r: Arc<Shared<T, N>>)
        ensures
            r == self.shared(),
    {
        share(&self.live)
    }
}

/// The colour call that a colour becomes.
pub open spec fn color_call(c: Color) -> NativeCall {
    NativeCall::SetColor(c.r, c.g, c.b, c.a)
}

/// The window as invoke handlers and dispatched closures see it: the native
/// window, the application's data, and the history of native calls made
/// through it.
#[verifier::reject_recursive_types(T)]
pub struct Window<T, N: Native> {
    native: N,
    user_data: Arc<std::sync::RwLock<T>>,
    calls: Ghost<Seq<NativeCall>>,
}

impl<T, N: Native> Window<T, N> {
    /// The native calls made through this window so far, oldest first.
    pub closed spec fn calls(&self) -> Seq<NativeCall> {
        self.calls@
    }

    /// The lock around the application's data.
    pub closed spec fn data(&self) -> Arc<std::sync::RwLock<T>> {
        self.user_data
    }

    /// The application's data, behind a lock that the window's thread and
    /// dispatched closures share.
    pub fn user_data(&self) -> (r: Arc<std::sync::RwLock<T>>)
        ensures
            r == self.data(),
    {
        share(&self.user_data)
    }

    /// Asks the event loop to end. It does not wait: a callback may still
    /// run before the loop sees the request, and asking again is harmless.
    pub fn terminate(&mut self)
        ensures
            final(self).calls() == old(self).calls().push(NativeCall::Terminate),
            final(self).data() == old(self).data(),
    {
        self.native.terminate();
        self.calls = Ghost(self.calls@.push(NativeCall::Terminate));
    }

    /// Evaluates a script in the page.
    pub fn eval(&mut self, js: &str) -> (r: WVResult)
        ensures
            has_nul(js@) ==> r == Err::<(), Error>(Error::StringConversion) && final(self).calls()
                == old(self).calls(),
            !has_nul(js@) ==> (r == Ok::<(), Error>(()) || r == Err::<(), Error>(
                Error::JsEvaluation,
            )) && final(self).calls() == old(self).calls().push(NativeCall::Eval(js@)),
            final(self).data() == old(self).data(),
    {
        let text = NativeText::new(js)?;
        let status = self.native.eval(&text);
        self.calls = Ghost(self.calls@.push(NativeCall::Eval(js@)));
        status_outcome(status, Error::JsEvaluation)
    }

    /// Adds a style sheet to the page.
    pub fn inject_css(&mut self, css: &str) -> (r: WVResult)
        ensures
            has_nul(css@) ==> r == Err::<(), Error>(Error::StringConversion) && final(self).calls()
                == old(self).calls(),
            !has_nul(css@) ==> (r == Ok::<(), Error>(()) || r == Err::<(), Error>(
                Error::CssInjection,
            )) && final(self).calls() == old(self).calls().push(NativeCall::InjectCss(css@)),
            final(self).data() == old(self).data(),
    {
        let text = NativeText::new(css)?;
        let status = self.native.inject_css(&text);
        self.calls = Ghost(self.calls@.push(NativeCall::InjectCss(css@)));
        status_outcome(status, Error::CssInjection)
    }

    /// Sets the colour of the title bar; three components give alpha 255.
    pub fn set_color<C: Into<Color>>(&mut self, color: C)
        ensures
            final(self).calls().len() == old(self).calls().len() + 1,
            final(self).calls().drop_last() == old(self).calls(),
            C::obeys_into_spec() ==> final(self).calls() == old(self).calls().push(
                color_call(color.into_spec()),
            ),
            final(self).data() == old(self).data(),
    {
        let c: Color = color.into();
        self.native.set_color(c.r, c.g, c.b, c.a);
        self.calls = Ghost(self.calls@.push(color_call(c)));
        assert(self.calls@.drop_last() =~= old(self).calls@);
    }

    /// Sets the window's title.
    pub fn set_title(&mut self, title: &str) -> (r: WVResult)
        ensures
            has_nul(title@) ==> r == Err::<(), Error>(Error::StringConversion) && final(self).calls()
                == old(self).calls(),
            !has_nul(title@) ==> r == Ok::<(), Error>(()) && final(self).calls() == old(self).calls().push(NativeCall::SetTitle(title@)),
            final(self).data() == old(self).data(),
    {
        let text = NativeText::new(title)?;
        self.native.set_title(&text);
        self.calls = Ghost(self.calls@.push(NativeCall::SetTitle(title@)));
        Ok(())
    }

    /// Enters or leaves full screen.
    pub fn set_fullscreen(&mut self, fullscreen: bool)
        ensures
            final(self).calls() == old(self).calls().push(NativeCall::SetFullscreen(fullscreen)),
            final(self).data() == old(self).data(),
    {
        self.native.set_fullscreen(fullscreen);
        self.calls = Ghost(self.calls@.push(NativeCall::SetFullscreen(fullscreen)));
    }

    /// Opens modal dialogs on this window.
    pub fn dialog(&mut self) -> (r: DialogBuilder<'_, T, N>)
        ensures
            r.calls() == old(self).calls(),
    {
        DialogBuilder::new(self)
    }

    /// Shows a dialog through the native layer, which writes its answer into
    /// `result`.
    pub(crate) fn native_dialog(
        &mut self,
        kind: DialogType,
        flags: DialogFlags,
        title: &NativeText,
        arg: &NativeText,
        result: &mut Vec<u8>,
    )
        ensures
            final(self).calls() == old(self).calls().push(
                NativeCall::Dialog(kind, flags, title@, arg@, final(result)@),
            ),
            final(self).data() == old(self).data(),
    {
        self.native.dialog(kind, flags, title, arg, result);
        self.calls = Ghost(self.calls@.push(NativeCall::Dialog(kind, flags, title@, arg@, result@)));
    }

    /// Runs one iteration of the native event loop.
    fn native_step(&mut self) -> (e: LoopEvent)
        ensures
            final(self).calls() == old(self).calls().push(NativeCall::Step(report_of(e))),
            final(self).data() == old(self).data(),
    {
        let e = self.native.step(true);
        self.calls = Ghost(self.calls@.push(NativeCall::Step(report_of(e))));
        e
    }
}

/// A webview window, driven from the thread that owns it.
#[verifier::reject_recursive_types(T)]
#[verifier::reject_recursive_types(N)]
pub struct WebView<T, N: Native> {
    live: LiveGuard,
    window: Window<T, N>,
    state: WebViewStateData<T, N>,
    config: WindowConfig,
    last_report: Ghost<LoopReport>,
    at_last_step: Ghost<Seq<NativeCall>>,
}

impl<T, N: Native> WebView<T, N> {
    /// The native calls made on this window so far, oldest first.
    pub closed spec fn calls(&self) -> Seq<NativeCall> {
        self.window.calls()
    }

    /// What the last iteration of the native loop reported.
    pub closed spec fn last_report(&self) -> LoopReport {
        self.last_report@
    }

    /// The native call history as it stood right after the last iteration
    /// of the native loop, before anything ran in response to it.
    pub closed spec fn at_last_step(&self) -> Seq<NativeCall> {
        self.at_last_step@
    }

    /// The data lock that closures see through the window.
    pub closed spec fn window_data(&self) -> Arc<std::sync::RwLock<T>> {
        self.window.data()
    }

    /// What the window was created with.
    pub closed spec fn config(&self) -> WindowConfig {
        self.config
    }

    /// The window's state.
    pub closed spec fn state(&self) -> WebViewStateData<T, N> {
        self.state
    }

    /// What the window shares with its handles.
    pub closed spec fn shared(&self) -> Arc<Shared<T, N>> {
        self.state.live
    }

    /// The unread result in the window's mailbox.
    pub closed spec fn pending(&self) -> Option<WVResult> {
        self.state.pending()
    }

    /// Whether the invoke handler is in place.
    pub closed spec fn has_handler(&self) -> bool {
        self.state.invoke_handler is Some
    }

    /// Whether the invoke handler may answer the message `arg` with `r`.
    pub closed spec fn handler_may_return(&self, arg: Seq<char>, r: WVResult) -> bool {
        self.state.invoke_handler->0.may_return(arg, r)
    }

    /// Creates the native window for `config` and initialises it, with the
    /// application's data and invoke handler. Fails with `Initialization`
    /// when the native layer reports a failure; what was made is then
    /// released with the window that was never returned.
    pub fn new<I>(config: WindowConfig, data: T, invoke_handler: I) -> (r: WVResult<Self>) where
        I: Fn(&mut Window<T, N>, &str) -> WVResult + 'static,
        T: 'static,
        N: 'static,

        requires
            forall|v: &mut Window<T, N>, s: &str| invoke_handler.requires((v, s)),
        ensures
            r is Ok || r == Err::<Self, Error>(Error::Initialization),
            r matches Ok(v) ==> (forall|arg: Seq<char>, x: WVResult|
                v.handler_may_return(arg, x) <==> exists|w: &mut Window<T, N>, s: &str|
                    s@ == arg && invoke_handler.ensures((w, s), x)),
            r matches Ok(v) ==> v.config() == config && v.pending() is None && v.has_handler()
                && v.window_data() == v.state().data() && v.calls() == Seq::<NativeCall>::empty(),
    {
        let mut native = N::create(&config);
        let status = native.init();
        match status_outcome(status, Error::Initialization) {
            Ok(()) => {
                let ghost f = invoke_handler;
                let h = Handler::new(invoke_handler);
                let ghost hg = h;
                assert(forall|arg: Seq<char>, x: WVResult|
                    hg.may_return(arg, x) <==> exists|w: &mut Window<T, N>, s: &str|
                        s@ == arg && f.ensures((w, s), x));
                let handler: Box<dyn Invoke<T, N>> = Box::new(h);
                let ghost hb = handler;
                assert(forall|arg: Seq<char>, x: WVResult|
                    hb.may_return(arg, x) == hg.may_return(arg, x));
                let queue = TaskQueue { tasks: Vec::new() };
                let shared = Shared {
                    alive: Arc::new(std::sync::RwLock::new(true)),
                    queue: RwLock::new(queue, Ghost(AnyQueue)),
                    notifier: native.notifier(),
                };
                let user_data = Arc::new(std::sync::RwLock::new(data));
                let window_data = share(&user_data);
                let live = Arc::new(shared);
                let flag = share(&live.alive);
                let slot = Some(handler);
                assert(slot == Some(hb));
                let state = WebViewStateData {
                    user_data,
                    invoke_handler: slot,
                    result: ResultSlot::new(),
                    live,
                };
                let view = WebView {
                    live: LiveGuard { flag },
                    window: Window { native, user_data: window_data, calls: Ghost(Seq::empty()) },
                    state,
                    config,
                    last_report: Ghost(LoopReport::Idle),
                    at_last_step: Ghost(Seq::empty()),
                };
                assert forall|arg: Seq<char>, x: WVResult| view.handler_may_return(arg, x) <==> exists|w: &mut Window<T, N>, s: &str|
                    s@ == arg && f.ensures((w, s), x) by {
                    assert(view.state.invoke_handler == Some(hb));
                    assert(hb.may_return(arg, x) == hg.may_return(arg, x));
                    assert(view.handler_may_return(arg, x) == hb.may_return(arg, x));
                }
                Ok(view)
            },
            Err(e) => Err(e),
        }
    }

    /// The application's data, behind a lock that this thread and dispatched
    /// closures share.
    pub fn user_data(&self) -> (r: Arc<std::sync::RwLock<T>>)
        ensures
            r == self.state().data(),
    {
        self.state.user_data()
    }

    /// The window as closures see it.
    pub fn window(&mut self) -> (r: &mut Window<T, N>)
        ensures
            r.calls() == old(self).calls(),
            r.data() == old(self).window_data(),
    {
        &mut self.window
    }

    /// Runs one iteration of the native event loop and acts on what it
    /// reports; see `step_event`. The report and the history at that point
    /// are kept as `last_report` and `at_last_step`.
    pub fn step(&mut self) -> (r: Option<WVResult>)
        ensures
            final(self).at_last_step() == old(self).calls().push(
                NativeCall::Step(final(self).last_report()),
            ),
            (final(self).last_report() is Closed) <==> r is None,
            final(self).last_report() is Closed ==> final(self).calls() == final(self).at_last_step(),
            final(self).pending() is None,
            final(self).has_handler() == old(self).has_handler(),
            old(self).pending() is Some && r is Some ==> r == Some(old(self).pending()->0),
            final(self).last_report() matches LoopReport::Message(m) ==> (old(self).pending() is None
                && old(self).has_handler() ==> (r matches Some(x) && old(self).handler_may_return(
                m,
                x,
            ))),
            final(self).last_report() matches LoopReport::Message(m) ==> (old(self).pending() is None
                && !old(self).has_handler() ==> r == Some(Ok::<(), Error>(()))),
    {
        let event = self.window.native_step();
        self.last_report = Ghost(report_of(event));
        self.at_last_step = Ghost(self.window.calls());
        self.step_event(event)
    }

    /// Acts on what one iteration of the native loop reported: a message
    /// from the page goes to the invoke handler, otherwise the oldest
    /// dispatched closure runs. The result of either goes through the
    /// mailbox, which is empty afterwards, and is returned; `None` once the
    /// window is closed.
    pub fn step_event(&mut self, event: LoopEvent) -> (r: Option<WVResult>)
        ensures
            (event is Closed) <==> r is None,
            event is Closed ==> final(self).calls() == old(self).calls(),
            final(self).last_report() == old(self).last_report(),
            final(self).at_last_step() == old(self).at_last_step(),
            final(self).pending() is None,
            final(self).has_handler() == old(self).has_handler(),
            !(event is Closed) && old(self).pending() is Some ==> r == Some(
                old(self).pending()->0,
            ),
            event matches LoopEvent::Message(m) ==> (old(self).pending() is None
                && old(self).has_handler() ==> (r matches Some(x) && old(self).handler_may_return(
                m@,
                x,
            ))),
            event matches LoopEvent::Message(m) ==> (old(self).pending() is None
                && !old(self).has_handler() ==> r == Some(Ok::<(), Error>(()))),
    {
        let closed = match event {
            LoopEvent::Closed => true,
            LoopEvent::Message(arg) => {
                self.handle_message(arg.as_str());
                false
            },
            LoopEvent::Idle => {
                self.run_queued_task();
                false
            },
        };
        let pending = self.state.result.take();
        step_outcome(closed, pending)
    }

    fn handle_message(&mut self, arg: &str)
        ensures
            final(self).last_report() == old(self).last_report(),
            final(self).at_last_step() == old(self).at_last_step(),
            old(self).pending() is Some ==> final(self).pending() == old(self).pending(),
            old(self).pending() is None && old(self).has_handler() ==> (final(self).pending() matches Some(x)
                && old(self).handler_may_return(arg@, x)),
            old(self).pending() is None && !old(self).has_handler() ==> final(self).pending() is None,
            final(self).has_handler() == old(self).has_handler(),
    {
        match self.state.invoke_handler.take() {
            Some(handler) => {
                let r = handler.invoke(&mut self.window, arg);
                self.state.invoke_handler = Some(handler);
                let _ = self.state.result.put(r);
            },
            None => {},
        }
    }

    fn run_queued_task(&mut self)
        ensures
            final(self).last_report() == old(self).last_report(),
            final(self).at_last_step() == old(self).at_last_step(),
            old(self).pending() is Some ==> final(self).pending() == old(self).pending(),
            final(self).has_handler() == old(self).has_handler(),
    {
        let (mut queue, write) = self.state.live.queue.acquire_write();
        let next = if queue.tasks.len() > 0 {
            Some(queue.tasks.remove(0))
        } else {
            None
        };
        write.release_write(queue);
        match next {
            Some(cell) => match into_inner(cell) {
                Some(task) => {
                    let r = task.run(&mut self.window);
                    let _ = self.state.result.put(r);
                },
                None => {},
            },
            None => {},
        }
    }

    /// Asks the event loop to end; see `Window::terminate`.
    pub fn terminate(&mut self)
        ensures
            final(self).calls() == old(self).calls().push(NativeCall::Terminate),
            final(self).pending() == old(self).pending(),
            final(self).shared() == old(self).shared(),
            final(self).config() == old(self).config(),
            final(self).state() == old(self).state(),
    {
        self.window.terminate();
    }

    /// Evaluates a script in the page.
    pub fn eval(&mut self, js: &str) -> (r: WVResult)
        ensures
            has_nul(js@) ==> r == Err::<(), Error>(Error::StringConversion) && final(self).calls()
                == old(self).calls(),
            !has_nul(js@) ==> (r == Ok::<(), Error>(()) || r == Err::<(), Error>(
                Error::JsEvaluation,
            )) && final(self).calls() == old(self).calls().push(NativeCall::Eval(js@)),
            final(self).state() == old(self).state(),
    {
        self.window.eval(js)
    }

    /// Adds a style sheet to the page.
    pub fn inject_css(&mut self, css: &str) -> (r: WVResult)
        ensures
            has_nul(css@) ==> r == Err::<(), Error>(Error::StringConversion) && final(self).calls()
                == old(self).calls(),
            !has_nul(css@) ==> (r == Ok::<(), Error>(()) || r == Err::<(), Error>(
                Error::CssInjection,
            )) && final(self).calls() == old(self).calls().push(NativeCall::InjectCss(css@)),
            final(self).state() == old(self).state(),
    {
        self.window.inject_css(css)
    }

    /// Sets the colour of the title bar; three components give alpha 255.
    pub fn set_color<C: Into<Color>>(&mut self, color: C)
        ensures
            final(self).calls().len() == old(self).calls().len() + 1,
            final(self).calls().drop_last() == old(self).calls(),
            C::obeys_into_spec() ==> final(self).calls() == old(self).calls().push(
                color_call(color.into_spec()),
            ),
            final(self).state() == old(self).state(),
    {
        self.window.set_color(color);
    }

    /// Sets the window's title.
    pub fn set_title(&mut self, title: &str) -> (r: WVResult)
        ensures
            has_nul(title@) ==> r == Err::<(), Error>(Error::StringConversion) && final(self).calls()
                == old(self).calls(),
            !has_nul(title@) ==> r == Ok::<(), Error>(()) && final(self).calls() == old(self).calls().push(NativeCall::SetTitle(title@)),
            final(self).state() == old(self).state(),
    {
        self.window.set_title(title)
    }

    /// Enters or leaves full screen.
    pub fn set_fullscreen(&mut self, fullscreen: bool)
        ensures
            final(self).calls() == old(self).calls().push(NativeCall::SetFullscreen(fullscreen)),
            final(self).state() == old(self).state(),
    {
        self.window.set_fullscreen(fullscreen);
    }

    /// Opens modal dialogs on this window.
    pub fn dialog(&mut self) -> (r: DialogBuilder<'_, T, N>)
        ensures
            r.calls() == old(self).calls(),
    {
        self.window.dialog()
    }

    /// A handle from which other threads dispatch closures to this window.
    pub fn handle(&self) -> (r: Handle<T, N>)
        ensures
            r.shared() == self.shared(),
    {
        Handle::new(self.state.live_lock())
    }
}

} // verus!
