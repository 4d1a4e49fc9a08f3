use vstd::prelude::*;

use crate::dialog::{DialogFlags, DialogType};
use crate::text::NativeText;

verus! {

/// What the window is created with, as the native layer receives it.
pub struct WindowConfig {
    pub title: NativeText,
    pub url: NativeText,
    pub width: i32,
    pub height: i32,
    pub resizable: bool,
    pub debug: bool,
}

/// What one iteration of the native event loop reports.
pub enum LoopEvent {
    /// The window was closed or asked to terminate; the loop is over.
    Closed,
    /// The iteration handled an event of its own, or was woken up.
    Idle,
    /// The page sent a message to the application.
    Message(String),
}

/// One call that the library made into the native window, with what it
/// handed over. A window keeps the list of these as its ghost history.
pub enum NativeCall {
    Step(LoopReport),
    Terminate,
    Eval(Seq<char>),
    InjectCss(Seq<char>),
    SetTitle(Seq<char>),
    SetFullscreen(bool),
    SetColor(u8, u8, u8, u8),
    /// A dialog: its kind and flag, title, argument, and the bytes that the
    /// native layer wrote back.
    Dialog(DialogType, DialogFlags, Seq<char>, Seq<char>, Seq<u8>),
}

/// What one iteration of the native loop reported, as the history keeps it.
pub enum LoopReport {
    Closed,
    Idle,
    Message(Seq<char>),
}

/// The report of a loop event.
pub open spec fn report_of(event: LoopEvent) -> LoopReport {
    match event {
        LoopEvent::Closed => LoopReport::Closed,
        LoopEvent::Idle => LoopReport::Idle,
        LoopEvent::Message(m) => LoopReport::Message(m@),
    }
}

/// Whether the history holds a request to end the event loop.
pub open spec fn termination_requested(calls: Seq<NativeCall>) -> bool {
    exists|i: int| 0 <= i < calls.len() && calls[i] == NativeCall::Terminate
}

/// Asking for termination again changes nothing of whether it was asked for:
/// once asked, it stays asked, however often the request is repeated.
pub proof fn lemma_terminate_idempotent(calls: Seq<NativeCall>)
    ensures
        termination_requested(calls.push(NativeCall::Terminate)),
        termination_requested(calls.push(NativeCall::Terminate).push(NativeCall::Terminate))
            == termination_requested(calls.push(NativeCall::Terminate)),
{
    let once = calls.push(NativeCall::Terminate);
    let twice = once.push(NativeCall::Terminate);
    assert(once[calls.len() as int] == NativeCall::Terminate);
    assert(twice[calls.len() as int] == NativeCall::Terminate);
}

/// Wakes the native event loop from any thread, so that it looks at the
/// closures queued for it.
pub trait Notify: Send + Sync {
    fn notify(&self);
}

/// The operations of a native webview window. The window is driven from one
/// thread only; a status of 0 means success. Dropping the value tears the
/// window down; a window is dropped after its liveness flag is cleared, so no
/// new closure is queued for it by then. Nothing here is assumed of an
/// implementation beyond its signature: every caller handles whatever comes
/// back.
pub trait Native: Sized {
    type Notifier: Notify;

    /// Creates the native window object for a configuration.
    fn create(config: &WindowConfig) -> Self;

    /// Initialises the window; a status other than 0 means it failed.
    fn init(&mut self) -> i32;

    /// Runs one iteration of the event loop, waiting for an event when
    /// `blocking` is set.
    fn step(&mut self, blocking: bool) -> LoopEvent;

    /// Asks the event loop to end; it does not wait for it.
    fn terminate(&mut self);

    /// Evaluates a script in the page.
    fn eval(&mut self, js: &NativeText) -> i32;

    /// Adds a style sheet to the page.
    fn inject_css(&mut self, css: &NativeText) -> i32;

    fn set_title(&mut self, title: &NativeText);

    fn set_fullscreen(&mut self, fullscreen: bool);

    fn set_color(&mut self, red: u8, green: u8, blue: u8, alpha: u8);

    /// Shows a modal dialog and writes its answer into `result` as a text
    /// ended by a zero byte.
    fn dialog(
        &mut self,
        kind: DialogType,
        flags: DialogFlags,
        title: &NativeText,
        arg: &NativeText,
        result: &mut Vec<u8>,
    );

    /// A handle that wakes this window's event loop from other threads.
    fn notifier(&self) -> Self::Notifier;
}

} // verus!
