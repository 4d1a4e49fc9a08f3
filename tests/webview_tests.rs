use std::collections::VecDeque;
use std::sync::atomic::{AtomicBool, AtomicUsize, Ordering};
use std::sync::{Arc, Mutex};

use webview::dialog::{DialogFlags, DialogType};
use webview::{
    Content, Error, Field, LoopEvent, NativeText, Native, Notify, WVResult, WebView,
    WebViewBuilder, WindowConfig, Window,
};

/// Wake-ups that the headless window has not consumed yet.
#[derive(Clone)]
struct Wakeups {
    count: Arc<AtomicUsize>,
}

impl Notify for Wakeups {
    fn notify(&self) {
        self.count.fetch_add(1, Ordering::SeqCst);
    }
}

/// A window without a screen: it answers a handful of scripts the way the
/// test pages do, and records every native call.
struct Headless {
    url: String,
    title: String,
    width: i32,
    height: i32,
    init_status: i32,
    terminated: bool,
    messages: VecDeque<String>,
    margin: String,
    wakeups: Wakeups,
}

impl Native for Headless {
    type Notifier = Wakeups;

    fn create(config: &WindowConfig) -> Self {
        let init_status = if config.title.as_str() == "refuse" { 1 } else { 0 };
        Headless {
            url: config.url.as_str().to_string(),
            title: config.title.as_str().to_string(),
            width: config.width,
            height: config.height,
            init_status,
            terminated: false,
            messages: VecDeque::new(),
            margin: String::new(),
            wakeups: Wakeups { count: Arc::new(AtomicUsize::new(0)) },
        }
    }

    fn init(&mut self) -> i32 {
        self.init_status
    }

    fn step(&mut self, _blocking: bool) -> LoopEvent {
        if let Some(m) = self.messages.pop_front() {
            return LoopEvent::Message(m);
        }
        if self.terminated {
            return LoopEvent::Closed;
        }
        let count = &self.wakeups.count;
        let _ = count.fetch_update(Ordering::SeqCst, Ordering::SeqCst, |n| n.checked_sub(1));
        LoopEvent::Idle
    }

    fn terminate(&mut self) {
        self.terminated = true;
    }

    fn eval(&mut self, js: &NativeText) -> i32 {
        let js = js.as_str();
        if js == "test_terminate()" {
            self.messages.push_back("terminate".to_string());
        } else if js == "injected_css()" {
            self.messages.push_back(self.margin.clone());
        } else if js == "external.invoke(`width ${window.innerWidth}`)" {
            self.messages.push_back(format!("width {}", self.width));
        } else if js == "external.invoke(`height ${window.innerHeight}`)" {
            self.messages.push_back(format!("height {}", self.height));
        } else if js == "throw" {
            return 1;
        }
        0
    }

    fn inject_css(&mut self, css: &NativeText) -> i32 {
        let css = css.as_str();
        if let Some(at) = css.find("margin-left: ") {
            let rest = &css[at + "margin-left: ".len()..];
            self.margin = rest.split(';').next().unwrap_or("").trim().to_string();
            0
        } else {
            1
        }
    }

    fn set_title(&mut self, title: &NativeText) {
        self.title = title.as_str().to_string();
        self.messages.push_back(format!("title {}", self.title));
    }

    fn set_fullscreen(&mut self, _fullscreen: bool) {
    }

    fn set_color(&mut self, _red: u8, _green: u8, _blue: u8, _alpha: u8) {
    }

    fn dialog(
        &mut self,
        _kind: DialogType,
        flags: DialogFlags,
        _title: &NativeText,
        arg: &NativeText,
        result: &mut Vec<u8>,
    ) {
        if flags == DialogFlags::File {
            let answer = arg.as_str().as_bytes();
            result[..answer.len()].copy_from_slice(answer);
            result[answer.len()] = 0;
        }
    }

    fn notifier(&self) -> Wakeups {
        self.wakeups.clone()
    }
}

type View<T> = WebView<T, Headless>;

/// Drives the event loop until the window closes, stopping at the first
/// error that a handler or closure returned.
fn run<T>(mut view: View<T>) -> WVResult {
    loop {
        match view.step() {
            Some(r) => r?,
            None => return Ok(()),
        }
    }
}

const TERMINATE_HTML: &str = "<script>function test_terminate() { external.invoke('terminate'); }</script>";
const INJECT_CSS_HTML: &str = "<div id=\"app\"></div>";

#[test]
fn test_build_init() {
    let view: WVResult<View<()>> = WebViewBuilder::new()
        .size(500, 500)
        .content(Content::Url("http://dummy.url"))
        .user_data(())
        .invoke_handler(|_, _| Ok(()))
        .build();

    assert!(!view.is_err());
}

#[test]
fn test_user_data() {
    struct DummyData {
        dummy_value: i32,
    }
    let dummy_value = 15;

    let view: View<DummyData> = WebViewBuilder::new()
        .size(500, 500)
        .content(Content::Url("http://dummy.url"))
        .user_data(DummyData { dummy_value })
        .invoke_handler(|_, _| Ok(()))
        .build()
        .unwrap();

    let user_data = view.user_data().read().unwrap().dummy_value;
    view.user_data().write().unwrap().dummy_value = 17;

    assert_eq!(dummy_value, user_data);
    assert_eq!(17, view.user_data().read().unwrap().dummy_value);
}

#[test]
fn test_dispatch_terminate() {
    let view: View<()> = WebViewBuilder::new()
        .size(1, 1)
        .content(Content::Url("http://dummy.url"))
        .user_data(())
        .invoke_handler(|_, _| Ok(()))
        .build()
        .unwrap();
    let handle = view.handle();

    {
        handle
            .dispatch(|view| {
                view.terminate();
                Ok(())
            })
            .unwrap();
    }

    run(view).unwrap();
}

#[test]
fn test_dispatch_invoke_terminate() {
    let view: View<()> = WebViewBuilder::new()
        .size(1, 1)
        .content(Content::Html(TERMINATE_HTML))
        .user_data(())
        .invoke_handler(|view, arg| {
            match arg {
                "terminate" => {
                    view.terminate();
                }
                _ => panic!("Received unexpected arg {}", arg),
            }

            Ok(())
        })
        .build()
        .unwrap();
    let handle = view.handle();

    {
        handle.dispatch(|view| view.eval("test_terminate()")).unwrap();
    }

    run(view).unwrap();
}

#[test]
fn test_inject_css() {
    let view: View<()> = WebViewBuilder::new()
        .size(1, 1)
        .content(Content::Html(INJECT_CSS_HTML))
        .user_data(())
        .invoke_handler(|view, arg| {
            println!("Invoke!");
            assert_eq!("4px", arg);

            view.terminate();
            Ok(())
        })
        .build()
        .unwrap();
    let handle = view.handle();

    {
        handle
            .dispatch(|view| {
                view.inject_css("#app { margin-left: 4px; }")?;
                view.eval("injected_css()")
            })
            .unwrap();
    }

    run(view).unwrap();
}

#[test]
fn test_window_size() {
    let width = 250;
    let height = 500;
    let seen = Arc::new(Mutex::new(Vec::<String>::new()));
    let seen_in_handler = seen.clone();

    let view: View<()> = WebViewBuilder::new()
        .size(width, height)
        .content(Content::Html(INJECT_CSS_HTML))
        .user_data(())
        .invoke_handler(move |view, arg| {
            match arg {
                w if w.contains("width") => {
                    let actual_width: Vec<&str> = w.split(' ').collect();
                    assert_eq!(width, actual_width[1].parse::<i32>().unwrap());
                }
                h if h.contains("height") => {
                    let actual_width: Vec<&str> = h.split(' ').collect();
                    assert_eq!(height, actual_width[1].parse::<i32>().unwrap());
                }
                _ => panic!("Unexpected argument {}", arg),
            }
            seen_in_handler.lock().unwrap().push(arg.to_string());

            view.terminate();
            Ok(())
        })
        .build()
        .unwrap();
    let handle = view.handle();

    {
        handle
            .dispatch(|view| {
                view.eval("external.invoke(`width ${window.innerWidth}`)")?;
                view.eval("external.invoke(`height ${window.innerHeight}`)")?;
                view.terminate();

                Ok(())
            })
            .unwrap();
    }

    run(view).unwrap();
    let seen = seen.lock().unwrap();
    assert_eq!(*seen, vec!["width 250".to_string(), "height 500".to_string()]);
}

#[test]
fn test_misc() {
    let view: View<()> = WebViewBuilder::new()
        .size(1, 1)
        .content(Content::Url("http://dummy.url"))
        .user_data(())
        .invoke_handler(|_, _| Ok(()))
        .build()
        .unwrap();
    let handle = view.handle();

    {
        handle
            .dispatch(|view| {
                assert!(view.set_title("Some title").is_ok());
                view.set_color((0, 0, 0, 100));
                view.terminate();

                Ok(())
            })
            .unwrap();
    }

    run(view).unwrap();
}

fn plain_builder<'a>() -> WebViewBuilder<'a, u32, fn(&mut Window<u32, Headless>, &str) -> WVResult, Headless> {
    WebViewBuilder::new()
}

fn ignore(_: &mut Window<u32, Headless>, _: &str) -> WVResult {
    Ok(())
}

#[test]
fn build_without_content_fails() {
    let r = plain_builder().user_data(1).invoke_handler(ignore).build();
    assert_eq!(r.err(), Some(Error::UninitializedField(Field::Content)));
}

#[test]
fn build_without_user_data_fails() {
    let r = plain_builder().content(Content::Url("http://dummy.url")).invoke_handler(ignore).build();
    assert_eq!(r.err(), Some(Error::UninitializedField(Field::UserData)));
}

#[test]
fn build_without_handler_fails() {
    let r = plain_builder().content(Content::Url("http://dummy.url")).user_data(1).build();
    assert_eq!(r.err(), Some(Error::UninitializedField(Field::InvokeHandler)));
}

#[test]
fn build_checks_the_title_first() {
    let r = plain_builder().title("a\0b").build();
    assert_eq!(r.err(), Some(Error::StringConversion));
}

#[test]
fn build_with_nothing_names_content_first() {
    let r = plain_builder().build();
    assert_eq!(r.err(), Some(Error::UninitializedField(Field::Content)));
}

#[test]
fn build_with_nul_in_title_fails() {
    let r = plain_builder()
        .title("a\0b")
        .content(Content::Url("http://dummy.url"))
        .user_data(1)
        .invoke_handler(ignore)
        .build();
    assert_eq!(r.err(), Some(Error::StringConversion));
}

#[test]
fn build_with_nul_in_url_fails() {
    let r = plain_builder()
        .content(Content::Url("http://dummy\0.url"))
        .user_data(1)
        .invoke_handler(ignore)
        .build();
    assert_eq!(r.err(), Some(Error::StringConversion));
}

#[test]
fn build_with_nul_in_html_fails() {
    let r = plain_builder()
        .content(Content::Html("<p>\0</p>"))
        .user_data(1)
        .invoke_handler(ignore)
        .build();
    assert_eq!(r.err(), Some(Error::StringConversion));
}

#[test]
fn build_reports_failed_initialisation() {
    let r = plain_builder()
        .title("refuse")
        .content(Content::Url("http://dummy.url"))
        .user_data(1)
        .invoke_handler(ignore)
        .build();
    assert_eq!(r.err(), Some(Error::Initialization));
}

#[test]
fn nul_in_script_title_or_style_makes_no_native_call() {
    let seen = Arc::new(Mutex::new(Vec::<String>::new()));
    let seen_in_handler = seen.clone();
    let view: View<u32> = WebViewBuilder::new()
        .content(Content::Url("http://dummy.url"))
        .user_data(0)
        .invoke_handler(move |_, arg| {
            seen_in_handler.lock().unwrap().push(arg.to_string());
            Ok(())
        })
        .build()
        .unwrap();
    let handle = view.handle();
    handle
        .dispatch(|w| {
            assert_eq!(w.eval("1\0"), Err(Error::StringConversion));
            assert_eq!(w.inject_css("a\0"), Err(Error::StringConversion));
            assert_eq!(w.set_title("t\0"), Err(Error::StringConversion));
            assert_eq!(w.set_title("plain"), Ok(()));
            w.terminate();
            Ok(())
        })
        .unwrap();
    run(view).unwrap();
    assert_eq!(*seen.lock().unwrap(), vec!["title plain".to_string()]);
}

fn counter_view() -> View<u32> {
    WebViewBuilder::new()
        .content(Content::Url("http://dummy.url"))
        .user_data(0)
        .invoke_handler(|_, _| Ok(()))
        .build()
        .unwrap()
}

#[test]
fn terminate_twice_is_harmless() {
    let mut view = counter_view();
    view.terminate();
    view.terminate();
    assert_eq!(view.step(), None);
    assert_eq!(view.step(), None);
}

#[test]
fn dispatch_after_drop_fails_and_never_runs() {
    let view = counter_view();
    let handle = view.handle();
    drop(view);
    let ran = Arc::new(AtomicBool::new(false));
    let ran_in_closure = ran.clone();
    let r = handle.dispatch(move |_| {
        ran_in_closure.store(true, Ordering::SeqCst);
        Ok(())
    });
    assert_eq!(r, Err(Error::Dispatch));
    assert!(!ran.load(Ordering::SeqCst));
}

#[test]
fn dispatch_from_two_handles_applies_both() {
    let view = counter_view();
    for _ in 0..2 {
        let handle = view.handle();
        {
            handle
                .dispatch(|w| {
                    let data = w.user_data();
                    *data.write().unwrap() += 1;
                    if *data.read().unwrap() == 2 {
                        w.terminate();
                    }
                    Ok(())
                })
                .unwrap();
        }
    }
    let data = view.user_data();
    run(view).unwrap();
    assert_eq!(*data.read().unwrap(), 2);
}

#[test]
fn closure_error_surfaces_on_the_step_that_ran_it() {
    let mut view = counter_view();
    let handle = view.handle();
    handle.dispatch(|w| w.eval("throw")).unwrap();
    handle.dispatch(|_| Ok(())).unwrap();
    assert_eq!(view.step(), Some(Err(Error::JsEvaluation)));
    assert_eq!(view.step(), Some(Ok(())));
}

#[test]
fn run_stops_at_first_error() {
    let view = counter_view();
    let handle = view.handle();
    handle.dispatch(|w| w.inject_css("body {}")).unwrap();
    assert_eq!(run(view), Err(Error::CssInjection));
}

#[test]
fn handler_error_surfaces_on_next_step() {
    let mut view: View<u32> = WebViewBuilder::new()
        .content(Content::Html(TERMINATE_HTML))
        .user_data(0)
        .invoke_handler(|_, _| Err(Error::JsEvaluation))
        .build()
        .unwrap();
    assert_eq!(view.eval("test_terminate()"), Ok(()));
    assert_eq!(view.step(), Some(Err(Error::JsEvaluation)));
}

#[test]
fn open_file_returns_the_chosen_path() {
    let mut view = counter_view();
    let mut dialog = view.dialog();
    assert_eq!(dialog.open_file("Open", "/tmp/a.txt"), Ok(Some("/tmp/a.txt".to_string())));
    assert_eq!(dialog.open_file("Open", ""), Ok(None));
    assert_eq!(dialog.choose_directory("Dir", "/tmp"), Ok(None));
    assert_eq!(dialog.info("Info", "hello"), Ok(()));
    assert_eq!(dialog.warning("t\0", "hello"), Err(Error::StringConversion));
    assert_eq!(dialog.error("Error", "m\0"), Err(Error::StringConversion));
}

#[test]
fn html_content_is_loaded_as_a_data_url() {
    let markup = "<p>x</p>";
    let url = webview::encode::content_url(&Content::Html(markup)).unwrap();
    assert_eq!(url.as_str(), "data:text/html,%3Cp%3Ex%3C%2Fp%3E");
    let payload = &url.as_str()["data:text/html,".len()..];
    assert_eq!(urlencoding::decode(payload).unwrap(), markup);
}

fn is_send<S: Send>(_: &S) -> bool {
    true
}

fn is_sync<S: Sync>(_: &S) -> bool {
    true
}

#[test]
fn handles_move_between_threads() {
    let view = counter_view();
    let handle = view.handle();
    let copy = handle.clone();
    assert!(is_send(&handle) && is_sync(&handle));
    assert_eq!(copy.dispatch(|w| {
        w.terminate();
        Ok(())
    }), Ok(()));
    assert_eq!(run(view), Ok(()));
}

#[test]
fn step_event_follows_the_event() {
    let mut view: View<u32> = WebViewBuilder::new()
        .content(Content::Url("http://dummy.url"))
        .user_data(0)
        .invoke_handler(|_, arg| if arg == "bad" { Err(Error::CssInjection) } else { Ok(()) })
        .build()
        .unwrap();
    assert_eq!(view.step_event(LoopEvent::Message("bad".to_string())), Some(Err(Error::CssInjection)));
    assert_eq!(view.step_event(LoopEvent::Message("good".to_string())), Some(Ok(())));
    assert_eq!(view.step_event(LoopEvent::Idle), Some(Ok(())));
    assert_eq!(view.step_event(LoopEvent::Closed), None);
}
