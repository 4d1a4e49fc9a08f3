use vstd::prelude::*;
use std::marker::PhantomData;

use crate::content::Content;
use crate::encode::{content_text, content_url, content_url_spec};
use crate::error::{Error, Field, WVResult};
use crate::native::{Native, NativeCall, WindowConfig};
use crate::text::{has_nul, NativeText};
use crate::webview::{WebView, Window};

verus! {

/// Collects the options of a window, checks them, and builds it.
pub struct WebViewBuilder<'a, T, I, N> {
    pub title: &'a str,
    pub content: Option<Content<'a>>,
    pub width: i32,
    pub height: i32,
    pub resizable: bool,
    pub debug: bool,
    pub invoke_handler: Option<I>,
    pub user_data: Option<T>,
    pub native: PhantomData<N>,
}

/// What `build` fails with, if it fails before the native window is created:
/// a title that holds a zero byte, else the first missing option, else
/// content whose text holds a zero byte.
pub open spec fn build_error<T, I, N>(b: WebViewBuilder<T, I, N>) -> Option<Error> {
    if has_nul(b.title@) {
        Some(Error::StringConversion)
    } else if b.content is None {
        Some(Error::UninitializedField(Field::Content))
    } else if b.user_data is None {
        Some(Error::UninitializedField(Field::UserData))
    } else if b.invoke_handler is None {
        Some(Error::UninitializedField(Field::InvokeHandler))
    } else if has_nul(content_text(b.content->0)) {
        Some(Error::StringConversion)
    } else {
        None
    }
}

impl<'a, T, I, N> Default for WebViewBuilder<'a, T, I, N> {
    fn default() -> (r: Self)
        ensures
            r.title@ == "Application"@,
            r.content is None,
            r.width == 800,
            r.height == 600,
            r.resizable,
            !r.debug,
            r.invoke_handler is None,
            r.user_data is None,
    {
        WebViewBuilder {
            title: "Application",
            content: None,
            width: 800,
            height: 600,
            resizable: true,
            debug: false,
            invoke_handler: None,
            user_data: None,
            native: PhantomData,
        }
    }
}

impl<'a, T, I, N> WebViewBuilder<'a, T, I, N> where
    I: Fn(&mut Window<T, N>, &str) -> WVResult,
    N: Native,
 {
    /// A builder with the default options: title "Application", 800 x 600,
    /// resizable, no debug tools, and no content, data or handler yet.
    pub fn new() -> (r: Self)
        ensures
            r.title@ == "Application"@,
            r.content is None,
            r.width == 800,
            r.height == 600,
            r.resizable,
            !r.debug,
            r.invoke_handler is None,
            r.user_data is None,
    {
        Self::default()
    }

    /// Sets the window's title.
    pub fn title(self, title: &'a str) -> (r: Self)
        ensures
            r == (WebViewBuilder { title, ..self }),
    {
        WebViewBuilder { title, ..self }
    }

    /// Sets what the window shows: a URL or literal HTML.
    pub fn content(self, content: Content<'a>) -> (r: Self)
        ensures
            r == (WebViewBuilder { content: Some(content), ..self }),
    {
        WebViewBuilder { content: Some(content), ..self }
    }

    /// Sets the window's size.
    pub fn size(self, width: i32, height: i32) -> (r: Self)
        ensures
            r == (WebViewBuilder { width, height, ..self }),
    {
        WebViewBuilder { width, height, ..self }
    }

    /// Sets whether the user may resize the window.
    pub fn resizable(self, resizable: bool) -> (r: Self)
        ensures
            r == (WebViewBuilder { resizable, ..self }),
    {
        WebViewBuilder { resizable, ..self }
    }

    /// Sets whether the page's debug tools are available.
    pub fn debug(self, debug: bool) -> (r: Self)
        ensures
            r == (WebViewBuilder { debug, ..self }),
    {
        WebViewBuilder { debug, ..self }
    }

    /// Sets the handler of messages from the page. A result it returns is
    /// what the loop iteration that delivered the message returns.
    pub fn invoke_handler(self, invoke_handler: I) -> (r: Self)
        ensures
            r == (WebViewBuilder { invoke_handler: Some(invoke_handler), ..self }),
    {
        WebViewBuilder { invoke_handler: Some(invoke_handler), ..self }
    }

    /// Sets the application's data that the window starts with.
    pub fn user_data(self, data: T) -> (r: Self)
        ensures
            r == (WebViewBuilder { user_data: Some(data), ..self }),
    {
        WebViewBuilder { user_data: Some(data), ..self }
    }
}

impl<'a, T: 'static, I, N> WebViewBuilder<'a, T, I, N> where
    I: Fn(&mut Window<T, N>, &str) -> WVResult + 'static,
    N: Native + 'static,
 {
    /// Checks the options and builds the window. Fails with
    /// `StringConversion` when the title holds a zero byte; then with
    /// `UninitializedField` for the first of content, data and handler that
    /// is missing; then with `StringConversion` when the content holds a zero
    /// byte; then with `Initialization` when the native window does not
    /// initialise. No native call is made before these checks pass.
    pub fn build(self) -> (r: WVResult<WebView<T, N>>)
        requires
            self.invoke_handler matches Some(h) ==> forall|v: &mut Window<T, N>, s: &str|
                h.requires((v, s)),
        ensures
            build_error(self) matches Some(e) ==> r == Err::<WebView<T, N>, Error>(e),
            build_error(self) is None ==> r is Ok || r == Err::<WebView<T, N>, Error>(
                Error::Initialization,
            ),
            r matches Ok(v) ==> v.config().title@ == self.title@ && v.config().url@
                == content_url_spec(self.content->0) && v.config().width == self.width
                && v.config().height == self.height && v.config().resizable == self.resizable
                && v.config().debug == self.debug && v.pending() is None && v.has_handler()
                && v.calls() == Seq::<NativeCall>::empty() && forall|arg: Seq<char>, x: WVResult|
                v.handler_may_return(arg, x) <==> exists|w: &mut Window<T, N>, s: &str|
                    s@ == arg && self.invoke_handler->0.ensures((w, s), x),
    {
        let title = NativeText::new(self.title)?;
        let content = match self.content {
            Some(c) => c,
            None => {
                return Err(Error::UninitializedField(Field::Content));
            },
        };
        let user_data = match self.user_data {
            Some(d) => d,
            None => {
                return Err(Error::UninitializedField(Field::UserData));
            },
        };
        let invoke_handler = match self.invoke_handler {
            Some(h) => h,
            None => {
                return Err(Error::UninitializedField(Field::InvokeHandler));
            },
        };
        let url = content_url(&content)?;
        let config = WindowConfig {
            title,
            url,
            width: self.width,
            height: self.height,
            resizable: self.resizable,
            debug: self.debug,
        };
        WebView::new(config, user_data, invoke_handler)
    }
}

} // verus!
