//! A webview window whose lifetime, event loop and cross-thread dispatch come
//! with proved contracts. The window's native engine stands behind the `Native`
//! trait; the library validates what is handed to it, runs the loop one
//! iteration at a time, and lets other threads queue closures for the
//! window's thread through `Handle`s that fail cleanly once the window is gone.

pub mod builder;
pub mod color;
pub mod content;
pub mod dialog;
pub mod encode;
pub mod error;
pub mod handle;
pub mod mailbox;
pub mod native;
pub mod task;
pub mod text;
pub mod webview;

pub use builder::WebViewBuilder;
pub use color::Color;
pub use content::Content;
pub use dialog::{DialogBuilder, DialogFlags, DialogType};
pub use error::{Error, Field, WVResult};
pub use native::{LoopEvent, Native, NativeCall, Notify, WindowConfig};
pub use handle::Handle;
pub use text::NativeText;
pub use webview::{WebView, WebViewStateData, Window};
