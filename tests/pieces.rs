use webview::dialog::{path_from_answer, read_str, DialogFlags};
use webview::encode::content_url;
use webview::handle::dispatch_outcome;
use webview::mailbox::{loop_verdict, status_outcome, step_outcome, ResultSlot};
use webview::text::find_nul;
use webview::{Color, Content, Error, Field, NativeText};

#[test]
fn native_text_rejects_zero_bytes() {
    assert_eq!(NativeText::new("abc").unwrap().as_str(), "abc");
    assert_eq!(NativeText::new("").unwrap().as_str(), "");
    assert_eq!(NativeText::new("a\0c").err(), Some(Error::StringConversion));
    assert_eq!(NativeText::new("\0").err(), Some(Error::StringConversion));
    assert_eq!(NativeText::new("ünï").unwrap().as_str(), "ünï");
}

#[test]
fn find_nul_finds_the_first() {
    assert_eq!(find_nul(b"ab\0c\0"), Some(2));
    assert_eq!(find_nul(b"abc"), None);
    assert_eq!(find_nul(b""), None);
}

#[test]
fn url_content_is_taken_as_it_is() {
    let url = content_url(&Content::Url("http://dummy.url/?a=b c")).unwrap();
    assert_eq!(url.as_str(), "http://dummy.url/?a=b c");
}

#[test]
fn html_content_is_percent_encoded() {
    let url = content_url(&Content::Html("a b-_.~é")).unwrap();
    assert_eq!(url.as_str(), "data:text/html,a%20b-_.~%C3%A9");
    let url = content_url(&Content::Html("")).unwrap();
    assert_eq!(url.as_str(), "data:text/html,");
}

#[test]
fn content_with_zero_byte_is_refused() {
    assert_eq!(content_url(&Content::Html("a\0")).err(), Some(Error::StringConversion));
    assert_eq!(content_url(&Content::Url("a\0")).err(), Some(Error::StringConversion));
}

#[test]
fn read_str_stops_at_the_zero_byte() {
    assert_eq!(read_str(b"/home/a\0garbage"), "/home/a");
    assert_eq!(read_str(b"\0abc"), "");
    assert_eq!(read_str(b"no terminator"), "");
    assert_eq!(read_str(b"\xff\0"), "\u{fffd}");
    assert_eq!(read_str(b"abc\0def"), "abc");
    assert_eq!(read_str(b"abc"), "");
    assert_eq!(read_str(&[0u8; 4096]), "");
}

#[test]
fn empty_answer_is_no_path() {
    assert_eq!(path_from_answer(String::new()), None);
    assert_eq!(path_from_answer("/tmp".to_string()), Some("/tmp".to_string()));
}

#[test]
fn step_outcome_reads_the_mailbox() {
    assert_eq!(step_outcome(true, Some(Ok(()))), None);
    assert_eq!(step_outcome(false, None), Some(Ok(())));
    assert_eq!(step_outcome(false, Some(Err(Error::Dispatch))), Some(Err(Error::Dispatch)));
}

#[test]
fn status_zero_is_success() {
    assert_eq!(status_outcome(0, Error::JsEvaluation), Ok(()));
    assert_eq!(status_outcome(-1, Error::JsEvaluation), Err(Error::JsEvaluation));
    assert_eq!(status_outcome(3, Error::CssInjection), Err(Error::CssInjection));
}

#[test]
fn dispatch_outcome_follows_liveness() {
    assert_eq!(dispatch_outcome(true), Ok(()));
    assert_eq!(dispatch_outcome(false), Err(Error::Dispatch));
}

#[test]
fn full_mailbox_keeps_the_unread_result() {
    let mut slot = ResultSlot::new();
    assert!(slot.is_empty());
    assert_eq!(slot.put(Err(Error::JsEvaluation)), None);
    assert_eq!(slot.put(Ok(())), Some(Ok(())));
    assert_eq!(slot.take(), Some(Err(Error::JsEvaluation)));
    assert_eq!(slot.take(), None);
    assert!(slot.is_empty());
}

#[test]
fn colors_default_to_opaque() {
    assert_eq!(Color::from((1, 2, 3)), Color { r: 1, g: 2, b: 3, a: 255 });
    assert_eq!(Color::from((1, 2, 3, 100)), Color { r: 1, g: 2, b: 3, a: 100 });
}

#[test]
fn dialog_flag_bits() {
    assert_eq!(DialogFlags::File.bits(), 0);
    assert_eq!(DialogFlags::Directory.bits(), 1);
    assert_eq!(DialogFlags::Info.bits(), 2);
    assert_eq!(DialogFlags::Warning.bits(), 4);
    assert_eq!(DialogFlags::Error.bits(), 6);
}

#[test]
fn field_names() {
    assert_eq!(Field::Content.name(), "content");
    assert_eq!(Field::UserData.name(), "user_data");
    assert_eq!(Field::InvokeHandler.name(), "invoke_handler");
}

#[test]
fn loop_stops_when_closed_or_failed() {
    assert_eq!(loop_verdict(None), Some(Ok(())));
    assert_eq!(loop_verdict(Some(Ok(()))), None);
    assert_eq!(loop_verdict(Some(Err(Error::JsEvaluation))), Some(Err(Error::JsEvaluation)));
}
