use vstd::prelude::*;
use vstd::slice::slice_subrange;
use vstd::utf8::{decode_utf8, valid_utf8};

use crate::error::{Error, WVResult};
use crate::native::{Native, NativeCall};
use crate::webview::Window;
use crate::text::{find_nul, has_nul, has_nul_byte, has_nul_char, NativeText};

verus! {

/// The room the native layer gets for a dialog's answer, zero byte included.
pub const DIALOG_BUFFER_LEN: usize = 4096;

/// The kinds of modal dialog.
#[derive(Clone, Copy, Debug, PartialEq, Eq, Structural)]
pub enum DialogType {
    Open,
    Save,
    Alert,
}

/// What a dialog asks for: a file or a directory to open, or the severity of
/// an alert.
#[derive(Clone, Copy, Debug, PartialEq, Eq, Structural)]
pub enum DialogFlags {
    File,
    Directory,
    Info,
    Warning,
    Error,
}

impl DialogFlags {
    /// The bit pattern that the native layer reads for this flag.
    pub fn bits(&self) -> (r: u32)
        ensures
            r == self.spec_bits(),
    {
        match self {
            DialogFlags::File => 0,
            DialogFlags::Directory => 1,
            DialogFlags::Info => 2,
            DialogFlags::Warning => 4,
            DialogFlags::Error => 6,
        }
    }

    pub open spec fn spec_bits(&self) -> u32 {
        match self {
            DialogFlags::File => 0,
            DialogFlags::Directory => 1,
            DialogFlags::Info => 2,
            DialogFlags::Warning => 4,
            DialogFlags::Error => 6,
        }
    }
}

/// What `String::from_utf8_lossy` makes of a byte sequence.
pub uninterp spec fn lossy_utf8(bytes: Seq<u8>) -> Seq<char>;

/// Relies on String::from_utf8_lossy: valid UTF-8 decodes as itself, and each
/// invalid sequence becomes one U+FFFD, so only an empty input gives an empty
/// text, and U+0000 comes only from a zero byte.
#[verifier::external_body]
fn decode_lossy(bytes: &[u8]) -> (r: String)
    ensures
        r@ == lossy_utf8(bytes@),
        valid_utf8(bytes@) ==> r@ == decode_utf8(bytes@),
        r@.len() == 0 <==> bytes@.len() == 0,
        !has_nul_byte(bytes@) ==> !has_nul_char(r@),
{
    String::from_utf8_lossy(bytes).into_owned()
}

/// Whether `i` is the position of the first zero byte of `bytes`.
pub open spec fn is_first_nul(bytes: Seq<u8>, i: int) -> bool {
    &&& 0 <= i < bytes.len()
    &&& bytes[i] == 0u8
    &&& forall|j: int| 0 <= j < i ==> bytes[j] != 0u8
}

/// The text that a dialog wrote into its buffer, when its first zero byte is
/// at `i`: the bytes before it, decoded.
pub open spec fn dialog_answer(bytes: Seq<u8>, i: int) -> Seq<char> {
    lossy_utf8(bytes.subrange(0, i))
}

/// The text that a dialog wrote into its buffer `bytes`: the bytes before
/// the first zero byte, decoded; nothing when there is no zero byte.
pub open spec fn answer_text(bytes: Seq<u8>) -> Seq<char> {
    if has_nul_byte(bytes) {
        dialog_answer(bytes, choose|i: int| is_first_nul(bytes, i))
    } else {
        Seq::empty()
    }
}

/// Whether `p` is the path that the answer `s` stands for: none for an empty
/// answer, else the answer itself.
pub open spec fn is_path_answer(p: Option<String>, s: Seq<char>) -> bool {
    match p {
        None => s.len() == 0,
        Some(q) => s.len() > 0 && q@ == s,
    }
}

/// Reads the zero-terminated text that the native layer wrote into `buf`.
pub fn read_str(buf: &[u8]) -> (r: String)
    ensures
        !has_nul_byte(buf@) ==> r@ == Seq::<char>::empty(),
        forall|i: int| is_first_nul(buf@, i) ==> r@ == dialog_answer(buf@, i),
        forall|i: int| is_first_nul(buf@, i) ==> (r@.len() == 0 <==> i == 0),
        forall|i: int|
            is_first_nul(buf@, i) && valid_utf8(buf@.subrange(0, i)) ==> r@ == decode_utf8(
                buf@.subrange(0, i),
            ),
        !has_nul_char(r@),
        r@ == answer_text(buf@),
{
    match find_nul(buf) {
        None => {
            let r = String::new();
            assert(r@ =~= Seq::<char>::empty());
            r
        },
        Some(end) => {
            let bytes = slice_subrange(buf, 0, end);
            assert(!has_nul_byte(bytes@));
            let r = decode_lossy(bytes);
            assert forall|i: int| is_first_nul(buf@, i) implies i == end as int by {
                if i < end {
                    assert(buf@[i] != 0u8);
                }
                if end < i {
                    assert(buf@[end as int] != 0u8);
                }
            }
            assert(is_first_nul(buf@, end as int));
            assert(has_nul_byte(buf@));
            r
        },
    }
}

/// A path that a dialog answered with, or nothing when the answer is empty.
pub fn path_from_answer(answer: String) -> (r: Option<String>)
    ensures
        answer@.len() == 0 ==> r is None,
        answer@.len() > 0 ==> (r matches Some(p) && p@ == answer@),
        is_path_answer(r, answer@),
{
    if answer.as_str().is_empty() {
        None
    } else {
        Some(answer)
    }
}

/// Opens modal dialogs on a window; each call blocks until the user answers.
#[verifier::reject_recursive_types(T)]
pub struct DialogBuilder<'w, T, N: Native> {
    window: &'w mut Window<T, N>,
}

impl<'w, T, N: Native> DialogBuilder<'w, T, N> {
    /// A dialog builder for a window.
    pub fn new(window: &'w mut Window<T, N>) -> (r: DialogBuilder<'w, T, N>)
        ensures
            r.calls() == old(window).calls(),
    {
        DialogBuilder { window }
    }

    /// The native calls made on the window so far.
    pub closed spec fn calls(&self) -> Seq<NativeCall> {
        self.window.calls()
    }

    fn dialog(&mut self, title: &str, arg: &str, kind: DialogType, flags: DialogFlags) -> (r:
        WVResult<String>)
        ensures
            has_nul(title@) || has_nul(arg@) ==> r == Err::<String, Error>(Error::StringConversion)
                && final(self).calls() == old(self).calls(),
            !has_nul(title@) && !has_nul(arg@) ==> (r matches Ok(a) && exists|b: Seq<u8>|
                final(self).calls() == old(self).calls().push(
                    NativeCall::Dialog(kind, flags, title@, arg@, b),
                ) && a@ == answer_text(b)),
            r matches Ok(a) ==> !has_nul_char(a@),
    {
        let title_text = NativeText::new(title)?;
        let arg_text = NativeText::new(arg)?;
        let mut buf: Vec<u8> = vec![0u8; DIALOG_BUFFER_LEN];
        self.window.native_dialog(kind, flags, &title_text, &arg_text, &mut buf);
        let answer = read_str(buf.as_slice());
        assert(self.calls() == old(self).calls().push(
            NativeCall::Dialog(kind, flags, title@, arg@, buf@),
        ) && answer@ == answer_text(buf@));
        Ok(answer)
    }

    /// Asks for a file to open, starting at `default_file`. `None` when the
    /// user chose nothing.
    pub fn open_file(&mut self, title: &str, default_file: &str) -> (r: WVResult<Option<String>>)
        ensures
            has_nul(title@) || has_nul(default_file@) ==> r == Err::<Option<String>, Error>(
                Error::StringConversion,
            ) && final(self).calls() == old(self).calls(),
            !has_nul(title@) && !has_nul(default_file@) ==> (r matches Ok(p) && exists|b: Seq<u8>|
                final(self).calls() == old(self).calls().push(
                    NativeCall::Dialog(DialogType::Open, DialogFlags::File, title@, default_file@, b),
                ) && is_path_answer(p, answer_text(b))),
            r matches Ok(Some(p)) ==> p@.len() > 0 && !has_nul_char(p@),
    {
        let answer = self.dialog(title, default_file, DialogType::Open, DialogFlags::File)?;
        let ghost b = choose|b: Seq<u8>|
            self.calls() == old(self).calls().push(
                NativeCall::Dialog(DialogType::Open, DialogFlags::File, title@, default_file@, b),
            ) && answer@ == answer_text(b);
        let p = path_from_answer(answer);
        assert(self.calls() == old(self).calls().push(
            NativeCall::Dialog(DialogType::Open, DialogFlags::File, title@, default_file@, b),
        ) && is_path_answer(p, answer_text(b)));
        Ok(p)
    }

    /// Asks for a directory, starting at `default_dir`. `None` when the user
    /// chose nothing.
    pub fn choose_directory(&mut self, title: &str, default_dir: &str) -> (r: WVResult<Option<String>>)
        ensures
            has_nul(title@) || has_nul(default_dir@) ==> r == Err::<Option<String>, Error>(
                Error::StringConversion,
            ) && final(self).calls() == old(self).calls(),
            !has_nul(title@) && !has_nul(default_dir@) ==> (r matches Ok(p) && exists|b: Seq<u8>|
                final(self).calls() == old(self).calls().push(
                    NativeCall::Dialog(DialogType::Open, DialogFlags::Directory, title@, default_dir@, b),
                ) && is_path_answer(p, answer_text(b))),
            r matches Ok(Some(p)) ==> p@.len() > 0 && !has_nul_char(p@),
    {
        let answer = self.dialog(title, default_dir, DialogType::Open, DialogFlags::Directory)?;
        let ghost b = choose|b: Seq<u8>|
            self.calls() == old(self).calls().push(
                NativeCall::Dialog(DialogType::Open, DialogFlags::Directory, title@, default_dir@, b),
            ) && answer@ == answer_text(b);
        let p = path_from_answer(answer);
        assert(self.calls() == old(self).calls().push(
            NativeCall::Dialog(DialogType::Open, DialogFlags::Directory, title@, default_dir@, b),
        ) && is_path_answer(p, answer_text(b)));
        Ok(p)
    }

    /// Shows an informational alert.
    pub fn info(&mut self, title: &str, message: &str) -> (r: WVResult)
        ensures
            has_nul(title@) || has_nul(message@) ==> r == Err::<(), Error>(Error::StringConversion)
                && final(self).calls() == old(self).calls(),
            !has_nul(title@) && !has_nul(message@) ==> r == Ok::<(), Error>(()) && exists|b: Seq<u8>| final(self).calls() == old(self).calls().push(
                NativeCall::Dialog(DialogType::Alert, DialogFlags::Info, title@, message@, b),
            ),
    {
        self.alert(title, message, DialogFlags::Info)
    }

    /// Shows a warning alert.
    pub fn warning(&mut self, title: &str, message: &str) -> (r: WVResult)
        ensures
            has_nul(title@) || has_nul(message@) ==> r == Err::<(), Error>(Error::StringConversion)
                && final(self).calls() == old(self).calls(),
            !has_nul(title@) && !has_nul(message@) ==> r == Ok::<(), Error>(()) && exists|b: Seq<u8>| final(self).calls() == old(self).calls().push(
                NativeCall::Dialog(DialogType::Alert, DialogFlags::Warning, title@, message@, b),
            ),
    {
        self.alert(title, message, DialogFlags::Warning)
    }

    /// Shows an error alert.
    pub fn error(&mut self, title: &str, message: &str) -> (r: WVResult)
        ensures
            has_nul(title@) || has_nul(message@) ==> r == Err::<(), Error>(Error::StringConversion)
                && final(self).calls() == old(self).calls(),
            !has_nul(title@) && !has_nul(message@) ==> r == Ok::<(), Error>(()) && exists|b: Seq<u8>| final(self).calls() == old(self).calls().push(
                NativeCall::Dialog(DialogType::Alert, DialogFlags::Error, title@, message@, b),
            ),
    {
        self.alert(title, message, DialogFlags::Error)
    }

    fn alert(&mut self, title: &str, message: &str, flags: DialogFlags) -> (r: WVResult)
        ensures
            has_nul(title@) || has_nul(message@) ==> r == Err::<(), Error>(Error::StringConversion)
                && final(self).calls() == old(self).calls(),
            !has_nul(title@) && !has_nul(message@) ==> r == Ok::<(), Error>(()) && exists|b: Seq<u8>| final(self).calls() == old(self).calls().push(
                NativeCall::Dialog(DialogType::Alert, flags, title@, message@, b),
            ),
    {
        let answer = self.dialog(title, message, DialogType::Alert, flags)?;
        let ghost b = choose|b: Seq<u8>|
            self.calls() == old(self).calls().push(
                NativeCall::Dialog(DialogType::Alert, flags, title@, message@, b),
            ) && answer@ == answer_text(b);
        assert(self.calls() == old(self).calls().push(
            NativeCall::Dialog(DialogType::Alert, flags, title@, message@, b),
        ));
        Ok(())
    }
}

} // verus!
