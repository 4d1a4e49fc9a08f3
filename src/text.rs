use vstd::prelude::*;

use vstd::utf8::{
    encode_scalar, encode_utf8, has_width_1_encoding, has_width_2_encoding, has_width_3_encoding,
    is_scalar,
};

use crate::error::{Error, WVResult};

verus! {

/// Whether a byte sequence holds a zero byte.
pub open spec fn has_nul_byte(bytes: Seq<u8>) -> bool {
    exists|i: int| 0 <= i < bytes.len() && bytes[i] == 0u8
}

/// Whether the UTF-8 encoding of a text holds a zero byte, which the native
/// layer would read as the end of the text.
pub open spec fn has_nul(s: Seq<char>) -> bool {
    has_nul_byte(encode_utf8(s))
}

/// Whether a text holds the character U+0000.
pub open spec fn has_nul_char(s: Seq<char>) -> bool {
    exists|i: int| 0 <= i < s.len() && s[i] == '\0'
}

proof fn lemma_nul_byte_concat(a: Seq<u8>, b: Seq<u8>)
    ensures
        has_nul_byte(a + b) <==> has_nul_byte(a) || has_nul_byte(b),
{
    if has_nul_byte(a + b) {
        let i = choose|i: int| 0 <= i < (a + b).len() && (a + b)[i] == 0u8;
        if i < a.len() {
            assert(a[i] == 0u8);
        } else {
            assert(b[i - a.len()] == 0u8);
        }
    }
    if has_nul_byte(a) {
        let i = choose|i: int| 0 <= i < a.len() && a[i] == 0u8;
        assert((a + b)[i] == 0u8);
    }
    if has_nul_byte(b) {
        let i = choose|i: int| 0 <= i < b.len() && b[i] == 0u8;
        assert((a + b)[a.len() + i] == 0u8);
    }
}

proof fn lemma_scalar_nul(v: u32)
    requires
        is_scalar(v),
    ensures
        has_nul_byte(encode_scalar(v)) <==> v == 0,
{
    let e = encode_scalar(v);
    if has_width_1_encoding(v) {
        assert(((v & 0x7F) as u8 == 0) <==> v == 0) by (bit_vector)
            requires
                v <= 0x7F,
        ;
        assert(e[0] == (v & 0x7F) as u8);
    } else if has_width_2_encoding(v) {
        assert((0xC0 | ((v >> 6) & 0x1F) as u8) != 0u8 && (0x80 | (v & 0x3F) as u8) != 0u8)
            by (bit_vector);
        assert(!has_nul_byte(e)) by {
            assert forall|i: int| 0 <= i < e.len() implies e[i] != 0u8 by {
                if i == 0 {
                } else {
                }
            }
        }
    } else if has_width_3_encoding(v) {
        assert((0xE0 | ((v >> 12) & 0x0F) as u8) != 0u8 && (0x80 | ((v >> 6) & 0x3F) as u8)
            != 0u8 && (0x80 | (v & 0x3F) as u8) != 0u8) by (bit_vector);
        assert(!has_nul_byte(e)) by {
            assert forall|i: int| 0 <= i < e.len() implies e[i] != 0u8 by {
                if i == 0 {
                } else if i == 1 {
                } else {
                }
            }
        }
    } else {
        assert((0xF0 | ((v >> 18) & 0x7) as u8) != 0u8 && (0x80 | ((v >> 12) & 0x3F) as u8)
            != 0u8 && (0x80 | ((v >> 6) & 0x3F) as u8) != 0u8 && (0x80 | (v & 0x3F) as u8)
            != 0u8) by (bit_vector);
        assert(!has_nul_byte(e)) by {
            assert forall|i: int| 0 <= i < e.len() implies e[i] != 0u8 by {
                if i == 0 {
                } else if i == 1 {
                } else if i == 2 {
                } else {
                }
            }
        }
    }
}

/// A zero byte turns up in the UTF-8 encoding of a text exactly where the
/// text holds U+0000.
pub proof fn lemma_nul_byte_iff_nul_char(s: Seq<char>)
    ensures
        has_nul(s) <==> has_nul_char(s),
    decreases s.len(),
{
    if s.len() == 0 {
        assert(!has_nul_byte(encode_utf8(s)));
    } else {
        let rest = s.drop_first();
        vstd::utf8::char_is_scalar(s[0]);
        lemma_nul_byte_iff_nul_char(rest);
        lemma_nul_byte_concat(encode_scalar(s[0] as u32), encode_utf8(rest));
        lemma_scalar_nul(s[0] as u32);
        assert(encode_utf8(s) == encode_scalar(s[0] as u32) + encode_utf8(rest));
        vstd::utf8::char_u32_cast(s[0], s[0] as u32);
        vstd::utf8::char_u32_cast('\0', '\0' as u32);
        assert(('\0' as u32) == 0);
        assert((s[0] as u32 == 0) <==> s[0] == '\0');
        if s[0] == '\0' {
            assert(has_nul_char(s));
        }
        if has_nul_char(rest) {
            let i = choose|i: int| 0 <= i < rest.len() && rest[i] == '\0';
            assert(s[i + 1] == '\0');
        }
        if has_nul_char(s) {
            let i = choose|i: int| 0 <= i < s.len() && s[i] == '\0';
            if i > 0 {
                assert(rest[i - 1] == '\0');
            }
        }
    }
}

/// A text that the native layer can take: its UTF-8 encoding holds no zero byte.
pub struct NativeText {
    text: String,
}

impl View for NativeText {
    type V = Seq<char>;

    closed spec fn view(&self) -> Seq<char> {
        self.text@
    }
}

/// Finds the first zero byte of `bytes`, if there is one.
pub fn find_nul(bytes: &[u8]) -> (r: Option<usize>)
    ensures
        r is None <==> !has_nul_byte(bytes@),
        r matches Some(i) ==> i < bytes@.len() && bytes@[i as int] == 0u8 && forall|j: int|
            0 <= j < i ==> bytes@[j] != 0u8,
{
    let mut i: usize = 0;
    while i < bytes.len()
        invariant
            i <= bytes@.len(),
            forall|j: int| 0 <= j < i ==> bytes@[j] != 0u8,
        decreases bytes@.len() - i,
    {
        if bytes[i] == 0u8 {
            return Some(i);
        }
        i = i + 1;
    }
    None
}

impl NativeText {
    #[verifier::type_invariant]
    spec fn no_nul(&self) -> bool {
        !has_nul(self.text@)
    }

    /// Checks `s` for zero bytes and wraps it for the native layer.
    pub fn new(s: &str) -> (r: WVResult<NativeText>)
        ensures
            has_nul(s@) ==> r == Err::<NativeText, Error>(Error::StringConversion),
            !has_nul(s@) ==> (r matches Ok(t) && t@ == s@),
    {
        let bytes = s.as_bytes();
        match find_nul(bytes) {
            Some(_) => Err(Error::StringConversion),
            None => Ok(NativeText { text: s.to_owned() }),
        }
    }

    /// Wraps a string already known to hold no zero byte.
    pub(crate) fn from_checked(text: String) -> (r: NativeText)
        requires
            !has_nul(text@),
        ensures
            r@ == text@,
    {
        NativeText { text }
    }

    /// The text itself.
    pub fn as_str(&self) -> (r: &str)
        ensures
            r@ == self@,
            !has_nul(r@),
    {
        proof {
            use_type_invariant(self);
        }
        self.text.as_str()
    }
}

} // verus!
