//! Strings on their way across the boundary.
//!
//! Two kinds of string cross it, and they are kept apart as two types.
//! A [`HostString`] belongs to the host: the bridge borrows it, reads the
//! text before the terminator, and never frees it. A [`BridgeString`] is
//! allocated by the bridge and handed over for good; the host gives it back
//! for release exactly once. Inside the bridge text is a `String`.

use vstd::prelude::*;
use vstd::string::*;
use vstd::utf8::*;

verus! {

/// True when no byte of `bytes` is the terminator.
pub open spec fn terminator_free(bytes: Seq<u8>) -> bool {
    forall|i: int| 0 <= i < bytes.len() ==> bytes[i] != 0u8
}

/// True for a buffer that ends in its only terminator.
pub open spec fn terminated(buffer: Seq<u8>) -> bool {
    &&& buffer.len() > 0
    &&& buffer.last() == 0u8
    &&& terminator_free(buffer.drop_last())
}

/// How many bytes of `buffer` come before its first terminator; all of them
/// if it has none.
pub open spec fn text_len(buffer: Seq<u8>) -> nat
    decreases buffer.len(),
{
    if buffer.len() == 0 || buffer[0] == 0u8 {
        0
    } else {
        1 + text_len(buffer.drop_first())
    }
}

/// What a reader of null-terminated strings sees in `buffer`: the bytes
/// before the first terminator.
pub open spec fn c_text(buffer: Seq<u8>) -> Seq<u8> {
    buffer.take(text_len(buffer) as int)
}

/// What `String::from_utf8_lossy` makes of bytes that are not valid UTF-8.
pub uninterp spec fn lossy_text(bytes: Seq<u8>) -> Seq<char>;

/// The text that the bridge reads from the bytes of a host string: the
/// characters they encode, with every invalid sequence replaced.
pub open spec fn lossy_decoded(bytes: Seq<u8>) -> Seq<char> {
    if valid_utf8(bytes) {
        decode_utf8(bytes)
    } else {
        lossy_text(bytes)
    }
}

/// The text of a host string; a null pointer reads as the empty text.
pub open spec fn decoded(host: Option<Seq<u8>>) -> Seq<char> {
    match host {
        Some(bytes) => lossy_decoded(bytes),
        None => Seq::empty(),
    }
}

/// The buffer that carries `text` to the host: its UTF-8 bytes and one
/// terminator. A text with an embedded terminator has none.
pub open spec fn encoded(text: Seq<char>) -> Option<Seq<u8>> {
    if terminator_free(encode_utf8(text)) {
        Some(encode_utf8(text).push(0u8))
    } else {
        None
    }
}

/// `end` is where the text of `buffer` stops if the bytes before it hold no
/// terminator and it is the end of the buffer or a terminator.
pub proof fn lemma_text_len(buffer: Seq<u8>, end: int)
    requires
        0 <= end <= buffer.len(),
        terminator_free(buffer.take(end)),
        end == buffer.len() || buffer[end] == 0u8,
    ensures
        text_len(buffer) == end,
    decreases buffer.len(),
{
    if end > 0 {
        assert(buffer.take(end)[0] == buffer[0]);
        let rest = buffer.drop_first();
        let head = rest.take(end - 1);
        assert forall|i: int| 0 <= i < head.len() implies #[trigger] head[i] != 0u8 by {
            assert(buffer.take(end)[i + 1] == head[i]);
        }
        lemma_text_len(rest, end - 1);
    }
}

/// A string owned by the host, as the bridge reads it: nothing behind a null
/// pointer, and otherwise the bytes before the terminator.
pub struct HostString<'a> {
    bytes: Option<&'a [u8]>,
}

impl<'a> View for HostString<'a> {
    type V = Option<Seq<u8>>;

    closed spec fn view(&self) -> Option<Seq<u8>> {
        match self.bytes {
            Some(bytes) => Some(bytes@),
            None => None,
        }
    }
}

impl<'a> HostString<'a> {
    #[verifier::type_invariant]
    spec fn well_formed(self) -> bool {
        self.bytes matches Some(bytes) ==> terminator_free(bytes@)
    }

    /// The host string behind a null pointer.
    pub fn null() -> (host: HostString<'a>)
        ensures
            host@ is None,
    {
        HostString { bytes: None }
    }

    /// The host string that starts at the first byte of `buffer`. It ends
    /// before the first terminator, or with the buffer if there is none.
    pub fn new(buffer: &'a [u8]) -> (host: HostString<'a>)
        ensures
            host@ == Some(c_text(buffer@)),
    {
        let mut end: usize = 0;
        while end < buffer.len() && buffer[end] != 0
            invariant
                end <= buffer.len(),
                terminator_free(buffer@.take(end as int)),
            decreases buffer.len() - end,
        {
            end += 1;
        }
        proof {
            lemma_text_len(buffer@, end as int);
        }
        let bytes = &buffer[0..end];
        assert(bytes@ == buffer@.take(end as int));
        HostString { bytes: Some(bytes) }
    }

    /// Whether this is the host string behind a null pointer.
    pub fn is_null(&self) -> (null: bool)
        ensures
            null == (self@ is None),
    {
        self.bytes.is_none()
    }
}

/// `String::from_utf8_lossy`, with the result made an owned `String`. Valid
/// UTF-8 comes back as the text it encodes. For any other input the standard
/// library replaces each invalid sequence with U+FFFD; that text is not
/// spelled out here, it goes by the name `lossy_text`.
#[verifier::external_body]
fn from_utf8_lossy(bytes: &[u8]) -> (text: String)
    ensures
        valid_utf8(bytes@) ==> text@ == decode_utf8(bytes@),
        !valid_utf8(bytes@) ==> text@ == lossy_text(bytes@),
{
    String::from_utf8_lossy(bytes).into_owned()
}

/// Copies the text of a host string into a `String`.
///
/// A null pointer gives the empty string. Bytes that are not valid UTF-8 are
/// replaced, never refused: this function has no failure.
pub fn c_str_to_string(s: &HostString) -> (text: String)
    ensures
        text@ == decoded(s@),
{
    match s.bytes {
        Some(bytes) => from_utf8_lossy(bytes),
        None => String::new(),
    }
}

/// True when `r` is what the host is handed for `text`: the bridge string
/// with the encoding of `text`, or none if `text` has no encoding.
pub open spec fn carries(r: Option<BridgeString>, text: Seq<char>) -> bool {
    match r {
        Some(buffer) => encoded(text) == Some(buffer@),
        None => encoded(text) is None,
    }
}

/// A string allocated by the bridge for the host: a buffer that ends in its
/// only terminator.
pub struct BridgeString {
    bytes: Vec<u8>,
}

impl View for BridgeString {
    type V = Seq<u8>;

    /// The whole buffer, terminator included.
    closed spec fn view(&self) -> Seq<u8> {
        self.bytes@
    }
}

impl BridgeString {
    #[verifier::type_invariant]
    spec fn well_formed(self) -> bool {
        terminated(self.bytes@)
    }

    /// The buffer, terminator included.
    pub fn as_bytes(&self) -> (bytes: &[u8])
        ensures
            bytes@ == self@,
            terminated(bytes@),
    {
        proof {
            use_type_invariant(self);
        }
        self.bytes.as_slice()
    }

    /// The string as the host reads it back through the pointer it was
    /// given.
    pub fn as_host(&self) -> (host: HostString<'_>)
        ensures
            host@ == Some(c_text(self@)),
            c_text(self@) == self@.drop_last(),
    {
        proof {
            use_type_invariant(self);
            lemma_text_of_terminated(self.bytes@);
        }
        let text = &self.bytes.as_slice()[0..self.bytes.len() - 1];
        assert(text@ == self.bytes@.drop_last());
        HostString { bytes: Some(text) }
    }

    /// Gives up the buffer, terminator included.
    pub fn into_bytes(self) -> (bytes: Vec<u8>)
        ensures
            bytes@ == self@,
            terminated(bytes@),
    {
        proof {
            use_type_invariant(&self);
        }
        self.bytes
    }
}

/// The text of a buffer that ends in its only terminator is all of it but
/// the terminator.
pub proof fn lemma_text_of_terminated(buffer: Seq<u8>)
    requires
        terminated(buffer),
    ensures
        c_text(buffer) == buffer.drop_last(),
{
    assert(buffer.take(buffer.len() - 1) == buffer.drop_last());
    lemma_text_len(buffer, buffer.len() - 1);
}

/// Allocates the bridge-owned copy of `s`.
///
/// The result is absent exactly when `s` cannot be represented, that is when
/// its bytes hold a terminator; the caller passes that on as a null pointer.
pub fn to_c_string(s: String) -> (r: Option<BridgeString>)
    ensures
        carries(r, s@),
{
    let text = s.as_str().as_bytes();
    let mut bytes: Vec<u8> = Vec::new();
    let mut i: usize = 0;
    while i < text.len()
        invariant
            i <= text.len(),
            text@ == encode_utf8(s@),
            bytes@ == text@.take(i as int),
            terminator_free(bytes@),
        decreases text.len() - i,
    {
        if text[i] == 0 {
            return None;
        }
        bytes.push(text[i]);
        i += 1;
        assert(bytes@ == text@.take(i as int));
    }
    assert(text@.take(i as int) == text@);
    bytes.push(0);
    assert(bytes@.drop_last() == text@);
    Some(BridgeString { bytes })
}

/// The encoding of one scalar value holds a terminator only if the value is
/// zero.
proof fn lemma_scalar_terminator(scalar: u32)
    requires
        is_scalar(scalar),
    ensures
        terminator_free(encode_scalar(scalar)) <==> scalar != 0,
{
    assert(scalar <= 0x7F ==> ((scalar & 0x7F) as u8 == 0u8 <==> scalar == 0)) by (bit_vector);
    assert(0xC0u8 | ((scalar >> 6) & 0x1F) as u8 != 0u8) by (bit_vector);
    assert(0xE0u8 | ((scalar >> 12) & 0x0F) as u8 != 0u8) by (bit_vector);
    assert(0xF0u8 | ((scalar >> 18) & 0x7) as u8 != 0u8) by (bit_vector);
    assert(0x80u8 | (scalar & 0x3F) as u8 != 0u8) by (bit_vector);
    assert(0x80u8 | ((scalar >> 6) & 0x3F) as u8 != 0u8) by (bit_vector);
    assert(0x80u8 | ((scalar >> 12) & 0x3F) as u8 != 0u8) by (bit_vector);
    let bytes = encode_scalar(scalar);
    if scalar == 0 {
        assert(bytes[0] == 0u8);
    }
}

/// A text has a terminator among its bytes exactly when it has a NUL among
/// its characters: multi-byte encodings never contain a zero byte.
pub proof fn lemma_terminator_is_nul(text: Seq<char>)
    ensures
        terminator_free(encode_utf8(text)) <==> !text.contains('\0'),
    decreases text.len(),
{
    if text.len() > 0 {
        let first = encode_scalar(text[0] as u32);
        let rest = encode_utf8(text.drop_first());
        char_is_scalar(text[0]);
        lemma_scalar_terminator(text[0] as u32);
        lemma_terminator_is_nul(text.drop_first());
        char_u32_cast(text[0], text[0] as u32);
        char_u32_cast('\0', 0u32);
        if terminator_free(first + rest) {
            assert forall|i: int| 0 <= i < first.len() implies first[i] != 0u8 by {
                assert((first + rest)[i] == first[i]);
            }
            assert forall|i: int| 0 <= i < rest.len() implies rest[i] != 0u8 by {
                assert((first + rest)[first.len() + i] == rest[i]);
            }
            assert forall|i: int| 0 <= i < text.len() implies text[i] != '\0' by {
                if i > 0 {
                    assert(text.drop_first()[i - 1] == text[i]);
                }
            }
        } else {
            if !terminator_free(first) {
                assert(text[0] == '\0');
            } else {
                let i = choose|i: int| 0 <= i < rest.len() && rest[i] == 0u8;
                let j = choose|j: int|
                    0 <= j < text.drop_first().len() && text.drop_first()[j] == '\0';
                assert(text[j + 1] == '\0');
            }
        }
    }
}

/// Round trip: a text without an embedded terminator has a bridge string,
/// and the host reading that string back, terminator and all, hands the
/// bridge the same text again.
pub proof fn lemma_round_trip(text: Seq<char>)
    requires
        terminator_free(encode_utf8(text)),
    ensures
        encoded(text) matches Some(buffer) && terminated(buffer) && decoded(Some(c_text(buffer)))
            == text,
{
    let bytes = encode_utf8(text);
    let buffer = bytes.push(0u8);
    assert(buffer.drop_last() == bytes);
    lemma_text_of_terminated(buffer);
    encode_utf8_valid_utf8(text);
    encode_utf8_decode_utf8(text);
}

} // verus!
