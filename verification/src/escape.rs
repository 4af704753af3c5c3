//! Percent-encoding of path segments.
use vstd::prelude::*;
use vstd::std_specs::convert::FromSpecImpl;
use vstd::utf8::{
    encode_scalar, encode_utf8, has_width_1_encoding, has_width_2_encoding, has_width_3_encoding,
    is_ascii_chars, is_ascii_chars_encode_utf8, leading_byte_width_1, leading_byte_width_2,
    leading_byte_width_3, leading_byte_width_4,
};

verus! {

/// The bytes that percent-encoding leaves as they are: ASCII letters and
/// digits, `-`, `.`, `_` and `~`.
pub open spec fn is_unreserved(b: u8) -> bool {
    ||| 0x30 <= b <= 0x39
    ||| 0x41 <= b <= 0x5a
    ||| 0x61 <= b <= 0x7a
    ||| b == 0x2d
    ||| b == 0x2e
    ||| b == 0x5f
    ||| b == 0x7e
}

/// The upper-case hexadecimal digit for a value below sixteen.
pub open spec fn hex_digit(d: u8) -> char {
    if d < 10 {
        ((0x30 + d) as u8) as char
    } else {
        ((0x37 + d) as u8) as char
    }
}

/// One byte as it appears in encoded text: itself when unreserved, otherwise
/// `%` followed by its two hexadecimal digits.
pub open spec fn escaped_byte(b: u8) -> Seq<char> {
    if is_unreserved(b) {
        seq![b as char]
    } else {
        seq!['%', hex_digit(b / 16), hex_digit(b % 16)]
    }
}

/// The encoded text of a byte string: each byte's encoding, in order.
pub open spec fn escaped_bytes(bytes: Seq<u8>) -> Seq<char>
    decreases bytes.len(),
{
    if bytes.len() == 0 {
        Seq::empty()
    } else {
        escaped_byte(bytes[0]) + escaped_bytes(bytes.drop_first())
    }
}

/// The percent-encoding of a text: the encoding of its UTF-8 bytes.
pub open spec fn percent_encoded(s: Seq<char>) -> Seq<char> {
    escaped_bytes(encode_utf8(s))
}

/// Whether a text is the percent-encoding of some text.
pub open spec fn is_escaped(t: Seq<char>) -> bool {
    exists|s: Seq<char>| t == #[trigger] percent_encoded(s)
}

/// Whether a character is written by one unreserved byte.
pub open spec fn is_unreserved_char(c: char) -> bool {
    c <= '\u{7f}' && is_unreserved(c as u8)
}

/// Whether a text holds nothing that percent-encoding would change.
pub open spec fn is_plain(s: Seq<char>) -> bool {
    forall|i: int| 0 <= i < s.len() ==> is_unreserved_char(#[trigger] s[i])
}

/// Calls `urlencoding::encode` and takes ownership of what it returns.
///
/// Trusted: the result is the percent-encoding of the argument. That crate
/// copies each unreserved byte of the UTF-8 input and writes every other byte
/// as `%` and two upper-case hexadecimal digits, high nibble first.
#[verifier::external_body]
fn percent_encode(s: &str) -> (r: String)
    ensures
        r@ == percent_encoded(s@),
{
    urlencoding::encode(s).into_owned()
}

/// A path segment in its percent-encoded form.
///
/// The only way to make one is from raw text, which is encoded on the way in;
/// the payload is never encoded again and never handed out unencoded. Two
/// segments compare as their encoded texts do.
#[derive(Debug, PartialEq, Eq, PartialOrd, Ord)]
pub struct Escaped {
    raw: String,
}

impl View for Escaped {
    type V = Seq<char>;

    closed spec fn view(&self) -> Seq<char> {
        self.raw@
    }
}

impl Escaped {
    #[verifier::type_invariant]
    spec fn encoded_once(self) -> bool {
        is_escaped(self.raw@)
    }

    /// The encoded text, exactly as stored.
    pub fn as_str(&self) -> (s: &str)
        ensures
            s@ == self@,
            is_escaped(s@),
    {
        proof {
            use_type_invariant(self);
        }
        self.raw.as_str()
    }
}

impl From<&str> for Escaped {
    /// Encodes `s` and wraps the result.
    fn from(s: &str) -> (e: Escaped)
        ensures
            e@ == percent_encoded(s@),
    {
        Escaped { raw: percent_encode(s) }
    }
}

/// What `from` returns is stated by its own `ensures`, over the view: ghost
/// code has no way to write the value itself down.
impl FromSpecImpl<&str> for Escaped {
    open spec fn obeys_from_spec() -> bool {
        false
    }

    open spec fn from_spec(s: &str) -> Escaped {
        arbitrary()
    }
}

/// Unreserved bytes are written as the characters they are, and every byte
/// takes at least one character: three where it is reserved.
proof fn escaped_bytes_len(bytes: Seq<u8>)
    ensures
        escaped_bytes(bytes).len() >= bytes.len(),
        (forall|i: int| 0 <= i < bytes.len() ==> is_unreserved(#[trigger] bytes[i]))
            ==> escaped_bytes(bytes) == bytes.map_values(|b: u8| b as char),
        (exists|i: int| 0 <= i < bytes.len() && !is_unreserved(#[trigger] bytes[i]))
            ==> escaped_bytes(bytes).len() > bytes.len(),
    decreases bytes.len(),
{
    if bytes.len() > 0 {
        let rest = bytes.drop_first();
        escaped_bytes_len(rest);
        if forall|i: int| 0 <= i < bytes.len() ==> is_unreserved(#[trigger] bytes[i]) {
            assert forall|i: int| 0 <= i < rest.len() implies is_unreserved(#[trigger] rest[i]) by {
                assert(rest[i] == bytes[i + 1]);
            }
            assert(escaped_bytes(bytes) =~= bytes.map_values(|b: u8| b as char));
        }
        if exists|i: int| 0 <= i < bytes.len() && !is_unreserved(#[trigger] bytes[i]) {
            let i = choose|i: int| 0 <= i < bytes.len() && !is_unreserved(#[trigger] bytes[i]);
            if i > 0 {
                assert(rest[i - 1] == bytes[i]);
            }
        }
    } else {
        assert(escaped_bytes(bytes) =~= bytes.map_values(|b: u8| b as char));
    }
}

/// The first byte that UTF-8 writes for a character other than an unreserved
/// one is a reserved byte.
proof fn reserved_char_has_reserved_byte(c: char)
    requires
        !is_unreserved_char(c),
    ensures
        encode_scalar(c as u32).len() > 0,
        !is_unreserved(encode_scalar(c as u32)[0]),
{
    let v = c as u32;
    if has_width_1_encoding(v) {
        assert(leading_byte_width_1(v) == v as u8) by (bit_vector)
            requires
                v <= 0x7f,
        ;
    } else if has_width_2_encoding(v) {
        assert(leading_byte_width_2(v) >= 0xc0) by (bit_vector);
    } else if has_width_3_encoding(v) {
        assert(leading_byte_width_3(v) >= 0xe0) by (bit_vector);
    } else {
        assert(leading_byte_width_4(v) >= 0xf0) by (bit_vector);
    }
}

/// A text that holds a character other than an unreserved one has a reserved
/// byte in its UTF-8 form.
proof fn reserved_text_has_reserved_byte(s: Seq<char>)
    requires
        !is_plain(s),
    ensures
        exists|i: int| 0 <= i < encode_utf8(s).len() && !is_unreserved(#[trigger] encode_utf8(s)[i]),
    decreases s.len(),
{
    let bytes = encode_utf8(s);
    let head = encode_scalar(s[0] as u32);
    let rest = s.drop_first();
    assert(s.len() > 0);
    if is_unreserved_char(s[0]) {
        assert(!is_plain(rest)) by {
            let i = choose|i: int| 0 <= i < s.len() && !is_unreserved_char(#[trigger] s[i]);
            assert(rest[i - 1] == s[i]);
        }
        reserved_text_has_reserved_byte(rest);
        let j = choose|j: int|
            0 <= j < encode_utf8(rest).len() && !is_unreserved(#[trigger] encode_utf8(rest)[j]);
        assert(bytes[head.len() + j] == encode_utf8(rest)[j]);
    } else {
        reserved_char_has_reserved_byte(s[0]);
        assert(bytes[0] == head[0]);
    }
}

/// No character lies below `'\0'`.
proof fn char_from_zero(c: char)
    ensures
        '\0' <= c,
{
}

/// UTF-8 writes at least one byte for each character.
proof fn encode_utf8_len(s: Seq<char>)
    ensures
        encode_utf8(s).len() >= s.len(),
    decreases s.len(),
{
    if s.len() > 0 {
        encode_utf8_len(s.drop_first());
    }
}

/// Where a byte string holds a reserved byte, its encoding holds a `%`.
proof fn escaped_bytes_has_percent(bytes: Seq<u8>)
    requires
        exists|i: int| 0 <= i < bytes.len() && !is_unreserved(#[trigger] bytes[i]),
    ensures
        exists|j: int| 0 <= j < escaped_bytes(bytes).len() && escaped_bytes(bytes)[j] == '%',
    decreases bytes.len(),
{
    let rest = bytes.drop_first();
    let head = escaped_byte(bytes[0]);
    if is_unreserved(bytes[0]) {
        let i = choose|i: int| 0 <= i < bytes.len() && !is_unreserved(#[trigger] bytes[i]);
        assert(rest[i - 1] == bytes[i]);
        escaped_bytes_has_percent(rest);
        let j = choose|j: int| 0 <= j < escaped_bytes(rest).len() && escaped_bytes(rest)[j] == '%';
        assert(escaped_bytes(bytes)[j + 1] == escaped_bytes(rest)[j]);
    } else {
        assert(escaped_bytes(bytes)[0] == '%');
    }
}

/// Every character of the encoding of a byte string is `%` or unreserved.
proof fn escaped_bytes_alphabet(bytes: Seq<u8>)
    ensures
        forall|i: int|
            0 <= i < escaped_bytes(bytes).len() ==> {
                let c = #[trigger] escaped_bytes(bytes)[i];
                c == '%' || is_unreserved_char(c)
            },
    decreases bytes.len(),
{
    if bytes.len() > 0 {
        let b = bytes[0];
        let head = escaped_byte(b);
        escaped_bytes_alphabet(bytes.drop_first());
        assert forall|i: int| 0 <= i < head.len() implies (head[i] == '%' || is_unreserved_char(
            #[trigger] head[i],
        )) by {
            if !is_unreserved(b) {
                assert(b / 16 < 16 && b % 16 < 16);
            }
        }
        let tail = escaped_bytes(bytes.drop_first());
        assert forall|i: int| 0 <= i < escaped_bytes(bytes).len() implies {
            let c = #[trigger] escaped_bytes(bytes)[i];
            c == '%' || is_unreserved_char(c)
        } by {
            if i < head.len() {
                assert(escaped_bytes(bytes)[i] == head[i]);
            } else {
                assert(escaped_bytes(bytes)[i] == tail[i - head.len()]);
            }
        }
    }
}

/// Encoded text holds unreserved characters and `%`, nothing else.
pub proof fn encoded_text_alphabet(s: Seq<char>)
    ensures
        forall|i: int|
            0 <= i < percent_encoded(s).len() ==> {
                let c = #[trigger] percent_encoded(s)[i];
                c == '%' || is_unreserved_char(c)
            },
{
    escaped_bytes_alphabet(encode_utf8(s));
}

/// Text without anything to escape is its own encoding: an escaped segment
/// made from it reads as the text does.
pub proof fn plain_text_unchanged(s: Seq<char>)
    requires
        is_plain(s),
    ensures
        percent_encoded(s) == s,
{
    let bytes = encode_utf8(s);
    assert(is_ascii_chars(s)) by {
        assert forall|i: int| 0 <= i < s.len() implies '\0' <= #[trigger] s[i] <= '\u{7f}' by {
            assert(is_unreserved_char(s[i]));
            char_from_zero(s[i]);
        }
    }
    is_ascii_chars_encode_utf8(s);
    escaped_bytes_len(bytes);
    assert forall|i: int| 0 <= i < bytes.len() implies is_unreserved(#[trigger] bytes[i]) by {
        assert(is_unreserved_char(s[i]));
    }
    assert(bytes.map_values(|b: u8| b as char) =~= s) by {
        assert forall|i: int| 0 <= i < s.len() implies bytes[i] as char == s[i] by {
            assert(is_unreserved_char(s[i]));
        }
    }
}

/// Escaping is not idempotent. Where a text holds anything to escape, its
/// encoding holds a `%`, and encoding that once more gives another, longer
/// text. A segment is therefore escaped exactly once or it is wrong; an
/// [`Escaped`] holds the text escaped once.
pub proof fn escaping_twice_differs(s: Seq<char>)
    requires
        !is_plain(s),
    ensures
        percent_encoded(s).len() > s.len(),
        percent_encoded(percent_encoded(s)).len() > percent_encoded(s).len(),
        percent_encoded(percent_encoded(s)) != percent_encoded(s),
{
    let once = percent_encoded(s);
    reserved_text_has_reserved_byte(s);
    escaped_bytes_len(encode_utf8(s));
    encode_utf8_len(s);
    escaped_bytes_has_percent(encode_utf8(s));
    let j = choose|j: int| 0 <= j < once.len() && once[j] == '%';
    encoded_text_alphabet(s);
    assert(is_ascii_chars(once)) by {
        assert forall|i: int| 0 <= i < once.len() implies '\0' <= #[trigger] once[i] <= '\u{7f}' by {
            assert(once[i] == '%' || is_unreserved_char(once[i]));
            char_from_zero(once[i]);
        }
    }
    is_ascii_chars_encode_utf8(once);
    assert(!is_unreserved(encode_utf8(once)[j]));
    escaped_bytes_len(encode_utf8(once));
}

} // verus!
