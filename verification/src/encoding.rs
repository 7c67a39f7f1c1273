//! File names that are safe on every host file system.
//!
//! A name is percent-encoded byte by byte: control bytes, the space and every
//! byte outside ASCII become `%` and two upper-case hexadecimal digits, all
//! other bytes stay as they are. A leading `@`, which marks a media reference,
//! is dropped from a file name and never escaped.
//!
//! [`percent_encode`] is the bare transform, which keeps every character of
//! its argument in some form. [`encode_file_name`] is the encoder of file
//! names, which drops the sentinel.

use vstd::prelude::*;
use vstd::string::*;
use vstd::utf8::*;

verus! {

/// The marker that opens a media reference.
pub const SENTINEL: u8 = 0x40;

/// The byte that opens an escape.
pub const PERCENT: u8 = 0x25;

/// Whether a byte is replaced by an escape: the C0 controls, the space,
/// `DEL`, and every byte outside ASCII.
pub open spec fn is_escaped(b: u8) -> bool {
    b <= 0x20 || b >= 0x7F
}

/// The upper-case hexadecimal digit for a value below sixteen.
pub open spec fn hex_digit(n: int) -> u8
    recommends
        0 <= n < 16,
{
    if n < 10 {
        (0x30 + n) as u8
    } else {
        (0x41 + n - 10) as u8
    }
}

/// The three bytes that stand for `b` in escaped form.
pub open spec fn escape(b: u8) -> Seq<u8> {
    seq![PERCENT, hex_digit(b as int / 16), hex_digit(b as int % 16)]
}

/// What one byte of a name becomes.
pub open spec fn encoded_byte(b: u8) -> Seq<u8> {
    if is_escaped(b) {
        escape(b)
    } else {
        seq![b]
    }
}

/// The percent-encoding of a byte sequence.
pub open spec fn percent_encoded(bytes: Seq<u8>) -> Seq<u8>
    decreases bytes.len(),
{
    if bytes.len() == 0 {
        Seq::empty()
    } else {
        encoded_byte(bytes[0]) + percent_encoded(bytes.drop_first())
    }
}

/// The value of a hexadecimal digit of either case.
pub open spec fn hex_value(b: u8) -> Option<int> {
    if 0x30 <= b <= 0x39 {
        Some(b as int - 0x30)
    } else if 0x41 <= b <= 0x46 {
        Some(b as int - 0x41 + 10)
    } else if 0x61 <= b <= 0x66 {
        Some(b as int - 0x61 + 10)
    } else {
        None
    }
}

/// Whether an escape starts at index `i`: a `%` and two hexadecimal digits.
pub open spec fn escape_at(bytes: Seq<u8>, i: int) -> bool {
    &&& 0 <= i
    &&& i + 2 < bytes.len()
    &&& bytes[i] == PERCENT
    &&& hex_value(bytes[i + 1]) is Some
    &&& hex_value(bytes[i + 2]) is Some
}

/// The bytes that a percent-encoded sequence stands for: every escape is
/// replaced by its byte, everything else is kept.
pub open spec fn percent_decoded(bytes: Seq<u8>) -> Seq<u8>
    decreases bytes.len(),
{
    if bytes.len() == 0 {
        Seq::empty()
    } else if escape_at(bytes, 0) {
        seq![(hex_value(bytes[1]).unwrap() * 16 + hex_value(bytes[2]).unwrap()) as u8]
            + percent_decoded(bytes.skip(3))
    } else {
        seq![bytes[0]] + percent_decoded(bytes.drop_first())
    }
}

/// The text whose characters are the given ASCII bytes.
pub open spec fn ascii_text(bytes: Seq<u8>) -> Seq<char> {
    Seq::new(bytes.len(), |i: int| bytes[i] as char)
}

/// The percent-encoding of a name, as text.
pub open spec fn encoded_name(name: Seq<char>) -> Seq<char> {
    ascii_text(percent_encoded(encode_utf8(name)))
}

/// Whether a text opens with the sentinel `@`.
pub open spec fn has_sentinel(text: Seq<char>) -> bool {
    text.len() > 0 && text[0] == '@'
}

/// A text without its first character; the empty text stays empty.
pub open spec fn without_first(text: Seq<char>) -> Seq<char> {
    if text.len() > 0 {
        text.drop_first()
    } else {
        text
    }
}

/// A raw name without the sentinel that may open it.
pub open spec fn without_sentinel(raw: Seq<char>) -> Seq<char> {
    if has_sentinel(raw) {
        raw.drop_first()
    } else {
        raw
    }
}

/// The name under which an archive entry is stored: the encoding of the raw
/// name, or of what follows the sentinel where the raw name opens with one.
pub open spec fn safe_name(raw: Seq<char>) -> Seq<char> {
    encoded_name(without_sentinel(raw))
}

/// Whether a byte sequence holds no escape of its own.
pub open spec fn escape_free(bytes: Seq<u8>) -> bool {
    forall|i: int| !escape_at(bytes, i)
}

/// `percent_encoding::percent_encode_byte`: the escape of one byte, as text.
///
/// Trusted: the outside function looks the byte up in a table whose entry for
/// `b` is `%` followed by the two upper-case hexadecimal digits of `b`.
pub assume_specification[ percent_encoding::percent_encode_byte ](byte: u8) -> (text: &'static str)
    ensures
        text@ == ascii_text(escape(byte)),
;

/// `String::push`: appends one character.
pub assume_specification[ String::push ](text: &mut String, ch: char)
    ensures
        final(text)@ == old(text)@.push(ch),
;

/// Encoding a sequence that ends in `b` encodes what comes before and then `b`.
pub proof fn lemma_percent_encoded_push(bytes: Seq<u8>, b: u8)
    ensures
        percent_encoded(bytes.push(b)) == percent_encoded(bytes) + encoded_byte(b),
    decreases bytes.len(),
{
    if bytes.len() == 0 {
        assert(bytes.push(b).drop_first() =~= Seq::<u8>::empty());
        assert(percent_encoded(Seq::<u8>::empty()) =~= Seq::<u8>::empty());
        assert(percent_encoded(bytes.push(b)) =~= percent_encoded(bytes) + encoded_byte(b));
    } else {
        assert(bytes.push(b).drop_first() =~= bytes.drop_first().push(b));
        lemma_percent_encoded_push(bytes.drop_first(), b);
        assert(percent_encoded(bytes.push(b)) =~= percent_encoded(bytes) + encoded_byte(b));
    }
}

/// No byte of an encoding is a control byte, a space or outside ASCII.
pub proof fn lemma_percent_encoded_printable(bytes: Seq<u8>)
    ensures
        forall|i: int|
            0 <= i < percent_encoded(bytes).len() ==> !is_escaped(
                #[trigger] percent_encoded(bytes)[i],
            ),
    decreases bytes.len(),
{
    if bytes.len() > 0 {
        lemma_percent_encoded_printable(bytes.drop_first());
        let head = encoded_byte(bytes[0]);
        let tail = percent_encoded(bytes.drop_first());
        assert(forall|k: int| 0 <= k < 16 ==> !is_escaped(#[trigger] hex_digit(k)));
        assert forall|i: int| 0 <= i < percent_encoded(bytes).len() implies !is_escaped(
            #[trigger] percent_encoded(bytes)[i],
        ) by {
            if i < head.len() {
                assert(percent_encoded(bytes)[i] == head[i]);
            } else {
                assert(percent_encoded(bytes)[i] == tail[i - head.len()]);
            }
        }
    }
}

/// The text made of ASCII bytes is ASCII text, and its UTF-8 encoding is
/// those bytes.
pub proof fn lemma_ascii_text_bytes(bytes: Seq<u8>)
    requires
        forall|i: int| 0 <= i < bytes.len() ==> #[trigger] bytes[i] < 0x80,
    ensures
        is_ascii_chars(ascii_text(bytes)),
        encode_utf8(ascii_text(bytes)) == bytes,
{
    let text = ascii_text(bytes);
    assert forall|i: int| 0 <= i < text.len() implies '\0' <= #[trigger] text[i] <= '\u{7f}' by {
        assert(bytes[i] < 0x80);
    }
    is_ascii_chars_encode_utf8(text);
    assert forall|i: int| 0 <= i < bytes.len() implies encode_utf8(text)[i] == bytes[i] by {
        assert(text[i] as u8 == encode_utf8(text)[i]);
        assert(bytes[i] < 0x80);
    }
    assert(encode_utf8(text) =~= bytes);
}

/// An encoded name is ASCII text.
pub proof fn lemma_encoded_name_ascii(name: Seq<char>)
    ensures
        is_ascii_chars(encoded_name(name)),
        encode_utf8(encoded_name(name)) == percent_encoded(encode_utf8(name)),
{
    lemma_percent_encoded_printable(encode_utf8(name));
    lemma_ascii_text_bytes(percent_encoded(encode_utf8(name)));
}

/// The UTF-8 encoding of a text opens with the byte `@` exactly when the
/// text opens with the character `@`, and what follows that byte is the
/// encoding of what follows that character.
pub proof fn lemma_sentinel_byte(text: Seq<char>)
    requires
        text.len() > 0,
    ensures
        encode_utf8(text).len() > 0,
        encode_utf8(text)[0] == SENTINEL <==> text[0] == '@',
        text[0] == '@' ==> encode_utf8(text).drop_first() == encode_utf8(text.drop_first()),
{
    let c = text[0] as u32;
    let first = encode_scalar(c);
    let rest = encode_utf8(text.drop_first());
    char_is_scalar(text[0]);
    assert(encode_utf8(text) == first + rest);
    assert(encode_utf8(text)[0] == first[0]);
    assert(text[0] == '@' <==> c == 0x40) by {
        char_u32_cast(text[0], c);
        char_u32_cast('@', 0x40u32);
    }
    if has_width_1_encoding(c) {
        assert(leading_byte_width_1(c) == c as u8) by (bit_vector)
            requires
                has_width_1_encoding(c),
        ;
        assert(first[0] == c as u8);
        assert(c as u8 == 0x40 <==> c == 0x40);
    } else if has_width_2_encoding(c) {
        assert(leading_byte_width_2(c) >= 0xC0) by (bit_vector);
    } else if has_width_3_encoding(c) {
        assert(leading_byte_width_3(c) >= 0xE0) by (bit_vector);
    } else {
        assert(leading_byte_width_4(c) >= 0xF0) by (bit_vector);
    }
    if text[0] == '@' {
        assert(first =~= seq![SENTINEL]);
        assert(encode_utf8(text).drop_first() =~= rest);
    }
}

/// An encoded name opens with the sentinel exactly when the name does, and
/// dropping the sentinel after encoding gives the encoding of the rest.
pub proof fn lemma_encoded_sentinel(name: Seq<char>)
    ensures
        has_sentinel(encoded_name(name)) <==> has_sentinel(name),
        has_sentinel(name) ==> encoded_name(name).drop_first() == encoded_name(name.drop_first()),
{
    let bytes = encode_utf8(name);
    if name.len() > 0 {
        lemma_sentinel_byte(name);
        let head = encoded_byte(bytes[0]);
        let tail = percent_encoded(bytes.drop_first());
        assert(percent_encoded(bytes) == head + tail);
        assert(percent_encoded(bytes)[0] == head[0]);
        assert(encoded_name(name)[0] == head[0] as char);
        if name[0] == '@' {
            assert(head =~= seq![SENTINEL]);
            assert(percent_encoded(bytes).drop_first() =~= tail);
            assert(encoded_name(name).drop_first() =~= ascii_text(tail));
        }
    } else {
        assert(percent_encoded(bytes) =~= Seq::<u8>::empty());
    }
}

/// The first two bytes of an encoding, as far as they copy the input.
proof fn lemma_encoded_front(bytes: Seq<u8>)
    ensures
        bytes.len() == 0 ==> percent_encoded(bytes).len() == 0,
        bytes.len() > 0 ==> percent_encoded(bytes).len() > 0,
        bytes.len() > 0 && is_escaped(bytes[0]) ==> percent_encoded(bytes)[0] == PERCENT,
        bytes.len() > 0 && !is_escaped(bytes[0]) ==> percent_encoded(bytes)[0] == bytes[0],
        bytes.len() == 1 && !is_escaped(bytes[0]) ==> percent_encoded(bytes).len() == 1,
        bytes.len() > 1 && !is_escaped(bytes[0]) && is_escaped(bytes[1]) ==> percent_encoded(
            bytes,
        )[1] == PERCENT,
        bytes.len() > 1 && !is_escaped(bytes[0]) && !is_escaped(bytes[1]) ==> percent_encoded(
            bytes,
        )[1] == bytes[1],
{
    if bytes.len() > 0 {
        let rest = bytes.drop_first();
        assert(percent_encoded(bytes) == encoded_byte(bytes[0]) + percent_encoded(rest));
        if rest.len() > 0 {
            let after = rest.drop_first();
            assert(percent_encoded(rest) == encoded_byte(rest[0]) + percent_encoded(after));
        } else {
            assert(percent_encoded(rest).len() == 0);
        }
    }
}

/// How decoding an encoding starts. Where the bytes open with an escape of
/// their own, the encoding copies it and decoding turns it into one byte,
/// going on behind it. Otherwise decoding gives back the first byte and goes
/// on with the encoding of the rest.
proof fn lemma_decoded_encoding_front(bytes: Seq<u8>)
    requires
        bytes.len() > 0,
    ensures
        escape_at(bytes, 0) ==> percent_decoded(percent_encoded(bytes)).len() == 1
            + percent_decoded(percent_encoded(bytes.skip(3))).len(),
        !escape_at(bytes, 0) ==> percent_decoded(percent_encoded(bytes)) == seq![bytes[0]]
            + percent_decoded(percent_encoded(bytes.drop_first())),
{
    let b = bytes[0];
    let rest = bytes.drop_first();
    let tail = percent_encoded(rest);
    let whole = percent_encoded(bytes);
    assert(whole == encoded_byte(b) + tail);
    lemma_encoded_front(rest);
    if is_escaped(b) {
        let hi = b as int / 16;
        let lo = b as int % 16;
        assert(hex_value(hex_digit(hi)) == Some(hi));
        assert(hex_value(hex_digit(lo)) == Some(lo));
        assert(escape_at(whole, 0));
        assert(whole.skip(3) =~= tail);
    } else if escape_at(bytes, 0) {
        let after = rest.drop_first();
        assert(tail == encoded_byte(rest[0]) + percent_encoded(after));
        assert(percent_encoded(after) == encoded_byte(after[0]) + percent_encoded(
            after.drop_first(),
        ));
        assert(escape_at(whole, 0));
        assert(after.drop_first() =~= bytes.skip(3));
        assert(whole.skip(3) =~= percent_encoded(bytes.skip(3)));
    } else {
        assert(tail.len() >= 2 ==> whole[1] == tail[0] && whole[2] == tail[1]);
        assert(rest.len() >= 2 ==> bytes[1] == rest[0] && bytes[2] == rest[1]);
        assert(!escape_at(whole, 0));
        assert(whole.drop_first() =~= tail);
    }
}

/// Decoding an encoding gives back the bytes that were encoded, provided
/// they hold no escape of their own.
///
/// The `%` itself is copied and not escaped, so an escape in the input, such
/// as the three bytes `%41`, cannot be told from one that the encoding made.
pub proof fn law_decoding_inverts_encoding(bytes: Seq<u8>)
    requires
        escape_free(bytes),
    ensures
        percent_decoded(percent_encoded(bytes)) == bytes,
    decreases bytes.len(),
{
    if bytes.len() == 0 {
        assert(percent_encoded(bytes) =~= Seq::<u8>::empty());
        assert(percent_decoded(percent_encoded(bytes)) =~= bytes);
    } else {
        let rest = bytes.drop_first();
        assert forall|i: int| !escape_at(rest, i) by {
            assert(!escape_at(bytes, i + 1));
        }
        law_decoding_inverts_encoding(rest);
        assert(!escape_at(bytes, 0));
        lemma_decoded_encoding_front(bytes);
        assert(seq![bytes[0]] + rest =~= bytes);
    }
}

/// Decoding an encoding never gives more bytes than were encoded.
proof fn lemma_decoding_does_not_grow(bytes: Seq<u8>)
    ensures
        percent_decoded(percent_encoded(bytes)).len() <= bytes.len(),
    decreases bytes.len(),
{
    if bytes.len() == 0 {
        assert(percent_encoded(bytes) =~= Seq::<u8>::empty());
    } else {
        lemma_decoded_encoding_front(bytes);
        if escape_at(bytes, 0) {
            lemma_decoding_does_not_grow(bytes.skip(3));
        } else {
            lemma_decoding_does_not_grow(bytes.drop_first());
        }
    }
}

/// An escape in the bytes that are encoded does not survive: decoding the
/// encoding gives fewer bytes than were encoded, so it cannot give them back.
pub proof fn law_escapes_do_not_survive(bytes: Seq<u8>, i: int)
    requires
        escape_at(bytes, i),
    ensures
        percent_decoded(percent_encoded(bytes)).len() < bytes.len(),
        percent_decoded(percent_encoded(bytes)) != bytes,
    decreases bytes.len(),
{
    lemma_decoded_encoding_front(bytes);
    if escape_at(bytes, 0) {
        lemma_decoding_does_not_grow(bytes.skip(3));
    } else {
        assert(escape_at(bytes.drop_first(), i - 1));
        law_escapes_do_not_survive(bytes.drop_first(), i - 1);
    }
}

/// An extracted name holds no control character, no space and nothing
/// outside ASCII, whatever the raw name held.
pub proof fn law_safe_name_printable(raw: Seq<char>)
    ensures
        forall|i: int|
            0 <= i < safe_name(raw).len() ==> '!' <= #[trigger] safe_name(raw)[i] <= '~',
{
    let bytes = percent_encoded(encode_utf8(without_sentinel(raw)));
    lemma_percent_encoded_printable(encode_utf8(without_sentinel(raw)));
    assert forall|i: int| 0 <= i < safe_name(raw).len() implies '!' <= #[trigger] safe_name(
        raw,
    )[i] <= '~' by {
        assert(!is_escaped(bytes[i]));
        assert(safe_name(raw)[i] == bytes[i] as char);
    }
}

/// Decoding the escapes of an extracted name gives back the bytes of the raw
/// name, without the sentinel where it opened with one, provided those bytes
/// hold no escape of their own.
pub proof fn law_safe_name_round_trip(raw: Seq<char>)
    requires
        escape_free(encode_utf8(without_sentinel(raw))),
    ensures
        percent_decoded(encode_utf8(safe_name(raw))) == encode_utf8(without_sentinel(raw)),
{
    lemma_encoded_name_ascii(without_sentinel(raw));
    law_decoding_inverts_encoding(encode_utf8(without_sentinel(raw)));
}

/// For a raw name that opens with the sentinel, the extracted name is the
/// encoding of what follows it: the sentinel is dropped, not escaped. It is
/// also what is left of the encoding of the whole name once its first
/// character is dropped, so the two orders agree.
pub proof fn law_sentinel_is_dropped_unescaped(raw: Seq<char>)
    requires
        has_sentinel(raw),
    ensures
        safe_name(raw) == encoded_name(raw.drop_first()),
        safe_name(raw) == encoded_name(raw).drop_first(),
{
    lemma_encoded_sentinel(raw);
}

/// Two byte sequences without escapes of their own never share an encoding.
///
/// With escapes they may: a space and the three bytes `%20` both become
/// `%20`.
pub proof fn law_escape_free_names_do_not_collide(a: Seq<u8>, b: Seq<u8>)
    requires
        escape_free(a),
        escape_free(b),
        percent_encoded(a) == percent_encoded(b),
    ensures
        a == b,
{
    law_decoding_inverts_encoding(a);
    law_decoding_inverts_encoding(b);
}

/// Whether a byte is replaced by an escape.
pub fn needs_escape(b: u8) -> (escaped: bool)
    ensures
        escaped == is_escaped(b),
{
    b <= 0x20 || b >= 0x7F
}

/// Percent-encodes a text: every byte of its UTF-8 encoding that needs an
/// escape is replaced by one, every other byte is copied. Nothing is
/// dropped: a sentinel that opens the text is copied like any other `@`.
pub fn percent_encode(name: &str) -> (encoded: String)
    ensures
        encoded@ == encoded_name(name@),
{
    let bytes = name.as_bytes();
    let mut encoded = String::new();
    let mut i: usize = 0;
    proof {
        assert(bytes@.take(0) =~= Seq::<u8>::empty());
        assert(encoded@ =~= ascii_text(percent_encoded(bytes@.take(0))));
    }
    while i < bytes.len()
        invariant
            i <= bytes@.len(),
            bytes@ == encode_utf8(name@),
            encoded@ == ascii_text(percent_encoded(bytes@.take(i as int))),
        decreases bytes@.len() - i,
    {
        let b = bytes[i];
        proof {
            lemma_percent_encoded_push(bytes@.take(i as int), b);
            assert(bytes@.take(i as int).push(b) =~= bytes@.take(i + 1));
        }
        if needs_escape(b) {
            encoded.append(percent_encoding::percent_encode_byte(b));
        } else {
            encoded.push(b as char);
        }
        proof {
            assert(encoded@ =~= ascii_text(percent_encoded(bytes@.take(i + 1))));
        }
        i = i + 1;
    }
    proof {
        assert(bytes@.take(i as int) =~= bytes@);
    }
    encoded
}

/// The value of a hexadecimal digit of either case, if the byte is one.
pub fn hex_digit_value(b: u8) -> (value: Option<u8>)
    ensures
        value is Some <==> hex_value(b) is Some,
        value matches Some(v) ==> hex_value(b) == Some(v as int),
{
    if 0x30 <= b && b <= 0x39 {
        Some(b - 0x30)
    } else if 0x41 <= b && b <= 0x46 {
        Some(b - 0x41 + 10)
    } else if 0x61 <= b && b <= 0x66 {
        Some(b - 0x61 + 10)
    } else {
        None
    }
}

/// The byte that the escape at index `i` stands for, if one starts there.
fn escape_value(bytes: &[u8], i: usize) -> (value: Option<u8>)
    requires
        i < bytes@.len(),
    ensures
        value is Some <==> escape_at(bytes@, i as int),
        value matches Some(v) ==> v == (hex_value(bytes@[i + 1]).unwrap() * 16 + hex_value(
            bytes@[i + 2],
        ).unwrap()) as u8,
{
    if bytes[i] != PERCENT || bytes.len() - i < 3 {
        return None;
    }
    match (hex_digit_value(bytes[i + 1]), hex_digit_value(bytes[i + 2])) {
        (Some(high), Some(low)) => Some(high * 16 + low),
        _ => None,
    }
}

/// The bytes that an encoded file name stands for: every escape, a `%` and
/// two hexadecimal digits of either case, is replaced by its byte, and
/// everything else is kept.
pub fn decode_file_name(encoded: &str) -> (decoded: Vec<u8>)
    ensures
        decoded@ == percent_decoded(encode_utf8(encoded@)),
{
    let bytes = encoded.as_bytes();
    let mut decoded: Vec<u8> = Vec::new();
    let mut i: usize = 0;
    proof {
        assert(bytes@.skip(0) =~= bytes@);
    }
    while i < bytes.len()
        invariant
            i <= bytes@.len(),
            decoded@ + percent_decoded(bytes@.skip(i as int)) == percent_decoded(bytes@),
        decreases bytes@.len() - i,
    {
        let ghost rest = bytes@.skip(i as int);
        proof {
            assert(escape_at(rest, 0) <==> escape_at(bytes@, i as int));
            assert(rest[0] == bytes@[i as int]);
        }
        match escape_value(bytes, i) {
            Some(value) => {
                proof {
                    assert(rest[1] == bytes@[i + 1] && rest[2] == bytes@[i + 2]);
                    assert(rest.skip(3) =~= bytes@.skip(i + 3));
                    assert(decoded@.push(value) + percent_decoded(bytes@.skip(i + 3))
                        =~= decoded@ + percent_decoded(rest));
                }
                decoded.push(value);
                i = i + 3;
            },
            None => {
                proof {
                    assert(rest.drop_first() =~= bytes@.skip(i + 1));
                    assert(decoded@.push(bytes@[i as int]) + percent_decoded(bytes@.skip(i + 1))
                        =~= decoded@ + percent_decoded(rest));
                }
                decoded.push(bytes[i]);
                i = i + 1;
            },
        }
    }
    proof {
        assert(percent_decoded(bytes@.skip(i as int)) =~= Seq::<u8>::empty());
        assert(decoded@ + Seq::<u8>::empty() =~= decoded@);
    }
    decoded
}

/// Drops the first character of an ASCII text.
pub(crate) fn drop_first_char(text: String) -> (rest: String)
    requires
        is_ascii_chars(text@),
    ensures
        rest@ == without_first(text@),
{
    let slice = text.as_str();
    let n: usize = slice.as_bytes().len();
    proof {
        is_ascii_chars_encode_utf8(slice@);
    }
    if n > 0 {
        slice.substring_ascii(1, n).to_owned()
    } else {
        text
    }
}

/// Makes a file name safe: the name under which an archive entry with the
/// raw name `raw` is stored.
///
/// A raw name that opens with the sentinel gives the percent-encoding of
/// what follows the sentinel; any other raw name gives its own
/// percent-encoding. The name is encoded first and the sentinel dropped
/// afterwards: the sentinel is never escaped, so the two orders agree.
pub fn encode_file_name(raw: &str) -> (safe: String)
    ensures
        safe@ == safe_name(raw@),
{
    let encoded = percent_encode(raw);
    proof {
        lemma_encoded_name_ascii(raw@);
        lemma_encoded_sentinel(raw@);
        is_ascii_chars_encode_utf8(encoded@);
    }
    if encoded.as_str().as_bytes().len() > 0 && encoded.as_str().get_ascii(0) == SENTINEL {
        drop_first_char(encoded)
    } else {
        encoded
    }
}

} // verus!
