//! Lowercase hexadecimal text: how public keys are written to disk and read back.

use vstd::prelude::*;
use vstd::utf8::{encode_utf8, encode_utf8_decode_utf8, is_ascii_chars_encode_utf8};

verus! {

/// The lowercase hexadecimal digit of a value below sixteen.
pub open spec fn hex_digit(value: int) -> char {
    if value < 10 {
        (0x30 + value) as char
    } else {
        (0x61 + value - 10) as char
    }
}

/// The text of a byte sequence: two digits for each byte, the high half first.
pub open spec fn hex_text(bytes: Seq<u8>) -> Seq<char> {
    Seq::new(
        2 * bytes.len(),
        |i: int|
            if i % 2 == 0 {
                hex_digit(bytes[i / 2] as int / 16)
            } else {
                hex_digit(bytes[i / 2] as int % 16)
            },
    )
}

/// Whether a byte is one of the sixteen digits `0` to `9` and `a` to `f`.
pub open spec fn is_hex_symbol(byte: u8) -> bool {
    0x30 <= byte <= 0x39 || 0x61 <= byte <= 0x66
}

/// The value of a digit.
pub open spec fn hex_value(byte: u8) -> int {
    if byte <= 0x39 {
        byte - 0x30
    } else {
        byte - 0x61 + 10
    }
}

/// How many digits `input` starts with.
pub open spec fn hex_prefix_len(input: Seq<u8>) -> nat
    decreases input.len(),
{
    if input.len() == 0 || !is_hex_symbol(input[0]) {
        0
    } else {
        1 + hex_prefix_len(input.drop_first())
    }
}

/// A number in decimal, without leading zeros.
pub open spec fn decimal(n: nat) -> Seq<char>
    decreases n,
{
    if n < 10 {
        seq![(0x30 + n) as char]
    } else {
        decimal(n / 10).push((0x30 + n % 10) as char)
    }
}

/// What a byte string stands for when it is read as hexadecimal digits: the bytes, or the text
/// of the first fault. An odd length is reported before any wrong symbol.
pub open spec fn hex_parse(input: Seq<u8>) -> Result<Seq<u8>, Seq<char>> {
    if input.len() % 2 == 1 {
        Err("invalid length at "@ + decimal((input.len() - 1) as nat))
    } else if hex_prefix_len(input) < input.len() {
        Err("invalid symbol at "@ + decimal(hex_prefix_len(input)))
    } else {
        Ok(
            Seq::new(
                input.len() / 2,
                |i: int| (16 * hex_value(input[2 * i]) + hex_value(input[2 * i + 1])) as u8,
            ),
        )
    }
}

/// The characters with the Unicode property White_Space.
pub open spec fn is_white_space(c: char) -> bool {
    let point = c as u32;
    ||| 0x09 <= point <= 0x0d
    ||| point == 0x20
    ||| point == 0x85
    ||| point == 0xa0
    ||| point == 0x1680
    ||| 0x2000 <= point <= 0x200a
    ||| point == 0x2028
    ||| point == 0x2029
    ||| point == 0x202f
    ||| point == 0x205f
    ||| point == 0x3000
}

/// `text` without the white space it starts with.
pub open spec fn trimmed_start(text: Seq<char>) -> Seq<char>
    decreases text.len(),
{
    if text.len() > 0 && is_white_space(text[0]) {
        trimmed_start(text.drop_first())
    } else {
        text
    }
}

/// `text` without the white space it ends with.
pub open spec fn trimmed_end(text: Seq<char>) -> Seq<char>
    decreases text.len(),
{
    if text.len() > 0 && is_white_space(text.last()) {
        trimmed_end(text.drop_last())
    } else {
        text
    }
}

/// `text` without the white space around it.
pub open spec fn trimmed(text: Seq<char>) -> Seq<char> {
    trimmed_end(trimmed_start(text))
}

/// What a text stands for when it is read as hexadecimal digits with white space around them.
pub open spec fn hex_decoded(text: Seq<char>) -> Result<Seq<u8>, Seq<char>> {
    hex_parse(encode_utf8(trimmed(text)))
}

/// Whether a text is short enough to be decoded: without the white space around it, it takes up
/// at most an eighth of the largest length. A character takes up four bytes at most, so that a
/// text of a quarter as many characters is always short enough.
pub open spec fn hex_decodable(text: Seq<char>) -> bool {
    ||| text.len() <= usize::MAX / 32
    ||| encode_utf8(trimmed(text)).len() <= usize::MAX / 8
}

/// Calls `encode` of `data_encoding::HEXLOWER`: two lowercase digits for each byte, the high half
/// first. It panics above the length that `requires` gives.
#[verifier::external_body]
fn hexlower_encode(bytes: &[u8]) -> (text: String)
    requires
        bytes@.len() <= usize::MAX / 512,
    ensures
        text@ == hex_text(bytes@),
{
    data_encoding::HEXLOWER.encode(bytes)
}

/// Calls `decode` of `data_encoding::HEXLOWER` and renders its error: an odd length is refused
/// first, with the greatest even length below it, then the first byte that is no lowercase digit,
/// with its position. It panics above the length that `requires` gives.
#[verifier::external_body]
fn hexlower_decode(input: &[u8]) -> (decoded: Result<Vec<u8>, String>)
    requires
        input@.len() <= usize::MAX / 8,
    ensures
        match decoded {
            Ok(bytes) => hex_parse(input@) == Ok::<Seq<u8>, Seq<char>>(bytes@),
            Err(fault) => hex_parse(input@) == Err::<Seq<u8>, Seq<char>>(fault@),
        },
{
    data_encoding::HEXLOWER.decode(input).map_err(|e| e.to_string())
}

/// Calls `str::trim`: the text without the Unicode white space at its start and at its end.
#[verifier::external_body]
pub(crate) fn trim(text: &str) -> (rest: &str)
    ensures
        rest@ == trimmed(text@),
{
    text.trim()
}

/// Writes bytes as lowercase hexadecimal digits.
pub fn hex_encode(bytes: &[u8]) -> (text: String)
    requires
        bytes@.len() <= usize::MAX / 512,
    ensures
        text@ == hex_text(bytes@),
{
    hexlower_encode(bytes)
}

/// Reads lowercase hexadecimal digits, ignoring white space around them.
pub fn hex_decode(s: &str) -> (decoded: Result<Vec<u8>, String>)
    requires
        hex_decodable(s@),
    ensures
        match decoded {
            Ok(bytes) => hex_decoded(s@) == Ok::<Seq<u8>, Seq<char>>(bytes@),
            Err(fault) => hex_decoded(s@) == Err::<Seq<u8>, Seq<char>>(fault@),
        },
{
    proof {
        lemma_decodable_bytes(s@);
    }
    hexlower_decode(trim(s).as_bytes())
}

/// A text takes up at most four bytes for each character.
proof fn lemma_utf8_len(text: Seq<char>)
    ensures
        encode_utf8(text).len() <= 4 * text.len(),
    decreases text.len(),
{
    if text.len() > 0 {
        lemma_utf8_len(text.drop_first());
    }
}

/// A text that is short enough takes up no more bytes than the decoder can do with.
proof fn lemma_decodable_bytes(text: Seq<char>)
    requires
        hex_decodable(text),
    ensures
        encode_utf8(trimmed(text)).len() <= usize::MAX / 8,
{
    lemma_trimmed_start_fixed(text);
    lemma_trimmed_end_fixed(trimmed_start(text));
    lemma_utf8_len(trimmed(text));
}

proof fn lemma_trimmed_start_fixed(text: Seq<char>)
    ensures
        trimmed_start(text).len() <= text.len(),
        trimmed_start(text).len() > 0 ==> !is_white_space(trimmed_start(text)[0]),
    decreases text.len(),
{
    if text.len() > 0 && is_white_space(text[0]) {
        lemma_trimmed_start_fixed(text.drop_first());
    }
}

proof fn lemma_trimmed_end_fixed(text: Seq<char>)
    ensures
        trimmed_end(text).len() <= text.len(),
        trimmed_end(text) == text.take(trimmed_end(text).len() as int),
        trimmed_end(text).len() > 0 ==> !is_white_space(trimmed_end(text).last()),
    decreases text.len(),
{
    if text.len() > 0 && is_white_space(text.last()) {
        lemma_trimmed_end_fixed(text.drop_last());
        assert(text.drop_last().take(trimmed_end(text).len() as int) == text.take(
            trimmed_end(text).len() as int,
        ));
    }
}

proof fn lemma_hex_prefix_whole(input: Seq<u8>)
    requires
        forall|i: int| 0 <= i < input.len() ==> is_hex_symbol(#[trigger] input[i]),
    ensures
        hex_prefix_len(input) == input.len(),
    decreases input.len(),
{
    if input.len() > 0 {
        assert forall|i: int| 0 <= i < input.drop_first().len() implies is_hex_symbol(
            #[trigger] input.drop_first()[i],
        ) by {
            assert(input.drop_first()[i] == input[i + 1]);
        }
        lemma_hex_prefix_whole(input.drop_first());
    }
}

proof fn lemma_hex_prefix_symbols(input: Seq<u8>)
    ensures
        hex_prefix_len(input) <= input.len(),
        forall|i: int| 0 <= i < hex_prefix_len(input) ==> is_hex_symbol(#[trigger] input[i]),
        hex_prefix_len(input) < input.len() ==> !is_hex_symbol(input[hex_prefix_len(input) as int]),
    decreases input.len(),
{
    if input.len() > 0 && is_hex_symbol(input[0]) {
        lemma_hex_prefix_symbols(input.drop_first());
        assert forall|i: int| 0 <= i < hex_prefix_len(input) implies is_hex_symbol(
            #[trigger] input[i],
        ) by {
            if i > 0 {
                assert(input[i] == input.drop_first()[i - 1]);
            }
        }
    }
}

/// A digit is a symbol with the value it was made from, and no white space.
proof fn lemma_hex_digit(value: int)
    requires
        0 <= value < 16,
    ensures
        (hex_digit(value) as u32) < 0x80,
        is_hex_symbol(hex_digit(value) as u8),
        hex_value(hex_digit(value) as u8) == value,
        !is_white_space(hex_digit(value)),
{
}

/// The UTF-8 bytes of a hexadecimal text are its digits.
proof fn lemma_hex_text_bytes(bytes: Seq<u8>)
    ensures
        encode_utf8(hex_text(bytes)).len() == 2 * bytes.len(),
        forall|i: int|
            0 <= i < bytes.len() ==> {
                &&& #[trigger] encode_utf8(hex_text(bytes))[2 * i] == hex_digit(
                    bytes[i] as int / 16,
                ) as u8
                &&& encode_utf8(hex_text(bytes))[2 * i + 1] == hex_digit(bytes[i] as int % 16) as u8
            },
{
    let text = hex_text(bytes);
    assert forall|i: int| 0 <= i < text.len() implies #[trigger] (text[i] as u32) < 0x80 by {
        assert(0 <= i / 2 < bytes.len());
        lemma_hex_digit(bytes[i / 2] as int / 16);
        lemma_hex_digit(bytes[i / 2] as int % 16);
    }
    is_ascii_chars_encode_utf8(text);
    assert forall|i: int| 0 <= i < bytes.len() implies {
        &&& #[trigger] encode_utf8(text)[2 * i] == hex_digit(bytes[i] as int / 16) as u8
        &&& encode_utf8(text)[2 * i + 1] == hex_digit(bytes[i] as int % 16) as u8
    } by {
        assert((2 * i) / 2 == i && (2 * i) % 2 == 0);
        assert((2 * i + 1) / 2 == i && (2 * i + 1) % 2 == 1);
    }
}

/// A text that can be decoded can still be decoded once it is trimmed.
pub(crate) proof fn trimming_keeps_decodable(text: Seq<char>)
    requires
        hex_decodable(text),
    ensures
        hex_decodable(trimmed(text)),
{
    lemma_decodable_bytes(text);
    trimming_twice_changes_nothing(text);
}

/// The text of a short byte sequence can be decoded.
pub(crate) proof fn hex_text_is_decodable(bytes: Seq<u8>)
    requires
        bytes.len() <= usize::MAX / 512,
    ensures
        hex_decodable(hex_text(bytes)),
{
}

/// Law: a text is trimmed once and for all.
pub proof fn trimming_twice_changes_nothing(text: Seq<char>)
    ensures
        trimmed(trimmed(text)) == trimmed(text),
{
    let start = trimmed_start(text);
    lemma_trimmed_start_fixed(text);
    lemma_trimmed_end_fixed(start);
    if trimmed(text).len() > 0 {
        assert(trimmed(text)[0] == start[0]);
    }
}

/// Law: white space around the digits does not matter.
pub proof fn hex_decode_ignores_white_space(text: Seq<char>)
    ensures
        hex_decoded(trimmed(text)) == hex_decoded(text),
{
    trimming_twice_changes_nothing(text);
}

/// There is no white space in a hexadecimal text.
proof fn lemma_hex_text_trimmed(bytes: Seq<u8>)
    ensures
        trimmed(hex_text(bytes)) == hex_text(bytes),
{
    let text = hex_text(bytes);
    if bytes.len() > 0 {
        let last = bytes.len() - 1;
        lemma_hex_digit(bytes[0] as int / 16);
        lemma_hex_digit(bytes[last] as int % 16);
        assert(text[0] == hex_digit(bytes[0] as int / 16));
        assert((2 * last + 1) / 2 == last && (2 * last + 1) % 2 == 1);
        assert(text[2 * last + 1] == hex_digit(bytes[last] as int % 16));
        assert(text.last() == text[2 * last + 1]);
    }
}

/// Law: decoding gives back the bytes that were encoded.
pub proof fn hex_decode_inverts_encode(bytes: Seq<u8>)
    ensures
        hex_decoded(hex_text(bytes)) == Ok::<Seq<u8>, Seq<char>>(bytes),
{
    let input = encode_utf8(hex_text(bytes));
    lemma_hex_text_trimmed(bytes);
    lemma_hex_text_bytes(bytes);
    assert forall|i: int| 0 <= i < input.len() implies is_hex_symbol(#[trigger] input[i]) by {
        let k = i / 2;
        lemma_hex_digit(bytes[k] as int / 16);
        lemma_hex_digit(bytes[k] as int % 16);
        assert(is_hex_symbol(input[2 * k]) && is_hex_symbol(input[2 * k + 1]));
        assert(i == 2 * k || i == 2 * k + 1);
    }
    lemma_hex_prefix_whole(input);
    assert forall|i: int| 0 <= i < bytes.len() implies #[trigger] bytes[i] == (16 * hex_value(
        input[2 * i],
    ) + hex_value(input[2 * i + 1])) as u8 by {
        lemma_hex_digit(bytes[i] as int / 16);
        lemma_hex_digit(bytes[i] as int % 16);
    }
    assert(hex_parse(input)->Ok_0 =~= bytes);
}

/// A symbol is the digit of its value.
proof fn lemma_hex_symbol(byte: u8)
    requires
        is_hex_symbol(byte),
    ensures
        0 <= hex_value(byte) < 16,
        hex_digit(hex_value(byte)) as u8 == byte,
{
}

/// Law: what was decoded encodes to the same digits, so each byte sequence has one spelling.
pub proof fn hex_encode_inverts_decode(text: Seq<char>, bytes: Seq<u8>)
    requires
        hex_decoded(text) == Ok::<Seq<u8>, Seq<char>>(bytes),
    ensures
        hex_text(bytes) == trimmed(text),
{
    let input = encode_utf8(trimmed(text));
    let output = encode_utf8(hex_text(bytes));
    lemma_hex_prefix_symbols(input);
    lemma_hex_text_bytes(bytes);
    assert forall|i: int| 0 <= i < input.len() implies input[i] == output[i] by {
        let k = i / 2;
        assert(0 <= k < bytes.len());
        lemma_hex_symbol(input[2 * k]);
        lemma_hex_symbol(input[2 * k + 1]);
        assert(bytes[k] == 16 * hex_value(input[2 * k]) + hex_value(input[2 * k + 1]));
        assert(output[2 * k] == hex_digit(bytes[k] as int / 16) as u8);
        assert(output[2 * k] == input[2 * k] && output[2 * k + 1] == input[2 * k + 1]);
        assert(i == 2 * k || i == 2 * k + 1);
    }
    assert(input =~= output);
    encode_utf8_decode_utf8(hex_text(bytes));
    encode_utf8_decode_utf8(trimmed(text));
}

/// Law: a text decodes exactly where, but for white space around it, it is the text of some bytes,
/// and then it decodes to these.
pub proof fn decoding_reads_hexadecimal_texts_only(text: Seq<char>, bytes: Seq<u8>)
    ensures
        hex_decoded(text) == Ok::<Seq<u8>, Seq<char>>(bytes) <==> trimmed(text) == hex_text(bytes),
{
    if hex_decoded(text) == Ok::<Seq<u8>, Seq<char>>(bytes) {
        hex_encode_inverts_decode(text, bytes);
    }
    if trimmed(text) == hex_text(bytes) {
        hex_decode_ignores_white_space(text);
        hex_decode_inverts_encode(bytes);
    }
}

/// Law: a fault is told with its place. An odd number of bytes is refused at the last of them; an
/// even number at the first byte that is no digit.
pub proof fn decoding_tells_the_first_fault(text: Seq<char>, place: int)
    requires
        0 <= place < encode_utf8(trimmed(text)).len(),
        forall|i: int|
            0 <= i < place ==> 0x30 <= #[trigger] encode_utf8(trimmed(text))[i] <= 0x39 || 0x61
                <= encode_utf8(trimmed(text))[i] <= 0x66,
    ensures
        encode_utf8(trimmed(text)).len() % 2 == 1 ==> hex_decoded(text) == Err::<
            Seq<u8>,
            Seq<char>,
        >("invalid length at "@ + decimal((encode_utf8(trimmed(text)).len() - 1) as nat)),
        encode_utf8(trimmed(text)).len() % 2 == 0 && !(0x30 <= encode_utf8(trimmed(text))[place]
            <= 0x39 || 0x61 <= encode_utf8(trimmed(text))[place] <= 0x66) ==> hex_decoded(text)
            == Err::<Seq<u8>, Seq<char>>("invalid symbol at "@ + decimal(place as nat)),
{
    let input = encode_utf8(trimmed(text));
    lemma_hex_prefix_symbols(input);
    if !is_hex_symbol(input[place]) {
        if hex_prefix_len(input) > place {
            assert(is_hex_symbol(input[place]));
        }
        if hex_prefix_len(input) < place {
            assert(is_hex_symbol(input[hex_prefix_len(input) as int]));
        }
    }
}

/// Law: the text of bytes is that of the first ones, and then that of the others.
pub proof fn hex_text_goes_byte_by_byte(bytes: Seq<u8>, more: Seq<u8>)
    ensures
        hex_text(bytes + more) == hex_text(bytes) + hex_text(more),
{
    assert forall|i: int| 0 <= i < 2 * (bytes.len() + more.len()) implies hex_text(bytes + more)[i]
        == (hex_text(bytes) + hex_text(more))[i] by {
        if i >= 2 * bytes.len() {
            let j = i - 2 * bytes.len();
            assert(j / 2 == i / 2 - bytes.len() && j % 2 == i % 2);
        }
    }
    assert(hex_text(bytes + more) =~= hex_text(bytes) + hex_text(more));
}

/// Law: a byte is written as two of the sixteen digits, the high half first.
pub proof fn byte_is_two_digits(byte: u8)
    ensures
        hex_text(seq![byte]) == seq![
            "0123456789abcdef"@[byte as int / 16],
            "0123456789abcdef"@[byte as int % 16],
        ],
{
    reveal_strlit("0123456789abcdef");
    assert(hex_text(seq![byte]) =~= seq![
        "0123456789abcdef"@[byte as int / 16],
        "0123456789abcdef"@[byte as int % 16],
    ]);
}

/// Law: white space at either end of a text goes, and nothing else does.
pub proof fn trimming_takes_white_space_from_the_ends(text: Seq<char>, c: char)
    ensures
        is_white_space(c) ==> trimmed(seq![c] + text) == trimmed(text),
        is_white_space(c) ==> trimmed(text.push(c)) == trimmed(text),
        text.len() > 0 && !is_white_space(text[0]) && !is_white_space(text.last()) ==> trimmed(text)
            == text,
{
    assert((seq![c] + text).drop_first() =~= text);
    if is_white_space(c) {
        lemma_trimmed_push(text, c);
    }
}

/// White space behind a text is trimmed.
proof fn lemma_trimmed_push(text: Seq<char>, c: char)
    requires
        is_white_space(c),
    ensures
        trimmed(text.push(c)) == trimmed(text),
    decreases text.len(),
{
    let more = text.push(c);
    if text.len() == 0 {
        assert(more.drop_first() =~= text);
    } else if is_white_space(text[0]) {
        assert(more.drop_first() =~= text.drop_first().push(c));
        lemma_trimmed_push(text.drop_first(), c);
    } else {
        assert(trimmed_start(more) == more);
        assert(more.drop_last() =~= text);
    }
}

} // verus!
