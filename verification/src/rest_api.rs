//! What the REST interface decides without touching the network: the shape
//! of its answers, how a `Range` header is read, and how the content of an
//! upload is decoded.

use crate::audio_service::RangeRequest;
use crate::text::chars_of;
use base64::Engine;
use vstd::prelude::*;

verus! {

/// API response wrapper
#[derive(Debug)]
pub struct ApiResponse<T> {
    pub success: bool,
    pub data: Option<T>,
    pub error: Option<String>,
}

impl<T> ApiResponse<T> {
    /// The answer that carries `data`.
    pub fn success(data: T) -> (response: Self)
        ensures
            response.success,
            response.data == Some(data),
            response.error is None,
    {
        ApiResponse { success: true, data: Some(data), error: None }
    }

    /// The answer that reports a failure in the words of `message`.
    pub fn error(message: String) -> (response: Self)
        ensures
            !response.success,
            response.data is None,
            response.error == Some(message),
    {
        ApiResponse { success: false, data: None, error: Some(message) }
    }
}

/// Query parameters for listing songs
#[derive(Debug)]
pub struct ListQuery {
    pub page: Option<u32>,
    pub limit: Option<u32>,
    pub search: Option<String>,
}

/// The value of a decimal digit; `None` for every other character.
pub open spec fn digit_value(c: char) -> Option<nat> {
    if c == '0' {
        Some(0)
    } else if c == '1' {
        Some(1)
    } else if c == '2' {
        Some(2)
    } else if c == '3' {
        Some(3)
    } else if c == '4' {
        Some(4)
    } else if c == '5' {
        Some(5)
    } else if c == '6' {
        Some(6)
    } else if c == '7' {
        Some(7)
    } else if c == '8' {
        Some(8)
    } else if c == '9' {
        Some(9)
    } else {
        None
    }
}

/// Whether `text` holds decimal digits only.
pub open spec fn all_digits(text: Seq<char>) -> bool {
    forall|i: int| 0 <= i < text.len() ==> digit_value(#[trigger] text[i]) is Some
}

/// The number that the decimal digits `digits` spell; leading zeros count for nothing.
pub open spec fn digits_value(digits: Seq<char>) -> nat
    decreases digits.len(),
{
    if digits.len() == 0 {
        0
    } else {
        digits_value(digits.drop_last()) * 10 + match digit_value(digits.last()) {
            Some(value) => value,
            None => 0,
        }
    }
}

/// The number that `text` spells: one or more decimal digits, with or
/// without one `+` in front, and no other character; `None` where `text` is
/// not of that form or the number does not fit into 64 bits.
pub open spec fn parsed_u64(text: Seq<char>) -> Option<u64> {
    let digits = if text.len() > 0 && text[0] == '+' {
        text.skip(1)
    } else {
        text
    };
    if digits.len() > 0 && all_digits(digits) && digits_value(digits) <= u64::MAX {
        Some(digits_value(digits) as u64)
    } else {
        None
    }
}

/// A range of bytes as a mathematical value: its first byte, and its last if one is given.
pub struct RangeView {
    pub start: u64,
    pub end: Option<u64>,
}

/// Whether the one `-` of `text` stands at `place`.
pub open spec fn is_only_dash(text: Seq<char>, place: int) -> bool {
    &&& 0 <= place < text.len()
    &&& text[place] == '-'
    &&& forall|i: int| 0 <= i < text.len() && i != place ==> text[i] != '-'
}

/// The range that the value of a `Range` header asks for.
///
/// The value is `bytes=`, the first byte, one `-`, and the last byte or
/// nothing. A first byte that is no number makes the whole value void; a
/// last byte that is no number counts as missing.
pub open spec fn parsed_range(value: Seq<char>) -> Option<RangeView> {
    if value.len() >= 6 && value.take(6) == seq!['b', 'y', 't', 'e', 's', '='] && exists|
        place: int,
    |
        is_only_dash(value.skip(6), place) {
        let rest = value.skip(6);
        let place = choose|place: int| is_only_dash(rest, place);
        match parsed_u64(rest.take(place)) {
            Some(start) => Some(
                RangeView {
                    start,
                    end: if place + 1 == rest.len() {
                        None
                    } else {
                        parsed_u64(rest.skip(place + 1))
                    },
                },
            ),
            None => None,
        }
    } else {
        None
    }
}

/// The value of one decimal digit.
fn digit_of(c: char) -> (value: Option<u64>)
    ensures
        match value {
            Some(value) => digit_value(c) == Some(value as nat),
            None => digit_value(c) is None,
        },
{
    if c == '0' {
        Some(0)
    } else if c == '1' {
        Some(1)
    } else if c == '2' {
        Some(2)
    } else if c == '3' {
        Some(3)
    } else if c == '4' {
        Some(4)
    } else if c == '5' {
        Some(5)
    } else if c == '6' {
        Some(6)
    } else if c == '7' {
        Some(7)
    } else if c == '8' {
        Some(8)
    } else if c == '9' {
        Some(9)
    } else {
        None
    }
}

/// More digits never spell a smaller number.
proof fn lemma_digits_value_grows(digits: Seq<char>, shorter: int)
    requires
        0 <= shorter <= digits.len(),
    ensures
        digits_value(digits.take(shorter)) <= digits_value(digits),
    decreases digits.len() - shorter,
{
    if shorter == digits.len() {
        assert(digits.take(shorter) =~= digits);
    } else {
        lemma_digits_value_grows(digits, shorter + 1);
        assert(digits.take(shorter + 1).drop_last() =~= digits.take(shorter));
    }
}

/// Reads the number that the characters of `chars` from `from` up to `to` spell.
fn parse_u64(chars: &Vec<char>, from: usize, to: usize) -> (number: Option<u64>)
    requires
        from <= to <= chars@.len(),
    ensures
        number == parsed_u64(chars@.subrange(from as int, to as int)),
{
    let ghost text = chars@.subrange(from as int, to as int);
    let mut start = from;
    if start < to && chars[start] == '+' {
        start += 1;
    }
    let ghost digits = chars@.subrange(start as int, to as int);
    assert(digits =~= if text.len() > 0 && text[0] == '+' {
        text.skip(1)
    } else {
        text
    });
    if start == to {
        return None;
    }
    let mut value: u64 = 0;
    let mut i: usize = start;
    assert(digits.take(0) =~= Seq::<char>::empty());
    while i < to
        invariant
            start <= i <= to <= chars@.len(),
            start < to,
            text == chars@.subrange(from as int, to as int),
            digits == chars@.subrange(start as int, to as int),
            digits == if text.len() > 0 && text[0] == '+' {
                text.skip(1)
            } else {
                text
            },
            all_digits(digits.take(i - start)),
            value == digits_value(digits.take(i - start)),
        decreases to - i,
    {
        let ghost seen = digits.take(i - start);
        let ghost next = digits.take(i + 1 - start);
        assert(next.drop_last() =~= seen);
        assert(next.last() == chars@[i as int]);
        let digit = match digit_of(chars[i]) {
            Some(digit) => digit,
            None => {
                assert(digit_value(digits[i - start]) is None);
                return None;
            },
        };
        if value > (u64::MAX - digit) / 10 {
            proof {
                assert(digits_value(next) > u64::MAX);
                lemma_digits_value_grows(digits, i + 1 - start);
            }
            return None;
        }
        value = value * 10 + digit;
        assert(all_digits(next)) by {
            assert forall|k: int| 0 <= k < next.len() implies digit_value(#[trigger] next[k])
                is Some by {
                if k < seen.len() {
                    assert(seen[k] == next[k]);
                }
            }
        }
        i += 1;
    }
    assert(digits.take(to - start) =~= digits);
    Some(value)
}

/// Reads the value of a `Range` header.
pub fn parse_range_header(value: &str) -> (range: Option<RangeRequest>)
    ensures
        match range {
            Some(range) => parsed_range(value@) == Some(
                RangeView { start: range.start, end: range.end },
            ),
            None => parsed_range(value@) is None,
        },
{
    let chars = chars_of(value);
    if chars.len() < 6 || chars[0] != 'b' || chars[1] != 'y' || chars[2] != 't' || chars[3] != 'e'
        || chars[4] != 's' || chars[5] != '=' {
        assert(value@.len() >= 6 ==> value@.take(6)[0] == value@[0] && value@.take(6)[1] == value@[1]
            && value@.take(6)[2] == value@[2] && value@.take(6)[3] == value@[3] && value@.take(
            6,
        )[4] == value@[4] && value@.take(6)[5] == value@[5]);
        return None;
    }
    assert(value@.take(6) =~= seq!['b', 'y', 't', 'e', 's', '=']);
    let ghost rest = value@.skip(6);
    // The first `-` behind the prefix.
    let mut dash: usize = 6;
    while dash < chars.len() && chars[dash] != '-'
        invariant
            6 <= dash <= chars.len(),
            chars@ == value@,
            rest == value@.skip(6),
            forall|i: int| 0 <= i < dash - 6 ==> rest[i] != '-',
        decreases chars.len() - dash,
    {
        dash += 1;
    }
    if dash == chars.len() {
        assert(forall|place: int| !is_only_dash(rest, place));
        return None;
    }
    let mut i: usize = dash + 1;
    while i < chars.len()
        invariant
            6 <= dash < i <= chars.len(),
            chars@ == value@,
            rest == value@.skip(6),
            rest[dash - 6] == '-',
            forall|k: int| 0 <= k < i - 6 && k != dash - 6 ==> rest[k] != '-',
        decreases chars.len() - i,
    {
        if chars[i] == '-' {
            assert(rest[i - 6] == '-');
            assert forall|place: int| !is_only_dash(rest, place) by {
                if is_only_dash(rest, place) {
                    if place == dash - 6 {
                        assert(rest[i - 6] != '-');
                    } else {
                        assert(rest[dash - 6] != '-');
                    }
                }
            }
            return None;
        }
        i += 1;
    }
    assert(is_only_dash(rest, dash - 6));
    let ghost place = choose|place: int| is_only_dash(rest, place);
    assert(place == dash - 6) by {
        if place != dash - 6 {
            assert(rest[dash - 6] != '-');
        }
    }
    assert(rest.take(place) =~= chars@.subrange(6, dash as int));
    assert(rest.skip(place + 1) =~= chars@.subrange(dash + 1, chars@.len() as int));
    let start = match parse_u64(&chars, 6, dash) {
        Some(start) => start,
        None => {
            return None;
        },
    };
    let end = if dash + 1 == chars.len() {
        None
    } else {
        parse_u64(&chars, dash + 1, chars.len())
    };
    Some(RangeRequest { start, end })
}

/// The bytes that base64's standard engine decodes from `content`; `None`
/// where it refuses `content`.
pub uninterp spec fn base64_decoded(content: Seq<char>) -> Option<Seq<u8>>;

/// The error of base64's decoders.
#[verifier::external_type_specification]
#[verifier::external_body]
pub struct ExDecodeError(base64::DecodeError);

/// base64's `Engine::decode` on the engine `general_purpose::STANDARD`: the
/// decoded bytes, or its error. The result is [`base64_decoded`] of the content.
#[verifier::external_body]
fn decode_standard(content: &str) -> (bytes: Result<Vec<u8>, base64::DecodeError>)
    ensures
        match bytes {
            Ok(bytes) => base64_decoded(content@) == Some(bytes@),
            Err(_) => base64_decoded(content@) is None,
        },
{
    base64::engine::general_purpose::STANDARD.decode(content)
}

/// What an upload is answered whose content is not base64.
pub const INVALID_CONTENT: &'static str = "Invalid base64 content";

/// The bytes of an upload, given its content as it arrives: in base64. An
/// upload whose content is not base64 is refused with [`INVALID_CONTENT`].
pub fn decode_upload(content: &str) -> (bytes: Result<Vec<u8>, String>)
    ensures
        match bytes {
            Ok(bytes) => base64_decoded(content@) == Some(bytes@),
            Err(message) => base64_decoded(content@) is None && message@ == INVALID_CONTENT@,
        },
{
    match decode_standard(content) {
        Ok(bytes) => Ok(bytes),
        Err(_) => Err(INVALID_CONTENT.to_owned()),
    }
}

} // verus!
