//! The methods of an Ethereum node that the proxy knows by type.

use crate::json::{Json, JsonView};
use crate::radix::{
    all_digits, digits_of, lemma_parse_digits_of, lemma_parse_digits_ok, lemma_scan_error_stays,
    parse_digits, parse_hex, scan, value_of, write_hex, NumberError,
};
use crate::rpc::{DecodeError, Method};
use vstd::prelude::*;
use vstd::string::StringExecFns;
use vstd::string::StrSliceExecFns;

verus! {

/// `eth_blockNumber`: no parameters; the result is the number of the latest
/// block, written in hexadecimal after `0x`.
#[derive(Clone, Copy, Debug, PartialEq, Eq)]
pub struct BlockNumber;

/// The text of a block number: `0x` and its hexadecimal digits in lower
/// case, without leading zeros.
pub open spec fn hex_text(n: u64) -> Seq<char> {
    seq!['0', 'x'] + digits_of(n as nat, 16)
}

/// The block number that `text` holds, or why it holds none. The text has to
/// begin with `0x`; the rest has to be hexadecimal digits and nothing else,
/// at least one of them, so that a sign is an error like any other character
/// that is no digit.
pub open spec fn hex_value(text: Seq<char>) -> Result<u64, DecodeError> {
    if text.len() >= 2 && text[0] == '0' && text[1] == 'x' {
        match parse_digits(text.skip(2), 16) {
            Ok(n) => Ok(n),
            Err(e) => Err(DecodeError::InvalidNumber(e)),
        }
    } else {
        Err(DecodeError::MissingPrefix)
    }
}

/// Reads a block number from its text.
pub fn decode_hex(text: &str) -> (r: Result<u64, DecodeError>)
    ensures
        r == hex_value(text@),
{
    let len: usize = text.unicode_len();
    if len < 2 || text.get_char(0) != '0' || text.get_char(1) != 'x' {
        return Err(DecodeError::MissingPrefix);
    }
    let digits = text.substring_char(2, len);
    match parse_hex(digits) {
        Ok(n) => Ok(n),
        Err(e) => Err(DecodeError::InvalidNumber(e)),
    }
}

/// Writes a block number as text.
pub fn encode_hex(n: u64) -> (text: String)
    ensures
        text@ == hex_text(n),
{
    let mut text = String::from_str("0x");
    proof {
        reveal_strlit("0x");
    }
    write_hex(&mut text, n);
    text
}

/// Every block number is read back from its text.
pub proof fn lemma_hex_round_trip(n: u64)
    ensures
        hex_value(hex_text(n)) == Ok::<u64, DecodeError>(n),
{
    lemma_parse_digits_of(n, 16);
    assert(hex_text(n).skip(2) =~= digits_of(n as nat, 16));
}

/// A text holds a block number only where what follows `0x` is hexadecimal
/// digits, at least one of them, that denote a number of 64 bits.
pub proof fn lemma_hex_needs_digits(text: Seq<char>)
    ensures
        hex_value(text) is Ok <==> text.len() > 2 && text[0] == '0' && text[1] == 'x' && all_digits(
            text.skip(2),
            16,
        ) && value_of(text.skip(2), 16) <= u64::MAX,
        hex_value(text) matches Ok(n) ==> n == value_of(text.skip(2), 16),
{
    lemma_parse_digits_ok(text.skip(2), 16);
}

/// A sign after `0x` is an error.
pub proof fn lemma_hex_refuses_sign(text: Seq<char>)
    requires
        text.len() > 2,
        text[0] == '0',
        text[1] == 'x',
        text[2] == '+' || text[2] == '-',
    ensures
        hex_value(text) == Err::<u64, DecodeError>(
            DecodeError::InvalidNumber(NumberError::InvalidDigit),
        ),
{
    let digits = text.skip(2);
    assert(scan(Seq::<char>::empty(), 16) == Ok::<u64, NumberError>(0));
    assert(digits.take(1).drop_last() =~= Seq::<char>::empty());
    assert(digits.take(1).last() == text[2]);
    assert(scan(digits.take(1), 16) == Err::<u64, NumberError>(NumberError::InvalidDigit));
    lemma_scan_error_stays(digits, 1, 16);
}

/// A text that does not begin with `0x` holds no block number.
pub proof fn lemma_hex_needs_prefix(text: Seq<char>)
    requires
        !(text.len() >= 2 && text[0] == '0' && text[1] == 'x'),
    ensures
        hex_value(text) == Err::<u64, DecodeError>(DecodeError::MissingPrefix),
{
}

impl Method for BlockNumber {
    type Params = ();

    type Result = u64;

    open spec fn name() -> Seq<char> {
        "eth_blockNumber"@
    }

    open spec fn params_from_json(value: JsonView) -> Option<()> {
        if value == JsonView::Array(Seq::empty()) {
            Some(())
        } else {
            None
        }
    }

    open spec fn params_to_json(params: ()) -> JsonView {
        JsonView::Array(Seq::empty())
    }

    open spec fn result_from_json(value: JsonView) -> Result<u64, DecodeError> {
        match value {
            JsonView::String(text) => hex_value(text),
            _ => Err(DecodeError::InvalidResult),
        }
    }

    open spec fn result_to_json(result: u64) -> JsonView {
        JsonView::String(hex_text(result))
    }

    fn deserialize(value: &Json) -> (r: Result<Self, DecodeError>) {
        match value {
            Json::String(text) => {
                let name = String::from_str("eth_blockNumber");
                if *text == name {
                    Ok(BlockNumber)
                } else {
                    Err(DecodeError::InvalidMethod)
                }
            },
            _ => Err(DecodeError::InvalidMethod),
        }
    }

    fn serialize(&self) -> (json: Json) {
        Json::string("eth_blockNumber")
    }

    fn deserialize_params(value: &Json) -> (r: Result<(), DecodeError>) {
        match value.as_array() {
            Some(items) => {
                if items.len() == 0 {
                    assert(value@->Array_0 =~= Seq::empty());
                    Ok(())
                } else {
                    Err(DecodeError::InvalidParams)
                }
            },
            None => Err(DecodeError::InvalidParams),
        }
    }

    fn serialize_params(params: &()) -> (json: Json) {
        let json = Json::array(Vec::new());
        assert(json@->Array_0 =~= Seq::empty());
        json
    }

    fn deserialize_result(value: &Json) -> (r: Result<u64, DecodeError>) {
        match value {
            Json::String(text) => decode_hex(text.as_str()),
            _ => Err(DecodeError::InvalidResult),
        }
    }

    fn serialize_result(value: &u64) -> (json: Json) {
        Json::String(encode_hex(*value))
    }

    proof fn lemma_params_round_trip(params: ()) {
    }

    proof fn lemma_result_round_trip(result: u64) {
        lemma_hex_round_trip(result);
    }
}

} // verus!
