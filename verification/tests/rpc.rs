use lazy_node::json::{Json, Number};
use lazy_node::radix::NumberError;
use lazy_node::rpc::eth::{decode_hex, encode_hex, BlockNumber};
use lazy_node::rpc::{DecodeError, Field, Id, JsonRpc, Method, Request, Response, SENTINEL_ID};

fn text(value: &str) -> Json {
    Json::String(value.to_string())
}

fn integer(n: i64) -> Json {
    Json::Number(Number::from_i64(n))
}

fn object(members: Vec<(&str, Json)>) -> Json {
    Json::Object(members.into_iter().map(|(key, value)| (key.to_string(), value)).collect())
}

fn call(method: &str, params: Json, id: Json) -> Json {
    object(vec![("jsonrpc", text("2.0")), ("method", text(method)), ("params", params), ("id", id)])
}

fn block_number_call(id: Json) -> Json {
    call("eth_blockNumber", Json::Array(vec![]), id)
}

fn answer(result: Json, id: Json) -> Json {
    object(vec![("jsonrpc", text("2.0")), ("result", result), ("id", id)])
}

fn request_error(value: &Json) -> DecodeError {
    Request::<BlockNumber>::decode(value).unwrap_err()
}

fn response_error(value: &Json) -> DecodeError {
    Response::<BlockNumber>::decode(value).unwrap_err()
}

#[test]
fn hex_text_of_block_numbers() {
    assert_eq!(encode_hex(0), "0x0");
    assert_eq!(encode_hex(5), "0x5");
    assert_eq!(encode_hex(68943), "0x10d4f");
    assert_eq!(encode_hex(u64::MAX), "0xffffffffffffffff");
}

#[test]
fn hex_text_agrees_with_the_standard_library() {
    for n in [0u64, 1, 15, 16, 255, 4096, 68943, 1 << 40, u64::MAX - 1, u64::MAX] {
        assert_eq!(encode_hex(n), format!("{:#x}", n));
    }
}

#[test]
fn block_numbers_of_hex_text() {
    assert_eq!(decode_hex("0x0"), Ok(0));
    assert_eq!(decode_hex("0x5"), Ok(5));
    assert_eq!(decode_hex("0x10d4f"), Ok(68943));
    assert_eq!(decode_hex("0x10D4F"), Ok(68943));
    assert_eq!(decode_hex("0x0005"), Ok(5));
    assert_eq!(decode_hex("0xffffffffffffffff"), Ok(u64::MAX));
}

#[test]
fn hex_text_without_prefix_is_refused() {
    assert_eq!(decode_hex("10d4f"), Err(DecodeError::MissingPrefix));
    assert_eq!(decode_hex("5"), Err(DecodeError::MissingPrefix));
    assert_eq!(decode_hex(""), Err(DecodeError::MissingPrefix));
    assert_eq!(decode_hex("0"), Err(DecodeError::MissingPrefix));
    assert_eq!(decode_hex("x5"), Err(DecodeError::MissingPrefix));
    assert_eq!(decode_hex("0X5"), Err(DecodeError::MissingPrefix));
    assert_eq!(decode_hex(" 0x5"), Err(DecodeError::MissingPrefix));
    assert_eq!(decode_hex("\u{e9}0x5"), Err(DecodeError::MissingPrefix));
}

#[test]
fn hex_text_with_a_sign_is_refused() {
    let invalid = Err(DecodeError::InvalidNumber(NumberError::InvalidDigit));
    assert_eq!(decode_hex("0x+5"), invalid);
    assert_eq!(decode_hex("0x-5"), invalid);
    assert_eq!(decode_hex("0x+"), invalid);
    assert_eq!(decode_hex("0x+0"), invalid);
    assert_eq!(decode_hex("0x+ffffffffffffffffff"), invalid);
    assert_eq!(BlockNumber::deserialize_result(&text("0x+5")), invalid);
    assert_eq!(
        response_error(&answer(text("0x+5"), integer(1))),
        DecodeError::InvalidNumber(NumberError::InvalidDigit)
    );
}

#[test]
fn hex_text_with_bad_digits_is_refused() {
    assert_eq!(decode_hex("0x"), Err(DecodeError::InvalidNumber(NumberError::Empty)));
    assert_eq!(decode_hex("0xg"), Err(DecodeError::InvalidNumber(NumberError::InvalidDigit)));
    assert_eq!(decode_hex("0x5 "), Err(DecodeError::InvalidNumber(NumberError::InvalidDigit)));
    assert_eq!(decode_hex("0x-5"), Err(DecodeError::InvalidNumber(NumberError::InvalidDigit)));
    assert_eq!(decode_hex("0x0x5"), Err(DecodeError::InvalidNumber(NumberError::InvalidDigit)));
    assert_eq!(decode_hex("0x5\u{e9}"), Err(DecodeError::InvalidNumber(NumberError::InvalidDigit)));
    assert_eq!(
        decode_hex("0x10000000000000000"),
        Err(DecodeError::InvalidNumber(NumberError::TooLarge))
    );
}

#[test]
fn block_numbers_survive_the_round_trip() {
    for n in [0u64, 1, 9, 10, 15, 16, 255, 68943, 1 << 32, 1 << 63, u64::MAX - 1, u64::MAX] {
        assert_eq!(decode_hex(&encode_hex(n)), Ok(n));
    }
    let mut n: u64 = 1;
    for _ in 0..200 {
        n = n.wrapping_mul(6364136223846793005).wrapping_add(1442695040888963407);
        assert_eq!(decode_hex(&encode_hex(n)), Ok(n));
    }
}

#[test]
fn results_are_hex_strings() {
    assert_eq!(BlockNumber::serialize_result(&68943), text("0x10d4f"));
    assert_eq!(BlockNumber::deserialize_result(&text("0x10d4f")), Ok(68943));
    assert_eq!(BlockNumber::deserialize_result(&text("68943")), Err(DecodeError::MissingPrefix));
    assert_eq!(BlockNumber::deserialize_result(&integer(68943)), Err(DecodeError::InvalidResult));
    assert_eq!(BlockNumber::deserialize_result(&Json::Null), Err(DecodeError::InvalidResult));
}

#[test]
fn the_method_is_known_by_its_name() {
    assert_eq!(BlockNumber::deserialize(&text("eth_blockNumber")), Ok(BlockNumber));
    assert_eq!(BlockNumber.serialize(), text("eth_blockNumber"));
    assert_eq!(BlockNumber::deserialize(&text("eth_getBalance")), Err(DecodeError::InvalidMethod));
    assert_eq!(BlockNumber::deserialize(&text("eth_blocknumber")), Err(DecodeError::InvalidMethod));
    assert_eq!(BlockNumber::deserialize(&text("")), Err(DecodeError::InvalidMethod));
    assert_eq!(BlockNumber::deserialize(&Json::Null), Err(DecodeError::InvalidMethod));
}

#[test]
fn the_parameters_are_an_empty_array() {
    assert_eq!(BlockNumber::deserialize_params(&Json::Array(vec![])), Ok(()));
    assert_eq!(BlockNumber::serialize_params(&()), Json::Array(vec![]));
    assert_eq!(
        BlockNumber::deserialize_params(&Json::Array(vec![Json::Null])),
        Err(DecodeError::InvalidParams)
    );
    assert_eq!(BlockNumber::deserialize_params(&Json::Null), Err(DecodeError::InvalidParams));
    assert_eq!(BlockNumber::deserialize_params(&object(vec![])), Err(DecodeError::InvalidParams));
}

#[test]
fn the_version_is_the_string_two_point_zero() {
    assert_eq!(JsonRpc::deserialize(&text("2.0")), Ok(JsonRpc::V2));
    assert_eq!(JsonRpc::V2.serialize(), text("2.0"));
    assert_eq!(JsonRpc::deserialize(&text("1.0")), Err(DecodeError::InvalidVersion));
    assert_eq!(JsonRpc::deserialize(&text("2")), Err(DecodeError::InvalidVersion));
    assert_eq!(JsonRpc::deserialize(&integer(2)), Err(DecodeError::InvalidVersion));
}

#[test]
fn identifiers_are_integers_or_strings() {
    assert_eq!(Id::deserialize(&integer(1)), Ok(Id::Number(1)));
    assert_eq!(Id::deserialize(&integer(-7)), Ok(Id::Number(-7)));
    assert_eq!(Id::deserialize(&integer(i64::MIN)), Ok(Id::Number(i64::MIN)));
    assert_eq!(Id::deserialize(&integer(i64::MAX)), Ok(Id::Number(i64::MAX)));
    assert_eq!(Id::deserialize(&text("a")), Ok(Id::String("a".to_string())));
    assert_eq!(Id::deserialize(&text("")), Ok(Id::String(String::new())));
    assert_eq!(Id::Number(1).serialize(), integer(1));
    assert_eq!(Id::Number(-7).serialize(), Json::Number(Number::NegInt(-7)));
    assert_eq!(Id::Number(7).serialize(), Json::Number(Number::PosInt(7)));
    assert_eq!(Id::String("a".to_string()).serialize(), text("a"));
}

#[test]
fn other_values_are_no_identifiers() {
    assert_eq!(Id::deserialize(&Json::Null), Err(DecodeError::InvalidId));
    assert_eq!(Id::deserialize(&Json::Bool(true)), Err(DecodeError::InvalidId));
    assert_eq!(Id::deserialize(&Json::Array(vec![])), Err(DecodeError::InvalidId));
    assert_eq!(
        Id::deserialize(&Json::Number(Number::PosInt(i64::MAX as u64 + 1))),
        Err(DecodeError::InvalidId)
    );
    assert_eq!(
        Id::deserialize(&Json::Number(Number::Float(1.0f64.to_bits()))),
        Err(DecodeError::InvalidId)
    );
}

#[test]
fn a_call_is_read_with_its_identifier() {
    let request = Request::<BlockNumber>::decode(&block_number_call(integer(1))).unwrap();
    assert_eq!(
        request,
        Request { jsonrpc: JsonRpc::V2, method: BlockNumber, params: (), id: Id::Number(1) }
    );
    let request = Request::<BlockNumber>::decode(&block_number_call(text("a"))).unwrap();
    assert_eq!(request.id, Id::String("a".to_string()));
}

#[test]
fn a_call_is_read_whatever_the_order_of_its_members() {
    let value = object(vec![
        ("id", integer(9)),
        ("params", Json::Array(vec![])),
        ("extra", Json::Bool(true)),
        ("method", text("eth_blockNumber")),
        ("jsonrpc", text("2.0")),
    ]);
    assert_eq!(Request::<BlockNumber>::decode(&value).unwrap().id, Id::Number(9));
}

#[test]
fn a_call_needs_every_member() {
    assert_eq!(request_error(&text("eth_blockNumber")), DecodeError::NotAnObject);
    assert_eq!(request_error(&Json::Array(vec![])), DecodeError::NotAnObject);
    assert_eq!(request_error(&Json::Null), DecodeError::NotAnObject);
    assert_eq!(request_error(&object(vec![])), DecodeError::Missing(Field::JsonRpc));
    assert_eq!(
        request_error(&object(vec![("jsonrpc", text("2.0"))])),
        DecodeError::Missing(Field::Method)
    );
    assert_eq!(
        request_error(&object(vec![("jsonrpc", text("2.0")), ("method", text("eth_blockNumber"))])),
        DecodeError::Missing(Field::Params)
    );
    assert_eq!(
        request_error(&object(vec![
            ("jsonrpc", text("2.0")),
            ("method", text("eth_blockNumber")),
            ("params", Json::Array(vec![])),
        ])),
        DecodeError::Missing(Field::Id)
    );
}

#[test]
fn a_call_needs_every_member_to_be_right() {
    let mut wrong_version = block_number_call(integer(1));
    if let Json::Object(members) = &mut wrong_version {
        members[0].1 = text("1.0");
    }
    assert_eq!(request_error(&wrong_version), DecodeError::InvalidVersion);
    assert_eq!(
        request_error(&call("eth_getBalance", Json::Array(vec![]), integer(1))),
        DecodeError::InvalidMethod
    );
    assert_eq!(
        request_error(&call("eth_blockNumber", Json::Array(vec![text("latest")]), integer(1))),
        DecodeError::InvalidParams
    );
    assert_eq!(
        request_error(&call("eth_blockNumber", Json::Null, integer(1))),
        DecodeError::InvalidParams
    );
    assert_eq!(request_error(&block_number_call(Json::Null)), DecodeError::InvalidId);
    assert_eq!(
        request_error(&block_number_call(Json::Number(Number::Float(1.5f64.to_bits())))),
        DecodeError::InvalidId
    );
}

#[test]
fn the_first_fault_of_a_call_is_reported() {
    let value = object(vec![("jsonrpc", text("1.0")), ("method", text("eth_getBalance"))]);
    assert_eq!(request_error(&value), DecodeError::InvalidVersion);
    let value = object(vec![("method", text("eth_getBalance")), ("id", Json::Null)]);
    assert_eq!(request_error(&value), DecodeError::Missing(Field::JsonRpc));
    let value = call("eth_getBalance", Json::Null, Json::Null);
    assert_eq!(request_error(&value), DecodeError::InvalidMethod);
}

#[test]
fn the_first_of_two_members_of_one_name_counts() {
    let value = object(vec![
        ("jsonrpc", text("2.0")),
        ("method", text("eth_getBalance")),
        ("method", text("eth_blockNumber")),
        ("params", Json::Array(vec![])),
        ("id", integer(1)),
    ]);
    assert_eq!(request_error(&value), DecodeError::InvalidMethod);
}

#[test]
fn a_call_is_written_member_by_member() {
    let request =
        Request { jsonrpc: JsonRpc::V2, method: BlockNumber, params: (), id: Id::Number(1) };
    assert_eq!(request.encode(), block_number_call(integer(1)));
    let request = Request {
        jsonrpc: JsonRpc::V2,
        method: BlockNumber,
        params: (),
        id: Id::String("a".to_string()),
    };
    assert_eq!(request.encode(), block_number_call(text("a")));
}

#[test]
fn the_call_of_the_proxy_goes_under_the_sentinel() {
    let request = Request::synthetic(BlockNumber, ());
    assert_eq!(SENTINEL_ID, 1337);
    assert_eq!(request.id, Id::Number(1337));
    assert_eq!(request.encode(), block_number_call(integer(1337)));
}

#[test]
fn calls_survive_the_round_trip() {
    for id in [Id::Number(0), Id::Number(-1), Id::Number(i64::MAX), Id::String("x".to_string())] {
        let request = Request { jsonrpc: JsonRpc::V2, method: BlockNumber, params: (), id };
        let decoded = Request::<BlockNumber>::decode(&request.encode()).unwrap();
        assert_eq!(decoded, request);
    }
}

#[test]
fn an_answer_takes_the_identifier_of_the_call() {
    let request = Request {
        jsonrpc: JsonRpc::V2,
        method: BlockNumber,
        params: (),
        id: Id::String("a".to_string()),
    };
    let response = Response::new(request, 5);
    assert_eq!(
        response,
        Response { jsonrpc: JsonRpc::V2, result: 5, id: Id::String("a".to_string()) }
    );
}

#[test]
fn an_answer_is_written_member_by_member() {
    let response =
        Response::<BlockNumber> { jsonrpc: JsonRpc::V2, result: 68943, id: Id::Number(1) };
    assert_eq!(response.encode(), answer(text("0x10d4f"), integer(1)));
}

#[test]
fn an_answer_is_read_with_its_result() {
    let response = Response::<BlockNumber>::decode(&answer(text("0x5"), integer(1337))).unwrap();
    assert_eq!(response, Response { jsonrpc: JsonRpc::V2, result: 5, id: Id::Number(1337) });
}

#[test]
fn an_answer_needs_every_member() {
    assert_eq!(response_error(&Json::Null), DecodeError::NotAnObject);
    assert_eq!(response_error(&object(vec![])), DecodeError::Missing(Field::JsonRpc));
    assert_eq!(
        response_error(&object(vec![("jsonrpc", text("2.0")), ("id", integer(1))])),
        DecodeError::Missing(Field::Result)
    );
    assert_eq!(
        response_error(&object(vec![("jsonrpc", text("2.0")), ("result", text("0x5"))])),
        DecodeError::Missing(Field::Id)
    );
    let failure = object(vec![
        ("jsonrpc", text("2.0")),
        ("error", object(vec![("code", integer(-32601)), ("message", text("not found"))])),
        ("id", integer(1337)),
    ]);
    assert_eq!(response_error(&failure), DecodeError::Missing(Field::Result));
}

#[test]
fn an_answer_needs_every_member_to_be_right() {
    let wrong_version =
        object(vec![("jsonrpc", text("1.0")), ("result", text("0x5")), ("id", integer(1))]);
    assert_eq!(response_error(&wrong_version), DecodeError::InvalidVersion);
    assert_eq!(response_error(&answer(text("5"), integer(1))), DecodeError::MissingPrefix);
    assert_eq!(response_error(&answer(integer(5), integer(1))), DecodeError::InvalidResult);
    assert_eq!(
        response_error(&answer(text("0xzz"), integer(1))),
        DecodeError::InvalidNumber(NumberError::InvalidDigit)
    );
    assert_eq!(
        response_error(&answer(text("0x10000000000000000"), integer(1))),
        DecodeError::InvalidNumber(NumberError::TooLarge)
    );
    assert_eq!(response_error(&answer(text("0x5"), Json::Null)), DecodeError::InvalidId);
}

#[test]
fn answers_survive_the_round_trip() {
    for (result, id) in [(0u64, Id::Number(1)), (u64::MAX, Id::String("z".to_string()))] {
        let response = Response::<BlockNumber> { jsonrpc: JsonRpc::V2, result, id };
        let decoded = Response::<BlockNumber>::decode(&response.encode()).unwrap();
        assert_eq!(decoded, response);
    }
}

#[test]
fn decode_errors_are_described() {
    assert_eq!(DecodeError::NotAnObject.describe(), "expected an object");
    assert_eq!(DecodeError::Missing(Field::JsonRpc).describe(), "missing field `jsonrpc`");
    assert_eq!(DecodeError::Missing(Field::Method).describe(), "missing field `method`");
    assert_eq!(DecodeError::Missing(Field::Params).describe(), "missing field `params`");
    assert_eq!(DecodeError::Missing(Field::Result).describe(), "missing field `result`");
    assert_eq!(DecodeError::Missing(Field::Id).describe(), "missing field `id`");
    assert_eq!(DecodeError::InvalidVersion.describe(), "invalid version");
    assert_eq!(DecodeError::InvalidMethod.describe(), "invalid method");
    assert_eq!(DecodeError::InvalidParams.describe(), "invalid params");
    assert_eq!(DecodeError::InvalidId.describe(), "invalid id");
    assert_eq!(DecodeError::InvalidResult.describe(), "invalid result");
    assert_eq!(DecodeError::MissingPrefix.describe(), "missing 0x prefix");
    assert_eq!(
        DecodeError::InvalidNumber(NumberError::InvalidDigit).describe(),
        "invalid digit found in string"
    );
}
