//! The JSON-RPC 2.0 envelope: requests and responses, typed by their method.
//!
//! Reading a value as a `Request<M>` is at once the test whether it calls the
//! method `M`: the reading fails on every other value.

use crate::json::{find, Json, JsonView, Number};
use crate::radix::NumberError;
use vstd::prelude::*;
use vstd::string::StringExecFns;

pub mod eth;

verus! {

/// A member of an envelope.
#[derive(Clone, Copy, Debug, PartialEq, Eq)]
pub enum Field {
    JsonRpc,
    Method,
    Params,
    Result,
    Id,
}

/// Why a JSON value is not the envelope, or the part of one, it was read as.
#[derive(Clone, Copy, Debug, PartialEq, Eq)]
pub enum DecodeError {
    /// The envelope is not an object.
    NotAnObject,
    /// The envelope lacks a member.
    Missing(Field),
    /// `jsonrpc` is not the string `2.0`.
    InvalidVersion,
    /// `method` is not the name of the method.
    InvalidMethod,
    /// `params` has another shape than the method's parameters.
    InvalidParams,
    /// `id` is neither an integer of 64 bits nor a string.
    InvalidId,
    /// `result` is of another JSON type than the method's result.
    InvalidResult,
    /// A number does not begin with `0x`.
    MissingPrefix,
    /// What follows `0x` is no hexadecimal number of 64 bits.
    InvalidNumber(NumberError),
}

impl DecodeError {
    /// The error in words.
    pub open spec fn description(self) -> Seq<char> {
        match self {
            DecodeError::NotAnObject => "expected an object"@,
            DecodeError::Missing(Field::JsonRpc) => "missing field `jsonrpc`"@,
            DecodeError::Missing(Field::Method) => "missing field `method`"@,
            DecodeError::Missing(Field::Params) => "missing field `params`"@,
            DecodeError::Missing(Field::Result) => "missing field `result`"@,
            DecodeError::Missing(Field::Id) => "missing field `id`"@,
            DecodeError::InvalidVersion => "invalid version"@,
            DecodeError::InvalidMethod => "invalid method"@,
            DecodeError::InvalidParams => "invalid params"@,
            DecodeError::InvalidId => "invalid id"@,
            DecodeError::InvalidResult => "invalid result"@,
            DecodeError::MissingPrefix => "missing 0x prefix"@,
            DecodeError::InvalidNumber(e) => e.description(),
        }
    }

    /// The error in words.
    pub fn describe(&self) -> (text: String)
        ensures
            text@ == self.description(),
    {
        let text = match self {
            DecodeError::InvalidNumber(e) => {
                return e.describe();
            },
            DecodeError::NotAnObject => "expected an object",
            DecodeError::Missing(Field::JsonRpc) => "missing field `jsonrpc`",
            DecodeError::Missing(Field::Method) => "missing field `method`",
            DecodeError::Missing(Field::Params) => "missing field `params`",
            DecodeError::Missing(Field::Result) => "missing field `result`",
            DecodeError::Missing(Field::Id) => "missing field `id`",
            DecodeError::InvalidVersion => "invalid version",
            DecodeError::InvalidMethod => "invalid method",
            DecodeError::InvalidParams => "invalid params",
            DecodeError::InvalidId => "invalid id",
            DecodeError::InvalidResult => "invalid result",
            DecodeError::MissingPrefix => "missing 0x prefix",
        };
        String::from_str(text)
    }
}

/// The version of the protocol: always 2.0.
#[derive(Clone, Copy, Debug, PartialEq, Eq)]
pub enum JsonRpc {
    V2,
}

impl JsonRpc {
    /// The version that `value` names.
    pub open spec fn from_json(value: JsonView) -> Option<JsonRpc> {
        if value == JsonView::String("2.0"@) {
            Some(JsonRpc::V2)
        } else {
            None
        }
    }

    /// The JSON value that names the version.
    pub open spec fn to_json(self) -> JsonView {
        JsonView::String("2.0"@)
    }

    /// Reads the version: `value` has to be the string `2.0`.
    pub fn deserialize(value: &Json) -> (r: Result<JsonRpc, DecodeError>)
        ensures
            match r {
                Ok(version) => JsonRpc::from_json(value@) == Some(version),
                Err(e) => JsonRpc::from_json(value@) is None && e == DecodeError::InvalidVersion,
            },
    {
        match value {
            Json::String(text) => {
                let expected = String::from_str("2.0");
                if *text == expected {
                    Ok(JsonRpc::V2)
                } else {
                    Err(DecodeError::InvalidVersion)
                }
            },
            _ => Err(DecodeError::InvalidVersion),
        }
    }

    /// Writes the version.
    pub fn serialize(&self) -> (json: Json)
        ensures
            json@ == self.to_json(),
    {
        Json::string("2.0")
    }
}

/// The identifier of a request: an integer or a string. It is never looked
/// into, only handed on from a request to its response.
#[derive(Debug, PartialEq, Eq)]
pub enum Id {
    Number(i64),
    String(String),
}

/// The mathematical value of an [`Id`].
pub enum IdView {
    Number(i64),
    String(Seq<char>),
}

impl View for Id {
    type V = IdView;

    open spec fn view(&self) -> IdView {
        match self {
            Id::Number(n) => IdView::Number(*n),
            Id::String(text) => IdView::String(text@),
        }
    }
}

impl IdView {
    /// The identifier that `value` is: an integer that fits a signed 64-bit
    /// value, or a string.
    pub open spec fn from_json(value: JsonView) -> Option<IdView> {
        match value {
            JsonView::Number(number) => match number.spec_as_i64() {
                Some(n) => Some(IdView::Number(n)),
                None => None,
            },
            JsonView::String(text) => Some(IdView::String(text)),
            _ => None,
        }
    }

    /// The JSON value of the identifier.
    pub open spec fn to_json(self) -> JsonView {
        match self {
            IdView::Number(n) => JsonView::Number(Number::spec_from_i64(n)),
            IdView::String(text) => JsonView::String(text),
        }
    }
}

impl Id {
    /// Reads an identifier: an integer of 64 bits or a string.
    pub fn deserialize(value: &Json) -> (r: Result<Id, DecodeError>)
        ensures
            match r {
                Ok(id) => IdView::from_json(value@) == Some(id@),
                Err(e) => IdView::from_json(value@) is None && e == DecodeError::InvalidId,
            },
    {
        match value {
            Json::Number(number) => match number.as_i64() {
                Some(n) => Ok(Id::Number(n)),
                None => Err(DecodeError::InvalidId),
            },
            Json::String(text) => Ok(Id::String(text.clone())),
            _ => Err(DecodeError::InvalidId),
        }
    }

    /// Writes the identifier.
    pub fn serialize(&self) -> (json: Json)
        ensures
            json@ == self@.to_json(),
    {
        match self {
            Id::Number(n) => Json::integer(*n),
            Id::String(text) => Json::String(text.clone()),
        }
    }
}

/// An identifier that is written and read back is the same identifier.
pub proof fn lemma_id_round_trip(id: IdView)
    ensures
        IdView::from_json(id.to_json()) == Some(id),
{
}

/// An identifier that is read and written back is the same JSON value,
/// where a number among them is held in its canonical way.
pub proof fn lemma_id_value_kept(value: JsonView)
    requires
        IdView::from_json(value) is Some,
        value matches JsonView::Number(number) ==> number.is_canonical(),
    ensures
        IdView::from_json(value).unwrap().to_json() == value,
{
}

/// A method of the protocol: its name on the wire, the shape of its
/// parameters and of its result, and how each is read and written.
pub trait Method: Sized {
    /// The parameters of a call.
    type Params;

    /// What a call returns.
    type Result;

    /// The name by which the method is called.
    spec fn name() -> Seq<char>;

    /// The parameters that `value` holds, if it has their shape.
    spec fn params_from_json(value: JsonView) -> Option<Self::Params>;

    /// The JSON value of the parameters.
    spec fn params_to_json(params: Self::Params) -> JsonView;

    /// The result that `value` holds, or why it holds none.
    spec fn result_from_json(value: JsonView) -> Result<Self::Result, DecodeError>;

    /// The JSON value of a result.
    spec fn result_to_json(result: Self::Result) -> JsonView;

    /// Reads the method: `value` has to be the string of its name.
    fn deserialize(value: &Json) -> (r: Result<Self, DecodeError>)
        ensures
            r is Ok <==> value@ == JsonView::String(Self::name()),
            r matches Err(e) ==> e == DecodeError::InvalidMethod,
    ;

    /// Writes the method: the string of its name.
    fn serialize(&self) -> (json: Json)
        ensures
            json@ == JsonView::String(Self::name()),
    ;

    /// Reads the parameters of a call.
    fn deserialize_params(value: &Json) -> (r: Result<Self::Params, DecodeError>)
        ensures
            match r {
                Ok(params) => Self::params_from_json(value@) == Some(params),
                Err(e) => Self::params_from_json(value@) is None && e == DecodeError::InvalidParams,
            },
    ;

    /// Writes the parameters of a call.
    fn serialize_params(params: &Self::Params) -> (json: Json)
        ensures
            json@ == Self::params_to_json(*params),
    ;

    /// Reads a result.
    fn deserialize_result(value: &Json) -> (r: Result<Self::Result, DecodeError>)
        ensures
            r == Self::result_from_json(value@),
    ;

    /// Writes a result.
    fn serialize_result(value: &Self::Result) -> (json: Json)
        ensures
            json@ == Self::result_to_json(*value),
    ;

    /// Parameters that are written and read back are the same parameters.
    proof fn lemma_params_round_trip(params: Self::Params)
        ensures
            Self::params_from_json(Self::params_to_json(params)) == Some(params),
    ;

    /// A result that is written and read back is the same result.
    proof fn lemma_result_round_trip(result: Self::Result)
        ensures
            Self::result_from_json(Self::result_to_json(result)) == Ok::<Self::Result, DecodeError>(
                result,
            ),
    ;
}

/// Reads the member `key` of an envelope.
fn member<'a>(value: &'a Json, key: &str, field: Field) -> (r: Result<&'a Json, DecodeError>)
    ensures
        match r {
            Ok(found) => value@.member(key@) == Some(found@),
            Err(e) => value@.member(key@) is None && e == DecodeError::Missing(field),
        },
{
    match value.get(key) {
        Some(found) => Ok(found),
        None => Err(DecodeError::Missing(field)),
    }
}

/// A call of the method `M`.
#[derive(Debug, PartialEq, Eq)]
pub struct Request<M: Method> {
    pub jsonrpc: JsonRpc,
    pub method: M,
    pub params: M::Params,
    pub id: Id,
}

/// The identifier that the proxy gives to the calls it makes of its own
/// accord.
pub const SENTINEL_ID: i64 = 1337;

impl<M: Method> Request<M> {
    /// The call of `method` with `params` that the proxy itself makes: it
    /// goes under the identifier `SENTINEL_ID`.
    pub fn synthetic(method: M, params: M::Params) -> (request: Self)
        ensures
            request.method == method,
            request.params == params,
            request.id@ == IdView::Number(SENTINEL_ID),
    {
        Request { jsonrpc: JsonRpc::V2, method, params, id: Id::Number(SENTINEL_ID) }
    }

    /// The first thing that keeps `value` from being a call of `M`, going
    /// through the members `jsonrpc`, `method`, `params` and `id` in this
    /// order; `None` where nothing does.
    pub open spec fn decode_failure(value: JsonView) -> Option<DecodeError> {
        if !(value is Object) {
            Some(DecodeError::NotAnObject)
        } else if value.member("jsonrpc"@) is None {
            Some(DecodeError::Missing(Field::JsonRpc))
        } else if JsonRpc::from_json(value.member("jsonrpc"@).unwrap()) is None {
            Some(DecodeError::InvalidVersion)
        } else if value.member("method"@) is None {
            Some(DecodeError::Missing(Field::Method))
        } else if value.member("method"@).unwrap() != JsonView::String(M::name()) {
            Some(DecodeError::InvalidMethod)
        } else if value.member("params"@) is None {
            Some(DecodeError::Missing(Field::Params))
        } else if M::params_from_json(value.member("params"@).unwrap()) is None {
            Some(DecodeError::InvalidParams)
        } else if value.member("id"@) is None {
            Some(DecodeError::Missing(Field::Id))
        } else if IdView::from_json(value.member("id"@).unwrap()) is None {
            Some(DecodeError::InvalidId)
        } else {
            None
        }
    }

    /// Whether `value` is a call of `M`.
    pub open spec fn accepts(value: JsonView) -> bool {
        Self::decode_failure(value) is None
    }

    /// The parameters of the call that `value` is.
    pub open spec fn params_of(value: JsonView) -> M::Params {
        M::params_from_json(value.member("params"@).unwrap()).unwrap()
    }

    /// The identifier of the call that `value` is.
    pub open spec fn id_of(value: JsonView) -> IdView {
        IdView::from_json(value.member("id"@).unwrap()).unwrap()
    }

    /// The JSON value of a call with the parameters `params` under the
    /// identifier `id`: an object of the members `jsonrpc`, `method`,
    /// `params` and `id`, in this order.
    pub open spec fn envelope(params: M::Params, id: IdView) -> JsonView {
        JsonView::Object(
            seq![
                ("jsonrpc"@, JsonRpc::V2.to_json()),
                ("method"@, JsonView::String(M::name())),
                ("params"@, M::params_to_json(params)),
                ("id"@, id.to_json()),
            ],
        )
    }

    /// The JSON value of the call.
    pub open spec fn to_json(self) -> JsonView {
        Self::envelope(self.params, self.id@)
    }

    /// Reads `value` as a call of `M`. Members that a call does not have are
    /// passed over.
    pub fn decode(value: &Json) -> (r: Result<Self, DecodeError>)
        ensures
            match r {
                Ok(request) => Self::accepts(value@) && request.params == Self::params_of(value@)
                    && request.id@ == Self::id_of(value@),
                Err(e) => Self::decode_failure(value@) == Some(e),
            },
    {
        match value {
            Json::Object(_) => {},
            _ => {
                return Err(DecodeError::NotAnObject);
            },
        }
        let jsonrpc = match member(value, "jsonrpc", Field::JsonRpc) {
            Ok(found) => match JsonRpc::deserialize(found) {
                Ok(version) => version,
                Err(e) => {
                    return Err(e);
                },
            },
            Err(e) => {
                return Err(e);
            },
        };
        let method = match member(value, "method", Field::Method) {
            Ok(found) => match M::deserialize(found) {
                Ok(method) => method,
                Err(e) => {
                    return Err(e);
                },
            },
            Err(e) => {
                return Err(e);
            },
        };
        let params = match member(value, "params", Field::Params) {
            Ok(found) => match M::deserialize_params(found) {
                Ok(params) => params,
                Err(e) => {
                    return Err(e);
                },
            },
            Err(e) => {
                return Err(e);
            },
        };
        let id = match member(value, "id", Field::Id) {
            Ok(found) => match Id::deserialize(found) {
                Ok(id) => id,
                Err(e) => {
                    return Err(e);
                },
            },
            Err(e) => {
                return Err(e);
            },
        };
        Ok(Request { jsonrpc, method, params, id })
    }

    /// Writes the call as a JSON value.
    pub fn encode(&self) -> (json: Json)
        ensures
            json@ == self.to_json(),
    {
        let mut members: Vec<(String, Json)> = Vec::new();
        members.push((String::from_str("jsonrpc"), self.jsonrpc.serialize()));
        members.push((String::from_str("method"), self.method.serialize()));
        members.push((String::from_str("params"), M::serialize_params(&self.params)));
        members.push((String::from_str("id"), self.id.serialize()));
        let json = Json::object(members);
        assert(json@->Object_0 =~= self.to_json()->Object_0);
        json
    }
}

/// The answer to a call of the method `M`.
#[derive(Debug, PartialEq, Eq)]
pub struct Response<M: Method> {
    pub jsonrpc: JsonRpc,
    pub result: M::Result,
    pub id: Id,
}

impl<M: Method> Response<M> {
    /// The answer to `request` that carries `result`: it has the version and
    /// the identifier of the request.
    pub fn new(request: Request<M>, result: M::Result) -> (response: Self)
        ensures
            response.jsonrpc == request.jsonrpc,
            response.result == result,
            response.id == request.id,
    {
        Response { jsonrpc: request.jsonrpc, result, id: request.id }
    }

    /// What `value` yields when it is read as an answer to a call of `M`: the
    /// result it carries, or the first thing that keeps it from being such an
    /// answer, going through the members `jsonrpc`, `result` and `id` in this
    /// order.
    pub open spec fn result_of(value: JsonView) -> Result<M::Result, DecodeError> {
        if !(value is Object) {
            Err(DecodeError::NotAnObject)
        } else if value.member("jsonrpc"@) is None {
            Err(DecodeError::Missing(Field::JsonRpc))
        } else if JsonRpc::from_json(value.member("jsonrpc"@).unwrap()) is None {
            Err(DecodeError::InvalidVersion)
        } else if value.member("result"@) is None {
            Err(DecodeError::Missing(Field::Result))
        } else if M::result_from_json(value.member("result"@).unwrap()) is Err {
            M::result_from_json(value.member("result"@).unwrap())
        } else if value.member("id"@) is None {
            Err(DecodeError::Missing(Field::Id))
        } else if IdView::from_json(value.member("id"@).unwrap()) is None {
            Err(DecodeError::InvalidId)
        } else {
            M::result_from_json(value.member("result"@).unwrap())
        }
    }

    /// The identifier of the answer that `value` is.
    pub open spec fn id_of(value: JsonView) -> IdView {
        IdView::from_json(value.member("id"@).unwrap()).unwrap()
    }

    /// The JSON value of an answer that carries `result` under the
    /// identifier `id`: an object of the members `jsonrpc`, `result` and
    /// `id`, in this order.
    pub open spec fn envelope(result: M::Result, id: IdView) -> JsonView {
        JsonView::Object(
            seq![
                ("jsonrpc"@, JsonRpc::V2.to_json()),
                ("result"@, M::result_to_json(result)),
                ("id"@, id.to_json()),
            ],
        )
    }

    /// The JSON value of the answer.
    pub open spec fn to_json(self) -> JsonView {
        Self::envelope(self.result, self.id@)
    }

    /// Reads `value` as an answer to a call of `M`. Members that an answer
    /// does not have are passed over.
    pub fn decode(value: &Json) -> (r: Result<Self, DecodeError>)
        ensures
            match r {
                Ok(response) => Self::result_of(value@) == Ok::<M::Result, DecodeError>(
                    response.result,
                ) && response.id@ == Self::id_of(value@),
                Err(e) => Self::result_of(value@) == Err::<M::Result, DecodeError>(e),
            },
    {
        match value {
            Json::Object(_) => {},
            _ => {
                return Err(DecodeError::NotAnObject);
            },
        }
        let jsonrpc = match member(value, "jsonrpc", Field::JsonRpc) {
            Ok(found) => match JsonRpc::deserialize(found) {
                Ok(version) => version,
                Err(e) => {
                    return Err(e);
                },
            },
            Err(e) => {
                return Err(e);
            },
        };
        let result = match member(value, "result", Field::Result) {
            Ok(found) => match M::deserialize_result(found) {
                Ok(result) => result,
                Err(e) => {
                    return Err(e);
                },
            },
            Err(e) => {
                return Err(e);
            },
        };
        let id = match member(value, "id", Field::Id) {
            Ok(found) => match Id::deserialize(found) {
                Ok(id) => id,
                Err(e) => {
                    return Err(e);
                },
            },
            Err(e) => {
                return Err(e);
            },
        };
        Ok(Response { jsonrpc, result, id })
    }

    /// Writes the answer as a JSON value.
    pub fn encode(&self) -> (json: Json)
        ensures
            json@ == self.to_json(),
    {
        let mut members: Vec<(String, Json)> = Vec::new();
        members.push((String::from_str("jsonrpc"), self.jsonrpc.serialize()));
        members.push((String::from_str("result"), M::serialize_result(&self.result)));
        members.push((String::from_str("id"), self.id.serialize()));
        let json = Json::object(members);
        assert(json@->Object_0 =~= self.to_json()->Object_0);
        json
    }
}

/// The names of the members of an envelope differ from one another.
proof fn lemma_member_names()
    ensures
        "jsonrpc"@ != "method"@,
        "jsonrpc"@ != "params"@,
        "jsonrpc"@ != "result"@,
        "jsonrpc"@ != "id"@,
        "method"@ != "params"@,
        "method"@ != "id"@,
        "params"@ != "id"@,
        "result"@ != "id"@,
{
    reveal_strlit("jsonrpc");
    reveal_strlit("method");
    reveal_strlit("params");
    reveal_strlit("result");
    reveal_strlit("id");
    assert("method"@.len() == 6 && "method"@[0] == 'm');
    assert("params"@.len() == 6 && "params"@[0] == 'p');
    assert("result"@.len() == 6);
    assert("id"@.len() == 2);
}

/// A call that is written and read back is the same call: its JSON value is
/// accepted, with the parameters and the identifier of the call.
pub proof fn lemma_request_round_trip<M: Method>(params: M::Params, id: IdView)
    ensures
        Request::<M>::accepts(Request::<M>::envelope(params, id)),
        Request::<M>::params_of(Request::<M>::envelope(params, id)) == params,
        Request::<M>::id_of(Request::<M>::envelope(params, id)) == id,
{
    lemma_member_names();
    M::lemma_params_round_trip(params);
    lemma_id_round_trip(id);
    reveal_with_fuel(find, 5);
}

/// The members of the JSON value of an answer are found under their names.
pub proof fn lemma_envelope_members<M: Method>(result: M::Result, id: IdView)
    ensures
        Response::<M>::envelope(result, id).member("jsonrpc"@) == Some(JsonRpc::V2.to_json()),
        Response::<M>::envelope(result, id).member("result"@) == Some(M::result_to_json(result)),
        Response::<M>::envelope(result, id).member("id"@) == Some(id.to_json()),
{
    lemma_member_names();
    reveal_with_fuel(find, 4);
}

/// An answer that is written and read back is the same answer: its JSON
/// value yields the result and the identifier of the answer.
pub proof fn lemma_response_round_trip<M: Method>(result: M::Result, id: IdView)
    ensures
        Response::<M>::result_of(Response::<M>::envelope(result, id)) == Ok::<
            M::Result,
            DecodeError,
        >(result),
        Response::<M>::id_of(Response::<M>::envelope(result, id)) == id,
{
    lemma_envelope_members::<M>(result, id);
    M::lemma_result_round_trip(result);
    lemma_id_round_trip(id);
}

/// A value whose member `method` is not the name of `M` is no call of `M`.
pub proof fn lemma_other_method_rejected<M: Method>(value: JsonView)
    requires
        value.member("method"@) != Some(JsonView::String(M::name())),
    ensures
        !Request::<M>::accepts(value),
{
}

} // verus!
