//! The proxy: which requests it answers from its cache, when it refreshes the
//! cache, and what it hands on unchanged.
//!
//! The proxy makes no call itself. [`Context::dispatch`] takes the body of a
//! request and says what is to be done; where that is a call of the upstream
//! node, the caller makes it and hands the outcome to
//! [`Context::refreshed`] or to [`forwarded`], which give the reply.

use crate::chance::{lemma_certain_admits_all, lemma_never_admits_none, Chance, Roll};
use crate::json::{Json, JsonView};
use crate::rpc::eth::BlockNumber;
use crate::rpc::{
    lemma_envelope_members, lemma_id_value_kept, lemma_response_round_trip, DecodeError, IdView,
    Method, Request, Response, SENTINEL_ID,
};
use crate::upstream::{call, exec, Exchange, UpstreamError};
use vstd::prelude::*;

verus! {

/// What the client gets back.
#[derive(Debug, PartialEq, Eq)]
pub enum Reply {
    /// Status 200, with a JSON value as the body.
    Success(Json),
    /// Status 500, with the description of an error as the body.
    Failure(String),
}

impl Reply {
    /// The HTTP status code of the reply.
    pub open spec fn spec_status(&self) -> u16 {
        match self {
            Reply::Success(_) => 200,
            Reply::Failure(_) => 500,
        }
    }

    /// Whether the reply is a success with a body of the value `value`.
    pub open spec fn carries(self, value: JsonView) -> bool {
        self matches Reply::Success(json) && json@ == value
    }

    /// The HTTP status code of the reply.
    #[verifier::when_used_as_spec(spec_status)]
    pub fn status(&self) -> (status: u16)
        ensures
            status == self.spec_status(),
    {
        match self {
            Reply::Success(_) => 200,
            Reply::Failure(_) => 500,
        }
    }
}

/// What is to be done about a request.
#[derive(Debug, PartialEq, Eq)]
pub enum Action {
    /// Answer the client.
    Reply(Reply),
    /// Send `outbound` to the upstream node, then hand `request` and what
    /// came back to [`Context::refreshed`].
    Refresh { request: Request<BlockNumber>, outbound: Json },
    /// Send the body of the request to the upstream node as it came, then
    /// hand what came back to [`forwarded`].
    Forward(Json),
}

/// What a refresh came to.
#[derive(Debug, PartialEq, Eq)]
pub struct Refreshed {
    /// The reply to the call that led to the refresh.
    pub reply: Reply,
    /// The block number that the upstream node reported, or why none was
    /// had of it. The error goes no further than this: the reply does not
    /// show it.
    pub outcome: Result<u64, UpstreamError>,
}

/// The JSON value of the answer to a call of `eth_blockNumber` that went
/// under the identifier `id`, when the latest block is `block`.
pub open spec fn answer(id: IdView, block: u64) -> JsonView {
    Response::<BlockNumber>::envelope(block, id)
}

/// The JSON value of the call of `eth_blockNumber` that the proxy itself
/// makes of the upstream node.
pub open spec fn refresh_call() -> JsonView {
    Request::<BlockNumber>::envelope((), IdView::Number(SENTINEL_ID))
}

/// The state of the proxy: the chance on which a call refreshes the cache,
/// and the cache, the number of the latest block that the upstream node
/// reported. A cache of 0 has never been filled.
#[derive(Debug, PartialEq, Eq)]
pub struct Context {
    pub update_chance: Chance,
    pub block: u64,
}

impl Context {
    /// Whether a call that drew `roll` asks the upstream node: the chance
    /// admits the roll, or the cache has never been filled.
    pub open spec fn refresh_due(self, roll: Roll) -> bool {
        self.update_chance.spec_admits(roll) || self.block == 0
    }

    /// Whether `body` is a call that the proxy answers itself.
    pub open spec fn intercepts(body: JsonView) -> bool {
        Request::<BlockNumber>::accepts(body)
    }

    /// Whether `action` is what is to be done about a request with the body
    /// `body` that drew `roll`.
    ///
    /// A body that is no call of `eth_blockNumber` is forwarded as it came.
    /// One that is such a call leads to a refresh where one is due, and is
    /// else answered with the cached block number, under its identifier.
    pub open spec fn decides(self, body: Json, roll: Roll, action: Action) -> bool {
        match action {
            Action::Forward(outbound) => !Self::intercepts(body@) && outbound == body,
            Action::Refresh { request, outbound } => Self::intercepts(body@) && self.refresh_due(
                roll,
            ) && request.id@ == Request::<BlockNumber>::id_of(body@) && outbound@
                == refresh_call(),
            Action::Reply(reply) => Self::intercepts(body@) && !self.refresh_due(roll)
                && reply.carries(answer(Request::<BlockNumber>::id_of(body@), self.block)),
        }
    }

    /// Whether `after` and `reply` are what a refresh for `request` comes to
    /// when the upstream node was asked and `exchange` came back.
    ///
    /// Where the exchange yielded a block number, the cache takes it; where
    /// it came to an error of any kind, the cache stays as it was. The reply
    /// is a success either way, and carries the cache as it now is under the
    /// identifier of the request.
    pub open spec fn settles(
        self,
        request: Request<BlockNumber>,
        exchange: Exchange,
        after: Context,
        reply: Reply,
    ) -> bool {
        &&& after.update_chance == self.update_chance
        &&& after.block == match exchange.result::<BlockNumber>() {
            Ok(block) => block,
            Err(_) => self.block,
        }
        &&& reply.carries(answer(request.id@, after.block))
    }

    /// A proxy that has not asked the upstream node yet.
    pub fn new(update_chance: Chance) -> (context: Context)
        ensures
            context.update_chance == update_chance,
            context.block == 0,
    {
        Context { update_chance, block: 0 }
    }

    /// Whether a call that drew `roll` asks the upstream node.
    pub fn is_refresh_due(&self, roll: Roll) -> (due: bool)
        ensures
            due == self.refresh_due(roll),
            self.update_chance.is_certain() ==> due,
            self.block == 0 ==> due,
            self.update_chance.is_never() && self.block != 0 ==> !due,
    {
        proof {
            if self.update_chance.is_certain() {
                lemma_certain_admits_all(self.update_chance, roll);
            }
        }
        self.update_chance.admits(roll) || self.block == 0
    }

    /// Decides about a call of `eth_blockNumber` that drew `roll`: where a
    /// refresh is due, the upstream node is to be asked first; else the call
    /// is answered with the cached block number.
    pub fn block_number(&self, request: Request<BlockNumber>, roll: Roll) -> (action: Action)
        ensures
            match action {
                Action::Refresh { request: pending, outbound } => self.refresh_due(roll) && pending
                    == request && outbound@ == refresh_call(),
                Action::Reply(reply) => !self.refresh_due(roll) && reply.carries(
                    answer(request.id@, self.block),
                ),
                Action::Forward(_) => false,
            },
    {
        if self.is_refresh_due(roll) {
            let outbound = Request::synthetic(BlockNumber, ()).encode();
            Action::Refresh { request, outbound }
        } else {
            Action::Reply(Reply::Success(Response::new(request, self.block).encode()))
        }
    }

    /// Decides what is to be done about a request with the body `body` that
    /// drew `roll`.
    ///
    /// A body that is a call of `eth_blockNumber` is dealt with as
    /// [`Context::block_number`] says. Every other body is to be forwarded:
    /// the action hands it back as it came.
    pub fn dispatch(&self, body: Json, roll: Roll) -> (action: Action)
        ensures
            self.decides(body, roll, action),
    {
        match Request::<BlockNumber>::decode(&body) {
            Ok(request) => self.block_number(request, roll),
            Err(_) => Action::Forward(body),
        }
    }

    /// Decides what is to be done about a request with the body `body`, on a
    /// roll drawn for it: the action is what [`Context::dispatch`] gives on
    /// some roll. So a body that is no call of `eth_blockNumber` is forwarded;
    /// a call is answered from the cache only where the chance is not 1 and
    /// the cache is filled, and leads to a refresh only where the chance is
    /// not 0 or the cache is empty.
    pub fn handle(&self, body: Json) -> (action: Action)
        ensures
            exists|roll: Roll| self.decides(body, roll, action),
            match action {
                Action::Forward(outbound) => !Self::intercepts(body@) && outbound == body,
                Action::Refresh { request, outbound } => Self::intercepts(body@) && (
                self.update_chance.is_never() ==> self.block == 0) && request.id@
                    == Request::<BlockNumber>::id_of(body@) && outbound@ == refresh_call(),
                Action::Reply(reply) => Self::intercepts(body@) && !self.update_chance.is_certain()
                    && self.block != 0 && reply.carries(
                    answer(Request::<BlockNumber>::id_of(body@), self.block),
                ),
            },
    {
        let roll = Roll::draw();
        proof {
            if self.update_chance.is_certain() {
                lemma_certain_admits_all(self.update_chance, roll);
            }
            if self.update_chance.is_never() {
                lemma_never_admits_none(self.update_chance, roll);
            }
        }
        self.dispatch(body, roll)
    }

    /// Takes in what the upstream node answered to a refresh and gives the
    /// reply to `request`, as [`Context::settles`] says, together with what
    /// the exchange yielded.
    pub fn refreshed(
        &mut self,
        request: Request<BlockNumber>,
        exchange: Exchange,
    ) -> (done: Refreshed)
        ensures
            old(self).settles(request, exchange, *final(self), done.reply),
            done.outcome == exchange.result::<BlockNumber>(),
    {
        let outcome = call::<BlockNumber>(exchange);
        match &outcome {
            Ok(block) => {
                self.block = *block;
            },
            Err(_) => {},
        }
        let reply = Reply::Success(Response::new(request, self.block).encode());
        Refreshed { reply, outcome }
    }
}

/// Whether `reply` hands on what an exchange yielded: the JSON value as it
/// came, or the description of the error.
pub open spec fn relay(value: Result<Json, UpstreamError>, reply: Reply) -> bool {
    match value {
        Ok(json) => reply == Reply::Success(json),
        Err(e) => reply matches Reply::Failure(text) && text@ == e.description(),
    }
}

/// Makes of an exchange the value that the upstream node answered a
/// forwarded request with.
pub fn proxy_request(exchange: Exchange) -> (r: Result<Json, UpstreamError>)
    ensures
        r == exchange.value(),
{
    exec(exchange)
}

/// Gives the reply to a request that was forwarded.
///
/// What the upstream node answered is handed on as it came, as a success; a
/// transport or decode error becomes a failure that carries its description.
pub fn forwarded(exchange: Exchange) -> (reply: Reply)
    ensures
        relay(exchange.value(), reply),
{
    match proxy_request(exchange) {
        Ok(json) => Reply::Success(json),
        Err(e) => Reply::Failure(e.describe()),
    }
}

/// With the chance 1, every call of `eth_blockNumber` asks the upstream node.
pub proof fn lemma_certain_chance_refreshes(
    context: Context,
    body: Json,
    roll: Roll,
    action: Action,
)
    requires
        context.update_chance.is_certain(),
        Context::intercepts(body@),
        context.decides(body, roll, action),
    ensures
        action is Refresh,
{
    lemma_certain_admits_all(context.update_chance, roll);
}

/// With the chance 0, once a refresh has filled the cache with a block
/// number other than 0, a call of `eth_blockNumber` does not ask the upstream
/// node: it is answered with that block number.
pub proof fn lemma_never_chance_serves_cache(
    before: Context,
    pending: Request<BlockNumber>,
    exchange: Exchange,
    context: Context,
    first: Reply,
    body: Json,
    roll: Roll,
    action: Action,
)
    requires
        before.settles(pending, exchange, context, first),
        exchange.result::<BlockNumber>() is Ok,
        context.block != 0,
        context.update_chance.is_never(),
        Context::intercepts(body@),
        context.decides(body, roll, action),
    ensures
        exchange.result::<BlockNumber>() == Ok::<u64, UpstreamError>(context.block),
        action matches Action::Reply(reply) && reply.carries(
            answer(Request::<BlockNumber>::id_of(body@), context.block),
        ),
{
    lemma_never_admits_none(context.update_chance, roll);
}

/// While the cache is empty, every call of `eth_blockNumber` asks the
/// upstream node, whatever the chance.
pub proof fn lemma_cold_cache_refreshes(context: Context, body: Json, roll: Roll, action: Action)
    requires
        context.block == 0,
        Context::intercepts(body@),
        context.decides(body, roll, action),
    ensures
        action is Refresh,
{
}

/// A request for another method than `eth_blockNumber` goes to the upstream
/// node as it came, and the JSON value that the node answers with goes to
/// the client as it came.
pub proof fn lemma_other_methods_pass_through(
    context: Context,
    body: Json,
    roll: Roll,
    action: Action,
    exchange: Exchange,
    reply: Reply,
)
    requires
        body@.member("method"@) != Some(JsonView::String(BlockNumber::name())),
        context.decides(body, roll, action),
        relay(exchange.value(), reply),
    ensures
        action == Action::Forward(body),
        exchange.value() matches Ok(json) ==> reply == Reply::Success(json),
{
}

/// The answer to a call of `eth_blockNumber` carries the identifier of the
/// call, and the block number it was made for. Its member `id` is the very
/// JSON value that the call gave, where a number given is held in its
/// canonical way.
pub proof fn lemma_answer_keeps_identifier(body: JsonView, block: u64)
    requires
        Context::intercepts(body),
    ensures
        Response::<BlockNumber>::id_of(answer(Request::<BlockNumber>::id_of(body), block))
            == Request::<BlockNumber>::id_of(body),
        Response::<BlockNumber>::result_of(answer(Request::<BlockNumber>::id_of(body), block))
            == Ok::<u64, DecodeError>(block),
        (body.member("id"@) matches Some(JsonView::Number(number)) ==> number.is_canonical())
            ==> answer(Request::<BlockNumber>::id_of(body), block).member("id"@) == body.member(
            "id"@,
        ),
{
    let id = Request::<BlockNumber>::id_of(body);
    lemma_response_round_trip::<BlockNumber>(block, id);
    lemma_envelope_members::<BlockNumber>(block, id);
    if body.member("id"@) matches Some(JsonView::Number(number)) ==> number.is_canonical() {
        lemma_id_value_kept(body.member("id"@).unwrap());
    }
}

/// An exchange that came to an error leaves the cache as it was and does not
/// reach the client: the reply to the call is a success that carries the
/// block number that was cached before.
pub proof fn lemma_refresh_failure_masked(
    before: Context,
    request: Request<BlockNumber>,
    exchange: Exchange,
    after: Context,
    reply: Reply,
)
    requires
        before.settles(request, exchange, after, reply),
        exchange.result::<BlockNumber>() is Err,
    ensures
        after == before,
        reply.spec_status() == 200,
        reply.carries(answer(request.id@, before.block)),
{
}

} // verus!
