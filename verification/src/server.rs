//! The relay service: the four shapes of a call, answered here or handed on
//! to the next hop.

use vstd::prelude::*;
use vstd::string::*;
use tonic::metadata::MetadataMap;
use crate::error_mapper::{
    decide, errors_of, AttemptOutcome, Code, RetrySession, RetryStep, Status,
};
use crate::kv::Attributes;
use crate::landing::{ResultType, TalkRequest, TalkResponse, TalkResult};
use crate::metadata::{ascii_entries, carried, propagate_headers};
use crate::metrics::{bump, bump_by, utc_now, ServerMetrics};
use crate::text::{
    chars_of, decimal, is_digit, lemma_parse_decimal, lemma_split_first, lemma_split_whole,
    parse_unsigned, parse_usize, push_str_chars, split, split_on, string_of, u64_to_string, views,
};
use crate::utils::{greeting, thanks, thanks_of, HELLOS};

verus! {

/// The number of connections to the next hop that are kept.
pub const CONNECTION_POOL_SIZE: usize = 5;

/// The time that a call may take, in milliseconds.
pub const REQUEST_TIMEOUT_MS: u64 = 5000;

/// The time left to calls in flight when the server stops, in milliseconds.
pub const GRACEFUL_SHUTDOWN_TIMEOUT_MS: u64 = 10000;

/// The time that a call to the next hop may take, in milliseconds: a little
/// less than the caller's own, so that the relay sees the next hop time out
/// before its caller gives up.
pub const FORWARD_TIMEOUT_MS: u64 = REQUEST_TIMEOUT_MS - 500;

/// The status of a response that holds answers.
pub const STATUS_OK: i32 = 200;

/// The number of responses of a stream that may wait for the caller before
/// the next one is made.
pub const RESPONSE_CHANNEL_CAPACITY: usize = 4;

/// The port that the service listens on, given the setting
/// `GRPC_SERVER_PORT` where it is set: that, or 9996.
pub fn get_server_port(port: Option<String>) -> (out: String)
    ensures
        out@ == match port {
            Some(p) => p@,
            None => "9996"@,
        },
{
    match port {
        Some(p) => p,
        None => String::from_str("9996"),
    }
}

/// The port on which the counters are served: the one after the port of the
/// service, or after 50051 where that is no port number. `None` where the
/// port of the service is the last one.
pub open spec fn metrics_port_of(port: Seq<char>) -> Option<u16> {
    let base: nat = match parse_unsigned(port) {
        Some(p) => if p <= 65535 {
            p
        } else {
            50051
        },
        None => 50051,
    };
    if base < 65535 {
        Some((base + 1) as u16)
    } else {
        None
    }
}

/// The port on which the counters are served.
pub fn metrics_port(port: &str) -> (out: Option<u16>)
    ensures
        out == metrics_port_of(port@),
{
    let base: u16 = match parse_usize(port) {
        Some(p) => if p <= 65535 {
            p as u16
        } else {
            50051
        },
        None => 50051,
    };
    if base < 65535 {
        Some(base + 1)
    } else {
        None
    }
}

// ---------------------------------------------------------------------------
// The response synthesizer

/// Whether `c` is a digit or one of `a` to `f`.
pub open spec fn is_lower_hex(c: char) -> bool {
    is_digit(c) || ('a' <= c && c <= 'f')
}

/// Whether `text` has the shape of a random identifier: 36 characters, `-` at
/// 8, 13, 18 and 23, lower-case hexadecimal digits elsewhere, and the version
/// digit `4` at 14.
pub open spec fn is_uuid_text(text: Seq<char>) -> bool {
    &&& text.len() == 36
    &&& forall|i: int|
        0 <= i < 36 ==> if i == 8 || i == 13 || i == 18 || i == 23 {
            #[trigger] text[i] == '-'
        } else {
            is_lower_hex(text[i])
        }
    &&& text[14] == '4'
}

/// A fresh random identifier as text: uuid's `Uuid::new_v4()`, written by its
/// `Display`, which is the hyphenated lower-case form. Which digits come out is
/// left open.
#[verifier::external_body]
pub(crate) fn new_uuid() -> (id: String)
    ensures
        is_uuid_text(id@),
{
    uuid::Uuid::new_v4().to_string()
}

/// The greeting at `index`, counted round the table, a comma, and the thanks
/// that answer it.
pub open spec fn answer_data(index: nat) -> Seq<char> {
    greeting((index % 6) as int) + ","@ + thanks_of(greeting((index % 6) as int))
}

/// The attributes of the answer to the index `index`, written `data`, made
/// under the identifier `id`.
pub open spec fn answer_attributes(data: Seq<char>, index: nat, id: Seq<char>) -> Map<
    Seq<char>,
    Seq<char>,
> {
    Map::<Seq<char>, Seq<char>>::empty().insert("id"@, id).insert("idx"@, data).insert(
        "data"@,
        answer_data(index),
    ).insert("meta"@, "RUST"@)
}

/// The four attribute names are four different texts.
pub proof fn lemma_attribute_names_differ()
    ensures
        "id"@ != "idx"@,
        "id"@ != "data"@,
        "id"@ != "meta"@,
        "idx"@ != "data"@,
        "idx"@ != "meta"@,
        "data"@ != "meta"@,
{
    reveal_strlit("id");
    reveal_strlit("idx");
    reveal_strlit("data");
    reveal_strlit("meta");
    assert("id"@.len() == 2);
    assert("idx"@.len() == 3);
    assert("data"@[0] == 'd');
    assert("meta"@[0] == 'm');
}

/// Whether `result` is an answer to `data`: `data` writes an index, and the
/// result is of kind `OK` with the attributes of the answer to that index
/// under an identifier of the right shape.
pub open spec fn is_answer(result: TalkResult, data: Seq<char>) -> bool {
    &&& parse_unsigned(data) is Some
    &&& result.kind == ResultType::OK
    &&& result.kv@.contains_key("id"@)
    &&& is_uuid_text(result.kv@["id"@])
    &&& result.kv@ == answer_attributes(data, parse_unsigned(data)->0, result.kv@["id"@])
}

/// The answer to an index of the table, written in decimal, holds the
/// greeting at that index, a comma and its thanks as its data, and the index
/// as it was written.
pub proof fn lemma_answer_in_range(result: TalkResult, index: nat)
    requires
        index < 6,
        is_answer(result, decimal(index)),
    ensures
        result.kv@["data"@] == greeting(index as int) + ","@ + thanks_of(greeting(index as int)),
        result.kv@["idx"@] == decimal(index),
        result.kv@["meta"@] == "RUST"@,
        result.kv@.dom() =~= set!["id"@, "idx"@, "data"@, "meta"@],
{
    lemma_parse_decimal(index);
    lemma_attribute_names_differ();
}

/// Whether `response` answers `data`: status 200 and one result, which is an
/// answer to `data`.
pub open spec fn is_single_answer(response: TalkResponse, data: Seq<char>) -> bool {
    &&& response.status == 200
    &&& response.results@.len() == 1
    &&& is_answer(response.results@[0], data)
}

/// Whether `status` rejects a request whose data is no index.
pub open spec fn is_rejection(status: Status) -> bool {
    status.spec_code() == Code::InvalidArgument && status.spec_message()
        == "data is not an index into the greetings"@
}

/// The result that answers `data`, made at `timestamp` under the identifier
/// `id`. Data that writes no unsigned number is rejected.
pub fn build_result(data: String, id: String, timestamp: i64) -> (r: Result<TalkResult, Status>)
    ensures
        match parse_unsigned(data@) {
            Some(index) => r matches Ok(result) && result.id == timestamp && result.kind
                == ResultType::OK && result.kv@ == answer_attributes(data@, index, id@),
            None => r matches Err(status) && is_rejection(status),
        },
{
    let index = match parse_usize(data.as_str()) {
        Some(i) => i % 6,
        None => {
            return Err(Status::invalid_argument("data is not an index into the greetings"));
        },
    };
    let hello: &'static str = HELLOS[index];
    let mut response_data: Vec<char> = Vec::new();
    push_str_chars(&mut response_data, hello);
    push_str_chars(&mut response_data, ",");
    push_str_chars(&mut response_data, thanks(hello));
    let mut kv = Attributes::new();
    kv.insert(String::from_str("id"), id);
    kv.insert(String::from_str("idx"), data);
    kv.insert(String::from_str("data"), string_of(&response_data));
    kv.insert(String::from_str("meta"), String::from_str("RUST"));
    Ok(TalkResult { id: timestamp, kind: ResultType::OK, kv })
}

/// The result that answers `data`, made now under a fresh identifier. Data
/// that writes no unsigned number is rejected.
pub fn create_response(data: String) -> (r: Result<TalkResult, Status>)
    ensures
        match parse_unsigned(data@) {
            Some(index) => r matches Ok(result) && is_answer(result, data@),
            None => r matches Err(status) && is_rejection(status),
        },
{
    let id = new_uuid();
    let ghost id_text = id@;
    let now = utc_now();
    let r = build_result(data, id, now.0);
    proof {
        if r is Ok {
            let result = r->Ok_0;
            lemma_attribute_names_differ();
            assert(result.kv@.contains_key("id"@));
            assert(result.kv@["id"@] == id_text);
        }
    }
    r
}

/// The result that answers the index `index`: what `create_response` makes
/// of the index written in decimal. Every index has its answer.
pub fn synthesize(index: usize) -> (result: TalkResult)
    ensures
        is_answer(result, decimal(index as nat)),
        result.kv@["data"@] == answer_data(index as nat),
        result.kv@["idx"@] == decimal(index as nat),
{
    proof {
        lemma_parse_decimal(index as nat);
        lemma_attribute_names_differ();
    }
    match create_response(u64_to_string(index as u64)) {
        Ok(result) => result,
        Err(_) => vstd::pervasive::unreached(),
    }
}

/// The response to one request: status 200 and the one result that answers
/// its data.
pub fn answer_request(data: String) -> (r: Result<TalkResponse, Status>)
    ensures
        match parse_unsigned(data@) {
            Some(index) => r matches Ok(response) && is_single_answer(response, data@),
            None => r matches Err(status) && is_rejection(status),
        },
{
    match create_response(data) {
        Ok(result) => {
            let results = vec![result];
            Ok(TalkResponse { status: STATUS_OK, results })
        },
        Err(status) => Err(status),
    }
}

// ---------------------------------------------------------------------------
// Items of a stream

/// Whether an inbound item can be answered: it was read without failure and
/// its data writes an index.
pub open spec fn item_ok(item: Result<TalkRequest, Status>) -> bool {
    item matches Ok(request) && parse_unsigned(request.data@) is Some
}

/// Whether `status` is the failure that the inbound item `item` ends a call
/// with: the failure with which it was read, or the rejection of its data.
pub open spec fn is_item_failure(item: Result<TalkRequest, Status>, status: Status) -> bool {
    match item {
        Ok(request) => parse_unsigned(request.data@) is None && is_rejection(status),
        Err(failure) => status == failure,
    }
}

/// Whether `reply` is what answers the inbound item `item`: the response to
/// its data, or the failure that it ends the call with.
pub open spec fn is_reply(reply: Result<TalkResponse, Status>, item: Result<TalkRequest, Status>) -> bool {
    match reply {
        Ok(response) => item matches Ok(request) && is_single_answer(response, request.data@),
        Err(status) => is_item_failure(item, status),
    }
}

/// Whether `replies` is the stream of replies to the stream `items`: one
/// reply for each item in order, up to and including the first item that
/// fails, and nothing after it.
pub open spec fn is_reply_stream(
    replies: Seq<Result<TalkResponse, Status>>,
    items: Seq<Result<TalkRequest, Status>>,
) -> bool {
    &&& replies.len() <= items.len()
    &&& forall|i: int| 0 <= i < replies.len() ==> is_reply(#[trigger] replies[i], items[i])
    &&& forall|i: int| 0 <= i < replies.len() - 1 ==> #[trigger] replies[i] is Ok
    &&& replies.len() < items.len() ==> replies.len() > 0 && replies.last() is Err
}

/// The reply to one inbound item.
pub fn answer_item(item: Result<TalkRequest, Status>) -> (reply: Result<TalkResponse, Status>)
    ensures
        is_reply(reply, item),
        reply is Ok <==> item_ok(item),
{
    match item {
        Ok(request) => answer_request(request.data),
        Err(status) => Err(status),
    }
}

/// The requests of a stream that was read to its end, for handing them on to
/// the next hop together; or the failure with which the first item that
/// failed was read.
pub fn buffer_inbound(items: Vec<Result<TalkRequest, Status>>) -> (r: Result<
    Vec<TalkRequest>,
    Status,
>)
    ensures
        match r {
            Ok(requests) => requests@.len() == items@.len() && forall|i: int|
                0 <= i < items@.len() ==> #[trigger] items@[i] == Ok::<TalkRequest, Status>(
                    requests@[i],
                ),
            Err(status) => exists|k: int|
                0 <= k < items@.len() && #[trigger] items@[k] == Err::<TalkRequest, Status>(status)
                    && forall|j: int| 0 <= j < k ==> #[trigger] items@[j] is Ok,
        },
{
    let mut requests: Vec<TalkRequest> = Vec::new();
    let ghost all = items@;
    for item in it: items
        invariant
            it.seq() == all,
            requests@.len() == it.index(),
            forall|i: int|
                0 <= i < it.index() ==> #[trigger] all[i] == Ok::<TalkRequest, Status>(requests@[i]),
    {
        let ghost k = it.index() as int;
        assert(item == all[k]);
        match item {
            Ok(request) => {
                requests.push(request);
            },
            Err(status) => {
                assert(all[k] == Err::<TalkRequest, Status>(status));
                assert forall|j: int| 0 <= j < k implies #[trigger] all[j] is Ok by {
                    assert(all[j] == Ok::<TalkRequest, Status>(requests@[j]));
                }
                return Err(status);
            },
        }
    }
    Ok(requests)
}

// ---------------------------------------------------------------------------
// One request, many responses

/// The responses to a request whose data holds several indices, made one at a
/// time as they are asked for. The stream ends after the last part, or after
/// the first part that is no index.
#[derive(Debug)]
pub struct AnswerStream {
    parts: Vec<Vec<char>>,
    next: usize,
}

/// Whether `replies` is the stream of responses to the parts `parts`: one
/// response for each part in order, up to the first part that is no index,
/// for which the rejection stands at the end.
pub open spec fn is_answer_stream(
    replies: Seq<Result<TalkResponse, Status>>,
    parts: Seq<Seq<char>>,
) -> bool {
    &&& replies.len() <= parts.len()
    &&& forall|i: int|
        0 <= i < replies.len() ==> match #[trigger] replies[i] {
            Ok(response) => is_single_answer(response, parts[i]),
            Err(status) => parse_unsigned(parts[i]) is None && is_rejection(status),
        }
    &&& forall|i: int| 0 <= i < replies.len() - 1 ==> #[trigger] replies[i] is Ok
    &&& replies.len() < parts.len() ==> replies.len() > 0 && replies.last() is Err
}

impl AnswerStream {
    #[verifier::type_invariant]
    spec fn well_formed(&self) -> bool {
        self.next <= self.parts@.len()
    }

    /// The parts that are not answered yet.
    pub closed spec fn pending(&self) -> Seq<Seq<char>> {
        views(self.parts@).skip(self.next as int)
    }

    /// The stream of the responses to `data`, one for each of its parts
    /// between commas.
    pub fn new(data: &str) -> (out: Self)
        ensures
            out.pending() == split_on(data@, ','),
    {
        let chars = chars_of(data);
        let parts = split(&chars, ',');
        assert(views(parts@).skip(0) =~= views(parts@));
        AnswerStream { parts, next: 0 }
    }

    /// The next response, or `None` where the stream has ended. A part that is
    /// no index gives the rejection and ends the stream.
    pub fn next(&mut self) -> (r: Option<Result<TalkResponse, Status>>)
        ensures
            old(self).pending().len() == 0 ==> r is None && final(self).pending().len() == 0,
            old(self).pending().len() > 0 ==> match r {
                Some(Ok(response)) => is_single_answer(response, old(self).pending()[0])
                    && final(self).pending() == old(self).pending().drop_first(),
                Some(Err(status)) => parse_unsigned(old(self).pending()[0]) is None
                    && is_rejection(status) && final(self).pending().len() == 0,
                None => false,
            },
    {
        proof {
            use_type_invariant(&*self);
        }
        if self.next >= self.parts.len() {
            return None;
        }
        let data = string_of(&self.parts[self.next]);
        assert(data@ == old(self).pending()[0]);
        let reply = answer_request(data);
        if reply.is_ok() {
            self.next = self.next + 1;
            assert(self.pending() =~= old(self).pending().drop_first());
        } else {
            self.next = self.parts.len();
        }
        Some(reply)
    }

    /// All the responses that are left, in order.
    pub fn collect(self) -> (replies: Vec<Result<TalkResponse, Status>>)
        ensures
            is_answer_stream(replies@, self.pending()),
    {
        let ghost parts = self.pending();
        let mut stream = self;
        let mut replies: Vec<Result<TalkResponse, Status>> = Vec::new();
        loop
            invariant_except_break
                replies@.len() + stream.pending().len() == parts.len(),
                stream.pending() == parts.skip(replies@.len() as int),
                forall|i: int|
                    0 <= i < replies@.len() ==> ((#[trigger] replies@[i]) matches Ok(response)
                        && is_single_answer(response, parts[i])),
            ensures
                is_answer_stream(replies@, parts),
            decreases stream.pending().len(),
        {
            let ghost n = replies@.len() as int;
            let ghost before = stream.pending();
            match stream.next() {
                None => {
                    break;
                },
                Some(reply) => {
                    assert(before[0] == parts[n]);
                    let ended = reply.is_err();
                    replies.push(reply);
                    if ended {
                        break;
                    }
                    assert(stream.pending() =~= parts.skip(n + 1));
                },
            }
        }
        replies
    }
}

/// Three texts without commas, with commas between them, are three parts.
pub proof fn lemma_three_parts(a: Seq<char>, b: Seq<char>, c: Seq<char>)
    requires
        forall|k: int| 0 <= k < a.len() ==> a[k] != ',',
        forall|k: int| 0 <= k < b.len() ==> b[k] != ',',
        forall|k: int| 0 <= k < c.len() ==> c[k] != ',',
    ensures
        split_on(a + seq![','] + b + seq![','] + c, ',') == seq![a, b, c],
{
    lemma_split_whole(c, ',');
    lemma_split_first(b, c, ',');
    lemma_split_first(a, b + seq![','] + c, ',');
    assert(a + seq![','] + (b + seq![','] + c) =~= a + seq![','] + b + seq![','] + c);
    assert(seq![a] + (seq![b] + seq![c]) =~= seq![a, b, c]);
}

/// A request with data whose parts all write indices gets one response for
/// each part, in the order of the parts.
pub proof fn lemma_answer_stream_complete(
    replies: Seq<Result<TalkResponse, Status>>,
    parts: Seq<Seq<char>>,
)
    requires
        is_answer_stream(replies, parts),
        forall|i: int| 0 <= i < parts.len() ==> parse_unsigned(#[trigger] parts[i]) is Some,
    ensures
        replies.len() == parts.len(),
        forall|i: int|
            0 <= i < parts.len() ==> ((#[trigger] replies[i]) matches Ok(response)
                && is_single_answer(response, parts[i])),
{
    if replies.len() < parts.len() {
        let last = replies.len() - 1;
        assert(replies.last() == replies[last]);
        assert(parse_unsigned(parts[last]) is Some);
    }
    assert forall|i: int| 0 <= i < parts.len() implies ((#[trigger] replies[i]) matches Ok(response)
        && is_single_answer(response, parts[i])) by {
        assert(parse_unsigned(parts[i]) is Some);
    }
}

// ---------------------------------------------------------------------------
// Many requests, one response

/// The results of a call that sends many requests and gets one response:
/// one result for each request that was taken, in the order in which they came.
pub struct Gatherer {
    results: Vec<TalkResult>,
    taken: Ghost<Seq<Seq<char>>>,
}

/// Whether `results` holds one answer for each text of `data`, in order.
pub open spec fn are_answers(results: Seq<TalkResult>, data: Seq<Seq<char>>) -> bool {
    results.len() == data.len() && forall|i: int|
        0 <= i < results.len() ==> is_answer(#[trigger] results[i], data[i])
}

/// The data of the requests of `items`, in order.
pub open spec fn data_of(items: Seq<Result<TalkRequest, Status>>) -> Seq<Seq<char>> {
    Seq::new(
        items.len(),
        |i: int|
            match items[i] {
                Ok(request) => request.data@,
                Err(_) => Seq::<char>::empty(),
            },
    )
}

impl Gatherer {
    #[verifier::type_invariant]
    spec fn well_formed(&self) -> bool {
        are_answers(self.results@, self.taken@)
    }

    /// The data of the requests that were taken, in order.
    pub closed spec fn taken(&self) -> Seq<Seq<char>> {
        self.taken@
    }

    /// Nothing taken yet.
    pub fn new() -> (out: Self)
        ensures
            out.taken().len() == 0,
    {
        Gatherer { results: Vec::new(), taken: Ghost(Seq::empty()) }
    }

    /// Takes the next inbound item and adds the result that answers it. An
    /// item that fails ends the call with its failure.
    pub fn accept(self, item: Result<TalkRequest, Status>) -> (r: Result<Gatherer, Status>)
        ensures
            match r {
                Ok(next) => item matches Ok(request) && parse_unsigned(request.data@) is Some
                    && next.taken() == self.taken().push(request.data@),
                Err(status) => is_item_failure(item, status),
            },
    {
        proof {
            use_type_invariant(&self);
        }
        match item {
            Ok(request) => {
                let ghost data = request.data@;
                match create_response(request.data) {
                    Ok(result) => {
                        let ghost before = self.results@;
                        let ghost taken = self.taken@;
                        let mut results = self.results;
                        results.push(result);
                        assert forall|i: int| 0 <= i < results@.len() implies is_answer(
                            #[trigger] results@[i],
                            taken.push(data)[i],
                        ) by {
                            if i < before.len() {
                                assert(results@[i] == before[i]);
                            }
                        }
                        Ok(Gatherer { results, taken: Ghost(taken.push(data)) })
                    },
                    Err(status) => Err(status),
                }
            },
            Err(status) => Err(status),
        }
    }

    /// The one response: status 200 and the results in the order in which the
    /// requests came.
    pub fn finish(self) -> (response: TalkResponse)
        ensures
            response.status == 200,
            are_answers(response.results@, self.taken()),
    {
        proof {
            use_type_invariant(&self);
        }
        TalkResponse { status: STATUS_OK, results: self.results }
    }

    /// The one response to a stream of requests that was read to its end: one
    /// result for each request, in order; or the failure of the first item
    /// that fails.
    pub fn gather(items: Vec<Result<TalkRequest, Status>>) -> (r: Result<TalkResponse, Status>)
        ensures
            match r {
                Ok(response) => response.status == 200 && are_answers(
                    response.results@,
                    data_of(items@),
                ) && forall|i: int| 0 <= i < items@.len() ==> item_ok(#[trigger] items@[i]),
                Err(status) => exists|k: int|
                    0 <= k < items@.len() && is_item_failure(#[trigger] items@[k], status)
                        && forall|j: int| 0 <= j < k ==> item_ok(#[trigger] items@[j]),
            },
    {
        let mut gatherer = Gatherer::new();
        let ghost all = items@;
        for item in it: items
            invariant
                it.seq() == all,
                gatherer.taken() =~= data_of(all).take(it.index() as int),
                forall|j: int| 0 <= j < it.index() ==> item_ok(#[trigger] all[j]),
        {
            let ghost k = it.index() as int;
            assert(item == all[k]);
            match gatherer.accept(item) {
                Ok(next) => {
                    gatherer = next;
                    assert(data_of(all).take(k + 1) =~= data_of(all).take(k).push(data_of(all)[k]));
                },
                Err(status) => {
                    assert(is_item_failure(all[k], status));
                    return Err(status);
                },
            }
        }
        assert(data_of(all).take(all.len() as int) =~= data_of(all));
        Ok(gatherer.finish())
    }
}

// ---------------------------------------------------------------------------
// Many requests, many responses

/// The responses of a call that sends many requests and gets a response to
/// each as it comes. The first item that fails ends the stream.
#[derive(Debug)]
pub struct Responder {
    ended: bool,
}

impl Responder {
    /// Whether the stream has ended.
    pub closed spec fn has_ended(&self) -> bool {
        self.ended
    }

    /// A stream that has not ended.
    pub fn new() -> (out: Self)
        ensures
            !out.has_ended(),
    {
        Responder { ended: false }
    }

    /// The reply to the next inbound item, or `None` where the stream has
    /// ended before.
    pub fn answer(&mut self, item: Result<TalkRequest, Status>) -> (r: Option<
        Result<TalkResponse, Status>,
    >)
        ensures
            old(self).has_ended() ==> r is None && final(self).has_ended(),
            !old(self).has_ended() ==> (r matches Some(reply) && is_reply(reply, item) && (reply is Ok
                <==> item_ok(item)) && (final(self).has_ended() <==> reply is Err)),
    {
        if self.ended {
            return None;
        }
        let reply = answer_item(item);
        if reply.is_err() {
            self.ended = true;
        }
        Some(reply)
    }

    /// The replies to a stream of requests, in order.
    pub fn answer_all(items: Vec<Result<TalkRequest, Status>>) -> (replies: Vec<
        Result<TalkResponse, Status>,
    >)
        ensures
            is_reply_stream(replies@, items@),
    {
        let mut responder = Responder::new();
        let mut replies: Vec<Result<TalkResponse, Status>> = Vec::new();
        let ghost all = items@;
        for item in it: items
            invariant
                it.seq() == all,
                !responder.has_ended(),
                replies@.len() == it.index(),
                forall|i: int| 0 <= i < replies@.len() ==> is_reply(#[trigger] replies@[i], all[i]),
                forall|i: int| 0 <= i < replies@.len() ==> #[trigger] replies@[i] is Ok,
        {
            let ghost k = it.index() as int;
            assert(item == all[k]);
            match responder.answer(item) {
                Some(reply) => {
                    let ended = reply.is_err();
                    replies.push(reply);
                    if ended {
                        assert(replies@.last() == replies@[k]);
                        return replies;
                    }
                },
                None => {
                    return replies;
                },
            }
        }
        replies
    }
}

/// A stream of requests that all can be answered gets one response for each,
/// each with one result, in the order of the requests.
pub proof fn lemma_reply_stream_complete(
    replies: Seq<Result<TalkResponse, Status>>,
    items: Seq<Result<TalkRequest, Status>>,
)
    requires
        is_reply_stream(replies, items),
        forall|i: int| 0 <= i < items.len() ==> item_ok(#[trigger] items[i]),
    ensures
        replies.len() == items.len(),
        forall|i: int|
            0 <= i < items.len() ==> ((#[trigger] replies[i]) matches Ok(response)
                && response.results@.len() == 1 && is_single_answer(
                response,
                items[i]->Ok_0.data@,
            )),
{
    if replies.len() < items.len() {
        let last = replies.len() - 1;
        assert(replies.last() == replies[last]);
        assert(item_ok(items[last]));
        assert(is_reply(replies[last], items[last]));
    }
    assert forall|i: int| 0 <= i < items.len() implies ((#[trigger] replies[i]) matches Ok(response)
        && response.results@.len() == 1 && is_single_answer(response, items[i]->Ok_0.data@)) by {
        assert(item_ok(items[i]));
        assert(is_reply(replies[i], items[i]));
    }
}

// ---------------------------------------------------------------------------
// The service

/// What a call to the next hop is made with.
#[derive(Debug)]
pub struct ForwardPlan {
    /// The metadata to send: the tracing headers of the inbound call.
    pub metadata: MetadataMap,
    /// The time that the next hop is given, in milliseconds.
    pub timeout_ms: u64,
}

/// How a call is handled: answered here, or handed on to the next hop.
#[derive(Debug)]
pub enum Handled<T> {
    /// Answered here, with this.
    Local(T),
    /// To be made at the next hop, with this.
    Forward(ForwardPlan),
}

/// Whether `plan` is the plan for handing on a call that came with the
/// metadata `inbound`.
pub open spec fn is_plan_for(plan: ForwardPlan, inbound: MetadataMap) -> bool {
    ascii_entries(plan.metadata) == carried(ascii_entries(inbound)) && plan.timeout_ms == 4500
}

/// The relay service. Without a next hop it answers each call itself; with
/// one, it hands each call on. Which of the two is fixed when it is made.
#[derive(Debug)]
pub struct ProtoServer {
    backend: String,
    metrics: ServerMetrics,
}

impl ProtoServer {
    /// The address of the next hop; empty where there is none.
    pub closed spec fn backend(&self) -> Seq<char> {
        self.backend@
    }

    /// The counters of this service.
    pub closed spec fn metrics(&self) -> ServerMetrics {
        self.metrics
    }

    /// Whether calls are handed on to a next hop.
    pub open spec fn is_forwarding(&self) -> bool {
        self.backend().len() > 0
    }

    /// Whether the second state is the first one after one more request, and
    /// after one more error where `failed` holds.
    pub open spec fn counted(before: ProtoServer, after: ProtoServer, failed: bool) -> bool {
        &&& after.backend() == before.backend()
        &&& after.metrics().last_request() is Some
        &&& after.metrics().requests() == bump(before.metrics().requests())
        &&& after.metrics().errors() == if failed {
            bump(before.metrics().errors())
        } else {
            before.metrics().errors()
        }
    }

    /// A service with `backend` as its next hop, or without one where
    /// `backend` is empty.
    pub fn new(backend: String) -> (out: Self)
        ensures
            out.backend() == backend@,
            out.metrics().requests() == 0,
            out.metrics().errors() == 0,
            out.metrics().last_request() is None,
    {
        ProtoServer { backend, metrics: ServerMetrics::new() }
    }

    /// Whether calls are handed on to a next hop.
    pub fn forwards(&self) -> (r: bool)
        ensures
            r == self.is_forwarding(),
    {
        !self.backend.as_str().is_empty()
    }

    /// The counters of this service.
    pub fn server_metrics(&self) -> (m: &ServerMetrics)
        ensures
            *m == self.metrics(),
    {
        &self.metrics
    }

    /// One request, one response. The request is counted. Without a next hop
    /// the response holds the one result that answers the data of the
    /// request; data that is no index is rejected and counted as an error.
    pub fn talk(&mut self, request: TalkRequest, inbound: &MetadataMap) -> (r: Handled<
        Result<TalkResponse, Status>,
    >)
        ensures
            match r {
                Handled::Forward(plan) => {
                    &&& old(self).is_forwarding()
                    &&& is_plan_for(plan, *inbound)
                    &&& Self::counted(*old(self), *final(self), false)
                },
                Handled::Local(reply) => {
                    &&& !old(self).is_forwarding()
                    &&& is_reply(reply, Ok(request))
                    &&& reply is Ok <==> parse_unsigned(request.data@) is Some
                    &&& Self::counted(*old(self), *final(self), reply is Err)
                },
            },
    {
        self.metrics.record_request();
        if self.forwards() {
            Handled::Forward(
                ForwardPlan { metadata: propagate_headers(inbound), timeout_ms: FORWARD_TIMEOUT_MS },
            )
        } else {
            let reply = answer_request(request.data);
            if reply.is_err() {
                self.metrics.record_error();
            }
            Handled::Local(reply)
        }
    }

    /// One request, a stream of responses. The request is counted. Without a
    /// next hop the stream holds one response for each part of the data
    /// between commas.
    pub fn talk_one_answer_more(&mut self, request: TalkRequest, inbound: &MetadataMap) -> (r:
        Handled<AnswerStream>)
        ensures
            Self::counted(*old(self), *final(self), false),
            match r {
                Handled::Forward(plan) => old(self).is_forwarding() && is_plan_for(plan, *inbound),
                Handled::Local(stream) => !old(self).is_forwarding() && stream.pending()
                    == split_on(request.data@, ','),
            },
    {
        self.metrics.record_request();
        if self.forwards() {
            Handled::Forward(
                ForwardPlan { metadata: propagate_headers(inbound), timeout_ms: FORWARD_TIMEOUT_MS },
            )
        } else {
            Handled::Local(AnswerStream::new(request.data.as_str()))
        }
    }

    /// A stream of requests, one response. The call is counted. Without a
    /// next hop the requests are taken by what is handed back, one at a time.
    pub fn talk_more_answer_one(&mut self, inbound: &MetadataMap) -> (r: Handled<Gatherer>)
        ensures
            Self::counted(*old(self), *final(self), false),
            match r {
                Handled::Forward(plan) => old(self).is_forwarding() && is_plan_for(plan, *inbound),
                Handled::Local(gatherer) => !old(self).is_forwarding() && gatherer.taken().len()
                    == 0,
            },
    {
        self.metrics.record_request();
        if self.forwards() {
            Handled::Forward(
                ForwardPlan { metadata: propagate_headers(inbound), timeout_ms: FORWARD_TIMEOUT_MS },
            )
        } else {
            Handled::Local(Gatherer::new())
        }
    }

    /// A stream of requests, a stream of responses. The call is counted.
    /// Without a next hop the requests are answered by what is handed back,
    /// one at a time.
    pub fn talk_bidirectional(&mut self, inbound: &MetadataMap) -> (r: Handled<Responder>)
        ensures
            Self::counted(*old(self), *final(self), false),
            match r {
                Handled::Forward(plan) => old(self).is_forwarding() && is_plan_for(plan, *inbound),
                Handled::Local(responder) => !old(self).is_forwarding() && !responder.has_ended(),
            },
    {
        self.metrics.record_request();
        if self.forwards() {
            Handled::Forward(
                ForwardPlan { metadata: propagate_headers(inbound), timeout_ms: FORWARD_TIMEOUT_MS },
            )
        } else {
            Handled::Local(Responder::new())
        }
    }

    /// Takes the outcome of an attempt that was made under retry, counts a
    /// failure as an error, and says what follows.
    pub fn step_retry(&mut self, session: RetrySession, outcome: AttemptOutcome) -> (next: RetryStep)
        ensures
            next.decision() == decide(
                session.config(),
                session.attempts(),
                session.delay_ms(),
                outcome,
            ),
            match next {
                RetryStep::Succeeded { attempts } => attempts == session.attempts() + 1,
                RetryStep::Failed { attempts } => attempts == session.attempts() + 1,
                RetryStep::Exhausted { attempts } => attempts == session.attempts() + 1,
                RetryStep::RetryAfter { delay_ms, session: following } => {
                    &&& following.config() == session.config()
                    &&& following.attempts() == session.attempts() + 1
                    &&& following.delay_ms() == session.config().next_delay(session.delay_ms())
                },
            },
            final(self).backend() == old(self).backend(),
            final(self).metrics().requests() == old(self).metrics().requests(),
            final(self).metrics().errors() == bump_by(
                old(self).metrics().errors(),
                errors_of(outcome),
            ),
    {
        session.step(outcome, &mut self.metrics)
    }

    /// Takes what the next hop gave for a call that was handed on, and gives
    /// it to the caller as it is. A failure is counted as an error.
    pub fn forwarded<T>(&mut self, outcome: Result<T, Status>) -> (r: Result<T, Status>)
        ensures
            r == outcome,
            final(self).backend() == old(self).backend(),
            final(self).metrics().requests() == old(self).metrics().requests(),
            final(self).metrics().errors() == if outcome is Err {
                bump(old(self).metrics().errors())
            } else {
                old(self).metrics().errors()
            },
    {
        if outcome.is_err() {
            self.metrics.record_error();
        }
        outcome
    }

    /// The failure of a call that was to be handed on when no connection to
    /// the next hop could be had. It is counted as an error.
    pub fn backend_unavailable(&mut self) -> (status: Status)
        ensures
            status.spec_code() == Code::Internal,
            status.spec_message() == "Backend connection not available"@,
            final(self).backend() == old(self).backend(),
            final(self).metrics().requests() == old(self).metrics().requests(),
            final(self).metrics().errors() == bump(old(self).metrics().errors()),
    {
        self.metrics.record_error();
        Status::internal("Backend connection not available")
    }
}

/// The failure of an attempt to connect to the next hop, for the reason
/// given: the next hop is unavailable, which is worth another attempt.
pub fn connection_failure(reason: &str) -> (status: Status)
    ensures
        status.spec_code() == Code::Unavailable,
        status.spec_message() == reason@,
{
    Status::unavailable(reason)
}

/// What is handed on to the caller of a stream from the next hop: each
/// response as it comes; the stream ends where the next hop ends it or fails.
pub fn relay_message(message: Result<Option<TalkResponse>, Status>) -> (r: Option<TalkResponse>)
    ensures
        r == match message {
            Ok(Some(response)) => Some(response),
            _ => None,
        },
{
    match message {
        Ok(Some(response)) => Some(response),
        _ => None,
    }
}

} // verus!
