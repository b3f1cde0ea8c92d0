//! The response handler: every request gets the same greeting.

use crate::message::{Header, Request, RequestView, Response, ResponseView};
use vstd::prelude::*;
use vstd::string::*;

verus! {

/// The body of every response: the greeting in UTF-8.
pub open spec fn greeting_body() -> Seq<u8> {
    "Hello, World!".spec_bytes()
}

/// The one response of this service: status 200, no headers of its own, and
/// the greeting as its body.
pub open spec fn greeting() -> ResponseView {
    ResponseView { status: 200, headers: Seq::empty(), body: greeting_body() }
}

/// The response that a request is owed. It reads nothing of the request.
pub open spec fn reply(request: RequestView) -> ResponseView {
    greeting()
}

/// Calls `hyper::Response::new` and hands back what it made as plain values.
///
/// Trusted: hyper sets the parts of a new response to their defaults, that
/// is status 200 and no headers, and keeps the body it was given.
#[verifier::external_body]
fn blank_response(body: Vec<u8>) -> (response: Response)
    ensures
        response.status == 200,
        response.headers@.len() == 0,
        response.body@ == body@,
{
    let (head, body) = hyper::Response::new(body).into_parts();
    let plain = |(name, value): (&hyper::header::HeaderName, &hyper::header::HeaderValue)| {
        Header { name: name.as_str().to_string(), value: value.as_bytes().to_vec() }
    };
    let headers = head.headers.iter().map(plain).collect();
    Response { status: head.status.as_u16(), headers, body }
}

/// Answers a request. There is no request that it refuses and no error that
/// it can return: whatever the method, the path, the headers and the body,
/// the response is the greeting with status 200. The request ends here; no
/// part of it is kept.
pub fn handle(request: Request) -> (response: Response)
    ensures
        response@ == reply(request@),
        response.headers@.len() == 0,
{
    let response = blank_response("Hello, World!".as_bytes_vec());
    assert(response@.headers =~= Seq::empty());
    response
}

/// The greeting, byte by byte: thirteen bytes of ASCII.
pub proof fn lemma_greeting_bytes()
    ensures
        greeting_body() == seq![
            72u8, 101u8, 108u8, 108u8, 111u8, 44u8, 32u8, 87u8, 111u8, 114u8, 108u8, 100u8, 33u8,
        ],
{
    reveal_strlit("Hello, World!");
    is_ascii_spec_bytes("Hello, World!");
}

/// Any two requests are owed the same response: it depends on nothing that
/// a request holds.
pub proof fn lemma_reply_is_constant(first: RequestView, second: RequestView)
    ensures
        reply(first) == reply(second),
        reply(first).status == 200,
        reply(first).headers.len() == 0,
        reply(first).body == greeting_body(),
{
}

/// The responses that the requests of one connection are owed when they are
/// answered one after the other, as they arrive.
pub open spec fn replies(requests: Seq<RequestView>) -> Seq<ResponseView>
    decreases requests.len(),
{
    if requests.len() == 0 {
        Seq::empty()
    } else {
        replies(requests.drop_last()).push(reply(requests.last()))
    }
}

/// Requests answered in the order of their arrival get as many responses,
/// each in the place of its request, and each the greeting.
pub proof fn lemma_replies_follow_requests(requests: Seq<RequestView>)
    ensures
        replies(requests).len() == requests.len(),
        forall|i: int|
            0 <= i < requests.len() ==> #[trigger] replies(requests)[i] == reply(requests[i]),
        forall|i: int| 0 <= i < requests.len() ==> #[trigger] replies(requests)[i] == greeting(),
    decreases requests.len(),
{
    if requests.len() > 0 {
        lemma_replies_follow_requests(requests.drop_last());
    }
}

} // verus!
