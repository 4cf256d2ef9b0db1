//! The per-request dispatcher: classify a request by its content type, and,
//! for feed deliveries, buffer, parse and filter the body.

use vstd::prelude::*;

use crate::feed::{feed_entries_of, now_seconds, parse_feed};
use crate::filter::{all_stale, decide, Decision};

verus! {

/// The media-type prefix that marks a body as an Atom feed document:
/// the bytes of "application/atom+xml".
pub open spec fn feed_media_prefix() -> Seq<u8> {
    seq![
        97u8, 112u8, 112u8, 108u8, 105u8, 99u8, 97u8, 116u8, 105u8, 111u8, 110u8, 47u8, 97u8,
        116u8, 111u8, 109u8, 43u8, 120u8, 109u8, 108u8,
    ]
}

/// A content-type value identifies a feed document when it starts with the
/// well-known feed media-type prefix.
pub open spec fn is_feed_media_type(ct: Seq<u8>) -> bool {
    ct.len() >= feed_media_prefix().len() && ct.subrange(0, feed_media_prefix().len() as int)
        == feed_media_prefix()
}

/// How a request is handled: forwarded untouched, or buffered and inspected.
#[derive(Clone, Copy, Debug, PartialEq, Eq, Structural)]
pub enum RequestClass {
    /// Forward the request with its original streaming body, unread.
    PassThrough,
    /// Buffer the body, parse it as a feed, and filter it.
    Inspect,
}

/// Classify a request by its content-type header value, if it has one:
/// inspect exactly the requests that declare a feed media type.
pub fn classify(content_type: Option<&[u8]>) -> (r: RequestClass)
    ensures
        r is Inspect <==> (content_type matches Some(ct) && is_feed_media_type(ct@)),
{
    match content_type {
        None => RequestClass::PassThrough,
        Some(ct) => {
            if has_feed_media_prefix(ct) {
                RequestClass::Inspect
            } else {
                RequestClass::PassThrough
            }
        },
    }
}

/// Whether the byte sequence starts with the feed media-type prefix.
fn has_feed_media_prefix(ct: &[u8]) -> (r: bool)
    ensures
        r <==> is_feed_media_type(ct@),
{
    let prefix = feed_media_prefix_bytes();
    if ct.len() < prefix.len() {
        return false;
    }
    let mut i: usize = 0;
    while i < prefix.len()
        invariant
            prefix@ == feed_media_prefix(),
            i <= prefix@.len() <= ct@.len(),
            forall|j: int| 0 <= j < i ==> ct@[j] == prefix@[j],
        decreases prefix@.len() - i,
    {
        if ct[i] != prefix[i] {
            assert(ct@.subrange(0, feed_media_prefix().len() as int)[i as int] != prefix@[i as int]);
            return false;
        }
        i += 1;
    }
    assert(ct@.subrange(0, feed_media_prefix().len() as int) =~= feed_media_prefix());
    true
}

/// The feed media-type prefix as a byte vector.
fn feed_media_prefix_bytes() -> (r: Vec<u8>)
    ensures
        r@ == feed_media_prefix(),
{
    let mut v: Vec<u8> = Vec::new();
    v.push(97);
    v.push(112);
    v.push(112);
    v.push(108);
    v.push(105);
    v.push(99);
    v.push(97);
    v.push(116);
    v.push(105);
    v.push(111);
    v.push(110);
    v.push(47);
    v.push(97);
    v.push(116);
    v.push(111);
    v.push(109);
    v.push(43);
    v.push(120);
    v.push(109);
    v.push(108);
    assert(v@ =~= feed_media_prefix());
    v
}

/// The outcome of inspecting a buffered feed delivery.
#[derive(Debug)]
pub enum InspectOutcome {
    /// The body is not a well-formed feed document: respond with status 400
    /// and an empty body; nothing is forwarded upstream.
    BadRequest,
    /// Every entry is stale: respond with status 200 and an empty body;
    /// the delivery is acknowledged but not forwarded upstream.
    Blocked,
    /// Forward the buffered body upstream and relay the upstream response.
    Forward(Vec<u8>),
}

/// Inspect a fully buffered feed delivery against the given current time:
/// reject a body that does not parse, block a delivery whose entries are all
/// older than one day, and otherwise forward the very same bytes.
pub fn inspect_body(body: Vec<u8>, now: i64) -> (r: InspectOutcome)
    ensures
        r is BadRequest <==> feed_entries_of(body@) is None,
        feed_entries_of(body@) matches Some(entries) ==> ((r is Blocked) <==> all_stale(
            entries,
            now as int,
        )),
        feed_entries_of(body@) matches Some(entries) && !all_stale(entries, now as int)
            ==> (r matches InspectOutcome::Forward(b) && b@ == body@),
{
    let entries = match parse_feed(&body) {
        Ok(entries) => entries,
        Err(_) => {
            return InspectOutcome::BadRequest;
        },
    };
    match decide(&entries, now) {
        Decision::Block => InspectOutcome::Blocked,
        Decision::PassThrough => InspectOutcome::Forward(body),
    }
}

/// Inspect a fully buffered feed delivery against the clock's current time.
/// Whatever instant the clock reports: a body that does not parse is
/// rejected, a blocked delivery was a well-formed feed whose entries were all
/// stale at some instant — so every one of them carried a publication time —
/// and a forwarded body is byte-identical to the one received.
pub fn handle_feed_body(body: Vec<u8>) -> (r: InspectOutcome)
    ensures
        r is BadRequest <==> feed_entries_of(body@) is None,
        r is Blocked ==> (feed_entries_of(body@) matches Some(entries) && exists|n: int|
            all_stale(entries, n)),
        r matches InspectOutcome::Forward(b) ==> feed_entries_of(body@) is Some && b@ == body@,
{
    let now = now_seconds();
    let r = inspect_body(body, now);
    proof {
        if r is Blocked {
            let entries = feed_entries_of(body@)->Some_0;
            assert(all_stale(entries, now as int));
        }
    }
    r
}

/// The response status the proxy itself produces for an inspection outcome,
/// or `None` when the request is forwarded and the upstream's own response
/// is relayed instead.
pub fn own_response_status(outcome: &InspectOutcome) -> (r: Option<u16>)
    ensures
        outcome is BadRequest <==> r == Some(400u16),
        outcome is Blocked <==> r == Some(200u16),
        outcome is Forward <==> r is None,
{
    match outcome {
        InspectOutcome::BadRequest => Some(400),
        InspectOutcome::Blocked => Some(200),
        InspectOutcome::Forward(_) => None,
    }
}

} // verus!
