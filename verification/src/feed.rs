//! The boundary to the feed parser and to the clock: the only places where
//! the library calls outside code.

use vstd::prelude::*;

use crate::filter::{published_of, Entry};

verus! {

/// What parsing a byte sequence as an Atom feed document gives: `None` when
/// the bytes are not a well-formed feed, otherwise the entries' publication
/// times, in document order, each in whole seconds since the Unix epoch.
/// The result depends on the bytes alone.
pub uninterp spec fn feed_entries_of(body: Seq<u8>) -> Option<Seq<Option<i64>>>;

#[verifier::external_type_specification]
#[verifier::external_body]
pub struct ExAtomError(atom_syndication::Error);

/// Relies on atom_syndication::Feed::read_from to parse the bytes as an Atom
/// document; each parsed entry's optional publication time is reduced to
/// whole seconds since the Unix epoch by chrono's DateTime::timestamp.
#[verifier::external_body]
pub(crate) fn parse_feed(body: &Vec<u8>) -> (r: Result<Vec<Entry>, atom_syndication::Error>)
    ensures
        r is Ok <==> feed_entries_of(body@) is Some,
        r matches Ok(es) ==> feed_entries_of(body@) == Some(published_of(es@)),
{
    let feed = atom_syndication::Feed::read_from(&body[..])?;
    Ok(feed
        .entries
        .into_iter()
        .map(|e| Entry { published: e.published.map(|t| t.timestamp()) })
        .collect())
}

/// Relies on chrono::Utc::now for the current wall-clock time, reduced to
/// whole seconds since the Unix epoch; nothing is assumed of the value.
#[verifier::external_body]
pub(crate) fn now_seconds() -> i64 {
    chrono::Utc::now().timestamp()
}

} // verus!
