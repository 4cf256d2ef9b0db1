//! A transparent forwarding proxy that inspects only requests carrying an
//! Atom feed document, silently acknowledges deliveries whose entries are all
//! older than one day, and passes everything else through untouched.
//!
//! The modules hold the proxy's decision logic, each function with a verified
//! contract: classification and inspection of requests ([`dispatch`]), the
//! freshness filter ([`filter`]), the dual-mode request body ([`body`]), the
//! upstream session lifecycle ([`session`]), and the boundary to the feed
//! parser and the clock ([`feed`]).

pub mod body;
pub mod dispatch;
pub mod feed;
pub mod filter;
pub mod session;
