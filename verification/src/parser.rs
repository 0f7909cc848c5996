//! The request parser: given the bytes accumulated so far on a client
//! connection, decide whether a complete HTTP/1.x request head is present,
//! and if so whether it is a CONNECT request and what target it names.
//!
//! The raw HTTP grammar is handled by `httparse` behind one trusted wrapper;
//! everything from its verdict to the final [`ParseOutcome`] is verified.

use vstd::prelude::*;
use vstd::string::StringExecFns;

verus! {

/// What an attempt to read a request head out of a byte prefix reports:
/// the head is complete (with the method and target, where they could be
/// extracted), more bytes are needed, or the bytes are not a valid head.
pub enum HttpHead {
    Complete { method: Option<Seq<char>>, target: Option<Seq<char>> },
    Partial,
    Invalid,
}

/// The verdict of the HTTP parser on a byte sequence. The grammar of a
/// request head is the parser's own affair; this name stands for its result,
/// which depends on the bytes alone.
pub uninterp spec fn http_head_of(data: Seq<u8>) -> HttpHead;

/// The raw verdict handed back by the HTTP parser, before this crate decides
/// what to make of it.
#[derive(Debug, PartialEq)]
pub enum RawHead {
    Complete { method: Option<String>, target: Option<String> },
    Partial,
    Invalid,
}

impl View for RawHead {
    type V = HttpHead;

    open spec fn view(&self) -> HttpHead {
        match self {
            RawHead::Complete { method, target } => HttpHead::Complete {
                method: match method {
                    Some(m) => Some(m@),
                    None => None,
                },
                target: match target {
                    Some(t) => Some(t@),
                    None => None,
                },
            },
            RawHead::Partial => HttpHead::Partial,
            RawHead::Invalid => HttpHead::Invalid,
        }
    }
}

/// Relies on `httparse::Request::parse`, run with a fixed table of sixteen
/// headers: it reports a complete request head (a request line and headers
/// closed by a blank line), a partial one that needs more bytes, or an
/// invalid one, and on completion it has extracted the method and the target
/// from the request line. The verdict is a function of the bytes alone;
/// `http_head_of` names it.
#[verifier::external_body]
fn parse_head(data: &[u8]) -> (r: RawHead)
    ensures
        r@ == http_head_of(data@),
{
    let mut headers = [httparse::EMPTY_HEADER; 16];
    let mut req = httparse::Request::new(&mut headers);
    match req.parse(data) {
        Ok(httparse::Status::Complete(_)) => RawHead::Complete {
            method: req.method.map(|s| s.to_string()),
            target: req.path.map(|s| s.to_string()),
        },
        Ok(httparse::Status::Partial) => RawHead::Partial,
        Err(_) => RawHead::Invalid,
    }
}

/// Why a complete request head was rejected.
#[derive(Debug, PartialEq)]
pub enum MalformedReason {
    /// The head parsed, but its method was not CONNECT.
    UnsupportedMethod { method: String },
    /// The head parsed, but no method or no path could be extracted.
    MissingMethodOrPath,
    /// The bytes are not a valid request head at all.
    InvalidRequest,
}

/// What the parser tells its caller: a full CONNECT request was read, more
/// bytes are needed (the caller keeps its buffer and retries), or the
/// request must be rejected. Every failure is a value, never a panic.
#[derive(Debug, PartialEq)]
pub enum ParseOutcome {
    Complete { method: String, target: String },
    Incomplete,
    Malformed { reason: MalformedReason },
}

/// The mathematical form of [`MalformedReason`].
pub enum ReasonModel {
    UnsupportedMethod { method: Seq<char> },
    MissingMethodOrPath,
    InvalidRequest,
}

/// The mathematical form of [`ParseOutcome`].
pub enum OutcomeModel {
    Complete { method: Seq<char>, target: Seq<char> },
    Incomplete,
    Malformed { reason: ReasonModel },
}

impl View for MalformedReason {
    type V = ReasonModel;

    open spec fn view(&self) -> ReasonModel {
        match self {
            MalformedReason::UnsupportedMethod { method } => ReasonModel::UnsupportedMethod {
                method: method@,
            },
            MalformedReason::MissingMethodOrPath => ReasonModel::MissingMethodOrPath,
            MalformedReason::InvalidRequest => ReasonModel::InvalidRequest,
        }
    }
}

impl View for ParseOutcome {
    type V = OutcomeModel;

    open spec fn view(&self) -> OutcomeModel {
        match self {
            ParseOutcome::Complete { method, target } => OutcomeModel::Complete {
                method: method@,
                target: target@,
            },
            ParseOutcome::Incomplete => OutcomeModel::Incomplete,
            ParseOutcome::Malformed { reason } => OutcomeModel::Malformed { reason: reason@ },
        }
    }
}

/// The outcome owed for each possible verdict on the bytes: a complete head
/// whose method is exactly CONNECT is accepted with its target, a complete
/// head with any other method is rejected as unsupported, a head missing its
/// method or path is rejected as such, a partial head asks for more bytes,
/// and invalid bytes are rejected.
pub open spec fn outcome_of(h: HttpHead) -> OutcomeModel {
    match h {
        HttpHead::Complete { method: Some(m), target: Some(t) } => if m == "CONNECT"@ {
            OutcomeModel::Complete { method: m, target: t }
        } else {
            OutcomeModel::Malformed { reason: ReasonModel::UnsupportedMethod { method: m } }
        },
        HttpHead::Complete { .. } => OutcomeModel::Malformed {
            reason: ReasonModel::MissingMethodOrPath,
        },
        HttpHead::Partial => OutcomeModel::Incomplete,
        HttpHead::Invalid => OutcomeModel::Malformed { reason: ReasonModel::InvalidRequest },
    }
}

/// Decide what a raw parser verdict means for the handshake. This is the
/// whole of the crate's own judgement on a request head, separated from the
/// parser call so that it is verified for every verdict the parser could hand
/// back.
pub fn classify_head(head: RawHead) -> (r: ParseOutcome)
    ensures
        r@ == outcome_of(head@),
{
    match head {
        RawHead::Complete { method: Some(method), target: Some(target) } => {
            let connect = String::from_str("CONNECT");
            if method == connect {
                ParseOutcome::Complete { method, target }
            } else {
                ParseOutcome::Malformed {
                    reason: MalformedReason::UnsupportedMethod { method },
                }
            }
        },
        RawHead::Complete { .. } => ParseOutcome::Malformed {
            reason: MalformedReason::MissingMethodOrPath,
        },
        RawHead::Partial => ParseOutcome::Incomplete,
        RawHead::Invalid => ParseOutcome::Malformed { reason: MalformedReason::InvalidRequest },
    }
}

/// Parse the bytes accumulated so far. The caller owns accumulation: on
/// `Incomplete` it keeps its buffer, appends what arrives next and parses
/// again from the start.
///
/// Known limitation: the parser runs with a fixed table of sixteen headers,
/// so a request head carrying more than sixteen is rejected as invalid
/// rather than accepted. A CONNECT handshake needs no headers at all, so no
/// well-behaved client is affected.
pub fn parse(data: &[u8]) -> (r: ParseOutcome)
    ensures
        r@ == outcome_of(http_head_of(data@)),
{
    classify_head(parse_head(data))
}

/// A complete head with a CONNECT method and a target is always accepted,
/// and the target is handed on exactly as extracted.
pub proof fn lemma_connect_accepted(t: Seq<char>)
    ensures
        outcome_of(HttpHead::Complete { method: Some("CONNECT"@), target: Some(t) })
            == (OutcomeModel::Complete { method: "CONNECT"@, target: t }),
{
}

/// A complete head with any method other than CONNECT is always rejected,
/// and the rejection names that method.
pub proof fn lemma_non_connect_rejected(m: Seq<char>, t: Seq<char>)
    requires
        m != "CONNECT"@,
    ensures
        outcome_of(HttpHead::Complete { method: Some(m), target: Some(t) })
            == (OutcomeModel::Malformed { reason: ReasonModel::UnsupportedMethod { method: m } }),
{
}

/// A partial head is never an error: the owed outcome is `Incomplete`.
pub proof fn lemma_partial_is_incomplete()
    ensures
        outcome_of(HttpHead::Partial) == OutcomeModel::Incomplete,
{
}

} // verus!
