//! What the proxy asks a policy engine, what it is answered, and the canonical
//! spelling in which destinations are named.
use crate::text::{chars_of, decimal_text, find_last, joined, parse_u16};
use crate::text::{decimal, last_index, lowered, u16_value};
use crate::text::{decimal_parses, digits_hold_no_colon, last_index_in_range};
use crate::text::{last_index_of_separator, lowered_is_stable};
use vstd::prelude::*;
use vstd::string::*;

verus! {

/// What a policy engine is told of a request.
#[derive(Debug)]
pub struct RequestContext {
    /// The certificates that the client presented, in DER, its own one first.
    pub peer_certificates: Vec<Vec<u8>>,
    /// The destination in canonical spelling.
    pub destination: String,
}

/// What a policy engine answers.
#[derive(Debug)]
#[allow(inconsistent_fields)]
pub enum PolicyDecision {
    Allow { source_identity: String },
    Deny { source_identity: Option<String>, reason: String },
}

/// A [`PolicyDecision`] with its strings as character sequences.
#[allow(inconsistent_fields)]
pub ghost enum PolicyDecisionView {
    Allow { source_identity: Seq<char> },
    Deny { source_identity: Option<Seq<char>>, reason: Seq<char> },
}

/// An optional string as an optional character sequence.
pub open spec fn optional_text(s: Option<String>) -> Option<Seq<char>> {
    match s {
        Some(s) => Some(s@),
        None => None,
    }
}

impl View for PolicyDecision {
    type V = PolicyDecisionView;

    open spec fn view(&self) -> PolicyDecisionView {
        match *self {
            PolicyDecision::Allow { source_identity } => {
                PolicyDecisionView::Allow { source_identity: source_identity@ }
            },
            PolicyDecision::Deny { source_identity, reason } => {
                PolicyDecisionView::Deny {
                    source_identity: optional_text(source_identity),
                    reason: reason@,
                }
            },
        }
    }
}

/// Why a text names no destination.
#[derive(Debug, Clone, Copy, PartialEq, Eq, Structural)]
pub enum NormalizeError {
    /// There is no colon that a port could follow.
    MissingPort,
    /// There is nothing in front of the last colon.
    EmptyHost,
    /// What follows the last colon is no port number.
    InvalidPort,
}

impl NormalizeError {
    pub open spec fn text(self) -> Seq<char> {
        match self {
            NormalizeError::MissingPort => "missing port"@,
            NormalizeError::EmptyHost => "empty host"@,
            NormalizeError::InvalidPort => "invalid port"@,
        }
    }

    pub fn message(&self) -> (message: &'static str)
        ensures
            message@ == self.text(),
    {
        match self {
            NormalizeError::MissingPort => "missing port",
            NormalizeError::EmptyHost => "empty host",
            NormalizeError::InvalidPort => "invalid port",
        }
    }
}

/// The canonical spelling of a destination: the host in lower case, a colon, and the
/// port in decimal notation. The host is all that stands in front of the last colon.
pub open spec fn canonical(text: Seq<char>) -> Result<Seq<char>, NormalizeError> {
    let colon = last_index(text, ':');
    if colon < 0 {
        Err(NormalizeError::MissingPort)
    } else if colon == 0 {
        Err(NormalizeError::EmptyHost)
    } else {
        match u16_value(text.skip(colon + 1)) {
            None => Err(NormalizeError::InvalidPort),
            Some(port) => Ok(lowered(text.take(colon)).push(':') + decimal(port as nat)),
        }
    }
}

/// Brings `host:port` into canonical spelling.
///
/// # Errors
///
/// Returns an error if the text has no host or no valid port.
pub fn normalize_destination(text: &str) -> (normalized: Result<String, NormalizeError>)
    ensures
        match normalized {
            Ok(s) => canonical(text@) == Ok::<Seq<char>, NormalizeError>(s@),
            Err(e) => canonical(text@) == Err::<Seq<char>, NormalizeError>(e),
        },
{
    let chars = chars_of(text);
    match find_last(&chars, ':') {
        None => Err(NormalizeError::MissingPort),
        Some(colon) => {
            proof {
                last_index_in_range(text@, ':');
            }
            if colon == 0 {
                return Err(NormalizeError::EmptyHost);
            }
            match parse_u16(&chars, colon + 1) {
                None => Err(NormalizeError::InvalidPort),
                Some(port) => {
                    let host = text.substring_char(0, colon).to_ascii_lowercase();
                    let with_colon = joined(host.as_str(), ":");
                    let port_text = decimal_text(port);
                    let spelled = joined(with_colon.as_str(), port_text.as_str());
                    proof {
                        reveal_strlit(":");
                        assert(text@.subrange(0, colon as int) == text@.take(colon as int));
                        assert(with_colon@ == lowered(text@.take(colon as int)).push(':'));
                    }
                    Ok(spelled)
                },
            }
        },
    }
}

/// The parts of `host:port` come out in canonical spelling, whatever the host.
pub proof fn canonical_of_parts(host: Seq<char>, port: u16)
    ensures
        canonical(host.push(':') + decimal(port as nat)) == if host.len() == 0 {
            Err::<Seq<char>, NormalizeError>(NormalizeError::EmptyHost)
        } else {
            Ok(lowered(host).push(':') + decimal(port as nat))
        },
{
    let digits = decimal(port as nat);
    let text = host.push(':') + digits;
    decimal_parses(port);
    digits_hold_no_colon(port as nat);
    last_index_of_separator(host, ':', digits);
    assert(text.skip(host.len() as int + 1) == digits);
    assert(text.take(host.len() as int) == host);
}

/// Canonical spelling is its own canonical spelling.
pub proof fn canonical_is_stable(text: Seq<char>)
    requires
        canonical(text) is Ok,
    ensures
        canonical(canonical(text)->Ok_0) == canonical(text),
{
    let colon = last_index(text, ':');
    last_index_in_range(text, ':');
    let host = lowered(text.take(colon));
    canonical_of_parts(host, u16_value(text.skip(colon + 1))->0);
    lowered_is_stable(text.take(colon));
}

/// What follows the last colon is the port. Where it is a number, the canonical spelling is
/// the host in lower case, a colon, and that number; a destination needs both.
pub proof fn canonical_splits_at_the_last_colon(host: Seq<char>, tail: Seq<char>)
    requires
        !tail.contains(':'),
    ensures
        host.len() == 0 ==> canonical(host.push(':') + tail) == Err::<Seq<char>, NormalizeError>(
            NormalizeError::EmptyHost,
        ),
        host.len() > 0 && u16_value(tail) is None ==> canonical(host.push(':') + tail) == Err::<
            Seq<char>,
            NormalizeError,
        >(NormalizeError::InvalidPort),
        host.len() > 0 ==> (u16_value(tail) matches Some(port) ==> canonical(
            host.push(':') + tail,
        ) == Ok::<Seq<char>, NormalizeError>(lowered(host).push(':') + decimal(port as nat))),
{
    let text = host.push(':') + tail;
    last_index_of_separator(host, ':', tail);
    assert(text.skip(host.len() as int + 1) == tail);
    assert(text.take(host.len() as int) == host);
}

/// A text without a colon names no port.
pub proof fn a_text_without_colon_has_no_port(text: Seq<char>)
    requires
        !text.contains(':'),
    ensures
        canonical(text) == Err::<Seq<char>, NormalizeError>(NormalizeError::MissingPort),
{
    crate::text::last_index_is_last(text, ':');
}

/// Each way of naming no destination has words of its own.
pub proof fn each_normalize_error_has_its_words(e: NormalizeError)
    ensures
        e is MissingPort ==> e.text() == "missing port"@,
        e is EmptyHost ==> e.text() == "empty host"@,
        e is InvalidPort ==> e.text() == "invalid port"@,
{
}

/// The view of an answer holds the words of the answer.
pub proof fn a_decision_shows_its_words(decision: PolicyDecision)
    ensures
        match decision {
            PolicyDecision::Allow { source_identity: id } => decision@ == (
            PolicyDecisionView::Allow { source_identity: id@ }),
            PolicyDecision::Deny { source_identity: Some(id), reason } => decision@ == (
            PolicyDecisionView::Deny { source_identity: Some(id@), reason: reason@ }),
            PolicyDecision::Deny { source_identity: None, reason } => decision@ == (
            PolicyDecisionView::Deny { source_identity: None, reason: reason@ }),
        },
{
}

/// An optional string is there where its characters are, and holds them.
pub proof fn optional_text_keeps_the_words(s: Option<String>)
    ensures
        s is Some <==> optional_text(s) is Some,
        s is Some ==> optional_text(s)->0 == s->0@,
{
}

} // verus!
