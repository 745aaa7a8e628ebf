//! What the gateway puts on record of the requests it handles.
use crate::policy::optional_text;
use vstd::prelude::*;

verus! {

/// One entry of the gateway's record.
#[derive(Debug)]
#[allow(inconsistent_fields)]
pub enum AuditEvent {
    /// The policy engine allowed the request.
    ConnectAllowed { source_identity: String, source_peer_addr: String, dest_authority: String },
    /// The request was refused, for the reason given.
    ConnectDenied {
        /// The client, where it could be told who it is.
        source_identity: Option<String>,
        source_peer_addr: String,
        dest_authority: String,
        deny_reason: String,
    },
    /// The destination could not be reached.
    ConnectFailed {
        source_identity: String,
        source_peer_addr: String,
        dest_authority: String,
        error: String,
    },
    /// The client's side of the tunnel could not be opened.
    UpgradeFailed {
        source_identity: String,
        source_peer_addr: String,
        dest_authority: String,
        error: String,
    },
    /// Both sides of the tunnel are at their end.
    TunnelClosed {
        source_identity: String,
        source_peer_addr: String,
        dest_authority: String,
        bytes_client_to_dest: u64,
        bytes_dest_to_client: u64,
    },
    /// The tunnel broke down.
    TunnelError {
        source_identity: String,
        source_peer_addr: String,
        dest_authority: String,
        error: String,
    },
}

/// An [`AuditEvent`] with its strings as character sequences.
#[allow(inconsistent_fields)]
pub ghost enum AuditEventView {
    ConnectAllowed {
        source_identity: Seq<char>,
        source_peer_addr: Seq<char>,
        dest_authority: Seq<char>,
    },
    ConnectDenied {
        source_identity: Option<Seq<char>>,
        source_peer_addr: Seq<char>,
        dest_authority: Seq<char>,
        deny_reason: Seq<char>,
    },
    ConnectFailed {
        source_identity: Seq<char>,
        source_peer_addr: Seq<char>,
        dest_authority: Seq<char>,
        error: Seq<char>,
    },
    UpgradeFailed {
        source_identity: Seq<char>,
        source_peer_addr: Seq<char>,
        dest_authority: Seq<char>,
        error: Seq<char>,
    },
    TunnelClosed {
        source_identity: Seq<char>,
        source_peer_addr: Seq<char>,
        dest_authority: Seq<char>,
        bytes_client_to_dest: u64,
        bytes_dest_to_client: u64,
    },
    TunnelError {
        source_identity: Seq<char>,
        source_peer_addr: Seq<char>,
        dest_authority: Seq<char>,
        error: Seq<char>,
    },
}

impl View for AuditEvent {
    type V = AuditEventView;

    open spec fn view(&self) -> AuditEventView {
        match *self {
            AuditEvent::ConnectAllowed { source_identity, source_peer_addr, dest_authority } => {
                AuditEventView::ConnectAllowed {
                    source_identity: source_identity@,
                    source_peer_addr: source_peer_addr@,
                    dest_authority: dest_authority@,
                }
            },
            AuditEvent::ConnectDenied {
                source_identity,
                source_peer_addr,
                dest_authority,
                deny_reason,
            } => {
                AuditEventView::ConnectDenied {
                    source_identity: optional_text(source_identity),
                    source_peer_addr: source_peer_addr@,
                    dest_authority: dest_authority@,
                    deny_reason: deny_reason@,
                }
            },
            AuditEvent::ConnectFailed {
                source_identity,
                source_peer_addr,
                dest_authority,
                error,
            } => {
                AuditEventView::ConnectFailed {
                    source_identity: source_identity@,
                    source_peer_addr: source_peer_addr@,
                    dest_authority: dest_authority@,
                    error: error@,
                }
            },
            AuditEvent::UpgradeFailed {
                source_identity,
                source_peer_addr,
                dest_authority,
                error,
            } => {
                AuditEventView::UpgradeFailed {
                    source_identity: source_identity@,
                    source_peer_addr: source_peer_addr@,
                    dest_authority: dest_authority@,
                    error: error@,
                }
            },
            AuditEvent::TunnelClosed {
                source_identity,
                source_peer_addr,
                dest_authority,
                bytes_client_to_dest,
                bytes_dest_to_client,
            } => {
                AuditEventView::TunnelClosed {
                    source_identity: source_identity@,
                    source_peer_addr: source_peer_addr@,
                    dest_authority: dest_authority@,
                    bytes_client_to_dest,
                    bytes_dest_to_client,
                }
            },
            AuditEvent::TunnelError {
                source_identity,
                source_peer_addr,
                dest_authority,
                error,
            } => {
                AuditEventView::TunnelError {
                    source_identity: source_identity@,
                    source_peer_addr: source_peer_addr@,
                    dest_authority: dest_authority@,
                    error: error@,
                }
            },
        }
    }
}

/// The entries of a record, one by one.
pub open spec fn entries(events: Seq<AuditEvent>) -> Seq<AuditEventView> {
    events.map_values(|e: AuditEvent| e@)
}

/// How much an entry of the record matters.
#[derive(Debug, Clone, Copy, PartialEq, Eq, Structural)]
pub enum Level {
    Info,
    Warn,
    Error,
}

impl AuditEventView {
    /// The words of the entry.
    pub open spec fn message(self) -> Seq<char> {
        match self {
            AuditEventView::ConnectAllowed { .. } => "CONNECT allowed"@,
            AuditEventView::ConnectDenied { .. } => "CONNECT denied"@,
            AuditEventView::ConnectFailed { .. } => "TCP connect failed"@,
            AuditEventView::UpgradeFailed { .. } => "upgrade failed"@,
            AuditEventView::TunnelClosed { .. } => "tunnel closed"@,
            AuditEventView::TunnelError { .. } => "tunnel error"@,
        }
    }

    /// What was decided, where the entry is of a decision.
    pub open spec fn policy_decision(self) -> Option<Seq<char>> {
        match self {
            AuditEventView::ConnectAllowed { .. } => Some("allow"@),
            AuditEventView::ConnectDenied { .. } => Some("deny"@),
            _ => None,
        }
    }

    /// How much the entry matters.
    pub open spec fn level(self) -> Level {
        match self {
            AuditEventView::ConnectAllowed { .. } => Level::Info,
            AuditEventView::ConnectDenied { .. } => Level::Warn,
            AuditEventView::ConnectFailed { .. } => Level::Error,
            AuditEventView::UpgradeFailed { .. } => Level::Warn,
            AuditEventView::TunnelClosed { .. } => Level::Info,
            AuditEventView::TunnelError { .. } => Level::Error,
        }
    }
}

impl AuditEvent {
    /// The words of the entry.
    pub fn message(&self) -> (message: &'static str)
        ensures
            message@ == self@.message(),
    {
        match self {
            AuditEvent::ConnectAllowed { .. } => "CONNECT allowed",
            AuditEvent::ConnectDenied { .. } => "CONNECT denied",
            AuditEvent::ConnectFailed { .. } => "TCP connect failed",
            AuditEvent::UpgradeFailed { .. } => "upgrade failed",
            AuditEvent::TunnelClosed { .. } => "tunnel closed",
            AuditEvent::TunnelError { .. } => "tunnel error",
        }
    }

    /// What was decided, where the entry is of a decision.
    pub fn policy_decision(&self) -> (decision: Option<&'static str>)
        ensures
            match decision {
                Some(word) => self@.policy_decision() == Some(word@),
                None => self@.policy_decision() is None,
            },
    {
        match self {
            AuditEvent::ConnectAllowed { .. } => Some("allow"),
            AuditEvent::ConnectDenied { .. } => Some("deny"),
            _ => None,
        }
    }

    /// How much the entry matters.
    pub fn level(&self) -> (level: Level)
        ensures
            level == self@.level(),
    {
        match self {
            AuditEvent::ConnectAllowed { .. } => Level::Info,
            AuditEvent::ConnectDenied { .. } => Level::Warn,
            AuditEvent::ConnectFailed { .. } => Level::Error,
            AuditEvent::UpgradeFailed { .. } => Level::Warn,
            AuditEvent::TunnelClosed { .. } => Level::Info,
            AuditEvent::TunnelError { .. } => Level::Error,
        }
    }
}

/// Only a failure to reach or to keep up a destination is an error. Denials and failed
/// upgrades are warnings, and the rest is information.
pub proof fn failures_stand_out(event: AuditEventView)
    ensures
        event.level() == Level::Error <==> event is ConnectFailed || event is TunnelError,
        event.level() == Level::Warn <==> event is ConnectDenied || event is UpgradeFailed,
        event.level() == Level::Info <==> event is ConnectAllowed || event is TunnelClosed,
{
}

/// A decision is named on the entries of allowed and of denied requests, and on no others.
pub proof fn only_decisions_are_named(event: AuditEventView)
    ensures
        event is ConnectAllowed ==> event.policy_decision() == Some("allow"@),
        event is ConnectDenied ==> event.policy_decision() == Some("deny"@),
        event.policy_decision() is Some <==> event is ConnectAllowed || event is ConnectDenied,
{
}

/// The words of an entry tell what happened, whoever it happened to.
pub proof fn entries_have_their_words(event: AuditEventView)
    ensures
        event is ConnectAllowed ==> event.message() == "CONNECT allowed"@,
        event is ConnectDenied ==> event.message() == "CONNECT denied"@,
        event is ConnectFailed ==> event.message() == "TCP connect failed"@,
        event is UpgradeFailed ==> event.message() == "upgrade failed"@,
        event is TunnelClosed ==> event.message() == "tunnel closed"@,
        event is TunnelError ==> event.message() == "tunnel error"@,
{
}

/// The view of an entry holds the words and numbers of the entry.
pub proof fn entries_show_their_fields(event: AuditEvent)
    ensures
        match event {
            AuditEvent::ConnectAllowed {
                source_identity: id,
                source_peer_addr: peer,
                dest_authority: dest,
            } => event@ == (AuditEventView::ConnectAllowed {
                source_identity: id@,
                source_peer_addr: peer@,
                dest_authority: dest@,
            }),
            AuditEvent::ConnectDenied {
                source_identity: id,
                source_peer_addr: peer,
                dest_authority: dest,
                deny_reason: reason,
            } => event@ == (AuditEventView::ConnectDenied {
                source_identity: match id {
                    Some(name) => Some(name@),
                    None => None,
                },
                source_peer_addr: peer@,
                dest_authority: dest@,
                deny_reason: reason@,
            }),
            AuditEvent::ConnectFailed {
                source_identity: id,
                source_peer_addr: peer,
                dest_authority: dest,
                error: e,
            } => event@ == (AuditEventView::ConnectFailed {
                source_identity: id@,
                source_peer_addr: peer@,
                dest_authority: dest@,
                error: e@,
            }),
            AuditEvent::UpgradeFailed {
                source_identity: id,
                source_peer_addr: peer,
                dest_authority: dest,
                error: e,
            } => event@ == (AuditEventView::UpgradeFailed {
                source_identity: id@,
                source_peer_addr: peer@,
                dest_authority: dest@,
                error: e@,
            }),
            AuditEvent::TunnelClosed {
                source_identity: id,
                source_peer_addr: peer,
                dest_authority: dest,
                bytes_client_to_dest: up,
                bytes_dest_to_client: down,
            } => event@ == (AuditEventView::TunnelClosed {
                source_identity: id@,
                source_peer_addr: peer@,
                dest_authority: dest@,
                bytes_client_to_dest: up,
                bytes_dest_to_client: down,
            }),
            AuditEvent::TunnelError {
                source_identity: id,
                source_peer_addr: peer,
                dest_authority: dest,
                error: e,
            } => event@ == (AuditEventView::TunnelError {
                source_identity: id@,
                source_peer_addr: peer@,
                dest_authority: dest@,
                error: e@,
            }),
        },
{
}

/// A record has one view per entry, in order.
pub proof fn entries_stay_in_order(events: Seq<AuditEvent>)
    ensures
        entries(events).len() == events.len(),
        forall|i: int| 0 <= i < events.len() ==> #[trigger] entries(events)[i] == events[i]@,
{
}

} // verus!
