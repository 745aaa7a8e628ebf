//! The handling of a CONNECT request, from its arrival to the end of its tunnel.
//!
//! A request goes through three decisions, and between them its handler waits for
//! others: [`ProxyService::intake_text`] says what to ask the policy engine,
//! [`ProxyService::decide`] says from its answer what to connect to, if anything, and
//! [`ProxyService::dialled`] says from the outcome what the client is told.
//! [`Tunnel::finish`] settles the account when the tunnel is at its end.
use crate::audit::{entries, AuditEvent, AuditEventView, Level};
use crate::clock::{duration_nanos, elapsed_since};
use crate::destination::{authority_of, authority_value, destination_of_request, host_and_port};
use crate::destination::{bare_host, bracketed, host_of, parses_as_authority, port_of};
use crate::destination::{a_bracketed_address_is_connected_to_bare, a_named_port_is_kept};
use crate::destination::{a_plain_host_is_connected_to, no_host_is_no_destination};
use crate::destination::the_text_of_a_bracketed_address_reads_back;
use crate::destination::the_text_of_a_plain_host_reads_back;
use crate::destination::{Authority, AuthorityView, Destination, DestinationView};
use crate::policy::{canonical, NormalizeError, PolicyDecision, PolicyDecisionView};
use crate::policy::RequestContext;
use crate::rate_limit::{saturating_sum, RateLimiter, RateLimiterView};
use crate::text::{decimal, lowered, same_text};
use std::sync::Arc;
use std::time::Duration;
use vstd::prelude::*;

verus! {

/// The status of a reply.
#[derive(Debug, Clone, Copy, PartialEq, Eq, Structural)]
pub enum Status {
    Established,
    BadRequest,
    Forbidden,
    MethodNotAllowed,
    TooManyRequests,
    BadGateway,
}

impl Status {
    /// The number of the status in HTTP.
    pub open spec fn number(self) -> u16 {
        match self {
            Status::Established => 200,
            Status::BadRequest => 400,
            Status::Forbidden => 403,
            Status::MethodNotAllowed => 405,
            Status::TooManyRequests => 429,
            Status::BadGateway => 502,
        }
    }

    /// The number of the status in HTTP.
    pub fn code(self) -> (code: u16)
        ensures
            code == self.number(),
    {
        match self {
            Status::Established => 200,
            Status::BadRequest => 400,
            Status::Forbidden => 403,
            Status::MethodNotAllowed => 405,
            Status::TooManyRequests => 429,
            Status::BadGateway => 502,
        }
    }
}

/// What a client is answered.
#[derive(Debug)]
pub struct Reply {
    pub status: Status,
    /// The body; a reply without one ends with its head.
    pub body: Option<String>,
}

/// A [`Reply`] with its body as a character sequence.
pub ghost struct ReplyView {
    pub status: Status,
    pub body: Option<Seq<char>>,
}

impl View for Reply {
    type V = ReplyView;

    open spec fn view(&self) -> ReplyView {
        ReplyView { status: self.status, body: crate::policy::optional_text(self.body) }
    }
}

/// The reply with `message` as its body, or without a body where that is empty.
pub open spec fn reply_with(status: Status, message: Seq<char>) -> ReplyView {
    ReplyView {
        status,
        body: if message.len() == 0 {
            None
        } else {
            Some(message)
        },
    }
}

/// The reply with `message` as its body, or without a body where that is empty.
pub fn response(status: Status, message: &str) -> (reply: Reply)
    ensures
        reply@ == reply_with(status, message@),
{
    if message.is_empty() {
        Reply { status, body: None }
    } else {
        Reply { status, body: Some(message.to_owned()) }
    }
}

/// How long to wait after a connection could not be accepted, in milliseconds.
pub const ACCEPT_PAUSE_MS: u64 = 100;

/// What to do once the listener was asked for a connection.
#[derive(Debug)]
pub enum AcceptStep {
    /// Serve the connection.
    Serve,
    /// Log the error, wait, and ask the listener again.
    Pause { error: String, wait: Duration },
}

/// What to do once the listener has given a connection, or an error.
pub fn after_accept(accepted: Result<(), String>) -> (step: AcceptStep)
    ensures
        match accepted {
            Ok(_) => step is Serve,
            Err(e) => step matches AcceptStep::Pause { error, wait } && error@ == e@
                && duration_nanos(wait) == ACCEPT_PAUSE_MS * 1_000_000 && duration_nanos(wait)
                == 100_000_000,
        },
{
    match accepted {
        Ok(_) => AcceptStep::Serve,
        Err(error) => AcceptStep::Pause { error, wait: Duration::from_millis(ACCEPT_PAUSE_MS) },
    }
}

/// Certificates as byte sequences.
pub open spec fn ders(certs: Seq<Vec<u8>>) -> Seq<Seq<u8>> {
    certs.map_values(|c: Vec<u8>| c@)
}

/// The certificates that a client presented, of which there may be none.
#[must_use]
pub fn extract_peer_certs(presented: Option<Vec<Vec<u8>>>) -> (certs: Vec<Vec<u8>>)
    ensures
        certs@ == match presented {
            Some(certs) => certs@,
            None => Seq::empty(),
        },
{
    match presented {
        Some(certs) => certs,
        None => Vec::new(),
    }
}

fn copy_certs(certs: &Vec<Vec<u8>>) -> (copy: Vec<Vec<u8>>)
    ensures
        ders(copy@) == ders(certs@),
{
    let mut copy: Vec<Vec<u8>> = Vec::new();
    for i in 0..certs.len()
        invariant
            copy.len() == i,
            forall|j: int| 0 <= j < i ==> (#[trigger] copy@[j])@ == certs@[j]@,
    {
        copy.push(certs[i].clone());
    }
    assert(ders(copy@) =~= ders(certs@));
    copy
}

/// [`Arc::clone`] makes another pointer to the same value.
#[verifier::external_body]
fn share<T: ?Sized>(pointer: &Arc<T>) -> (another: Arc<T>)
    ensures
        another == *pointer,
{
    Arc::clone(pointer)
}

/// The service for one client connection. `E` is the policy engine, `L` what guards
/// the rate limiter that all connections share.
pub struct ProxyService<E: ?Sized, L: ?Sized> {
    pub policy_engine: Arc<E>,
    pub rate_limiter: Arc<L>,
    pub peer_certs: Vec<Vec<u8>>,
    pub source_peer_addr: String,
}

/// What the handling of a request takes from its [`ProxyService`].
pub ghost struct ProxyServiceView {
    pub peer_certs: Seq<Seq<u8>>,
    pub source_peer_addr: Seq<char>,
}

impl<E: ?Sized, L: ?Sized> View for ProxyService<E, L> {
    type V = ProxyServiceView;

    open spec fn view(&self) -> ProxyServiceView {
        ProxyServiceView {
            peer_certs: ders(self.peer_certs@),
            source_peer_addr: self.source_peer_addr@,
        }
    }
}

/// Makes the service of each client connection.
pub struct MakeProxyService<E: ?Sized, L: ?Sized> {
    pub policy_engine: Arc<E>,
    pub rate_limiter: Arc<L>,
}

impl<E: ?Sized, L: ?Sized> MakeProxyService<E, L> {
    pub fn new(policy_engine: Arc<E>, rate_limiter: Arc<L>) -> (made: Self)
        ensures
            made.policy_engine == policy_engine,
            made.rate_limiter == rate_limiter,
    {
        MakeProxyService { policy_engine, rate_limiter }
    }

    #[must_use]
    pub fn make_service(&self, peer_certs: Vec<Vec<u8>>, source_peer_addr: String) -> (service:
        ProxyService<E, L>)
        ensures
            service.policy_engine == self.policy_engine,
            service.rate_limiter == self.rate_limiter,
            service.peer_certs == peer_certs,
            service.source_peer_addr == source_peer_addr,
    {
        ProxyService::new(
            share(&self.policy_engine),
            share(&self.rate_limiter),
            peer_certs,
            source_peer_addr,
        )
    }
}

impl<E: ?Sized, L: ?Sized> ProxyService<E, L> {
    pub fn new(
        policy_engine: Arc<E>,
        rate_limiter: Arc<L>,
        peer_certs: Vec<Vec<u8>>,
        source_peer_addr: String,
    ) -> (service: Self)
        ensures
            service == (ProxyService { policy_engine, rate_limiter, peer_certs, source_peer_addr }),
    {
        ProxyService { policy_engine, rate_limiter, peer_certs, source_peer_addr }
    }
}

impl<E: ?Sized, L: ?Sized> Clone for ProxyService<E, L> {
    fn clone(&self) -> (copy: Self)
        ensures
            copy@ == self@,
            copy.policy_engine == self.policy_engine,
            copy.rate_limiter == self.rate_limiter,
    {
        ProxyService {
            policy_engine: share(&self.policy_engine),
            rate_limiter: share(&self.rate_limiter),
            peer_certs: copy_certs(&self.peer_certs),
            source_peer_addr: self.source_peer_addr.clone(),
        }
    }
}

/// The record of a refused request.
fn log_denial(
    source_identity: Option<String>,
    source_peer_addr: &str,
    dest_authority: &str,
    reason: &str,
) -> (event: AuditEvent)
    ensures
        event@ == (AuditEventView::ConnectDenied {
            source_identity: crate::policy::optional_text(source_identity),
            source_peer_addr: source_peer_addr@,
            dest_authority: dest_authority@,
            deny_reason: reason@,
        }),
        event@.level() == Level::Warn,
        event@.message() == "CONNECT denied"@,
        event@.policy_decision() == Some("deny"@),
{
    AuditEvent::ConnectDenied {
        source_identity,
        source_peer_addr: source_peer_addr.to_owned(),
        dest_authority: dest_authority.to_owned(),
        deny_reason: reason.to_owned(),
    }
}

/// What to do with a request that has arrived.
#[derive(Debug)]
pub enum Intake {
    /// Answer the client; the policy engine is not asked.
    Reject(Reply),
    /// Ask the policy engine, and take its answer to [`ProxyService::decide`].
    Evaluate { context: RequestContext, destination: Destination },
}

/// A [`RequestContext`] with its contents as sequences.
pub ghost struct RequestContextView {
    pub peer_certificates: Seq<Seq<u8>>,
    pub destination: Seq<char>,
}

/// An [`Intake`] with its contents as sequences.
pub ghost enum IntakeView {
    Reject(ReplyView),
    Evaluate { context: RequestContextView, destination: DestinationView },
}

impl View for Intake {
    type V = IntakeView;

    open spec fn view(&self) -> IntakeView {
        match *self {
            Intake::Reject(reply) => IntakeView::Reject(reply@),
            Intake::Evaluate { context, destination } => {
                IntakeView::Evaluate {
                    context: RequestContextView {
                        peer_certificates: ders(context.peer_certificates@),
                        destination: context.destination@,
                    },
                    destination: destination@,
                }
            },
        }
    }
}

/// What to do once the policy engine has answered.
#[derive(Debug)]
pub enum Verdict {
    /// Put the events on record and answer the client.
    Refuse { events: Vec<AuditEvent>, reply: Reply },
    /// Put the event on record, connect to `host` and `port`, and take the outcome to
    /// [`ProxyService::dialled`].
    Connect { event: AuditEvent, source_identity: String, host: String, port: u16 },
}

/// A [`Verdict`] with its contents as sequences.
pub ghost enum VerdictView {
    Refuse { events: Seq<AuditEventView>, reply: ReplyView },
    Connect { event: AuditEventView, source_identity: Seq<char>, host: Seq<char>, port: u16 },
}

impl View for Verdict {
    type V = VerdictView;

    open spec fn view(&self) -> VerdictView {
        match *self {
            Verdict::Refuse { events, reply } => {
                VerdictView::Refuse { events: entries(events@), reply: reply@ }
            },
            Verdict::Connect { event, source_identity, host, port } => {
                VerdictView::Connect {
                    event: event@,
                    source_identity: source_identity@,
                    host: host@,
                    port,
                }
            },
        }
    }
}

/// What to do once the destination was dialled.
#[derive(Debug)]
pub enum Dialled {
    /// Put the event on record and answer the client.
    Failed { event: AuditEvent, reply: Reply },
    /// Answer the client and open the tunnel.
    Open { reply: Reply, tunnel: Tunnel },
}

/// A [`Dialled`] with its contents as sequences.
pub ghost enum DialledView {
    Failed { event: AuditEventView, reply: ReplyView },
    Open { reply: ReplyView, tunnel: TunnelView },
}

impl View for Dialled {
    type V = DialledView;

    open spec fn view(&self) -> DialledView {
        match *self {
            Dialled::Failed { event, reply } => {
                DialledView::Failed { event: event@, reply: reply@ }
            },
            Dialled::Open { reply, tunnel } => {
                DialledView::Open { reply: reply@, tunnel: tunnel@ }
            },
        }
    }
}

/// A tunnel between a client and a destination.
#[derive(Debug)]
pub struct Tunnel {
    pub source_identity: String,
    pub source_peer_addr: String,
    pub dest_authority: String,
}

/// A [`Tunnel`] with its strings as character sequences.
pub ghost struct TunnelView {
    pub source_identity: Seq<char>,
    pub source_peer_addr: Seq<char>,
    pub dest_authority: Seq<char>,
}

impl View for Tunnel {
    type V = TunnelView;

    open spec fn view(&self) -> TunnelView {
        TunnelView {
            source_identity: self.source_identity@,
            source_peer_addr: self.source_peer_addr@,
            dest_authority: self.dest_authority@,
        }
    }
}

impl ProxyServiceView {
    /// Only CONNECT requests that name a destination get to the policy engine, which is
    /// told the client's certificates and the destination's canonical spelling.
    pub open spec fn intake(
        self,
        method: Seq<char>,
        authority: Option<AuthorityView>,
    ) -> IntakeView {
        if method != "CONNECT"@ {
            IntakeView::Reject(reply_with(Status::MethodNotAllowed, "only CONNECT is supported"@))
        } else {
            match destination_of_request(authority) {
                Err(reason) => IntakeView::Reject(reply_with(Status::BadRequest, reason)),
                Ok(destination) => IntakeView::Evaluate {
                    context: RequestContextView {
                        peer_certificates: self.peer_certs,
                        destination: destination.authority,
                    },
                    destination,
                },
            }
        }
    }

    /// As [`intake`](Self::intake), for the text of an authority. The text is looked at
    /// only in a CONNECT request, which is a bad one where the text is no authority.
    pub open spec fn intake_text(
        self,
        method: Seq<char>,
        authority: Option<Seq<char>>,
    ) -> IntakeView {
        if method != "CONNECT"@ {
            self.intake(method, None)
        } else {
            match authority {
                None => self.intake(method, None),
                Some(text) => if parses_as_authority(text) {
                    self.intake(method, Some(authority_of(text)))
                } else {
                    IntakeView::Reject(
                        reply_with(Status::BadRequest, "invalid CONNECT authority"@),
                    )
                },
            }
        }
    }

    /// The record of a request to `dest_authority` that the policy engine allowed.
    pub open spec fn allowed(
        self,
        source_identity: Seq<char>,
        dest_authority: Seq<char>,
    ) -> AuditEventView {
        AuditEventView::ConnectAllowed {
            source_identity,
            source_peer_addr: self.source_peer_addr,
            dest_authority,
        }
    }

    /// The record of a request to `dest_authority` that was refused.
    pub open spec fn denied(
        self,
        source_identity: Option<Seq<char>>,
        dest_authority: Seq<char>,
        deny_reason: Seq<char>,
    ) -> AuditEventView {
        AuditEventView::ConnectDenied {
            source_identity,
            source_peer_addr: self.source_peer_addr,
            dest_authority,
            deny_reason,
        }
    }

    /// A request is refused where the policy engine denies it, and where it allows it
    /// to an identity that is over its byte allowance. Otherwise the destination's own
    /// host and port are connected to.
    pub open spec fn decide(
        self,
        destination: DestinationView,
        decision: PolicyDecisionView,
        within_limit: bool,
    ) -> VerdictView {
        match decision {
            PolicyDecisionView::Deny { source_identity, reason } => VerdictView::Refuse {
                events: seq![self.denied(source_identity, destination.authority, reason)],
                reply: reply_with(Status::Forbidden, "forbidden"@),
            },
            PolicyDecisionView::Allow { source_identity } => if within_limit {
                VerdictView::Connect {
                    event: self.allowed(source_identity, destination.authority),
                    source_identity,
                    host: destination.host,
                    port: destination.port,
                }
            } else {
                VerdictView::Refuse {
                    events: seq![
                        self.allowed(source_identity, destination.authority),
                        self.denied(
                            Some(source_identity),
                            destination.authority,
                            "rate limit exceeded"@,
                        ),
                    ],
                    reply: reply_with(Status::TooManyRequests, "rate limit exceeded"@),
                }
            },
        }
    }

    /// The client is told of success only where the destination was reached.
    pub open spec fn dialled(
        self,
        dest_authority: Seq<char>,
        source_identity: Seq<char>,
        outcome: Result<(), Seq<char>>,
    ) -> DialledView {
        match outcome {
            Err(error) => DialledView::Failed {
                event: AuditEventView::ConnectFailed {
                    source_identity,
                    source_peer_addr: self.source_peer_addr,
                    dest_authority,
                    error,
                },
                reply: reply_with(Status::BadGateway, "bad gateway"@),
            },
            Ok(_) => DialledView::Open {
                reply: ReplyView { status: Status::Established, body: None },
                tunnel: TunnelView {
                    source_identity,
                    source_peer_addr: self.source_peer_addr,
                    dest_authority,
                },
            },
        }
    }
}

/// Success or an error, with the error's words as a character sequence.
pub open spec fn dial_outcome(outcome: Result<(), String>) -> Result<(), Seq<char>> {
    match outcome {
        Ok(_) => Ok(()),
        Err(e) => Err(e@),
    }
}

impl<E: ?Sized, L: ?Sized> ProxyService<E, L> {
    /// What to do with a request that has arrived.
    pub fn intake(&self, method: &str, authority: Option<&Authority>) -> (intake: Intake)
        ensures
            intake@ == self@.intake(method@, authority_value(authority)),
    {
        if !same_text(method, "CONNECT") {
            return Intake::Reject(
                response(Status::MethodNotAllowed, "only CONNECT is supported"),
            );
        }
        match Destination::from_request(authority) {
            Err(reason) => Intake::Reject(response(Status::BadRequest, reason.as_str())),
            Ok(destination) => {
                let context = RequestContext {
                    peer_certificates: copy_certs(&self.peer_certs),
                    destination: destination.authority.clone(),
                };
                Intake::Evaluate { context, destination }
            },
        }
    }

    /// What to do with a request that has arrived with the text of an authority.
    pub fn intake_text(&self, method: &str, authority: Option<&str>) -> (intake: Intake)
        ensures
            intake@ == self@.intake_text(
                method@,
                match authority {
                    Some(text) => Some(text@),
                    None => None,
                },
            ),
    {
        if !same_text(method, "CONNECT") {
            return self.intake(method, None);
        }
        match authority {
            None => self.intake(method, None),
            Some(text) => match Authority::parse(text) {
                Ok(parsed) => self.intake(method, Some(&parsed)),
                Err(_) => Intake::Reject(
                    response(Status::BadRequest, "invalid CONNECT authority"),
                ),
            },
        }
    }

    /// What to do once the policy engine has answered `decision`, where
    /// `within_limit` says whether the identity that it allows is within its byte
    /// allowance.
    pub fn decide_with(
        &self,
        destination: &Destination,
        decision: PolicyDecision,
        within_limit: bool,
    ) -> (verdict: Verdict)
        ensures
            verdict@ == self@.decide(destination@, decision@, within_limit),
    {
        match decision {
            PolicyDecision::Allow { source_identity } => {
                let allowed = AuditEvent::ConnectAllowed {
                    source_identity: source_identity.clone(),
                    source_peer_addr: self.source_peer_addr.clone(),
                    dest_authority: destination.authority.clone(),
                };
                if within_limit {
                    return Verdict::Connect {
                        event: allowed,
                        source_identity,
                        host: destination.host.clone(),
                        port: destination.port,
                    };
                }
                let denied = log_denial(
                    Some(source_identity),
                    self.source_peer_addr.as_str(),
                    destination.authority.as_str(),
                    "rate limit exceeded",
                );
                let mut events: Vec<AuditEvent> = Vec::new();
                events.push(allowed);
                events.push(denied);
                assert(entries(events@) =~= seq![allowed@, denied@]);
                let reply = response(Status::TooManyRequests, "rate limit exceeded");
                Verdict::Refuse { events, reply }
            },
            PolicyDecision::Deny { source_identity, reason } => {
                let denied = log_denial(
                    source_identity,
                    self.source_peer_addr.as_str(),
                    destination.authority.as_str(),
                    reason.as_str(),
                );
                let mut events: Vec<AuditEvent> = Vec::new();
                events.push(denied);
                assert(entries(events@) =~= seq![denied@]);
                let reply = response(Status::Forbidden, "forbidden");
                Verdict::Refuse { events, reply }
            },
        }
    }

    /// What to do once the policy engine has answered `decision`, at this moment.
    ///
    /// The answer is that of [`decide_with`](Self::decide_with) for what `limiter` says
    /// of the identity at the time that has gone by since it was made.
    pub fn decide(
        &self,
        destination: &Destination,
        decision: PolicyDecision,
        limiter: &RateLimiter,
    ) -> (verdict: Verdict)
        ensures
            match decision@ {
                PolicyDecisionView::Deny { .. } => {
                    verdict@ == self@.decide(destination@, decision@, true)
                },
                PolicyDecisionView::Allow { source_identity } => {
                    exists|at: u128|
                        elapsed_since(limiter.origin(), at) && verdict@ == self@.decide(
                            destination@,
                            decision@,
                            #[trigger] limiter@.allows(source_identity, at as nat),
                        )
                },
            },
    {
        let within_limit = match &decision {
            PolicyDecision::Allow { source_identity } => limiter.is_allowed(
                source_identity.as_str(),
            ),
            PolicyDecision::Deny { .. } => true,
        };
        self.decide_with(destination, decision, within_limit)
    }

    /// What to do once the destination was dialled for `source_identity`.
    pub fn dialled(
        &self,
        destination: &Destination,
        source_identity: String,
        outcome: Result<(), String>,
    ) -> (dialled: Dialled)
        ensures
            dialled@ == self@.dialled(
                destination.authority@,
                source_identity@,
                dial_outcome(outcome),
            ),
    {
        match outcome {
            Err(error) => Dialled::Failed {
                event: AuditEvent::ConnectFailed {
                    source_identity,
                    source_peer_addr: self.source_peer_addr.clone(),
                    dest_authority: destination.authority.clone(),
                    error,
                },
                reply: response(Status::BadGateway, "bad gateway"),
            },
            Ok(_) => {
                proof {
                    reveal_strlit("");
                }
                Dialled::Open {
                    reply: response(Status::Established, ""),
                    tunnel: Tunnel {
                        source_identity,
                        source_peer_addr: self.source_peer_addr.clone(),
                        dest_authority: destination.authority.clone(),
                    },
                }
            },
        }
    }
}

impl TunnelView {
    /// The record of a tunnel that never opened on the client's side.
    pub open spec fn upgrade_failed(self, error: Seq<char>) -> AuditEventView {
        AuditEventView::UpgradeFailed {
            source_identity: self.source_identity,
            source_peer_addr: self.source_peer_addr,
            dest_authority: self.dest_authority,
            error,
        }
    }

    /// The record of a tunnel that has carried so many bytes to the destination and
    /// back, or broke down.
    pub open spec fn finished(self, outcome: Result<(u64, u64), Seq<char>>) -> AuditEventView {
        match outcome {
            Ok((up, down)) => AuditEventView::TunnelClosed {
                source_identity: self.source_identity,
                source_peer_addr: self.source_peer_addr,
                dest_authority: self.dest_authority,
                bytes_client_to_dest: up,
                bytes_dest_to_client: down,
            },
            Err(error) => AuditEventView::TunnelError {
                source_identity: self.source_identity,
                source_peer_addr: self.source_peer_addr,
                dest_authority: self.dest_authority,
                error,
            },
        }
    }

    /// The limiter after the tunnel was charged to its client: the bytes of both
    /// directions where it closed in order, nothing where it broke down.
    pub open spec fn charged(
        self,
        outcome: Result<(u64, u64), Seq<char>>,
        limiter: RateLimiterView,
        now: u128,
        at: nat,
    ) -> RateLimiterView {
        match outcome {
            Ok((up, down)) => limiter.record(
                self.source_identity,
                saturating_sum(up as nat, down as nat) as u64,
                now,
                at,
            ),
            Err(_) => limiter,
        }
    }
}

/// The bytes carried or an error, with the error's words as a character sequence.
pub open spec fn copy_outcome(outcome: Result<(u64, u64), String>) -> Result<
    (u64, u64),
    Seq<char>,
> {
    match outcome {
        Ok(counts) => Ok(counts),
        Err(e) => Err(e@),
    }
}

impl Tunnel {
    /// The record of a tunnel that never opened on the client's side.
    pub fn upgrade_failed(&self, error: String) -> (event: AuditEvent)
        ensures
            event@ == self@.upgrade_failed(error@),
    {
        AuditEvent::UpgradeFailed {
            source_identity: self.source_identity.clone(),
            source_peer_addr: self.source_peer_addr.clone(),
            dest_authority: self.dest_authority.clone(),
            error,
        }
    }

    /// The record of a tunnel that is at its end.
    fn finished(&self, outcome: Result<(u64, u64), String>) -> (event: AuditEvent)
        ensures
            event@ == self@.finished(copy_outcome(outcome)),
    {
        match outcome {
            Ok((up, down)) => AuditEvent::TunnelClosed {
                source_identity: self.source_identity.clone(),
                source_peer_addr: self.source_peer_addr.clone(),
                dest_authority: self.dest_authority.clone(),
                bytes_client_to_dest: up,
                bytes_dest_to_client: down,
            },
            Err(error) => AuditEvent::TunnelError {
                source_identity: self.source_identity.clone(),
                source_peer_addr: self.source_peer_addr.clone(),
                dest_authority: self.dest_authority.clone(),
                error,
            },
        }
    }

    /// Charges a tunnel that is at its end to its client, with the times that
    /// [`RateLimiter::record_bytes_at`] takes, and gives its record.
    pub fn finish_at(
        &self,
        outcome: Result<(u64, u64), String>,
        limiter: &mut RateLimiter,
        now: u128,
        at: u128,
    ) -> (event: AuditEvent)
        ensures
            event@ == self@.finished(copy_outcome(outcome)),
            final(limiter)@ == self@.charged(copy_outcome(outcome), old(limiter)@, now, at as nat),
            final(limiter).origin() == old(limiter).origin(),
    {
        if let Ok((up, down)) = outcome {
            limiter.record_bytes_at(
                self.source_identity.as_str(),
                up.saturating_add(down),
                now,
                at,
            );
        }
        self.finished(outcome)
    }

    /// Charges a tunnel that is at its end to its client, now, and gives its record.
    ///
    /// The effect is that of [`finish_at`](Self::finish_at) for two readings of the time
    /// that has gone by since `limiter` was made.
    pub fn finish(&self, outcome: Result<(u64, u64), String>, limiter: &mut RateLimiter) -> (event:
        AuditEvent)
        ensures
            event@ == self@.finished(copy_outcome(outcome)),
            outcome is Ok ==> exists|now: u128, at: u128|
                {
                    &&& elapsed_since(old(limiter).origin(), now)
                    &&& elapsed_since(old(limiter).origin(), at)
                    &&& final(limiter)@ == #[trigger] self@.charged(
                        copy_outcome(outcome),
                        old(limiter)@,
                        now,
                        at as nat,
                    )
                },
            outcome is Err ==> final(limiter)@ == old(limiter)@,
            final(limiter).origin() == old(limiter).origin(),
    {
        if let Ok((up, down)) = outcome {
            limiter.record_bytes(self.source_identity.as_str(), up.saturating_add(down));
            proof {
                let bytes = saturating_sum(up as nat, down as nat) as u64;
                let (now, at) = choose|now: u128, at: u128|
                    {
                        &&& elapsed_since(old(limiter).origin(), now)
                        &&& elapsed_since(old(limiter).origin(), at)
                        &&& limiter@ == #[trigger] old(limiter)@.record(
                            self@.source_identity,
                            bytes,
                            now,
                            at as nat,
                        )
                    };
                let _ = self@.charged(copy_outcome(outcome), old(limiter)@, now, at as nat);
            }
        }
        self.finished(outcome)
    }
}

/// A request, with what everyone who is asked on its way answers.
pub ghost struct Exchange {
    pub method: Seq<char>,
    pub authority: Option<AuthorityView>,
    pub decision: PolicyDecisionView,
    pub within_limit: bool,
    pub outcome: Result<(), Seq<char>>,
}

impl Exchange {
    /// Whether the policy engine is asked.
    pub open spec fn reaches_policy(self) -> bool {
        self.method == "CONNECT"@ && destination_of_request(self.authority) is Ok
    }

    /// The destination of a request that reaches the policy engine.
    pub open spec fn destination(self) -> DestinationView {
        destination_of_request(self.authority)->Ok_0
    }
}

impl ProxyServiceView {
    /// What the client is answered in the end.
    pub open spec fn answer(self, exchange: Exchange) -> ReplyView {
        match self.intake(exchange.method, exchange.authority) {
            IntakeView::Reject(reply) => reply,
            IntakeView::Evaluate { destination, .. } => match self.decide(
                destination,
                exchange.decision,
                exchange.within_limit,
            ) {
                VerdictView::Refuse { reply, .. } => reply,
                VerdictView::Connect { source_identity, .. } => match self.dialled(
                    destination.authority,
                    source_identity,
                    exchange.outcome,
                ) {
                    DialledView::Failed { reply, .. } => reply,
                    DialledView::Open { reply, .. } => reply,
                },
            },
        }
    }

    /// What is put on record until the client is answered, in order.
    pub open spec fn record(self, exchange: Exchange) -> Seq<AuditEventView> {
        match self.intake(exchange.method, exchange.authority) {
            IntakeView::Reject(_) => Seq::empty(),
            IntakeView::Evaluate { destination, .. } => match self.decide(
                destination,
                exchange.decision,
                exchange.within_limit,
            ) {
                VerdictView::Refuse { events, .. } => events,
                VerdictView::Connect { event, source_identity, .. } => match self.dialled(
                    destination.authority,
                    source_identity,
                    exchange.outcome,
                ) {
                    DialledView::Failed { event: failure, .. } => seq![event, failure],
                    DialledView::Open { .. } => seq![event],
                },
            },
        }
    }
}

/// Each status has one cause. Success in particular is answered just where the
/// request is a CONNECT that names a destination, the policy engine allows it, the
/// identity is within its byte allowance, and the destination was reached.
pub proof fn each_status_has_one_cause(service: ProxyServiceView, exchange: Exchange)
    ensures
        ({
            let status = service.answer(exchange).status;
            let allowed = exchange.reaches_policy() && exchange.decision is Allow;
            &&& status == Status::MethodNotAllowed <==> exchange.method != "CONNECT"@
            &&& status == Status::BadRequest <==> exchange.method == "CONNECT"@
                && destination_of_request(exchange.authority) is Err
            &&& status == Status::Forbidden <==> exchange.reaches_policy()
                && exchange.decision is Deny
            &&& status == Status::TooManyRequests <==> allowed && !exchange.within_limit
            &&& status == Status::BadGateway <==> allowed && exchange.within_limit
                && exchange.outcome is Err
            &&& status == Status::Established <==> allowed && exchange.within_limit
                && exchange.outcome is Ok
        }),
{
}

/// Success is answered without a body; every refusal says in its body why.
pub proof fn only_success_is_silent(service: ProxyServiceView, exchange: Exchange)
    ensures
        service.answer(exchange).body is None <==> service.answer(exchange).status
            == Status::Established,
{
    reveal_strlit("only CONNECT is supported");
    reveal_strlit("CONNECT request missing authority");
    reveal_strlit("empty host in CONNECT authority");
    reveal_strlit("bad destination: ");
    reveal_strlit("forbidden");
    reveal_strlit("rate limit exceeded");
    reveal_strlit("bad gateway");
}

/// A client that is denied is not told why: all it reads is that it is forbidden.
pub proof fn denial_reason_stays_on_record(
    service: ProxyServiceView,
    exchange: Exchange,
    source_identity: Option<Seq<char>>,
    reason: Seq<char>,
)
    requires
        exchange.reaches_policy(),
        exchange.decision == (PolicyDecisionView::Deny { source_identity, reason }),
    ensures
        service.answer(exchange) == reply_with(Status::Forbidden, "forbidden"@),
        service.record(exchange) == seq![
            service.denied(source_identity, exchange.destination().authority, reason),
        ],
{
}

/// Nothing is on record of a request just where it did not reach the policy engine.
/// Otherwise the first entry names what the policy engine decided.
pub proof fn record_begins_with_the_policy(service: ProxyServiceView, exchange: Exchange)
    ensures
        service.record(exchange).len() == 0 <==> !exchange.reaches_policy(),
        exchange.reaches_policy() ==> service.record(exchange)[0].policy_decision() == Some(
            if exchange.decision is Allow {
                "allow"@
            } else {
                "deny"@
            },
        ),
{
}

/// A denial is on record just where the request was forbidden or over the byte
/// allowance, and then it is the last entry.
pub proof fn denials_are_on_record(service: ProxyServiceView, exchange: Exchange)
    ensures
        ({
            let record = service.record(exchange);
            let status = service.answer(exchange).status;
            let refused = status == Status::Forbidden || status == Status::TooManyRequests;
            &&& refused ==> record.len() > 0 && record.last() is ConnectDenied
            &&& !refused ==> forall|i: int|
                0 <= i < record.len() ==> !(#[trigger] record[i] is ConnectDenied)
        }),
{
}

/// A tunnel leads where the policy engine was asked about, and belongs to the identity
/// that the policy engine allowed. The host and port that were connected to are those
/// whose canonical spelling the policy engine was told.
pub proof fn tunnel_is_what_was_allowed(
    service: ProxyServiceView,
    method: Seq<char>,
    authority: Option<AuthorityView>,
    context: RequestContextView,
    destination: DestinationView,
    decision: PolicyDecisionView,
    within_limit: bool,
    event: AuditEventView,
    source_identity: Seq<char>,
    host: Seq<char>,
    port: u16,
    outcome: Result<(), Seq<char>>,
    reply: ReplyView,
    tunnel: TunnelView,
)
    requires
        service.intake(method, authority) == (IntakeView::Evaluate { context, destination }),
        service.decide(destination, decision, within_limit) == (VerdictView::Connect {
            event,
            source_identity,
            host,
            port,
        }),
        service.dialled(destination.authority, source_identity, outcome) == (DialledView::Open {
            reply,
            tunnel,
        }),
    ensures
        tunnel.dest_authority == context.destination,
        decision == (PolicyDecisionView::Allow { source_identity: tunnel.source_identity }),
        context.peer_certificates == service.peer_certs,
        host == destination.host,
        port == destination.port,
        canonical(host_and_port(host, port)) == Ok::<Seq<char>, NormalizeError>(
            context.destination,
        ),
{
}

/// Once a tunnel has carried a client's byte allowance in both directions together,
/// the client's next request that the policy engine allows is answered that the rate
/// limit is exceeded, until the window is over in which the tunnel was charged.
pub proof fn spent_tunnel_blocks_the_next_request(
    service: ProxyServiceView,
    tunnel: TunnelView,
    up: u64,
    down: u64,
    limiter: RateLimiterView,
    now: u128,
    at: nat,
    later: nat,
    exchange: Exchange,
)
    requires
        limiter.enabled,
        up + down >= limiter.bytes_per_window,
        limiter.window > 0,
        exchange.reaches_policy(),
        exchange.decision == (PolicyDecisionView::Allow {
            source_identity: tunnel.source_identity,
        }),
        exchange.within_limit == tunnel.charged(Ok((up, down)), limiter, now, at).allows(
            tunnel.source_identity,
            later,
        ),
        later < tunnel.charged(
            Ok((up, down)),
            limiter,
            now,
            at,
        ).usage[tunnel.source_identity].window_start + limiter.window,
    ensures
        service.answer(exchange) == reply_with(Status::TooManyRequests, "rate limit exceeded"@),
{
    let bytes = saturating_sum(up as nat, down as nat) as u64;
    crate::rate_limit::spent_allowance_denies_until_window_ends(
        limiter,
        tunnel.source_identity,
        bytes,
        now,
        at,
        later,
    );
}

/// A tunnel that breaks down is charged to nobody, and what a tunnel is charged to
/// its own client leaves every other identity as it was.
pub proof fn tunnels_are_charged_to_their_own_client(
    tunnel: TunnelView,
    outcome: Result<(u64, u64), Seq<char>>,
    limiter: RateLimiterView,
    now: u128,
    at: nat,
    other: Seq<char>,
    later: nat,
)
    requires
        outcome is Err || other != tunnel.source_identity,
    ensures
        tunnel.charged(outcome, limiter, now, at).allows(other, later) == limiter.allows(
            other,
            later,
        ),
{
}

/// Every CONNECT request whose text is an authority with a host is taken to the policy
/// engine. The engine is told, and the destination is, the host without brackets and the
/// port that the text names, or 443 where it names none.
pub proof fn a_named_destination_is_asked_about(
    service: ProxyServiceView,
    text: Seq<char>,
    port: u16,
)
    requires
        parses_as_authority(text),
        bare_host(host_of(text)).len() > 0,
        port_of(text) == Some(port) || port_of(text) is None && port == 443,
    ensures
        ({
            let host = bare_host(host_of(text));
            let spelling = lowered(bracketed(host)).push(':') + decimal(port as nat);
            let asked = IntakeView::Evaluate {
                context: RequestContextView {
                    peer_certificates: service.peer_certs,
                    destination: spelling,
                },
                destination: DestinationView { host, port, authority: spelling },
            };
            &&& service.intake_text("CONNECT"@, Some(text)) == asked
            &&& service.intake(
                "CONNECT"@,
                Some(AuthorityView { host: host_of(text), port: port_of(text) }),
            ) == asked
        }),
{
    a_named_port_is_kept(host_of(text), port);
}

/// A CONNECT request for `host:port` asks about that host, in lower case, and that port,
/// and a request for `host` about port 443.
pub proof fn the_text_of_a_plain_host_is_asked_about(
    service: ProxyServiceView,
    host: Seq<char>,
    port: u16,
)
    requires
        host.len() > 0,
        host[0] != '[',
        !host.contains(':'),
        !host.contains('@'),
    ensures
        parses_as_authority(host + seq![':'] + decimal(port as nat)) ==> service.intake_text(
            "CONNECT"@,
            Some(host + seq![':'] + decimal(port as nat)),
        ) == (IntakeView::Evaluate {
            context: RequestContextView {
                peer_certificates: service.peer_certs,
                destination: lowered(host) + seq![':'] + decimal(port as nat),
            },
            destination: DestinationView {
                host,
                port,
                authority: lowered(host) + seq![':'] + decimal(port as nat),
            },
        }),
        parses_as_authority(host) ==> service.intake_text("CONNECT"@, Some(host)) == (
        IntakeView::Evaluate {
            context: RequestContextView {
                peer_certificates: service.peer_certs,
                destination: lowered(host) + seq![':'] + decimal(443),
            },
            destination: DestinationView {
                host,
                port: 443,
                authority: lowered(host) + seq![':'] + decimal(443),
            },
        }),
{
    the_text_of_a_plain_host_reads_back(host, port);
    a_plain_host_is_connected_to(host, Some(port), port);
    a_plain_host_is_connected_to(host, None, 443);
    assert(lowered(host).push(':') == lowered(host) + seq![':']);
}

/// A CONNECT request for an IPv6 address asks about it in brackets and goes to it without
/// them, at the port behind the brackets or at 443.
pub proof fn the_text_of_a_bracketed_address_is_asked_about(
    service: ProxyServiceView,
    address: Seq<char>,
    port: u16,
)
    requires
        address.contains(':'),
        !address.contains(']'),
        !address.contains('@'),
    ensures
        ({
            let host = seq!['['] + address + seq![']'];
            let spelled = seq!['['] + lowered(address) + seq![']', ':'];
            let text = host + seq![':'] + decimal(port as nat);
            &&& parses_as_authority(text) ==> service.intake_text("CONNECT"@, Some(text)) == (
            IntakeView::Evaluate {
                context: RequestContextView {
                    peer_certificates: service.peer_certs,
                    destination: spelled + decimal(port as nat),
                },
                destination: DestinationView {
                    host: address,
                    port,
                    authority: spelled + decimal(port as nat),
                },
            })
            &&& parses_as_authority(host) ==> service.intake_text("CONNECT"@, Some(host)) == (
            IntakeView::Evaluate {
                context: RequestContextView {
                    peer_certificates: service.peer_certs,
                    destination: spelled + decimal(443),
                },
                destination: DestinationView {
                    host: address,
                    port: 443,
                    authority: spelled + decimal(443),
                },
            })
        }),
{
    the_text_of_a_bracketed_address_reads_back(address, port);
    a_bracketed_address_is_connected_to_bare(address, Some(port), port);
    a_bracketed_address_is_connected_to_bare(address, None, 443);
}

/// Whatever a request other than CONNECT names, it is answered that only CONNECT is
/// supported.
pub proof fn other_methods_are_rejected_first(
    service: ProxyServiceView,
    method: Seq<char>,
    authority: Option<AuthorityView>,
    text: Option<Seq<char>>,
)
    requires
        method != "CONNECT"@,
    ensures
        ({
            let rejected = IntakeView::Reject(
                ReplyView {
                    status: Status::MethodNotAllowed,
                    body: Some("only CONNECT is supported"@),
                },
            );
            &&& service.intake(method, authority) == rejected
            &&& service.intake_text(method, text) == rejected
        }),
{
    reveal_strlit("only CONNECT is supported");
}

/// A CONNECT request that names no destination is a bad one, and the client is told what
/// is wrong with it: the authority is missing or is none, or its host is empty.
pub proof fn a_connect_without_destination_is_a_bad_request(
    service: ProxyServiceView,
    text: Seq<char>,
    port: Option<u16>,
)
    ensures
        service.intake_text("CONNECT"@, None) == IntakeView::Reject(
            ReplyView {
                status: Status::BadRequest,
                body: Some("CONNECT request missing authority"@),
            },
        ),
        service.intake("CONNECT"@, None) == service.intake_text("CONNECT"@, None),
        !parses_as_authority(text) ==> service.intake_text("CONNECT"@, Some(text))
            == IntakeView::Reject(
            ReplyView { status: Status::BadRequest, body: Some("invalid CONNECT authority"@) },
        ),
        service.intake("CONNECT"@, Some(AuthorityView { host: Seq::empty(), port }))
            == IntakeView::Reject(
            ReplyView {
                status: Status::BadRequest,
                body: Some("empty host in CONNECT authority"@),
            },
        ),
        service.intake("CONNECT"@, Some(AuthorityView { host: seq!['[', ']'], port }))
            == IntakeView::Reject(
            ReplyView {
                status: Status::BadRequest,
                body: Some("bad destination: "@ + "empty host"@),
            },
        ),
        parses_as_authority(text) && host_of(text).len() == 0 ==> service.intake_text(
            "CONNECT"@,
            Some(text),
        ) == service.intake("CONNECT"@, Some(AuthorityView { host: Seq::empty(), port })),
        parses_as_authority(text) && host_of(text) == seq!['[', ']'] ==> service.intake_text(
            "CONNECT"@,
            Some(text),
        ) == service.intake("CONNECT"@, Some(AuthorityView { host: seq!['[', ']'], port })),
{
    reveal_strlit("CONNECT request missing authority");
    reveal_strlit("invalid CONNECT authority");
    reveal_strlit("empty host in CONNECT authority");
    reveal_strlit("bad destination: ");
    no_host_is_no_destination(port);
    no_host_is_no_destination(port_of(text));
    if host_of(text).len() == 0 {
        assert(host_of(text) == Seq::<char>::empty());
    }
}

/// A request that the policy engine denies is answered that it is forbidden, whatever the
/// rate limiter says. What is on record is who was denied, from and to where, and why.
pub proof fn a_denied_request_is_forbidden(
    service: ProxyServiceView,
    destination: DestinationView,
    source_identity: Option<Seq<char>>,
    reason: Seq<char>,
    within_limit: bool,
)
    ensures
        service.decide(
            destination,
            PolicyDecisionView::Deny { source_identity, reason },
            within_limit,
        ) == (VerdictView::Refuse {
            events: seq![
                AuditEventView::ConnectDenied {
                    source_identity,
                    source_peer_addr: service.source_peer_addr,
                    dest_authority: destination.authority,
                    deny_reason: reason,
                },
            ],
            reply: ReplyView { status: Status::Forbidden, body: Some("forbidden"@) },
        }),
{
    reveal_strlit("forbidden");
}

/// A request that the policy engine allows to an identity within its byte allowance goes
/// to the destination's host and port, for that identity, and is on record as allowed.
pub proof fn an_allowed_request_goes_to_its_destination(
    service: ProxyServiceView,
    destination: DestinationView,
    source_identity: Seq<char>,
)
    ensures
        service.decide(destination, PolicyDecisionView::Allow { source_identity }, true) == (
        VerdictView::Connect {
            event: AuditEventView::ConnectAllowed {
                source_identity,
                source_peer_addr: service.source_peer_addr,
                dest_authority: destination.authority,
            },
            source_identity,
            host: destination.host,
            port: destination.port,
        }),
{
}

/// A request that the policy engine allows to an identity over its byte allowance is
/// answered that there were too many. It is on record as allowed, then as denied.
pub proof fn an_identity_over_its_allowance_is_refused(
    service: ProxyServiceView,
    destination: DestinationView,
    source_identity: Seq<char>,
)
    ensures
        service.decide(destination, PolicyDecisionView::Allow { source_identity }, false) == (
        VerdictView::Refuse {
            events: seq![
                AuditEventView::ConnectAllowed {
                    source_identity,
                    source_peer_addr: service.source_peer_addr,
                    dest_authority: destination.authority,
                },
                AuditEventView::ConnectDenied {
                    source_identity: Some(source_identity),
                    source_peer_addr: service.source_peer_addr,
                    dest_authority: destination.authority,
                    deny_reason: "rate limit exceeded"@,
                },
            ],
            reply: ReplyView {
                status: Status::TooManyRequests,
                body: Some("rate limit exceeded"@),
            },
        }),
{
    reveal_strlit("rate limit exceeded");
}

/// A destination that was reached is a success without a body, and a tunnel for the
/// identity that asked. One that was not is a bad gateway, with the error on record.
pub proof fn only_a_reached_destination_is_a_success(
    service: ProxyServiceView,
    dest_authority: Seq<char>,
    source_identity: Seq<char>,
    error: Seq<char>,
)
    ensures
        service.dialled(dest_authority, source_identity, Ok(())) == (DialledView::Open {
            reply: ReplyView { status: Status::Established, body: None },
            tunnel: TunnelView {
                source_identity,
                source_peer_addr: service.source_peer_addr,
                dest_authority,
            },
        }),
        service.dialled(dest_authority, source_identity, Err(error)) == (DialledView::Failed {
            event: AuditEventView::ConnectFailed {
                source_identity,
                source_peer_addr: service.source_peer_addr,
                dest_authority,
                error,
            },
            reply: ReplyView { status: Status::BadGateway, body: Some("bad gateway"@) },
        }),
{
    reveal_strlit("bad gateway");
}

/// The end of a tunnel is on record under the tunnel's own names: with the bytes to the
/// destination and those back where it closed, with the error where it broke down or never
/// opened.
pub proof fn the_end_of_a_tunnel_is_on_record(
    tunnel: TunnelView,
    up: u64,
    down: u64,
    error: Seq<char>,
)
    ensures
        tunnel.finished(Ok((up, down))) == (AuditEventView::TunnelClosed {
            source_identity: tunnel.source_identity,
            source_peer_addr: tunnel.source_peer_addr,
            dest_authority: tunnel.dest_authority,
            bytes_client_to_dest: up,
            bytes_dest_to_client: down,
        }),
        tunnel.finished(Err(error)) == (AuditEventView::TunnelError {
            source_identity: tunnel.source_identity,
            source_peer_addr: tunnel.source_peer_addr,
            dest_authority: tunnel.dest_authority,
            error,
        }),
        tunnel.upgrade_failed(error) == (AuditEventView::UpgradeFailed {
            source_identity: tunnel.source_identity,
            source_peer_addr: tunnel.source_peer_addr,
            dest_authority: tunnel.dest_authority,
            error,
        }),
{
}

/// The first tunnel of a client is charged the bytes that it carried, both ways together
/// and up to the largest `u64`: no more and no fewer. Within the window that this begins the
/// client is allowed just where those bytes are below the allowance.
pub proof fn a_first_tunnel_is_charged_what_it_carried(
    tunnel: TunnelView,
    up: u64,
    down: u64,
    limiter: RateLimiterView,
    now: u128,
    at: nat,
    later: nat,
)
    requires
        limiter.enabled,
        !limiter.usage.contains_key(tunnel.source_identity),
    ensures
        ({
            let after = tunnel.charged(Ok((up, down)), limiter, now, at);
            let usage = after.usage[tunnel.source_identity];
            &&& after.usage.contains_key(tunnel.source_identity)
            &&& usage.window_start == now
            &&& up + down <= u64::MAX ==> usage.bytes == up + down
            &&& up + down > u64::MAX ==> usage.bytes == u64::MAX
            &&& limiter.window > 0 && later < now + limiter.window ==> (after.allows(
                tunnel.source_identity,
                later,
            ) <==> up + down < limiter.bytes_per_window)
        }),
{
}

/// A further tunnel adds the bytes that it carried to those of the running window, or has
/// a new window to itself where the old one has lasted its length.
pub proof fn a_further_tunnel_is_charged_what_it_carried(
    tunnel: TunnelView,
    up: u64,
    down: u64,
    limiter: RateLimiterView,
    now: u128,
    at: nat,
)
    requires
        limiter.enabled,
        limiter.window > 0,
        limiter.usage.contains_key(tunnel.source_identity),
    ensures
        ({
            let before = limiter.usage[tunnel.source_identity];
            let after = tunnel.charged(Ok((up, down)), limiter, now, at);
            let usage = after.usage[tunnel.source_identity];
            &&& at < before.window_start + limiter.window ==> {
                &&& usage.window_start == before.window_start
                &&& before.bytes + up + down <= u64::MAX ==> usage.bytes == before.bytes + up
                    + down
                &&& before.bytes + up + down > u64::MAX ==> usage.bytes == u64::MAX
            }
            &&& at >= before.window_start + limiter.window ==> {
                &&& usage.window_start == now
                &&& up + down <= u64::MAX ==> usage.bytes == up + down
                &&& up + down > u64::MAX ==> usage.bytes == u64::MAX
            }
        }),
{
}

/// Charging a tunnel changes no setting and no usage but that of the tunnel's client. A
/// tunnel that broke down, or a disabled limiter, changes nothing.
pub proof fn charging_touches_one_client(
    tunnel: TunnelView,
    outcome: Result<(u64, u64), Seq<char>>,
    limiter: RateLimiterView,
    now: u128,
    at: nat,
    other: Seq<char>,
)
    ensures
        ({
            let after = tunnel.charged(outcome, limiter, now, at);
            &&& after.enabled == limiter.enabled
            &&& after.bytes_per_window == limiter.bytes_per_window
            &&& after.window == limiter.window
            &&& outcome is Err || !limiter.enabled ==> after == limiter
            &&& other != tunnel.source_identity ==> after.usage.contains_key(other)
                == limiter.usage.contains_key(other) && after.usage[other] == limiter.usage[other]
        }),
{
}

/// A reply has the status that it is made with, and a body just where there is something
/// to say.
pub proof fn a_reply_says_what_it_is_given(status: Status, message: Seq<char>)
    ensures
        reply_with(status, message).status == status,
        message.len() > 0 ==> reply_with(status, message).body == Some(message),
        message.len() == 0 ==> reply_with(status, message).body is None,
{
}

/// The statuses have the numbers that HTTP gives them.
pub proof fn statuses_have_their_numbers(status: Status)
    ensures
        status.number() == 200 <==> status == Status::Established,
        status.number() == 400 <==> status == Status::BadRequest,
        status.number() == 403 <==> status == Status::Forbidden,
        status.number() == 405 <==> status == Status::MethodNotAllowed,
        status.number() == 429 <==> status == Status::TooManyRequests,
        status.number() == 502 <==> status == Status::BadGateway,
{
}

/// The view of a reply, of a tunnel and of a service holds its words, and that of
/// certificates their bytes, in order.
pub proof fn replies_tunnels_and_services_show_their_fields<E: ?Sized, L: ?Sized>(
    reply: Reply,
    tunnel: Tunnel,
    service: &ProxyService<E, L>,
    certs: Seq<Vec<u8>>,
)
    ensures
        reply@.status == reply.status,
        reply.body matches Some(body) ==> reply@.body == Some(body@),
        reply.body is None ==> reply@.body is None,
        tunnel@.source_identity == tunnel.source_identity@,
        tunnel@.source_peer_addr == tunnel.source_peer_addr@,
        tunnel@.dest_authority == tunnel.dest_authority@,
        service@.source_peer_addr == service.source_peer_addr@,
        service@.peer_certs.len() == service.peer_certs@.len(),
        forall|i: int|
            0 <= i < service.peer_certs@.len() ==> #[trigger] service@.peer_certs[i]
                == service.peer_certs@[i]@,
        ders(certs).len() == certs.len(),
        forall|i: int| 0 <= i < certs.len() ==> #[trigger] ders(certs)[i] == certs[i]@,
{
}

/// The view of each step of a request is of the same kind and holds what the step holds.
pub proof fn steps_show_their_fields(intake: Intake, verdict: Verdict, dialled: Dialled)
    ensures
        match intake {
            Intake::Reject(reply) => intake@ == IntakeView::Reject(reply@),
            Intake::Evaluate { context: c, destination: d } => {
                &&& intake@ is Evaluate
                &&& intake@->Evaluate_destination == d@
                &&& intake@->Evaluate_context.destination == c.destination@
                &&& intake@->Evaluate_context.peer_certificates == ders(c.peer_certificates@)
            },
        },
        match verdict {
            Verdict::Refuse { events: e, reply: r } => verdict@ == (VerdictView::Refuse {
                events: entries(e@),
                reply: r@,
            }),
            Verdict::Connect { event: e, source_identity: id, host: h, port: p } => verdict@ == (
            VerdictView::Connect { event: e@, source_identity: id@, host: h@, port: p }),
        },
        match dialled {
            Dialled::Failed { event: e, reply: r } => dialled@ == (DialledView::Failed {
                event: e@,
                reply: r@,
            }),
            Dialled::Open { reply: r, tunnel: t } => dialled@ == (DialledView::Open {
                reply: r@,
                tunnel: t@,
            }),
        },
{
}

/// Outcomes of dialling and of copying are taken as they are, errors word by word.
pub proof fn outcomes_keep_their_words(
    dial: Result<(), String>,
    copy: Result<(u64, u64), String>,
)
    ensures
        dial is Ok ==> dial_outcome(dial) == Ok::<(), Seq<char>>(()),
        dial matches Err(e) ==> dial_outcome(dial) == Err::<(), Seq<char>>(e@),
        copy matches Ok(counts) ==> copy_outcome(copy) == Ok::<(u64, u64), Seq<char>>(counts),
        copy matches Err(e) ==> copy_outcome(copy) == Err::<(u64, u64), Seq<char>>(e@),
{
}

} // verus!
