use agent_gateway::audit::AuditEvent;
use agent_gateway::config::RateLimitConfig;
use agent_gateway::destination::{Authority, Destination};
use agent_gateway::policy::PolicyDecision;
use agent_gateway::proxy::{
    after_accept, extract_peer_certs, response, AcceptStep, Dialled, Intake, MakeProxyService,
    ProxyService, Reply, Status, Tunnel, Verdict,
};
use agent_gateway::rate_limit::{apply, RateLimiter};
use std::sync::{Arc, Mutex};

const PEER: &str = "127.0.0.1:50000";

fn limiter(limit: u64) -> RateLimiter {
    apply(&RateLimitConfig { enabled: true, bytes_per_window: limit, window_secs: None })
}

fn service() -> ProxyService<str, Mutex<RateLimiter>> {
    let make = MakeProxyService::new(Arc::from("engine"), Arc::new(Mutex::new(limiter(10))));
    make.make_service(vec![vec![1, 2], vec![3]], PEER.to_owned())
}

fn destination(text: &str) -> Destination {
    Destination::from_authority(&Authority::parse(text).unwrap()).unwrap()
}

fn allow(identity: &str) -> PolicyDecision {
    PolicyDecision::Allow { source_identity: identity.to_owned() }
}

fn assert_reply(reply: &Reply, code: u16, body: Option<&str>) {
    assert_eq!(reply.status.code(), code);
    assert_eq!(reply.body.as_deref(), body);
}

fn assert_allowed(event: &AuditEvent, identity: &str, dest: &str) {
    match event {
        AuditEvent::ConnectAllowed { source_identity, source_peer_addr, dest_authority } => {
            assert_eq!(source_identity, identity);
            assert_eq!(source_peer_addr, PEER);
            assert_eq!(dest_authority, dest);
        }
        other => panic!("unexpected {other:?}"),
    }
}

fn assert_denied(event: &AuditEvent, identity: Option<&str>, dest: &str, reason: &str) {
    match event {
        AuditEvent::ConnectDenied {
            source_identity,
            source_peer_addr,
            dest_authority,
            deny_reason,
        } => {
            assert_eq!(source_identity.as_deref(), identity);
            assert_eq!(source_peer_addr, PEER);
            assert_eq!(dest_authority, dest);
            assert_eq!(deny_reason, reason);
        }
        other => panic!("unexpected {other:?}"),
    }
}

#[test]
fn status_numbers() {
    assert_eq!(Status::Established.code(), 200);
    assert_eq!(Status::BadRequest.code(), 400);
    assert_eq!(Status::Forbidden.code(), 403);
    assert_eq!(Status::MethodNotAllowed.code(), 405);
    assert_eq!(Status::TooManyRequests.code(), 429);
    assert_eq!(Status::BadGateway.code(), 502);
}

#[test]
fn an_empty_message_is_no_body() {
    assert_reply(&response(Status::Established, ""), 200, None);
    assert_reply(&response(Status::BadRequest, "why"), 400, Some("why"));
}

#[test]
fn only_connect_is_taken_in() {
    let authority = Authority::parse("example.com:443").unwrap();
    match service().intake("GET", Some(&authority)) {
        Intake::Reject(reply) => assert_reply(&reply, 405, Some("only CONNECT is supported")),
        other => panic!("unexpected {other:?}"),
    }
    match service().intake("connect", Some(&authority)) {
        Intake::Reject(reply) => assert_reply(&reply, 405, Some("only CONNECT is supported")),
        other => panic!("unexpected {other:?}"),
    }
}

#[test]
fn a_request_without_destination_is_rejected() {
    match service().intake("CONNECT", None) {
        Intake::Reject(reply) => {
            assert_reply(&reply, 400, Some("CONNECT request missing authority"));
        }
        other => panic!("unexpected {other:?}"),
    }
    let authority = Authority::parse("[]").unwrap();
    match service().intake("CONNECT", Some(&authority)) {
        Intake::Reject(reply) => assert_reply(&reply, 400, Some("bad destination: empty host")),
        other => panic!("unexpected {other:?}"),
    }
}

#[test]
fn the_method_is_looked_at_before_the_authority() {
    for text in [None, Some("example.com:443"), Some("exa mple")] {
        match service().intake_text("GET", text) {
            Intake::Reject(reply) => assert_reply(&reply, 405, Some("only CONNECT is supported")),
            other => panic!("unexpected {other:?}"),
        }
    }
}

#[test]
fn a_text_that_is_no_authority_is_a_bad_request() {
    match service().intake_text("CONNECT", Some("exa mple")) {
        Intake::Reject(reply) => assert_reply(&reply, 400, Some("invalid CONNECT authority")),
        other => panic!("unexpected {other:?}"),
    }
    match service().intake_text("CONNECT", None) {
        Intake::Reject(reply) => {
            assert_reply(&reply, 400, Some("CONNECT request missing authority"));
        }
        other => panic!("unexpected {other:?}"),
    }
    match service().intake_text("CONNECT", Some("[]:80")) {
        Intake::Reject(reply) => assert_reply(&reply, 400, Some("bad destination: empty host")),
        other => panic!("unexpected {other:?}"),
    }
}

#[test]
fn the_text_of_an_authority_is_taken_in() {
    match service().intake_text("CONNECT", Some("[::1]:8443")) {
        Intake::Evaluate { context, destination } => {
            assert_eq!(context.peer_certificates, vec![vec![1, 2], vec![3]]);
            assert_eq!(context.destination, "[::1]:8443");
            assert_eq!(destination.host, "::1");
            assert_eq!(destination.port, 8443);
        }
        other => panic!("unexpected {other:?}"),
    }
}

#[test]
fn the_policy_engine_is_told_who_and_where() {
    let authority = Authority::parse("Example.com:8443").unwrap();
    match service().intake("CONNECT", Some(&authority)) {
        Intake::Evaluate { context, destination } => {
            assert_eq!(context.peer_certificates, vec![vec![1, 2], vec![3]]);
            assert_eq!(context.destination, "example.com:8443");
            assert_eq!(destination.host, "Example.com");
            assert_eq!(destination.port, 8443);
        }
        other => panic!("unexpected {other:?}"),
    }
}

#[test]
fn denials_are_forbidden_and_recorded() {
    let decision = PolicyDecision::Deny {
        source_identity: Some("agent-alpha".to_owned()),
        reason: "no active signed permission".to_owned(),
    };
    match service().decide(&destination("127.0.0.1:9999"), decision, &limiter(10)) {
        Verdict::Refuse { events, reply } => {
            assert_reply(&reply, 403, Some("forbidden"));
            assert_eq!(events.len(), 1);
            assert_denied(
                &events[0],
                Some("agent-alpha"),
                "127.0.0.1:9999",
                "no active signed permission",
            );
        }
        other => panic!("unexpected {other:?}"),
    }
}

#[test]
fn an_unknown_client_is_left_out_of_the_record() {
    let decision = PolicyDecision::Deny {
        source_identity: None,
        reason: "missing required extension".to_owned(),
    };
    match service().decide_with(&destination("127.0.0.1:9999"), decision, false) {
        Verdict::Refuse { events, reply } => {
            assert_reply(&reply, 403, Some("forbidden"));
            assert_eq!(events.len(), 1);
            assert_denied(&events[0], None, "127.0.0.1:9999", "missing required extension");
        }
        other => panic!("unexpected {other:?}"),
    }
}

#[test]
fn allowed_requests_connect() {
    match service().decide(&destination("127.0.0.1:7"), allow("agent-alpha"), &limiter(10)) {
        Verdict::Connect { event, source_identity, host, port } => {
            assert_allowed(&event, "agent-alpha", "127.0.0.1:7");
            assert_eq!(source_identity, "agent-alpha");
            assert_eq!(host, "127.0.0.1");
            assert_eq!(port, 7);
        }
        other => panic!("unexpected {other:?}"),
    }
}

#[test]
fn the_bare_host_is_connected_to() {
    match service().decide_with(&destination("[2001:DB8::1]"), allow("agent-alpha"), true) {
        Verdict::Connect { event, host, port, .. } => {
            assert_allowed(&event, "agent-alpha", "[2001:db8::1]:443");
            assert_eq!(host, "2001:DB8::1");
            assert_eq!(port, 443);
        }
        other => panic!("unexpected {other:?}"),
    }
}

#[test]
fn unreachable_destinations_are_a_bad_gateway() {
    let outcome = Err("connection refused".to_owned());
    match service().dialled(&destination("127.0.0.1:7"), "agent-alpha".to_owned(), outcome) {
        Dialled::Failed { event, reply } => {
            assert_reply(&reply, 502, Some("bad gateway"));
            match event {
                AuditEvent::ConnectFailed {
                    source_identity,
                    source_peer_addr,
                    dest_authority,
                    error,
                } => {
                    assert_eq!(source_identity, "agent-alpha");
                    assert_eq!(source_peer_addr, PEER);
                    assert_eq!(dest_authority, "127.0.0.1:7");
                    assert_eq!(error, "connection refused");
                }
                other => panic!("unexpected {other:?}"),
            }
        }
        other => panic!("unexpected {other:?}"),
    }
}

fn open_tunnel(identity: &str, dest: &str) -> Tunnel {
    match service().dialled(&destination(dest), identity.to_owned(), Ok(())) {
        Dialled::Open { reply, tunnel } => {
            assert_reply(&reply, 200, None);
            tunnel
        }
        other => panic!("unexpected {other:?}"),
    }
}

#[test]
fn a_spent_tunnel_blocks_the_next_request() {
    let dest = destination("127.0.0.1:7");
    let mut limiter = limiter(10);
    let tunnel = open_tunnel("test-agent", "127.0.0.1:7");
    match tunnel.finish(Ok((11, 11)), &mut limiter) {
        AuditEvent::TunnelClosed {
            source_identity,
            source_peer_addr,
            dest_authority,
            bytes_client_to_dest,
            bytes_dest_to_client,
        } => {
            assert_eq!(source_identity, "test-agent");
            assert_eq!(source_peer_addr, PEER);
            assert_eq!(dest_authority, "127.0.0.1:7");
            assert_eq!(bytes_client_to_dest, 11);
            assert_eq!(bytes_dest_to_client, 11);
        }
        other => panic!("unexpected {other:?}"),
    }
    match service().decide(&dest, allow("test-agent"), &limiter) {
        Verdict::Refuse { events, reply } => {
            assert_reply(&reply, 429, Some("rate limit exceeded"));
            assert_eq!(events.len(), 2);
            assert_allowed(&events[0], "test-agent", "127.0.0.1:7");
            assert_denied(&events[1], Some("test-agent"), "127.0.0.1:7", "rate limit exceeded");
        }
        other => panic!("unexpected {other:?}"),
    }
    assert!(matches!(
        service().decide(&dest, allow("other-agent"), &limiter),
        Verdict::Connect { .. }
    ));
}

#[test]
fn both_directions_count() {
    let mut limiter = limiter(10);
    let tunnel = open_tunnel("test-agent", "127.0.0.1:7");
    tunnel.finish_at(Ok((5, 4)), &mut limiter, 0, 0);
    assert!(limiter.is_allowed_at("test-agent", 1));
    tunnel.finish_at(Ok((0, 1)), &mut limiter, 1, 1);
    assert!(!limiter.is_allowed_at("test-agent", 2));
    tunnel.finish_at(Ok((u64::MAX, u64::MAX)), &mut limiter, 2, 2);
    assert!(!limiter.is_allowed_at("test-agent", 3));
}

#[test]
fn broken_tunnels_are_not_charged() {
    let mut limiter = limiter(1);
    let tunnel = open_tunnel("test-agent", "127.0.0.1:7");
    match tunnel.finish(Err("connection reset".to_owned()), &mut limiter) {
        AuditEvent::TunnelError { source_identity, dest_authority, error, .. } => {
            assert_eq!(source_identity, "test-agent");
            assert_eq!(dest_authority, "127.0.0.1:7");
            assert_eq!(error, "connection reset");
        }
        other => panic!("unexpected {other:?}"),
    }
    assert!(limiter.is_allowed("test-agent"));
    match tunnel.upgrade_failed("upgrade expected but low level API in use".to_owned()) {
        AuditEvent::UpgradeFailed { source_identity, source_peer_addr, error, .. } => {
            assert_eq!(source_identity, "test-agent");
            assert_eq!(source_peer_addr, PEER);
            assert_eq!(error, "upgrade expected but low level API in use");
        }
        other => panic!("unexpected {other:?}"),
    }
}

#[test]
fn clones_share_engine_and_limiter() {
    let service = service();
    let copy = service.clone();
    assert!(Arc::ptr_eq(&service.policy_engine, &copy.policy_engine));
    assert!(Arc::ptr_eq(&service.rate_limiter, &copy.rate_limiter));
    assert_eq!(copy.peer_certs, vec![vec![1, 2], vec![3]]);
    assert_eq!(copy.source_peer_addr, PEER);
}

#[test]
fn services_of_one_maker_share_the_limiter() {
    let make: MakeProxyService<str, Mutex<RateLimiter>> =
        MakeProxyService::new(Arc::from("engine"), Arc::new(Mutex::new(limiter(10))));
    let first = make.make_service(Vec::new(), PEER.to_owned());
    let second = make.make_service(Vec::new(), PEER.to_owned());
    first.rate_limiter.lock().unwrap().record_bytes("agent-alpha", 10);
    assert!(!second.rate_limiter.lock().unwrap().is_allowed("agent-alpha"));
}

#[test]
fn a_client_without_certificates_has_none() {
    assert!(extract_peer_certs(None).is_empty());
    assert_eq!(extract_peer_certs(Some(vec![vec![7]])), vec![vec![7]]);
}

#[test]
fn a_failed_accept_is_followed_by_a_pause() {
    assert!(matches!(after_accept(Ok(())), AcceptStep::Serve));
    match after_accept(Err("too many open files".to_owned())) {
        AcceptStep::Pause { error, wait } => {
            assert_eq!(error, "too many open files");
            assert_eq!(wait, std::time::Duration::from_millis(100));
        }
        other => panic!("unexpected {other:?}"),
    }
}
