use agent_gateway::audit::{AuditEvent, Level};

fn text(s: &str) -> String {
    s.to_owned()
}

fn assert_entry(event: &AuditEvent, level: Level, message: &str, decision: Option<&str>) {
    assert_eq!(event.level(), level);
    assert_eq!(event.message(), message);
    assert_eq!(event.policy_decision(), decision);
}

#[test]
fn decisions_are_named() {
    let allowed = AuditEvent::ConnectAllowed {
        source_identity: text("agent-alpha"),
        source_peer_addr: text("127.0.0.1:50000"),
        dest_authority: text("127.0.0.1:7"),
    };
    assert_entry(&allowed, Level::Info, "CONNECT allowed", Some("allow"));
    for source_identity in [None, Some(text("agent-alpha"))] {
        let denied = AuditEvent::ConnectDenied {
            source_identity,
            source_peer_addr: text("127.0.0.1:50000"),
            dest_authority: text("127.0.0.1:7"),
            deny_reason: text("no active signed permission"),
        };
        assert_entry(&denied, Level::Warn, "CONNECT denied", Some("deny"));
    }
}

#[test]
fn failures_are_no_decisions() {
    let failed = AuditEvent::ConnectFailed {
        source_identity: text("agent-alpha"),
        source_peer_addr: text("127.0.0.1:50000"),
        dest_authority: text("127.0.0.1:7"),
        error: text("connection refused"),
    };
    assert_entry(&failed, Level::Error, "TCP connect failed", None);
    let not_upgraded = AuditEvent::UpgradeFailed {
        source_identity: text("agent-alpha"),
        source_peer_addr: text("127.0.0.1:50000"),
        dest_authority: text("127.0.0.1:7"),
        error: text("canceled"),
    };
    assert_entry(&not_upgraded, Level::Warn, "upgrade failed", None);
    let broken = AuditEvent::TunnelError {
        source_identity: text("agent-alpha"),
        source_peer_addr: text("127.0.0.1:50000"),
        dest_authority: text("127.0.0.1:7"),
        error: text("connection reset"),
    };
    assert_entry(&broken, Level::Error, "tunnel error", None);
}

#[test]
fn a_closed_tunnel_is_information() {
    let closed = AuditEvent::TunnelClosed {
        source_identity: text("agent-alpha"),
        source_peer_addr: text("127.0.0.1:50000"),
        dest_authority: text("127.0.0.1:7"),
        bytes_client_to_dest: 11,
        bytes_dest_to_client: 11,
    };
    assert_entry(&closed, Level::Info, "tunnel closed", None);
}
