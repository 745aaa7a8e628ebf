use agent_gateway::destination::{Authority, Destination, InvalidAuthority};
use agent_gateway::policy::{normalize_destination, NormalizeError};

fn parse_dest(authority: &str) -> Result<Destination, String> {
    let authority = Authority::parse(authority).map_err(|e| format!("{e:?}"))?;
    Destination::from_authority(&authority)
}

#[test]
fn proxy_dest_hostname_with_port() {
    let d = parse_dest("api.example.com:443").unwrap();
    assert_eq!(d.host, "api.example.com");
    assert_eq!(d.port, 443);
    assert_eq!(d.authority, "api.example.com:443");
}

#[test]
fn proxy_dest_hostname_without_port_defaults_443() {
    let d = parse_dest("api.example.com").unwrap();
    assert_eq!(d.host, "api.example.com");
    assert_eq!(d.port, 443);
    assert_eq!(d.authority, "api.example.com:443");
}

#[test]
fn proxy_dest_hostname_non_default_port() {
    let d = parse_dest("api.example.com:8080").unwrap();
    assert_eq!(d.host, "api.example.com");
    assert_eq!(d.port, 8080);
    assert_eq!(d.authority, "api.example.com:8080");
}

#[test]
fn proxy_dest_hostname_uppercased_is_lowered() {
    let d = parse_dest("API.EXAMPLE.COM:443").unwrap();
    assert_eq!(d.authority, "api.example.com:443");
}

#[test]
fn proxy_dest_ipv6_with_port() {
    let d = parse_dest("[::1]:8443").unwrap();
    assert_eq!(d.host, "::1");
    assert_eq!(d.port, 8443);
    assert_eq!(d.authority, "[::1]:8443");
}

#[test]
fn proxy_dest_ipv6_default_port() {
    let d = parse_dest("[::1]").unwrap();
    assert_eq!(d.host, "::1");
    assert_eq!(d.port, 443);
    assert_eq!(d.authority, "[::1]:443");
}

#[test]
fn proxy_dest_ipv6_full_address() {
    let d = parse_dest("[2001:db8::1]:443").unwrap();
    assert_eq!(d.host, "2001:db8::1");
    assert_eq!(d.port, 443);
    assert_eq!(d.authority, "[2001:db8::1]:443");
}

#[test]
fn host_keeps_its_case_for_dialling() {
    let d = parse_dest("API.Example.com").unwrap();
    assert_eq!(d.host, "API.Example.com");
    assert_eq!(d.authority, "api.example.com:443");
}

#[test]
fn user_part_is_no_part_of_the_host() {
    let a = Authority::parse("user:80@example.com").unwrap();
    assert_eq!(a.host, "example.com");
    assert_eq!(a.port, None);
    let a = Authority::parse("user@example.com:8080").unwrap();
    assert_eq!(a.host, "example.com");
    assert_eq!(a.port, Some(8080));
    let a = Authority::parse("a@b@[::1]:7").unwrap();
    assert_eq!(a.host, "[::1]");
    assert_eq!(a.port, Some(7));
}

#[test]
fn odd_ports_are_read_as_rust_reads_them() {
    assert_eq!(Authority::parse("h:+80").unwrap().port, Some(80));
    assert_eq!(Authority::parse("h:0080").unwrap().port, Some(80));
    assert_eq!(Authority::parse("h:").unwrap().port, None);
    assert_eq!(Authority::parse("h:+").unwrap().port, None);
    assert_eq!(Authority::parse("h:65535").unwrap().port, Some(65535));
    assert_eq!(Authority::parse("h:65536").unwrap().port, None);
    assert_eq!(Authority::parse("h:8o").unwrap().port, None);
    assert_eq!(Authority::parse("[::1]").unwrap().port, None);
    assert_eq!(Authority::parse("[::1]").unwrap().host, "[::1]");
}

#[test]
fn a_port_out_of_range_falls_back_to_443() {
    let d = parse_dest("example.com:99999").unwrap();
    assert_eq!(d.port, 443);
    assert_eq!(d.authority, "example.com:443");
}

#[test]
fn texts_that_are_no_authority() {
    assert_eq!(Authority::parse("").unwrap_err(), InvalidAuthority);
    assert_eq!(Authority::parse("a b").unwrap_err(), InvalidAuthority);
    assert_eq!(Authority::parse("h:1:2").unwrap_err(), InvalidAuthority);
    assert_eq!(Authority::parse("[::1").unwrap_err(), InvalidAuthority);
    assert_eq!(Authority::parse("user@").unwrap_err(), InvalidAuthority);
    assert_eq!(Authority::parse("example.com/path").unwrap_err(), InvalidAuthority);
}

#[test]
fn empty_hosts_are_refused() {
    assert_eq!(parse_dest(":443").unwrap_err(), "empty host in CONNECT authority");
    assert_eq!(parse_dest("[]:443").unwrap_err(), "bad destination: empty host");
}

#[test]
fn missing_authority_is_refused() {
    assert_eq!(
        Destination::from_request(None).unwrap_err(),
        "CONNECT request missing authority"
    );
    let a = Authority { host: "h".to_owned(), port: Some(1) };
    assert_eq!(Destination::from_request(Some(&a)).unwrap().authority, "h:1");
}

#[test]
fn half_brackets_stay() {
    let a = Authority { host: "[".to_owned(), port: Some(1) };
    assert_eq!(Destination::from_authority(&a).unwrap().host, "[");
    let a = Authority { host: "x]".to_owned(), port: Some(1) };
    assert_eq!(Destination::from_authority(&a).unwrap().host, "x]");
}

#[test]
fn settling_takes_any_spelling() {
    let d = Destination::settle("h".to_owned(), 7, Ok("spelled".to_owned())).unwrap();
    assert_eq!((d.host.as_str(), d.port, d.authority.as_str()), ("h", 7, "spelled"));
    assert_eq!(
        Destination::settle("h".to_owned(), 7, Err(NormalizeError::InvalidPort)).unwrap_err(),
        "bad destination: invalid port"
    );
    assert_eq!(
        Destination::settle("h".to_owned(), 7, Err(NormalizeError::MissingPort)).unwrap_err(),
        "bad destination: missing port"
    );
}

#[test]
fn canonical_spelling() {
    assert_eq!(normalize_destination("Example.COM:0443").unwrap(), "example.com:443");
    assert_eq!(normalize_destination("[2001:DB8::1]:65535").unwrap(), "[2001:db8::1]:65535");
    assert_eq!(normalize_destination("h:0").unwrap(), "h:0");
    assert_eq!(normalize_destination("example.com").unwrap_err(), NormalizeError::MissingPort);
    assert_eq!(normalize_destination(":443").unwrap_err(), NormalizeError::EmptyHost);
    assert_eq!(normalize_destination("h:").unwrap_err(), NormalizeError::InvalidPort);
    assert_eq!(normalize_destination("h:65536").unwrap_err(), NormalizeError::InvalidPort);
    assert_eq!(
        normalize_destination("h:18446744073709551617").unwrap_err(),
        NormalizeError::InvalidPort
    );
}

#[test]
fn canonical_spelling_keeps_letters_outside_ascii() {
    assert_eq!(normalize_destination("\u{c4}B.example:1").unwrap(), "\u{c4}b.example:1");
}

#[test]
fn canonical_spelling_is_stable_and_blind_to_case() {
    let once = normalize_destination("WWW.Example.com:8443").unwrap();
    assert_eq!(normalize_destination(&once).unwrap(), once);
    assert_eq!(
        parse_dest("WWW.example.COM").unwrap().authority,
        parse_dest("www.EXAMPLE.com").unwrap().authority
    );
}

#[test]
fn canonical_spelling_names_the_same_destination() {
    for text in ["API.example.com:8443", "[2001:DB8::1]", "127.0.0.1:9999"] {
        let d = parse_dest(text).unwrap();
        let again = parse_dest(&d.authority).unwrap();
        assert_eq!(again.authority, d.authority);
        assert_eq!(again.port, d.port);
        assert_eq!(again.host, d.host.to_ascii_lowercase());
    }
}
