//! Where a CONNECT request wants to go.
use crate::policy::{canonical, canonical_of_parts, normalize_destination, NormalizeError};
use crate::text::{chars_of, decimal_text, has_char, joined};
use crate::text::{decimal, decimal_parses, digits_hold_no_colon, first_index, last_index};
use crate::text::{first_index_of_separator, last_index_in_range, last_index_of_separator};
use crate::text::{is_digit, lowered, lowered_is_stable, u16_value};
use vstd::prelude::*;
use vstd::string::*;

verus! {

/// The port of a CONNECT authority that names none.
pub const DEFAULT_PORT: u16 = 443;

/// The host and the port of a CONNECT request's authority.
#[derive(Debug)]
pub struct Authority {
    /// The host; an IPv6 address stands in brackets.
    pub host: String,
    /// The port, where the authority has one that is a number below 65536.
    pub port: Option<u16>,
}

/// An [`Authority`] with its host as a character sequence.
pub ghost struct AuthorityView {
    pub host: Seq<char>,
    pub port: Option<u16>,
}

impl View for Authority {
    type V = AuthorityView;

    open spec fn view(&self) -> AuthorityView {
        AuthorityView { host: self.host@, port: self.port }
    }
}

/// A text that is no authority.
#[derive(Debug, Clone, Copy, PartialEq, Eq, Structural)]
pub struct InvalidAuthority;

/// The error with which the `http` crate refuses a text.
#[verifier::external_type_specification]
#[verifier::external_body]
pub struct ExInvalidUri(http::uri::InvalidUri);

/// Whether `http::uri::Authority` parses `text` without an error.
pub uninterp spec fn parses_as_authority(text: Seq<char>) -> bool;

/// The host in the text of an authority: what follows the last `@`, up to and with
/// the first `]` where it begins with `[`, else up to the first `:`.
pub open spec fn host_of(text: Seq<char>) -> Seq<char> {
    let host_port = text.skip(last_index(text, '@') + 1);
    if host_port.len() > 0 && host_port[0] == '[' {
        host_port.take(first_index(host_port, ']') + 1)
    } else {
        host_port.take(first_index(host_port, ':'))
    }
}

/// The port in the text of an authority: the number after the last `:`.
pub open spec fn port_of(text: Seq<char>) -> Option<u16> {
    let colon = last_index(text, ':');
    if colon < 0 {
        None
    } else {
        u16_value(text.skip(colon + 1))
    }
}

/// The authority that `text` is, where it is one.
pub open spec fn authority_of(text: Seq<char>) -> AuthorityView {
    AuthorityView { host: host_of(text), port: port_of(text) }
}

/// Parses `text` as an `http::uri::Authority` and reads off `Authority::host` and
/// `Authority::port_u16`. It is claimed that whether the text parses depends on the
/// text alone, and that host and port stand in the text where [`host_of`] and
/// [`port_of`] find them.
#[verifier::external_body]
fn parse_http_authority(text: &str) -> (parsed: Result<
    (String, Option<u16>),
    http::uri::InvalidUri,
>)
    ensures
        parsed is Ok <==> parses_as_authority(text@),
        parsed matches Ok(parts) ==> parts.0@ == host_of(text@) && parts.1 == port_of(text@),
{
    let authority = text.parse::<http::uri::Authority>()?;
    Ok((authority.host().to_owned(), authority.port_u16()))
}

impl Authority {
    /// Parses the text of an authority.
    ///
    /// # Errors
    ///
    /// Returns an error if the text is no authority.
    pub fn parse(text: &str) -> (authority: Result<Authority, InvalidAuthority>)
        ensures
            authority is Ok <==> parses_as_authority(text@),
            authority matches Ok(a) ==> a@ == authority_of(text@),
    {
        match parse_http_authority(text) {
            Ok((host, port)) => Ok(Authority { host, port }),
            Err(_) => Err(InvalidAuthority),
        }
    }
}

/// Where a CONNECT request goes.
#[derive(Debug)]
pub struct Destination {
    /// The host to connect to; an IPv6 address stands without brackets.
    pub host: String,
    pub port: u16,
    /// Host and port in canonical spelling.
    pub authority: String,
}

/// A [`Destination`] with its strings as character sequences.
#[verifier::ext_equal]
pub ghost struct DestinationView {
    pub host: Seq<char>,
    pub port: u16,
    pub authority: Seq<char>,
}

impl View for Destination {
    type V = DestinationView;

    open spec fn view(&self) -> DestinationView {
        DestinationView { host: self.host@, port: self.port, authority: self.authority@ }
    }
}

impl Clone for Destination {
    fn clone(&self) -> (copy: Self)
        ensures
            copy@ == self@,
    {
        Destination {
            host: self.host.clone(),
            port: self.port,
            authority: self.authority.clone(),
        }
    }
}

/// `host` without the brackets around an IPv6 address.
pub open spec fn bare_host(host: Seq<char>) -> Seq<char> {
    if host.len() >= 2 && host[0] == '[' && host.last() == ']' {
        host.subrange(1, host.len() - 1)
    } else {
        host
    }
}

/// `host` with brackets around an IPv6 address.
pub open spec fn bracketed(host: Seq<char>) -> Seq<char> {
    if host.contains(':') {
        seq!['['] + host + seq![']']
    } else {
        host
    }
}

/// Host and port as one text, which the canonical spelling is made of.
pub open spec fn host_and_port(host: Seq<char>, port: u16) -> Seq<char> {
    bracketed(host).push(':') + decimal(port as nat)
}

/// The port that an authority comes to.
pub open spec fn effective_port(port: Option<u16>) -> u16 {
    match port {
        Some(port) => port,
        None => DEFAULT_PORT,
    }
}

/// The destination that `host` and `port` come to where bringing them into canonical
/// spelling gave `normalized`; or the reason why there is none.
pub open spec fn settled(
    host: Seq<char>,
    port: u16,
    normalized: Result<Seq<char>, NormalizeError>,
) -> Result<DestinationView, Seq<char>> {
    match normalized {
        Ok(authority) => Ok(DestinationView { host, port, authority }),
        Err(e) => Err("bad destination: "@ + e.text()),
    }
}

/// The destination that an authority comes to, or the reason why there is none.
pub open spec fn destination_of(host: Seq<char>, port: Option<u16>) -> Result<
    DestinationView,
    Seq<char>,
> {
    if host.len() == 0 {
        Err("empty host in CONNECT authority"@)
    } else {
        let bare = bare_host(host);
        settled(bare, effective_port(port), canonical(host_and_port(bare, effective_port(port))))
    }
}

/// The destination of a request, or the reason why there is none.
pub open spec fn destination_of_request(authority: Option<AuthorityView>) -> Result<
    DestinationView,
    Seq<char>,
> {
    match authority {
        None => Err("CONNECT request missing authority"@),
        Some(a) => destination_of(a.host, a.port),
    }
}

/// The authority that a request may have.
pub open spec fn authority_value(authority: Option<&Authority>) -> Option<AuthorityView> {
    match authority {
        Some(a) => Some(a@),
        None => None,
    }
}

/// A destination or a reason, with the strings as character sequences.
pub open spec fn destination_result(r: Result<Destination, String>) -> Result<
    DestinationView,
    Seq<char>,
> {
    match r {
        Ok(d) => Ok(d@),
        Err(e) => Err(e@),
    }
}

/// A canonical spelling or an error, with the string as a character sequence.
pub open spec fn spelling_result(r: Result<String, NormalizeError>) -> Result<
    Seq<char>,
    NormalizeError,
> {
    match r {
        Ok(s) => Ok(s@),
        Err(e) => Err(e),
    }
}

impl Destination {
    /// The destination of a request with this authority.
    ///
    /// # Errors
    ///
    /// Returns the reason for the client if there is no authority, or none that names
    /// a destination.
    pub fn from_request(authority: Option<&Authority>) -> (destination: Result<
        Destination,
        String,
    >)
        ensures
            destination_result(destination) == destination_of_request(authority_value(authority)),
    {
        match authority {
            None => Err("CONNECT request missing authority".to_owned()),
            Some(a) => Destination::from_authority(a),
        }
    }

    /// The destination that `authority` names.
    ///
    /// # Errors
    ///
    /// Returns the reason for the client if the host is empty, or if host and port
    /// have no canonical spelling.
    pub fn from_authority(authority: &Authority) -> (destination: Result<Destination, String>)
        ensures
            destination_result(destination) == destination_of(authority.host@, authority.port),
    {
        let raw_host = authority.host.as_str();
        if raw_host.is_empty() {
            return Err("empty host in CONNECT authority".to_owned());
        }
        let host = strip_brackets(raw_host);
        let port: u16 = authority.port.unwrap_or(DEFAULT_PORT);
        let formatted = format_host_and_port(host.as_str(), port);
        Destination::settle(host, port, normalize_destination(formatted.as_str()))
    }

    /// The destination that `host` and `port` come to where bringing them into
    /// canonical spelling gave `normalized`.
    ///
    /// # Errors
    ///
    /// Returns the reason for the client if `normalized` is an error.
    pub fn settle(host: String, port: u16, normalized: Result<String, NormalizeError>) -> (destination:
        Result<Destination, String>)
        ensures
            destination_result(destination) == settled(host@, port, spelling_result(normalized)),
    {
        match normalized {
            Ok(authority) => Ok(Destination { host, port, authority }),
            Err(e) => Err(joined("bad destination: ", e.message())),
        }
    }
}

/// `host` without the brackets around an IPv6 address.
fn strip_brackets(host: &str) -> (bare: String)
    ensures
        bare@ == bare_host(host@),
{
    let chars = chars_of(host);
    let n: usize = chars.len();
    if n >= 2 && chars[0] == '[' && chars[n - 1] == ']' {
        host.substring_char(1, n - 1).to_owned()
    } else {
        host.to_owned()
    }
}

/// Host and port as one text, with brackets around an IPv6 address.
fn format_host_and_port(host: &str, port: u16) -> (text: String)
    ensures
        text@ == host_and_port(host@, port),
{
    proof {
        reveal_strlit("[");
        reveal_strlit("]:");
        reveal_strlit(":");
    }
    let with_colon = if has_char(&chars_of(host), ':') {
        let opened = joined("[", host);
        joined(opened.as_str(), "]:")
    } else {
        joined(host, ":")
    };
    assert(with_colon@ == bracketed(host@).push(':'));
    let port_text = decimal_text(port);
    joined(with_colon.as_str(), port_text.as_str())
}

/// An authority names a destination just where its host is not empty, and is not an
/// empty pair of brackets. The destination has the host without brackets, the port
/// or the default port, and both in lower case as its canonical spelling.
pub proof fn every_named_host_is_a_destination(host: Seq<char>, port: Option<u16>)
    ensures
        destination_of(host, port) == if host.len() == 0 {
            Err::<DestinationView, Seq<char>>("empty host in CONNECT authority"@)
        } else if bare_host(host).len() == 0 {
            Err("bad destination: "@ + "empty host"@)
        } else {
            Ok(
                DestinationView {
                    host: bare_host(host),
                    port: effective_port(port),
                    authority: lowered(bracketed(bare_host(host))).push(':') + decimal(
                        effective_port(port) as nat,
                    ),
                },
            )
        },
{
    canonical_of_parts(bracketed(bare_host(host)), effective_port(port));
    assert(bare_host(host).len() == 0 ==> bracketed(bare_host(host)).len() == 0);
}

/// The canonical spelling of a destination is its own canonical spelling.
pub proof fn destination_authority_is_canonical(host: Seq<char>, port: Option<u16>)
    requires
        destination_of(host, port) is Ok,
    ensures
        canonical(destination_of(host, port)->Ok_0.authority) == Ok::<Seq<char>, NormalizeError>(
            destination_of(host, port)->Ok_0.authority,
        ),
{
    crate::policy::canonical_is_stable(host_and_port(bare_host(host), effective_port(port)));
}

/// Lower case changes no character that has a meaning in an authority.
proof fn lowered_keeps_marks(s: Seq<char>, mark: char)
    requires
        mark == ':' || mark == '[' || mark == ']' || mark == '@',
    ensures
        lowered(s).len() == s.len(),
        forall|i: int| 0 <= i < s.len() ==> (#[trigger] lowered(s)[i] == mark <==> s[i] == mark),
        lowered(s).contains(mark) == s.contains(mark),
{
    if s.contains(mark) {
        let i = choose|i: int| 0 <= i < s.len() && s[i] == mark;
        assert(lowered(s)[i] == mark);
    }
    if lowered(s).contains(mark) {
        let i = choose|i: int| 0 <= i < s.len() && lowered(s)[i] == mark;
        assert(s[i] == mark);
    }
}

/// Brackets and lower case can be put on in either order.
proof fn lowered_bracketed(host: Seq<char>)
    ensures
        lowered(bracketed(host)) == bracketed(lowered(host)),
{
    lowered_keeps_marks(host, ':');
    assert(lowered(bracketed(host)) =~= bracketed(lowered(host)));
}

/// Authorities that differ in the case of ASCII letters only name the same
/// destination: they have one canonical spelling.
pub proof fn case_of_the_host_is_immaterial(a: Seq<char>, b: Seq<char>, port: Option<u16>)
    requires
        lowered(a) == lowered(b),
        destination_of(a, port) is Ok,
    ensures
        destination_of(b, port) is Ok,
        destination_of(a, port)->Ok_0.authority == destination_of(b, port)->Ok_0.authority,
{
    every_named_host_is_a_destination(a, port);
    every_named_host_is_a_destination(b, port);
    lowered_keeps_marks(a, '[');
    lowered_keeps_marks(b, '[');
    lowered_keeps_marks(a, ']');
    lowered_keeps_marks(b, ']');
    assert(a.len() == b.len());
    assert(a.len() > 0);
    assert(lowered(a)[0] == '[' <==> a[0] == '[');
    assert(lowered(b)[0] == '[' <==> b[0] == '[');
    assert(lowered(a)[a.len() - 1] == ']' <==> a[a.len() - 1] == ']');
    assert(lowered(b)[b.len() - 1] == ']' <==> b[b.len() - 1] == ']');
    assert(lowered(bare_host(a)) == lowered(bare_host(b))) by {
        if bare_host(a) != a {
            assert(lowered(bare_host(a)) =~= lowered(a).subrange(1, a.len() - 1));
            assert(lowered(bare_host(b)) =~= lowered(b).subrange(1, b.len() - 1));
        }
    }
    assert(bare_host(a).len() == lowered(bare_host(a)).len());
    assert(bare_host(b).len() == lowered(bare_host(b)).len());
    lowered_bracketed(bare_host(a));
    lowered_bracketed(bare_host(b));
}

/// The canonical spelling tells destinations apart: where it is the same, the port
/// is the same, and the hosts to connect to differ in the case of ASCII letters only.
/// So what a policy engine allows is what is connected to.
pub proof fn canonical_spelling_determines_the_target(
    a: Seq<char>,
    a_port: Option<u16>,
    b: Seq<char>,
    b_port: Option<u16>,
)
    requires
        destination_of(a, a_port) is Ok,
        destination_of(b, b_port) is Ok,
        destination_of(a, a_port)->Ok_0.authority == destination_of(b, b_port)->Ok_0.authority,
    ensures
        destination_of(a, a_port)->Ok_0.port == destination_of(b, b_port)->Ok_0.port,
        lowered(destination_of(a, a_port)->Ok_0.host) == lowered(
            destination_of(b, b_port)->Ok_0.host,
        ),
{
    every_named_host_is_a_destination(a, a_port);
    every_named_host_is_a_destination(b, b_port);
    let da = destination_of(a, a_port)->Ok_0;
    let db = destination_of(b, b_port)->Ok_0;
    let text = da.authority;
    let ha = lowered(bracketed(da.host));
    let hb = lowered(bracketed(db.host));
    digits_hold_no_colon(da.port as nat);
    digits_hold_no_colon(db.port as nat);
    last_index_of_separator(ha, ':', decimal(da.port as nat));
    last_index_of_separator(hb, ':', decimal(db.port as nat));
    assert(ha.len() == hb.len());
    assert(ha == text.take(ha.len() as int));
    assert(hb == text.take(ha.len() as int));
    assert(decimal(da.port as nat) == text.skip(ha.len() as int + 1));
    assert(decimal(db.port as nat) == text.skip(ha.len() as int + 1));
    decimal_parses(da.port);
    decimal_parses(db.port);
    lowered_bracketed(da.host);
    lowered_bracketed(db.host);
    bracketed_is_injective(lowered(da.host), lowered(db.host));
}

/// Two hosts are the same where they are the same with brackets around IPv6 addresses.
proof fn bracketed_is_injective(a: Seq<char>, b: Seq<char>)
    requires
        bracketed(a) == bracketed(b),
    ensures
        a == b,
{
    bracketing_keeps_colons(a);
    bracketing_keeps_colons(b);
    if a.contains(':') {
        assert(a =~= bracketed(a).subrange(1, bracketed(a).len() - 1));
        assert(b =~= bracketed(b).subrange(1, bracketed(b).len() - 1));
    }
}

proof fn bracketing_keeps_colons(host: Seq<char>)
    ensures
        bracketed(host).contains(':') == host.contains(':'),
{
    if host.contains(':') {
        let i = choose|i: int| 0 <= i < host.len() && host[i] == ':';
        assert(bracketed(host)[i + 1] == ':');
    }
}

/// A request for the canonical spelling of a destination goes to that destination, and
/// its canonical spelling is the same again. This leaves out hosts with characters that
/// an authority would read otherwise: an `@`, a `]` in an IPv6 address, or a `[` at the
/// beginning of any other host.
pub proof fn canonical_spelling_round_trips(host: Seq<char>, port: Option<u16>)
    requires
        destination_of(host, port) is Ok,
        !bare_host(host).contains('@'),
        bare_host(host).contains(':') ==> !bare_host(host).contains(']'),
        !bare_host(host).contains(':') ==> bare_host(host)[0] != '[',
    ensures
        ({
            let d = destination_of(host, port)->Ok_0;
            destination_of(host_of(d.authority), port_of(d.authority)) == Ok::<
                DestinationView,
                Seq<char>,
            >(DestinationView { host: lowered(d.host), port: d.port, authority: d.authority })
        }),
{
    every_named_host_is_a_destination(host, port);
    let d = destination_of(host, port)->Ok_0;
    let text = d.authority;
    let low = lowered(d.host);
    let digits = decimal(d.port as nat);
    lowered_bracketed(d.host);
    lowered_keeps_marks(d.host, '@');
    lowered_keeps_marks(d.host, '[');
    lowered_keeps_marks(d.host, ']');
    lowered_keeps_marks(d.host, ':');
    lowered_is_stable(d.host);
    assert(low[0] == '[' <==> d.host[0] == '[');
    // The port is found again.
    digits_hold_no_colon(d.port as nat);
    last_index_of_separator(bracketed(low), ':', digits);
    assert(text.skip(bracketed(low).len() as int + 1) == digits);
    decimal_parses(d.port);
    assert(port_of(text) == Some(d.port));
    // There is no user part in front of the host.
    last_index_in_range(text, '@');
    let at = last_index(text, '@');
    if at >= 0 {
        crate::text::decimal_reads_back(d.port as nat);
        let before = bracketed(low).len() as int;
        if at > before {
            assert(text[at] == digits[at - before - 1]);
            assert(is_digit(digits[at - before - 1]));
        } else if low.contains(':') && 0 < at < before - 1 {
            assert(text[at] == low[at - 1]);
        } else if !low.contains(':') && at < before {
            assert(text[at] == low[at]);
        }
        assert(false);
    }
    assert(text.skip(0) == text);
    // The host is found again.
    if low.contains(':') {
        let opened = seq!['['] + low;
        let rest = seq![':'] + digits;
        assert(!opened.contains(']')) by {
            if opened.contains(']') {
                let i = choose|i: int| 0 <= i < opened.len() && opened[i] == ']';
                assert(low[i - 1] == ']');
            }
        }
        first_index_of_separator(opened, ']', rest);
        assert(text =~= opened.push(']') + rest);
        assert(host_of(text) =~= bracketed(low));
        assert(bare_host(host_of(text)) =~= low);
    } else {
        first_index_of_separator(low, ':', digits);
        assert(text[0] == low[0]);
        assert(host_of(text) =~= low);
        assert(bare_host(low) == low);
    }
    every_named_host_is_a_destination(host_of(text), port_of(text));
    assert(lowered(bracketed(low)) == bracketed(low)) by {
        lowered_bracketed(low);
    }
}

/// Where there is a host, the port that an authority names is the port of the destination
/// and stands in its canonical spelling. Without a named port it is 443.
pub proof fn a_named_port_is_kept(host: Seq<char>, port: u16)
    requires
        bare_host(host).len() > 0,
    ensures
        destination_of(host, Some(port)) == Ok::<DestinationView, Seq<char>>(
            DestinationView {
                host: bare_host(host),
                port,
                authority: lowered(bracketed(bare_host(host))).push(':') + decimal(port as nat),
            },
        ),
        destination_of(host, None) == Ok::<DestinationView, Seq<char>>(
            DestinationView {
                host: bare_host(host),
                port: 443,
                authority: lowered(bracketed(bare_host(host))).push(':') + decimal(443),
            },
        ),
{
    every_named_host_is_a_destination(host, Some(port));
    every_named_host_is_a_destination(host, None);
}

/// A host without colons and brackets is connected to as it stands, and is spelled in lower
/// case in front of the port.
pub proof fn a_plain_host_is_connected_to(host: Seq<char>, named: Option<u16>, port: u16)
    requires
        host.len() > 0,
        host[0] != '[',
        !host.contains(':'),
        named == Some(port) || named is None && port == 443,
    ensures
        destination_of(host, named) == Ok::<DestinationView, Seq<char>>(
            DestinationView {
                host,
                port,
                authority: lowered(host).push(':') + decimal(port as nat),
            },
        ),
{
    a_named_port_is_kept(host, port);
}

/// An IPv6 address in brackets is connected to without them, and keeps them in its
/// canonical spelling.
pub proof fn a_bracketed_address_is_connected_to_bare(
    address: Seq<char>,
    named: Option<u16>,
    port: u16,
)
    requires
        address.contains(':'),
        named == Some(port) || named is None && port == 443,
    ensures
        destination_of(seq!['['] + address + seq![']'], named) == Ok::<
            DestinationView,
            Seq<char>,
        >(
            DestinationView {
                host: address,
                port,
                authority: seq!['['] + lowered(address) + seq![']', ':'] + decimal(port as nat),
            },
        ),
{
    let host = seq!['['] + address + seq![']'];
    brackets_come_off(address);
    a_named_port_is_kept(host, port);
    lowered_bracketed(address);
    lowered_keeps_marks(address, ':');
    assert(bracketed(lowered(address)).push(':') =~= seq!['['] + lowered(address) + seq![
        ']',
        ':',
    ]);
}

/// No host, and nothing between brackets, is no destination.
pub proof fn no_host_is_no_destination(port: Option<u16>)
    ensures
        destination_of(Seq::empty(), port) == Err::<DestinationView, Seq<char>>(
            "empty host in CONNECT authority"@,
        ),
        destination_of(seq!['[', ']'], port) == Err::<DestinationView, Seq<char>>(
            "bad destination: "@ + "empty host"@,
        ),
{
    every_named_host_is_a_destination(seq!['[', ']'], port);
    assert(bare_host(seq!['[', ']']).len() == 0);
}

/// Brackets that stand around all of a host come off, whatever is in them.
pub proof fn brackets_come_off(inner: Seq<char>)
    ensures
        bare_host(seq!['['] + inner + seq![']']) == inner,
{
    let host = seq!['['] + inner + seq![']'];
    assert(host.subrange(1, host.len() - 1) == inner);
}

/// A host that is not bracketed on both sides is left as it stands.
pub proof fn a_host_without_brackets_stays(host: Seq<char>)
    requires
        host.len() < 2 || host[0] != '[' || host[host.len() - 1] != ']',
    ensures
        bare_host(host) == host,
{
}

/// Brackets are put around just the hosts that hold a colon.
pub proof fn only_colons_ask_for_brackets(host: Seq<char>)
    ensures
        host.contains(':') ==> bracketed(host) == seq!['['] + host + seq![']'],
        !host.contains(':') ==> bracketed(host) == host,
{
}

/// The port that stands in for none is 443, and stands in for no other.
pub proof fn only_a_missing_port_is_filled_in(port: u16)
    ensures
        effective_port(Some(port)) == port,
        effective_port(None) == 443,
{
}

/// Host and port are joined by a colon, with the port in decimal notation.
pub proof fn host_and_port_are_joined_by_a_colon(host: Seq<char>, port: u16)
    ensures
        !host.contains(':') ==> host_and_port(host, port) == host + seq![':'] + decimal(
            port as nat,
        ),
        host.contains(':') ==> host_and_port(host, port) == seq!['['] + host + seq![']', ':']
            + decimal(port as nat),
{
    assert(host.push(':') == host + seq![':']);
    assert((seq!['['] + host + seq![']']).push(':') =~= seq!['['] + host + seq![']', ':']);
}

/// A canonical spelling completes a destination; without one, its error's words follow
/// those that tell the client of a bad destination.
pub proof fn the_spelling_settles_the_destination(
    host: Seq<char>,
    port: u16,
    authority: Seq<char>,
)
    ensures
        settled(host, port, Ok(authority)) == Ok::<DestinationView, Seq<char>>(
            DestinationView { host, port, authority },
        ),
        settled(host, port, Err(NormalizeError::MissingPort)) == Err::<
            DestinationView,
            Seq<char>,
        >("bad destination: "@ + "missing port"@),
        settled(host, port, Err(NormalizeError::EmptyHost)) == Err::<DestinationView, Seq<char>>(
            "bad destination: "@ + "empty host"@,
        ),
        settled(host, port, Err(NormalizeError::InvalidPort)) == Err::<
            DestinationView,
            Seq<char>,
        >("bad destination: "@ + "invalid port"@),
{
}

/// A request goes where its authority says, and nowhere without one.
pub proof fn a_request_goes_where_its_authority_says(host: Seq<char>, port: Option<u16>)
    ensures
        destination_of_request(Some(AuthorityView { host, port })) == destination_of(host, port),
        destination_of_request(None) == Err::<DestinationView, Seq<char>>(
            "CONNECT request missing authority"@,
        ),
{
}

/// `host` and `host:port` read as what they are put together from.
pub proof fn the_text_of_a_plain_host_reads_back(host: Seq<char>, port: u16)
    requires
        host.len() == 0 || host[0] != '[',
        !host.contains(':'),
        !host.contains('@'),
    ensures
        host_of(host) == host,
        port_of(host) is None,
        host_of(host + seq![':'] + decimal(port as nat)) == host,
        port_of(host + seq![':'] + decimal(port as nat)) == Some(port),
{
    let digits = decimal(port as nat);
    let text = host + seq![':'] + digits;
    crate::text::last_index_is_last(host, '@');
    crate::text::last_index_is_last(host, ':');
    crate::text::first_index_is_first(host, ':');
    assert(host.skip(0) == host);
    assert(host.take(host.len() as int) == host);
    assert(text =~= host.push(':') + digits);
    digits_hold_no_colon(port as nat);
    decimal_parses(port);
    last_index_of_separator(host, ':', digits);
    first_index_of_separator(host, ':', digits);
    assert(text.skip(host.len() as int + 1) == digits);
    no_user_part(text, port, host.len() as int + 1);
    assert(text.take(host.len() as int) == host);
    assert(text[0] != '[');
}

/// `[address]` and `[address]:port` read as what they are put together from. The colons
/// of the address begin no port.
pub proof fn the_text_of_a_bracketed_address_reads_back(address: Seq<char>, port: u16)
    requires
        !address.contains(']'),
        !address.contains('@'),
    ensures
        ({
            let host = seq!['['] + address + seq![']'];
            &&& host_of(host) == host
            &&& port_of(host) is None
            &&& host_of(host + seq![':'] + decimal(port as nat)) == host
            &&& port_of(host + seq![':'] + decimal(port as nat)) == Some(port)
        }),
{
    let host = seq!['['] + address + seq![']'];
    let opened = seq!['['] + address;
    let digits = decimal(port as nat);
    let text = host + seq![':'] + digits;
    assert(!opened.contains(']')) by {
        if opened.contains(']') {
            let i = choose|i: int| 0 <= i < opened.len() && opened[i] == ']';
            assert(address[i - 1] == ']');
        }
    }
    assert(!host.contains('@')) by {
        if host.contains('@') {
            let i = choose|i: int| 0 <= i < host.len() && host[i] == '@';
            assert(address[i - 1] == '@');
        }
    }
    // Without a port.
    crate::text::last_index_is_last(host, '@');
    assert(host.skip(0) == host);
    assert(host =~= opened.push(']') + Seq::<char>::empty());
    first_index_of_separator(opened, ']', Seq::empty());
    assert(host.take(opened.len() as int + 1) == host);
    crate::text::last_index_is_last(host, ':');
    let colon = last_index(host, ':');
    if colon >= 0 {
        let tail = host.skip(colon + 1);
        assert(host[host.len() - 1] == ']');
        assert(tail[tail.len() - 1] == ']');
        if u16_value(tail) is Some {
            crate::text::numbers_are_digits(tail);
        }
    }
    // With a port.
    assert(text =~= host.push(':') + digits);
    digits_hold_no_colon(port as nat);
    decimal_parses(port);
    last_index_of_separator(host, ':', digits);
    assert(text.skip(host.len() as int + 1) == digits);
    no_user_part(text, port, host.len() as int + 1);
    assert(text =~= opened.push(']') + (seq![':'] + digits));
    first_index_of_separator(opened, ']', seq![':'] + digits);
    assert(text.take(host.len() as int) == host);
}

/// A user in front of the host is not part of the host.
pub proof fn a_user_is_no_part_of_the_host(user: Seq<char>, rest: Seq<char>)
    requires
        !rest.contains('@'),
    ensures
        host_of(user.push('@') + rest) == host_of(rest),
{
    last_index_of_separator(user, '@', rest);
    crate::text::last_index_is_last(rest, '@');
    assert((user.push('@') + rest).skip(user.len() as int + 1) == rest);
    assert(rest.skip(0) == rest);
}

/// A text whose last characters are a port, and that holds no `@` in front, holds none.
proof fn no_user_part(text: Seq<char>, port: u16, from: int)
    requires
        0 <= from <= text.len(),
        text.skip(from) == decimal(port as nat),
        forall|i: int| 0 <= i < from ==> #[trigger] text[i] != '@',
    ensures
        last_index(text, '@') == -1,
        text.skip(0) == text,
{
    crate::text::last_index_is_last(text, '@');
    crate::text::decimal_reads_back(port as nat);
    let at = last_index(text, '@');
    if at >= from {
        assert(text.skip(from)[at - from] == '@');
        assert(is_digit(decimal(port as nat)[at - from]));
    }
}

/// The view of an authority or a destination holds its words and numbers.
pub proof fn authorities_and_destinations_show_their_fields(a: Authority, d: Destination)
    ensures
        a@.host == a.host@,
        a@.port == a.port,
        d@.host == d.host@,
        d@.port == d.port,
        d@.authority == d.authority@,
{
}

/// An optional authority, a destination or a reason, and a spelling or an error are taken
/// word by word; so are the two parts of an authority's text.
pub proof fn results_keep_their_words(
    authority: Option<&Authority>,
    text: Seq<char>,
    destination: Result<Destination, String>,
    spelling: Result<String, NormalizeError>,
)
    ensures
        authority matches Some(a) ==> authority_value(authority) == Some(a@),
        authority is None ==> authority_value(authority) is None,
        authority_of(text).host == host_of(text),
        authority_of(text).port == port_of(text),
        destination matches Ok(d) ==> destination_result(destination) == Ok::<
            DestinationView,
            Seq<char>,
        >(d@),
        destination matches Err(e) ==> destination_result(destination) == Err::<
            DestinationView,
            Seq<char>,
        >(e@),
        spelling matches Ok(s) ==> spelling_result(spelling) == Ok::<Seq<char>, NormalizeError>(
            s@,
        ),
        spelling matches Err(e) ==> spelling_result(spelling) == Err::<Seq<char>, NormalizeError>(
            e,
        ),
{
}

} // verus!
