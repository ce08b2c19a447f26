//! The documents of the tunnel service, and what is read out of them.
//!
//! Requests and replies travel elsewhere; this module holds the rules: how a
//! tunnel description becomes the metadata shown to the user, how an address
//! is taken apart, how a claim code is found in a line of output, and how a
//! reply body is shortened for an error message.
use crate::text::{
    all_digits, ascii_lowered, char_is_ascii_alphanumeric, concat2, concat3, contains,
    contains_text, copy_opt_text, eq_ignore_ascii_case, equal_ignoring_ascii_case, find,
    first_occurrence, from_chars, is_all_digits, is_ascii_alphanumeric, last_position, opt_text,
    parse_u16, parsed_u16, rfind_char, same_text, slice_of, texts, to_ascii_lower, to_chars,
    trim, trimmed,
};
use crate::launch::{LaunchCommand, LaunchCommandView, StreamMode};
use vstd::prelude::*;
use vstd::string::*;
use vstd::utf8::*;

verus! {

// ------------------------------------------------------------------- types

/// What is shown of one tunnel.
#[derive(Debug, Clone, PartialEq, Eq)]
pub struct PlayitTunnelMetadata {
    pub id: Option<String>,
    pub name: Option<String>,
    pub protocol: Option<String>,
    pub public_hostname: Option<String>,
    pub public_port: Option<u16>,
    pub destination_port: Option<u16>,
    pub agent_version: Option<String>,
    pub status: Option<String>,
    pub last_heartbeat: Option<String>,
}

/// The mathematical content of a [`PlayitTunnelMetadata`].
pub struct PlayitTunnelMetadataView {
    pub id: Option<Seq<char>>,
    pub name: Option<Seq<char>>,
    pub protocol: Option<Seq<char>>,
    pub public_hostname: Option<Seq<char>>,
    pub public_port: Option<u16>,
    pub destination_port: Option<u16>,
    pub agent_version: Option<Seq<char>>,
    pub status: Option<Seq<char>>,
    pub last_heartbeat: Option<Seq<char>>,
}

impl View for PlayitTunnelMetadata {
    type V = PlayitTunnelMetadataView;

    open spec fn view(&self) -> PlayitTunnelMetadataView {
        PlayitTunnelMetadataView {
            id: opt_text(self.id),
            name: opt_text(self.name),
            protocol: opt_text(self.protocol),
            public_hostname: opt_text(self.public_hostname),
            public_port: self.public_port,
            destination_port: self.destination_port,
            agent_version: opt_text(self.agent_version),
            status: opt_text(self.status),
            last_heartbeat: opt_text(self.last_heartbeat),
        }
    }
}

/// The error part of a reply.
#[derive(Debug, Clone, PartialEq, Eq)]
pub struct ApiErrorPayload {
    pub message: Option<String>,
    pub code: Option<String>,
}

/// The text that stands for an error: its message, else its code, else
/// `Unknown error`.
pub open spec fn error_text_of(message: Option<Seq<char>>, code: Option<Seq<char>>) -> Seq<char> {
    match message {
        Some(m) => m,
        None => match code {
            Some(c) => c,
            None => "Unknown error"@,
        },
    }
}

impl ApiErrorPayload {
    /// The text that stands for the error.
    pub fn message(&self) -> (text: String)
        ensures
            text@ == error_text_of(opt_text(self.message), opt_text(self.code)),
    {
        match &self.message {
            Some(m) => m.clone(),
            None => match &self.code {
                Some(c) => c.clone(),
                None => "Unknown error".to_string(),
            },
        }
    }
}

/// One named setting of a tunnel's agent configuration.
#[derive(Debug, Clone, PartialEq, Eq)]
pub struct AgentTunnelField {
    pub name: String,
    pub value: String,
}

/// The mathematical content of an [`AgentTunnelField`].
pub struct AgentTunnelFieldView {
    pub name: Seq<char>,
    pub value: Seq<char>,
}

impl View for AgentTunnelField {
    type V = AgentTunnelFieldView;

    open spec fn view(&self) -> AgentTunnelFieldView {
        AgentTunnelFieldView { name: self.name@, value: self.value@ }
    }
}

/// The agent configuration of a tunnel.
#[derive(Debug, Clone, PartialEq, Eq)]
pub struct AgentTunnelConfig {
    pub fields: Vec<AgentTunnelField>,
}

impl View for AgentTunnelConfig {
    type V = Seq<AgentTunnelFieldView>;

    open spec fn view(&self) -> Seq<AgentTunnelFieldView> {
        self.fields@.map_values(|f: AgentTunnelField| f@)
    }
}

/// A tunnel as the current interface of the service describes it.
#[derive(Debug, Clone, PartialEq, Eq)]
pub struct AgentTunnelV1 {
    pub id: String,
    pub name: String,
    pub display_address: String,
    pub tunnel_type_display: Option<String>,
    pub disabled_reason: Option<String>,
    pub port_type: Option<String>,
    pub agent_config: AgentTunnelConfig,
}

/// The mathematical content of an [`AgentTunnelV1`].
pub struct AgentTunnelV1View {
    pub id: Seq<char>,
    pub name: Seq<char>,
    pub display_address: Seq<char>,
    pub tunnel_type_display: Option<Seq<char>>,
    pub disabled_reason: Option<Seq<char>>,
    pub port_type: Option<Seq<char>>,
    pub agent_config: Seq<AgentTunnelFieldView>,
}

impl View for AgentTunnelV1 {
    type V = AgentTunnelV1View;

    open spec fn view(&self) -> AgentTunnelV1View {
        AgentTunnelV1View {
            id: self.id@,
            name: self.name@,
            display_address: self.display_address@,
            tunnel_type_display: opt_text(self.tunnel_type_display),
            disabled_reason: opt_text(self.disabled_reason),
            port_type: opt_text(self.port_type),
            agent_config: self.agent_config@,
        }
    }
}

/// The tunnels of an agent, as the current interface lists them.
#[derive(Debug, Clone, PartialEq, Eq)]
pub struct AgentRunDataV1 {
    pub tunnels: Vec<AgentTunnelV1>,
}

/// The public ports of a tunnel of the earlier interface.
#[derive(Debug, Clone, Copy, PartialEq, Eq)]
pub struct LegacyPortRange {
    pub from: u16,
    pub to: u16,
}

/// A tunnel as the earlier interface of the service describes it.
#[derive(Debug, Clone, PartialEq, Eq)]
pub struct LegacyAgentTunnel {
    pub id: String,
    pub name: Option<String>,
    pub tunnel_type: Option<String>,
    pub assigned_domain: Option<String>,
    pub custom_domain: Option<String>,
    pub proto: Option<String>,
    pub port: LegacyPortRange,
    pub disabled: Option<String>,
    pub agent_config: AgentTunnelConfig,
}

/// The mathematical content of a [`LegacyAgentTunnel`].
pub struct LegacyAgentTunnelView {
    pub id: Seq<char>,
    pub name: Option<Seq<char>>,
    pub tunnel_type: Option<Seq<char>>,
    pub assigned_domain: Option<Seq<char>>,
    pub custom_domain: Option<Seq<char>>,
    pub proto: Option<Seq<char>>,
    pub port_from: u16,
    pub port_to: u16,
    pub disabled: Option<Seq<char>>,
    pub agent_config: Seq<AgentTunnelFieldView>,
}

impl View for LegacyAgentTunnel {
    type V = LegacyAgentTunnelView;

    open spec fn view(&self) -> LegacyAgentTunnelView {
        LegacyAgentTunnelView {
            id: self.id@,
            name: opt_text(self.name),
            tunnel_type: opt_text(self.tunnel_type),
            assigned_domain: opt_text(self.assigned_domain),
            custom_domain: opt_text(self.custom_domain),
            proto: opt_text(self.proto),
            port_from: self.port.from,
            port_to: self.port.to,
            disabled: opt_text(self.disabled),
            agent_config: self.agent_config@,
        }
    }
}

/// The tunnels of an agent, as the earlier interface lists them.
#[derive(Debug, Clone, PartialEq, Eq)]
pub struct LegacyAgentRunData {
    pub tunnels: Vec<LegacyAgentTunnel>,
}

// --------------------------------------------------------------- addresses

/// What separates a scheme from the rest of an address.
pub open spec fn scheme_separator() -> Seq<char> {
    "://"@
}

/// `s` without everything up to and including the first scheme separator.
pub open spec fn without_scheme(s: Seq<char>) -> Seq<char> {
    match first_occurrence(s, scheme_separator()) {
        Some(i) => s.subrange(i + scheme_separator().len(), s.len() as int),
        None => s,
    }
}

/// The port written after a bracketed host: a colon, then the number.
pub open spec fn port_after_bracket(after: Seq<char>) -> Option<u16> {
    if after.len() > 0 && after[0] == ':' {
        parsed_u16(after.drop_first())
    } else {
        None
    }
}

/// Host and port of an address whose white space and scheme are gone.
///
/// An address that starts with `[` and holds a `]` has everything through the
/// last `]` as its host, and the number after a following colon as its port.
/// Otherwise the last colon parts host and port, if digits and nothing else
/// follow it and they write a number below 65536.  Otherwise the whole is the
/// host and no port is known.
pub open spec fn host_and_port(rest: Seq<char>) -> (Option<Seq<char>>, Option<u16>) {
    if rest.len() > 0 && rest[0] == '[' && last_position(rest, ']') is Some {
        let end = last_position(rest, ']')->0;
        (
            Some(rest.subrange(0, end + 1)),
            port_after_bracket(rest.subrange(end + 1, rest.len() as int)),
        )
    } else {
        match last_position(rest, ':') {
            Some(i) => {
                let port = rest.subrange(i + 1, rest.len() as int);
                if all_digits(port) && parsed_u16(port) is Some {
                    (Some(rest.subrange(0, i)), parsed_u16(port))
                } else {
                    (Some(rest), None)
                }
            },
            None => (Some(rest), None),
        }
    }
}

/// Host and port of a displayed address.
pub open spec fn address_of(address: Seq<char>) -> (Option<Seq<char>>, Option<u16>) {
    host_and_port(without_scheme(trimmed(address)))
}

fn split_host_and_port(rest: &Vec<char>) -> (r: (Option<String>, Option<u16>))
    ensures
        opt_text(r.0) == host_and_port(rest@).0,
        r.1 == host_and_port(rest@).1,
{
    let n = rest.len();
    if n > 0 && rest[0] == '[' {
        match rfind_char(rest, ']') {
            Some(end) => {
                let host = slice_of(rest, 0, end + 1);
                let port = if end + 1 < n && rest[end + 1] == ':' {
                    let digits = slice_of(rest, end + 2, n);
                    assert(digits@ == rest@.subrange(end + 1, n as int).drop_first());
                    parse_u16(&digits)
                } else {
                    None
                };
                return (Some(from_chars(&host)), port);
            },
            None => {},
        }
    }
    match rfind_char(rest, ':') {
        Some(i) => {
            let port = slice_of(rest, i + 1, n);
            if is_all_digits(&port) {
                match parse_u16(&port) {
                    Some(p) => {
                        let host = slice_of(rest, 0, i);
                        return (Some(from_chars(&host)), Some(p));
                    },
                    None => {},
                }
            }
        },
        None => {},
    }
    (Some(from_chars(rest)), None)
}

/// Takes a displayed address apart into host and port.
pub fn parse_address(address: &str) -> (r: (Option<String>, Option<u16>))
    ensures
        opt_text(r.0) == address_of(address@).0,
        r.1 == address_of(address@).1,
{
    let chars = to_chars(address);
    let kept = trim(&chars);
    let separator = to_chars("://");
    let n = kept.len();
    let rest = match find(&kept, &separator) {
        Some(i) => slice_of(&kept, i + separator.len(), n),
        None => kept,
    };
    split_host_and_port(&rest)
}

// -------------------------------------------------------------- claim codes

/// The address under which a claim is confirmed; the claim code follows it.
pub open spec fn claim_prefix() -> Seq<char> {
    "https://playit.gg/claim/"@
}

/// The longest prefix of `s` made of ASCII letters and digits.
pub open spec fn alphanumeric_prefix(s: Seq<char>) -> Seq<char>
    decreases s.len(),
{
    if s.len() > 0 && is_ascii_alphanumeric(s[0]) {
        seq![s[0]] + alphanumeric_prefix(s.drop_first())
    } else {
        Seq::<char>::empty()
    }
}

/// The claim code of a line: the ASCII letters and digits that follow the
/// first claim address in the line, in lower case; none where the line holds
/// no claim address or nothing of that kind follows it.
pub open spec fn claim_code_of(line: Seq<char>) -> Option<Seq<char>> {
    match first_occurrence(line, claim_prefix()) {
        Some(i) => {
            let code = alphanumeric_prefix(
                line.subrange(i + claim_prefix().len(), line.len() as int),
            );
            if code.len() == 0 {
                None
            } else {
                Some(ascii_lowered(code))
            }
        },
        None => None,
    }
}

/// Finds the claim code in a line of the agent's output.
pub fn extract_claim_code(line: &str) -> (code: Option<String>)
    ensures
        opt_text(code) == claim_code_of(line@),
{
    let chars = to_chars(line);
    let prefix = to_chars("https://playit.gg/claim/");
    let n = chars.len();
    match find(&chars, &prefix) {
        Some(i) => {
            let start = i + prefix.len();
            let ghost tail = chars@.subrange(start as int, n as int);
            let mut end: usize = start;
            assert(chars@.subrange(start as int, start as int) =~= Seq::<char>::empty());
            while end < n && char_is_ascii_alphanumeric(chars[end])
                invariant
                    start <= end <= n,
                    n == chars@.len(),
                    alphanumeric_prefix(tail) == chars@.subrange(start as int, end as int)
                        + alphanumeric_prefix(chars@.subrange(end as int, n as int)),
                    tail == chars@.subrange(start as int, n as int),
                decreases n - end,
            {
                proof {
                    let here = chars@.subrange(end as int, n as int);
                    assert(here.drop_first() == chars@.subrange(end + 1, n as int));
                    assert(chars@.subrange(start as int, end + 1) =~= chars@.subrange(
                        start as int,
                        end as int,
                    ) + seq![here[0]]);
                }
                end += 1;
            }
            proof {
                let here = chars@.subrange(end as int, n as int);
                assert(alphanumeric_prefix(here) =~= Seq::<char>::empty());
                assert(alphanumeric_prefix(tail) =~= chars@.subrange(start as int, end as int));
            }
            if end == start {
                None
            } else {
                let code = slice_of(&chars, start, end);
                let lowered = to_ascii_lower(&code);
                Some(from_chars(&lowered))
            }
        },
        None => None,
    }
}

// ------------------------------------------------------------ body snippets

/// How many characters of a reply body an error message shows.
pub open spec fn snippet_limit() -> nat {
    200
}

/// What an error message shows of a reply body that decodes to `text`:
/// `«empty»` where nothing but white space is there; otherwise the first 200
/// characters of the text without its surrounding white space, followed by
/// `...` where that text takes more than 200 bytes in UTF-8.
pub open spec fn snippet_of(text: Seq<char>) -> Seq<char> {
    let kept = trimmed(text);
    if kept.len() == 0 {
        "«empty»"@
    } else {
        let head = if kept.len() > snippet_limit() {
            kept.take(snippet_limit() as int)
        } else {
            kept
        };
        if encode_utf8(kept).len() > snippet_limit() {
            head + "..."@
        } else {
            head
        }
    }
}

/// Shortens the text of a reply body for an error message.
pub fn snippet_of_text(text: &str) -> (snippet: String)
    ensures
        snippet@ == snippet_of(text@),
{
    let chars = to_chars(text);
    let kept = trim(&chars);
    if kept.len() == 0 {
        return "«empty»".to_string();
    }
    let whole = from_chars(&kept);
    let shown: usize = if kept.len() > 200 {
        200
    } else {
        kept.len()
    };
    let head = slice_of(&kept, 0, shown);
    assert(kept@.subrange(0, shown as int) == if kept@.len() > 200 {
        kept@.take(200)
    } else {
        kept@
    });
    let mut snippet = from_chars(&head);
    if whole.as_str().as_bytes().len() > 200 {
        snippet.append("...");
    }
    snippet
}

/// The text that `String::from_utf8_lossy` makes of `bytes`.
pub uninterp spec fn lossy_text_of(bytes: Seq<u8>) -> Seq<char>;

/// Decodes bytes with `String::from_utf8_lossy`.
///
/// Trusted: the result depends on the bytes alone.  What it holds is not
/// stated here.
#[verifier::external_body]
fn decode_lossy(bytes: &[u8]) -> (text: String)
    ensures
        text@ == lossy_text_of(bytes@),
{
    String::from_utf8_lossy(bytes).into_owned()
}

/// Shortens a reply body for an error message.
pub fn body_snippet(bytes: &[u8]) -> (snippet: String)
    ensures
        snippet@ == snippet_of(lossy_text_of(bytes@)),
{
    let text = decode_lossy(bytes);
    snippet_of_text(text.as_str())
}

// ----------------------------------------------------------------- metadata

/// Whether a field of that name holds a port: the name is `port` in any
/// mixture of ASCII upper and lower case, or it contains `port`.
pub open spec fn names_a_port(name: Seq<char>) -> bool {
    equal_ignoring_ascii_case(name, "port"@) || contains_text(name, "port"@)
}

/// Whether field `i` is the first one whose name holds a port.
pub open spec fn is_first_port_field(fields: Seq<AgentTunnelFieldView>, i: int) -> bool {
    &&& 0 <= i < fields.len()
    &&& names_a_port(fields[i].name)
    &&& forall|j: int| 0 <= j < i ==> !names_a_port((#[trigger] fields[j]).name)
}

/// The port to which a tunnel leads: the number that the value of the first
/// port field writes.  No later field is consulted where that value writes
/// none.
pub open spec fn destination_port_of(fields: Seq<AgentTunnelFieldView>) -> Option<u16> {
    if exists|i: int| is_first_port_field(fields, i) {
        parsed_u16(fields[choose|i: int| is_first_port_field(fields, i)].value)
    } else {
        None
    }
}

/// The status shown for a tunnel: `Active`, or `Disabled (<reason>)`.
pub open spec fn status_text_of(reason: Option<Seq<char>>) -> Seq<char> {
    match reason {
        Some(r) => "Disabled ("@ + r + ")"@,
        None => "Active"@,
    }
}

/// The text that `str::to_uppercase` makes of `s`.
pub uninterp spec fn uppercase_of(s: Seq<char>) -> Seq<char>;

/// Converts a text to upper case with `str::to_uppercase`.
///
/// Trusted: the result depends on the text alone.  What it holds is not
/// stated here.
#[verifier::external_body]
fn to_uppercase(s: &str) -> (out: String)
    ensures
        out@ == uppercase_of(s@),
{
    s.to_uppercase()
}

/// The protocol shown for a tunnel: its port type in upper case.
pub open spec fn protocol_of(port_type: Option<Seq<char>>) -> Option<Seq<char>> {
    match port_type {
        Some(p) => Some(uppercase_of(p)),
        None => None,
    }
}

/// The name shown for a tunnel: its own name without surrounding white space,
/// or `fallback` where nothing is left of it.
pub open spec fn shown_name(name: Option<Seq<char>>, fallback: Option<Seq<char>>) -> Option<
    Seq<char>,
> {
    match name {
        Some(n) => if trimmed(n).len() == 0 {
            fallback
        } else {
            Some(trimmed(n))
        },
        None => fallback,
    }
}

/// `domain`, unless it is absent or holds nothing but white space.
pub open spec fn usable_domain(domain: Option<Seq<char>>) -> Option<Seq<char>> {
    match domain {
        Some(d) => if trimmed(d).len() == 0 {
            None
        } else {
            Some(d)
        },
        None => None,
    }
}

/// What is shown of a tunnel of the current interface.
pub open spec fn metadata_of_v1(t: AgentTunnelV1View) -> PlayitTunnelMetadataView {
    PlayitTunnelMetadataView {
        id: Some(t.id),
        name: shown_name(Some(t.name), t.tunnel_type_display),
        protocol: protocol_of(t.port_type),
        public_hostname: address_of(t.display_address).0,
        public_port: address_of(t.display_address).1,
        destination_port: destination_port_of(t.agent_config),
        agent_version: None,
        status: Some(status_text_of(t.disabled_reason)),
        last_heartbeat: None,
    }
}

/// What is shown of a tunnel of the earlier interface.  The custom domain
/// goes before the assigned one; a first public port of 0 means none.
pub open spec fn metadata_of_legacy(t: LegacyAgentTunnelView) -> PlayitTunnelMetadataView {
    PlayitTunnelMetadataView {
        id: Some(t.id),
        name: shown_name(t.name, t.tunnel_type),
        protocol: protocol_of(t.proto),
        public_hostname: match usable_domain(t.custom_domain) {
            Some(d) => Some(d),
            None => usable_domain(t.assigned_domain),
        },
        public_port: if t.port_from == 0 {
            None
        } else {
            Some(t.port_from)
        },
        destination_port: destination_port_of(t.agent_config),
        agent_version: None,
        status: Some(status_text_of(t.disabled)),
        last_heartbeat: None,
    }
}

fn field_names_a_port(name: &str) -> (r: bool)
    ensures
        r == names_a_port(name@),
{
    let chars = to_chars(name);
    let port = to_chars("port");
    eq_ignore_ascii_case(&chars, &port) || contains(&chars, &port)
}

fn destination_port(config: &AgentTunnelConfig) -> (port: Option<u16>)
    ensures
        port == destination_port_of(config@),
{
    let mut i: usize = 0;
    while i < config.fields.len()
        invariant
            i <= config.fields@.len(),
            forall|j: int| 0 <= j < i ==> !names_a_port((#[trigger] config@[j]).name),
        decreases config.fields@.len() - i,
    {
        assert(config@[i as int] == config.fields@[i as int]@);
        if field_names_a_port(config.fields[i].name.as_str()) {
            proof {
                let fields = config@;
                assert(is_first_port_field(fields, i as int));
                let k = choose|k: int| is_first_port_field(fields, k);
                if k < i {
                    assert(!names_a_port(fields[k].name));
                } else if i < k {
                    assert(!names_a_port(fields[i as int].name));
                }
            }
            let digits = to_chars(config.fields[i].value.as_str());
            return parse_u16(&digits);
        }
        i += 1;
    }
    None
}

fn status_text(reason: &Option<String>) -> (text: String)
    ensures
        text@ == status_text_of(opt_text(*reason)),
{
    match reason {
        Some(r) => concat3("Disabled (", r.as_str(), ")"),
        None => "Active".to_string(),
    }
}

fn protocol(port_type: &Option<String>) -> (p: Option<String>)
    ensures
        opt_text(p) == protocol_of(opt_text(*port_type)),
{
    match port_type {
        Some(p) => Some(to_uppercase(p.as_str())),
        None => None,
    }
}

fn name_or(name: &str, fallback: &Option<String>) -> (shown: Option<String>)
    ensures
        opt_text(shown) == shown_name(Some(name@), opt_text(*fallback)),
{
    let chars = to_chars(name);
    let kept = trim(&chars);
    if kept.len() == 0 {
        copy_opt_text(fallback)
    } else {
        Some(from_chars(&kept))
    }
}

fn domain_if_usable(domain: &Option<String>) -> (usable: Option<String>)
    ensures
        opt_text(usable) == usable_domain(opt_text(*domain)),
{
    match domain {
        Some(d) => {
            let chars = to_chars(d.as_str());
            let kept = trim(&chars);
            if kept.len() == 0 {
                None
            } else {
                Some(d.clone())
            }
        },
        None => None,
    }
}

impl PlayitTunnelMetadata {
    /// What is shown of a tunnel of the current interface.
    pub fn from_v1(tunnel: &AgentTunnelV1) -> (shown: Self)
        ensures
            shown@ == metadata_of_v1(tunnel@),
    {
        let address = parse_address(tunnel.display_address.as_str());
        PlayitTunnelMetadata {
            id: Some(tunnel.id.clone()),
            name: name_or(tunnel.name.as_str(), &tunnel.tunnel_type_display),
            protocol: protocol(&tunnel.port_type),
            public_hostname: address.0,
            public_port: address.1,
            destination_port: destination_port(&tunnel.agent_config),
            agent_version: None,
            status: Some(status_text(&tunnel.disabled_reason)),
            last_heartbeat: None,
        }
    }

    /// What is shown of a tunnel of the earlier interface.
    pub fn from_legacy(tunnel: &LegacyAgentTunnel) -> (shown: Self)
        ensures
            shown@ == metadata_of_legacy(tunnel@),
    {
        let name = match &tunnel.name {
            Some(n) => name_or(n.as_str(), &tunnel.tunnel_type),
            None => copy_opt_text(&tunnel.tunnel_type),
        };
        let public_hostname = match domain_if_usable(&tunnel.custom_domain) {
            Some(d) => Some(d),
            None => domain_if_usable(&tunnel.assigned_domain),
        };
        let public_port = if tunnel.port.from == 0 {
            None
        } else {
            Some(tunnel.port.from)
        };
        PlayitTunnelMetadata {
            id: Some(tunnel.id.clone()),
            name,
            protocol: protocol(&tunnel.proto),
            public_hostname,
            public_port,
            destination_port: destination_port(&tunnel.agent_config),
            agent_version: None,
            status: Some(status_text(&tunnel.disabled)),
            last_heartbeat: None,
        }
    }
}

impl AgentRunDataV1 {
    /// What is shown of each tunnel, in the order of the list.
    pub fn into_metadata(self) -> (shown: Vec<PlayitTunnelMetadata>)
        ensures
            shown@.len() == self.tunnels@.len(),
            forall|i: int|
                0 <= i < shown@.len() ==> (#[trigger] shown@[i])@ == metadata_of_v1(
                    self.tunnels@[i]@,
                ),
    {
        let mut shown: Vec<PlayitTunnelMetadata> = Vec::new();
        let mut i: usize = 0;
        while i < self.tunnels.len()
            invariant
                i <= self.tunnels@.len(),
                shown@.len() == i,
                forall|j: int|
                    0 <= j < i ==> (#[trigger] shown@[j])@ == metadata_of_v1(self.tunnels@[j]@),
            decreases self.tunnels@.len() - i,
        {
            shown.push(PlayitTunnelMetadata::from_v1(&self.tunnels[i]));
            i += 1;
        }
        shown
    }
}

impl LegacyAgentRunData {
    /// What is shown of each tunnel, in the order of the list.
    pub fn into_metadata(self) -> (shown: Vec<PlayitTunnelMetadata>)
        ensures
            shown@.len() == self.tunnels@.len(),
            forall|i: int|
                0 <= i < shown@.len() ==> (#[trigger] shown@[i])@ == metadata_of_legacy(
                    self.tunnels@[i]@,
                ),
    {
        let mut shown: Vec<PlayitTunnelMetadata> = Vec::new();
        let mut i: usize = 0;
        while i < self.tunnels.len()
            invariant
                i <= self.tunnels@.len(),
                shown@.len() == i,
                forall|j: int|
                    0 <= j < i ==> (#[trigger] shown@[j])@ == metadata_of_legacy(
                        self.tunnels@[j]@,
                    ),
            decreases self.tunnels@.len() - i,
        {
            shown.push(PlayitTunnelMetadata::from_legacy(&self.tunnels[i]));
            i += 1;
        }
        shown
    }
}

// ------------------------------------------------------------------ replies

/// What a failed reply carries: its `reason` where the payload is a text, and
/// `shown`, the payload as it is printed in messages.
#[derive(Debug, Clone, PartialEq, Eq)]
pub struct FailData {
    pub reason: Option<String>,
    pub shown: String,
}

/// A reply of the service.
#[derive(Debug, Clone, PartialEq, Eq)]
pub enum ApiEnvelope<T> {
    Success { data: T },
    Fail { data: FailData },
    Error { error: ApiErrorPayload },
}

/// Which interface of the service a reply came from.
#[derive(Debug, Clone, Copy, PartialEq, Eq, Structural)]
pub enum Interface {
    Current,
    Legacy,
}

/// How the interface is named in messages: the legacy one by ` legacy`.
pub open spec fn interface_label(interface: Interface) -> Seq<char> {
    match interface {
        Interface::Current => ""@,
        Interface::Legacy => " legacy"@,
    }
}

fn label_of(interface: Interface) -> (label: &'static str)
    ensures
        label@ == interface_label(interface),
{
    match interface {
        Interface::Current => "",
        Interface::Legacy => " legacy",
    }
}

/// The message for a secret that the service does not accept.
pub open spec fn rejected_secret_message() -> Seq<char> {
    "Playit rejected the saved secret. Restart this instance to regenerate a new Playit agent token."@
}

/// The message for a request that the service turned away for its rate.
pub open spec fn rate_limited_message() -> Seq<char> {
    "Playit rate-limited the request. Please wait a few seconds before trying again."@
}

/// Whether the earlier interface is tried after the current one answered
/// with `status`: after 400, 404 and 405, and no other.
pub open spec fn calls_for_legacy(status: u16) -> bool {
    status == 400 || status == 404 || status == 405
}

/// The message for a reply whose status is not 200.  `status_text` is the
/// status as it is printed and `snippet` the shortened body.
pub open spec fn status_message_of(
    interface: Interface,
    status: u16,
    status_text: Seq<char>,
    snippet: Seq<char>,
) -> Seq<char> {
    if status == 401 || status == 403 {
        rejected_secret_message()
    } else if status == 429 {
        rate_limited_message()
    } else {
        match interface {
            Interface::Current => "Playit responded with "@ + status_text + ": "@ + snippet,
            Interface::Legacy => "Playit legacy endpoint responded with "@ + status_text + ": "@
                + snippet,
        }
    }
}

/// Whether a reply of that status carries the list of tunnels.
pub fn is_ok_status(status: u16) -> (r: bool)
    ensures
        r == (status == 200),
{
    status == 200
}

/// Explains a reply whose status is not 200.  The first part tells whether
/// the earlier interface is to be tried: only after the current one, and only
/// where the status calls for it and the message names the status.
pub fn status_failure(interface: Interface, status: u16, status_text: &str, body: &[u8]) -> (r: (
    bool,
    String,
))
    ensures
        r.0 == (interface == Interface::Current && calls_for_legacy(status) && status != 401
            && status != 403 && status != 429),
        r.1@ == status_message_of(
            interface,
            status,
            status_text@,
            snippet_of(lossy_text_of(body@)),
        ),
{
    let snippet = body_snippet(body);
    if status == 401 || status == 403 {
        (
            false,
            "Playit rejected the saved secret. Restart this instance to regenerate a new Playit agent token.".to_string(),
        )
    } else if status == 429 {
        (
            false,
            "Playit rate-limited the request. Please wait a few seconds before trying again.".to_string(),
        )
    } else {
        let try_legacy = match interface {
            Interface::Current => status == 400 || status == 404 || status == 405,
            Interface::Legacy => false,
        };
        let mut message = match interface {
            Interface::Current => "Playit responded with ".to_string(),
            Interface::Legacy => "Playit legacy endpoint responded with ".to_string(),
        };
        message.append(status_text);
        message.append(": ");
        message.append(snippet.as_str());
        (try_legacy, message)
    }
}

/// The message for a reply that reports a failure or an error.
pub open spec fn reply_failure_of(
    interface: Interface,
    failed: Option<Seq<char>>,
    error: Option<Seq<char>>,
) -> Seq<char> {
    match failed {
        Some(shown) => "Playit"@ + interface_label(interface) + " API reported failure: "@ + shown,
        None => "Playit"@ + interface_label(interface) + " API internal error: "@ + match error {
            Some(e) => e,
            None => Seq::<char>::empty(),
        },
    }
}

/// The message for a reply of status 200 that does not carry tunnels: it
/// reports a failure, with the payload as printed, or an error, with its text.
pub fn reply_failure(interface: Interface, failed: Option<&FailData>, error: Option<
    &ApiErrorPayload,
>) -> (message: String)
    ensures
        message@ == reply_failure_of(
            interface,
            match failed {
                Some(d) => Some(d.shown@),
                None => None,
            },
            match error {
                Some(e) => Some(error_text_of(opt_text(e.message), opt_text(e.code))),
                None => None,
            },
        ),
{
    let mut message = "Playit".to_string();
    message.append(label_of(interface));
    match failed {
        Some(d) => {
            message.append(" API reported failure: ");
            message.append(d.shown.as_str());
        },
        None => {
            message.append(" API internal error: ");
            match error {
                Some(e) => {
                    let text = e.message();
                    message.append(text.as_str());
                },
                None => {
                    assert(message@ + Seq::<char>::empty() =~= message@);
                },
            }
        },
    }
    message
}

/// The message for a body of status 200 that could not be read as a reply.
/// `cause` is the reader's complaint.
pub fn parse_failure(interface: Interface, cause: &str, body: &[u8]) -> (message: String)
    ensures
        message@ == "Failed to parse Playit"@ + interface_label(interface) + " response: "@ + cause@
            + ". Body: "@ + snippet_of(lossy_text_of(body@)),
{
    let snippet = body_snippet(body);
    let mut message = "Failed to parse Playit".to_string();
    message.append(label_of(interface));
    message.append(" response: ");
    message.append(cause);
    message.append(". Body: ");
    message.append(snippet.as_str());
    message
}

/// What a list of tunnels of the current interface comes to.
pub fn tunnels_of_v1(reply: ApiEnvelope<AgentRunDataV1>) -> (r: Result<
    Vec<PlayitTunnelMetadata>,
    (bool, String),
>)
    ensures
        match reply {
            ApiEnvelope::Success { data } => r is Ok && r->Ok_0@.len() == data.tunnels@.len()
                && forall|i: int|
                0 <= i < data.tunnels@.len() ==> (#[trigger] r->Ok_0@[i])@ == metadata_of_v1(
                    data.tunnels@[i]@,
                ),
            ApiEnvelope::Fail { data } => r is Err && !r->Err_0.0 && r->Err_0.1@
                == reply_failure_of(Interface::Current, Some(data.shown@), None),
            ApiEnvelope::Error { error } => r is Err && !r->Err_0.0 && r->Err_0.1@
                == reply_failure_of(
                Interface::Current,
                None,
                Some(error_text_of(opt_text(error.message), opt_text(error.code))),
            ),
        },
{
    match reply {
        ApiEnvelope::Success { data } => Ok(data.into_metadata()),
        ApiEnvelope::Fail { data } => Err(
            (false, reply_failure(Interface::Current, Some(&data), None)),
        ),
        ApiEnvelope::Error { error } => Err(
            (false, reply_failure(Interface::Current, None, Some(&error))),
        ),
    }
}

/// What a list of tunnels of the earlier interface comes to.
pub fn tunnels_of_legacy(reply: ApiEnvelope<LegacyAgentRunData>) -> (r: Result<
    Vec<PlayitTunnelMetadata>,
    String,
>)
    ensures
        match reply {
            ApiEnvelope::Success { data } => r is Ok && r->Ok_0@.len() == data.tunnels@.len()
                && forall|i: int|
                0 <= i < data.tunnels@.len() ==> (#[trigger] r->Ok_0@[i])@ == metadata_of_legacy(
                    data.tunnels@[i]@,
                ),
            ApiEnvelope::Fail { data } => r is Err && r->Err_0@ == reply_failure_of(
                Interface::Legacy,
                Some(data.shown@),
                None,
            ),
            ApiEnvelope::Error { error } => r is Err && r->Err_0@ == reply_failure_of(
                Interface::Legacy,
                None,
                Some(error_text_of(opt_text(error.message), opt_text(error.code))),
            ),
        },
{
    match reply {
        ApiEnvelope::Success { data } => Ok(data.into_metadata()),
        ApiEnvelope::Fail { data } => Err(reply_failure(Interface::Legacy, Some(&data), None)),
        ApiEnvelope::Error { error } => Err(reply_failure(Interface::Legacy, None, Some(&error))),
    }
}

/// What fetching the tunnels comes to, given what the current interface
/// answered and, where it was asked, what the earlier one answered.
pub open spec fn fetch_failure_of(v1: Seq<char>, try_legacy: bool, legacy: Option<Seq<char>>)
    -> Seq<char> {
    match legacy {
        Some(l) => if try_legacy {
            "Playit tunnel fetch failed (v1: "@ + v1 + "; legacy: "@ + l + ")"@
        } else {
            v1
        },
        None => v1,
    }
}

/// The message for a fetch that failed.  `legacy` is the failure of the
/// earlier interface, which is asked only where `try_legacy` holds.
pub fn fetch_failure(v1: String, try_legacy: bool, legacy: Option<String>) -> (message: String)
    ensures
        message@ == fetch_failure_of(v1@, try_legacy, opt_text(legacy)),
{
    match legacy {
        Some(l) => {
            if try_legacy {
                let mut message = "Playit tunnel fetch failed (v1: ".to_string();
                message.append(v1.as_str());
                message.append("; legacy: ");
                message.append(l.as_str());
                message.append(")");
                message
            } else {
                v1
            }
        },
        None => v1,
    }
}

/// The secret with which requests are signed: the given text without
/// surrounding white space.  A text of white space only is refused.
pub fn normalize_secret(secret: &str) -> (r: Result<String, String>)
    ensures
        match r {
            Ok(s) => trimmed(secret@).len() > 0 && s@ == trimmed(secret@),
            Err(e) => trimmed(secret@).len() == 0 && e@ == "Playit secret cannot be empty"@,
        },
{
    let chars = to_chars(secret);
    let kept = trim(&chars);
    if kept.len() == 0 {
        Err("Playit secret cannot be empty".to_string())
    } else {
        Ok(from_chars(&kept))
    }
}

/// The value of the header that signs a request: `Agent-Key <secret>`, the
/// secret without surrounding white space.
pub fn agent_key_header(secret: &str) -> (value: String)
    ensures
        value@ == "Agent-Key "@ + trimmed(secret@),
{
    let chars = to_chars(secret);
    let kept = trim(&chars);
    let text = from_chars(&kept);
    let mut value = "Agent-Key ".to_string();
    value.append(text.as_str());
    value
}

// -------------------------------------------------------------- claim flow

/// A request of the claim flow.
#[derive(Debug, Clone, Copy, PartialEq, Eq, Structural)]
pub enum ClaimStage {
    Details,
    Setup,
    Accept,
    Exchange,
}

/// What a stage is called in addresses and messages.
pub open spec fn stage_name(stage: ClaimStage) -> Seq<char> {
    match stage {
        ClaimStage::Details => "claim/details"@,
        ClaimStage::Setup => "claim/setup"@,
        ClaimStage::Accept => "claim/accept"@,
        ClaimStage::Exchange => "claim/exchange"@,
    }
}

/// The reason with which the service asks to be polled again at a stage.
pub open spec fn retry_reason(stage: ClaimStage) -> Option<Seq<char>> {
    match stage {
        ClaimStage::Details => Some("WaitingForAgent"@),
        ClaimStage::Exchange => Some("NotAccepted"@),
        _ => None,
    }
}

/// How often a stage is polled at most: the details 60 times, the exchange
/// 30 times, the others once.
pub open spec fn attempts_allowed(stage: ClaimStage) -> nat {
    match stage {
        ClaimStage::Details => 60,
        ClaimStage::Exchange => 30,
        _ => 1,
    }
}

/// What follows a reply at a stage of the claim flow.
#[derive(Debug, Clone, PartialEq, Eq)]
pub enum ClaimStep {
    /// The stage is done.
    Done,
    /// Pause for a second, then ask again.
    Retry,
    /// The claim has failed.
    Failed(String),
}

/// The mathematical content of a [`ClaimStep`].
pub enum ClaimStepView {
    Done,
    Retry,
    Failed(Seq<char>),
}

impl View for ClaimStep {
    type V = ClaimStepView;

    open spec fn view(&self) -> ClaimStepView {
        match self {
            ClaimStep::Done => ClaimStepView::Done,
            ClaimStep::Retry => ClaimStepView::Retry,
            ClaimStep::Failed(m) => ClaimStepView::Failed(m@),
        }
    }
}

/// What follows a failed reply at a stage.  A failure with the stage's retry
/// reason asks for another poll; `CodeNotFound` and `ClaimExpired` reject the
/// code; anything else fails the claim.  The stages that are asked once show
/// the payload as printed, whatever it holds.
pub open spec fn after_failure(stage: ClaimStage, reason: Option<Seq<char>>, shown: Seq<char>)
    -> ClaimStepView {
    let name = stage_name(stage);
    if retry_reason(stage) is None {
        ClaimStepView::Failed("Playit "@ + name + " failed: "@ + shown)
    } else {
        match reason {
            Some(r) => if Some(r) == retry_reason(stage) {
                ClaimStepView::Retry
            } else if r == "CodeNotFound"@ || r == "ClaimExpired"@ {
                ClaimStepView::Failed("Playit "@ + name + " rejected the code: "@ + r)
            } else {
                ClaimStepView::Failed("Playit "@ + name + " failed: "@ + r)
            },
            None => ClaimStepView::Failed("Playit "@ + name + " failed: "@ + shown),
        }
    }
}

/// What follows an error reply at a stage.
pub open spec fn after_error(stage: ClaimStage, text: Seq<char>) -> ClaimStepView {
    ClaimStepView::Failed("Playit "@ + stage_name(stage) + " error: "@ + text)
}

fn stage_message(stage: ClaimStage, middle: &str, tail: &str) -> (message: String)
    ensures
        message@ == "Playit "@ + stage_name(stage) + middle@ + tail@,
{
    let mut message = "Playit ".to_string();
    match stage {
        ClaimStage::Details => message.append("claim/details"),
        ClaimStage::Setup => message.append("claim/setup"),
        ClaimStage::Accept => message.append("claim/accept"),
        ClaimStage::Exchange => message.append("claim/exchange"),
    }
    message.append(middle);
    message.append(tail);
    message
}

/// Decides what follows a reply that reports a failure or an error at a stage
/// of the claim flow.  A reply that reports success ends the stage.
pub fn claim_step<T>(stage: ClaimStage, reply: &ApiEnvelope<T>) -> (step: ClaimStep)
    ensures
        step@ == match reply {
            ApiEnvelope::Success { data } => ClaimStepView::Done,
            ApiEnvelope::Fail { data } => after_failure(stage, opt_text(data.reason), data.shown@),
            ApiEnvelope::Error { error } => after_error(
                stage,
                error_text_of(opt_text(error.message), opt_text(error.code)),
            ),
        },
{
    match reply {
        ApiEnvelope::Success { data } => ClaimStep::Done,
        ApiEnvelope::Error { error } => {
            let text = error.message();
            ClaimStep::Failed(stage_message(stage, " error: ", text.as_str()))
        },
        ApiEnvelope::Fail { data } => {
            let polled = match stage {
                ClaimStage::Details => true,
                ClaimStage::Exchange => true,
                _ => false,
            };
            if !polled {
                return ClaimStep::Failed(stage_message(stage, " failed: ", data.shown.as_str()));
            }
            match &data.reason {
                Some(r) => {
                    let again = match stage {
                        ClaimStage::Details => same_text(r.as_str(), "WaitingForAgent"),
                        _ => same_text(r.as_str(), "NotAccepted"),
                    };
                    if again {
                        ClaimStep::Retry
                    } else if same_text(r.as_str(), "CodeNotFound") || same_text(
                        r.as_str(),
                        "ClaimExpired",
                    ) {
                        ClaimStep::Failed(stage_message(stage, " rejected the code: ", r.as_str()))
                    } else {
                        ClaimStep::Failed(stage_message(stage, " failed: ", r.as_str()))
                    }
                },
                None => ClaimStep::Failed(stage_message(stage, " failed: ", data.shown.as_str())),
            }
        },
    }
}

/// The message for a stage that was polled as often as allowed in vain.
pub open spec fn timeout_message(stage: ClaimStage) -> Seq<char> {
    match stage {
        ClaimStage::Exchange => "Timed out waiting for Playit to return a secret key"@,
        _ => "Timed out waiting for Playit agent to register the claim code"@,
    }
}

/// Decides whether a stage may be asked once more after `asked` requests;
/// where it may not, the claim fails with the stage's timeout message.
pub fn next_attempt(stage: ClaimStage, asked: u32) -> (r: Result<(), String>)
    ensures
        match r {
            Ok(_) => asked < attempts_allowed(stage),
            Err(e) => asked >= attempts_allowed(stage) && e@ == timeout_message(stage),
        },
{
    let allowed: u32 = match stage {
        ClaimStage::Details => 60,
        ClaimStage::Exchange => 30,
        _ => 1,
    };
    if asked < allowed {
        Ok(())
    } else {
        match stage {
            ClaimStage::Exchange => Err(
                "Timed out waiting for Playit to return a secret key".to_string(),
            ),
            _ => Err("Timed out waiting for Playit agent to register the claim code".to_string()),
        }
    }
}

/// The secret that a successful exchange hands out, or the message for a
/// reply without one.
pub fn exchanged_secret(secret_key: Option<String>) -> (r: Result<String, String>)
    ensures
        match r {
            Ok(s) => secret_key is Some && s@ == secret_key->0@,
            Err(e) => secret_key is None && e@
                == "Playit claim/exchange response missing secret_key"@,
        },
{
    match secret_key {
        Some(s) => Ok(s),
        None => Err("Playit claim/exchange response missing secret_key".to_string()),
    }
}

/// The header value that signs the requests of a guest session:
/// `Bearer <session_key>`; or the message for a reply without a key.
pub fn guest_authorization(session_key: Option<&str>) -> (r: Result<String, String>)
    ensures
        match r {
            Ok(v) => session_key is Some && v@ == "Bearer "@ + session_key->0@,
            Err(e) => session_key is None && e@ == "Playit guest session missing session_key"@,
        },
{
    match session_key {
        Some(k) => Ok(concat2("Bearer ", k)),
        None => Err("Playit guest session missing session_key".to_string()),
    }
}

/// The name under which a claimed agent is registered: `nuko-` and the
/// first four characters of the claim code.
pub fn claim_alias(code: &str) -> (alias: String)
    ensures
        alias@ == "nuko-"@ + if code@.len() > 4 {
            code@.take(4)
        } else {
            code@
        },
{
    let chars = to_chars(code);
    let shown: usize = if chars.len() > 4 {
        4
    } else {
        chars.len()
    };
    let head = slice_of(&chars, 0, shown);
    assert(chars@.subrange(0, chars@.len() as int) == chars@);
    let text = from_chars(&head);
    concat2("nuko-", text.as_str())
}

/// The command that runs the agent until it prints a claim link:
/// `<agent> -s --secret_path <secret_path>`, with its output captured and its
/// other streams leading nowhere.
pub fn claim_agent_command(agent: &str, working_dir: &str, secret_path: &str) -> (cmd:
    LaunchCommand)
    ensures
        cmd@ == (LaunchCommandView {
            program: agent@,
            args: seq!["-s"@, "--secret_path"@, secret_path@],
            working_dir: working_dir@,
            stdin: StreamMode::Null,
            stdout: StreamMode::Piped,
            stderr: StreamMode::Null,
        }),
{
    let mut args: Vec<String> = Vec::new();
    args.push("-s".to_string());
    args.push("--secret_path".to_string());
    args.push(secret_path.to_owned());
    assert(texts(args@) =~= seq!["-s"@, "--secret_path"@, secret_path@]);
    LaunchCommand {
        program: agent.to_owned(),
        args,
        working_dir: working_dir.to_owned(),
        stdin: StreamMode::Null,
        stdout: StreamMode::Piped,
        stderr: StreamMode::Null,
    }
}

/// How long the agent is given to print its claim link, in seconds.
pub fn claim_link_timeout_secs() -> (secs: u64)
    ensures
        secs == 60,
{
    60
}

/// The text that `str::to_lowercase` makes of `s`.
pub uninterp spec fn lowercase_of(s: Seq<char>) -> Seq<char>;

/// Converts a text to lower case with `str::to_lowercase`.
///
/// Trusted: the result depends on the text alone.  What it holds is not
/// stated here.
#[verifier::external_body]
fn to_lowercase(s: &str) -> (out: String)
    ensures
        out@ == lowercase_of(s@),
{
    s.to_lowercase()
}

/// The claim code as the service expects it: without surrounding white space
/// and in lower case.  A code of white space only is refused.
pub fn normalize_claim_code(code: &str) -> (r: Result<String, String>)
    ensures
        match r {
            Ok(c) => c@ == lowercase_of(trimmed(code@)) && c@.len() > 0,
            Err(e) => lowercase_of(trimmed(code@)).len() == 0 && e@
                == "Playit claim code is empty"@,
        },
{
    let chars = to_chars(code);
    let kept = trim(&chars);
    let text = from_chars(&kept);
    let lowered = to_lowercase(text.as_str());
    if lowered.as_str().is_empty() {
        Err("Playit claim code is empty".to_string())
    } else {
        Ok(lowered)
    }
}

} // verus!
