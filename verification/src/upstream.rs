//! The upstream resolver: how a server descriptor selects transport, port
//! and endpoint, and how the resolver's address is found.

use url::Url;
use vstd::prelude::*;

use crate::ipv4::{ipv4_of, parse_ipv4_chars};
use crate::ipv6::{is_ipv6, is_ipv6_chars};
use crate::text::{clone_opt_text, join, opt_text, same_text, to_chars};

verus! {

/// The transports over which the upstream resolver is reached.
#[derive(Debug, Clone, Copy, PartialEq, Eq, Structural)]
pub enum Transport {
    /// Plain DNS over UDP.
    Udp,
    /// DNS over HTTPS.
    Https,
    /// DNS over TLS.
    Tls,
    /// DNS over QUIC.
    Quic,
    /// DNS over HTTP/3.
    H3,
}

/// What a URL is made of, as far as the proxy reads it.
#[derive(Debug)]
pub struct UrlParts {
    pub scheme: String,
    pub host: Option<String>,
    pub port: Option<u16>,
    pub path: String,
}

/// Contents of a [`UrlParts`].
pub struct UrlPartsView {
    pub scheme: Seq<char>,
    pub host: Option<Seq<char>>,
    pub port: Option<u16>,
    pub path: Seq<char>,
}

impl View for UrlParts {
    type V = UrlPartsView;

    open spec fn view(&self) -> UrlPartsView {
        UrlPartsView {
            scheme: self.scheme@,
            host: match self.host {
                Some(h) => Some(h@),
                None => None,
            },
            port: self.port,
            path: self.path@,
        }
    }
}

/// A parsed URL or the parser's complaint, by contents.
pub open spec fn parsed_view(parsed: Result<UrlParts, String>) -> Result<UrlPartsView, Seq<char>> {
    match parsed {
        Ok(parts) => Ok(parts@),
        Err(e) => Err(e@),
    }
}

/// What the `url` crate makes of a text: the parts of the absolute URL
/// that it reads, or the description of its parse error.
pub uninterp spec fn url_parse(input: Seq<char>) -> Result<UrlPartsView, Seq<char>>;

/// Calls `Url::parse` of the `url` crate and takes from the URL its
/// scheme, host, port and path (`scheme`, `host_str`, `port`, `path`), or from
/// the error its displayed text. The contract only gives the outcome its
/// name: it depends on the input alone.
#[verifier::external_body]
pub(crate) fn parse_url(input: &str) -> (r: Result<UrlParts, String>)
    ensures
        parsed_view(r) == url_parse(input@),
{
    match Url::parse(input) {
        Ok(url) => Ok(
            UrlParts {
                scheme: url.scheme().to_string(),
                host: url.host_str().map(String::from),
                port: url.port(),
                path: url.path().to_string(),
            },
        ),
        Err(e) => Err(e.to_string()),
    }
}

/// Why a server cannot be used.
#[derive(Debug)]
pub enum ConfigError {
    /// The descriptor is no URL; with the parser's complaint.
    MalformedUrl(String),
    /// The URL's scheme selects no transport; with the scheme.
    UnsupportedScheme(String),
    /// The URL names no host.
    MissingHost,
    /// The host's address could not be found; with the reason, or with the
    /// host where the resolution gave no address.
    UnresolvableDomain(String),
    /// The bootstrap resolver returned no address.
    NoBootstrapAddress,
}

/// Contents of a [`ConfigError`].
pub enum ConfigErrorView {
    MalformedUrl(Seq<char>),
    UnsupportedScheme(Seq<char>),
    MissingHost,
    UnresolvableDomain(Seq<char>),
    NoBootstrapAddress,
}

impl View for ConfigError {
    type V = ConfigErrorView;

    open spec fn view(&self) -> ConfigErrorView {
        match self {
            ConfigError::MalformedUrl(e) => ConfigErrorView::MalformedUrl(e@),
            ConfigError::UnsupportedScheme(s) => ConfigErrorView::UnsupportedScheme(s@),
            ConfigError::MissingHost => ConfigErrorView::MissingHost,
            ConfigError::UnresolvableDomain(d) => ConfigErrorView::UnresolvableDomain(d@),
            ConfigError::NoBootstrapAddress => ConfigErrorView::NoBootstrapAddress,
        }
    }
}

impl ConfigErrorView {
    /// The error in words.
    pub open spec fn message(self) -> Seq<char> {
        match self {
            ConfigErrorView::MalformedUrl(e) => "Failed to parse server: "@ + e,
            ConfigErrorView::UnsupportedScheme(s) => "Invalid protocol: "@ + s,
            ConfigErrorView::MissingHost => "Failed to get domain"@,
            ConfigErrorView::UnresolvableDomain(d) => "Failed to resolve domain: "@ + d,
            ConfigErrorView::NoBootstrapAddress => "Bootstrap resolver returned no address"@,
        }
    }
}

impl ConfigError {
    /// The error in words, as it is shown to the user.
    pub fn message(&self) -> (r: String)
        ensures
            r@ == self@.message(),
    {
        match self {
            ConfigError::MalformedUrl(e) => join("Failed to parse server: ", e.as_str()),
            ConfigError::UnsupportedScheme(s) => join("Invalid protocol: ", s.as_str()),
            ConfigError::MissingHost => "Failed to get domain".to_owned(),
            ConfigError::UnresolvableDomain(d) => join("Failed to resolve domain: ", d.as_str()),
            ConfigError::NoBootstrapAddress => "Bootstrap resolver returned no address".to_owned(),
        }
    }
}

/// Where the upstream resolver is and how to speak to it.
#[derive(Debug)]
pub struct ServerDescriptor {
    pub domain: String,
    pub port: u16,
    pub transport: Transport,
    pub http_endpoint: Option<String>,
}

/// Contents of a [`ServerDescriptor`].
pub struct ServerDescriptorView {
    pub domain: Seq<char>,
    pub port: u16,
    pub transport: Transport,
    pub http_endpoint: Option<Seq<char>>,
}

impl View for ServerDescriptor {
    type V = ServerDescriptorView;

    open spec fn view(&self) -> ServerDescriptorView {
        ServerDescriptorView {
            domain: self.domain@,
            port: self.port,
            transport: self.transport,
            http_endpoint: match self.http_endpoint {
                Some(p) => Some(p@),
                None => None,
            },
        }
    }
}

/// A descriptor or the reason why there is none, by contents.
pub open spec fn descriptor_view(r: Result<ServerDescriptor, ConfigError>) -> Result<
    ServerDescriptorView,
    ConfigErrorView,
> {
    match r {
        Ok(d) => Ok(d@),
        Err(e) => Err(e@),
    }
}

/// The transport that a URL scheme selects.
pub open spec fn transport_of(scheme: Seq<char>) -> Option<Transport> {
    if scheme == "https"@ {
        Some(Transport::Https)
    } else if scheme == "tls"@ {
        Some(Transport::Tls)
    } else if scheme == "quic"@ {
        Some(Transport::Quic)
    } else if scheme == "h3"@ {
        Some(Transport::H3)
    } else {
        None
    }
}

/// The port of a transport where the descriptor names none.
pub open spec fn default_port(transport: Transport) -> u16 {
    match transport {
        Transport::Udp => 53,
        Transport::Https => 443,
        Transport::Tls => 853,
        Transport::Quic => 853,
        Transport::H3 => 443,
    }
}

/// The HTTP endpoint of a transport: the URL's path as it stands for DNS
/// over HTTPS; the URL's path, or `/dns-query` where the path is empty or
/// the root, for DNS over HTTP/3; none for the others.
pub open spec fn endpoint_of(transport: Transport, path: Seq<char>) -> Option<Seq<char>> {
    match transport {
        Transport::Https => Some(path),
        Transport::H3 => if path.len() == 0 || path == "/"@ {
            Some("/dns-query"@)
        } else {
            Some(path)
        },
        _ => None,
    }
}

/// Whether transport security names the server: on every transport but
/// plain UDP.
pub open spec fn is_secure(transport: Transport) -> bool {
    transport != Transport::Udp
}

/// The descriptor that a parsed URL gives: a parse error, a scheme that
/// selects no transport and a missing host are refused, in this order.
pub open spec fn descriptor_of(parsed: Result<UrlPartsView, Seq<char>>) -> Result<
    ServerDescriptorView,
    ConfigErrorView,
> {
    match parsed {
        Err(e) => Err(ConfigErrorView::MalformedUrl(e)),
        Ok(parts) => match transport_of(parts.scheme) {
            None => Err(ConfigErrorView::UnsupportedScheme(parts.scheme)),
            Some(transport) => match parts.host {
                None => Err(ConfigErrorView::MissingHost),
                Some(host) => Ok(
                    ServerDescriptorView {
                        domain: host,
                        port: match parts.port {
                            Some(p) => p,
                            None => default_port(transport),
                        },
                        transport,
                        http_endpoint: endpoint_of(transport, parts.path),
                    },
                ),
            },
        },
    }
}

/// Whether the text is a bare IP address, of either family.
pub open spec fn is_ip_address(s: Seq<char>) -> bool {
    ipv4_of(s) is Some || is_ipv6(s)
}

/// The descriptor that a server text gives: a bare IP address selects
/// plain UDP on port 53; any other text is read as a URL.
pub open spec fn server_descriptor(server: Seq<char>) -> Result<
    ServerDescriptorView,
    ConfigErrorView,
> {
    if is_ip_address(server) {
        Ok(
            ServerDescriptorView {
                domain: server,
                port: 53,
                transport: Transport::Udp,
                http_endpoint: None,
            },
        )
    } else {
        descriptor_of(url_parse(server))
    }
}

/// The transport that a URL scheme selects.
pub fn transport_for_scheme(scheme: &str) -> (r: Option<Transport>)
    ensures
        r == transport_of(scheme@),
{
    if same_text(scheme, "https") {
        Some(Transport::Https)
    } else if same_text(scheme, "tls") {
        Some(Transport::Tls)
    } else if same_text(scheme, "quic") {
        Some(Transport::Quic)
    } else if same_text(scheme, "h3") {
        Some(Transport::H3)
    } else {
        None
    }
}

/// The port of a transport where the descriptor names none.
pub fn default_port_for(transport: Transport) -> (r: u16)
    ensures
        r == default_port(transport),
{
    match transport {
        Transport::Udp => 53,
        Transport::Https => 443,
        Transport::Tls => 853,
        Transport::Quic => 853,
        Transport::H3 => 443,
    }
}

/// The HTTP endpoint of a transport, given the URL's path.
pub fn endpoint_for(transport: Transport, path: &str) -> (r: Option<String>)
    ensures
        (match r {
            Some(p) => Some(p@),
            None => None,
        }) == endpoint_of(transport, path@),
{
    match transport {
        Transport::Https => Some(path.to_owned()),
        Transport::H3 => {
            if path.unicode_len() == 0 || same_text(path, "/") {
                Some("/dns-query".to_owned())
            } else {
                Some(path.to_owned())
            }
        },
        _ => None,
    }
}

/// Turns a parsed URL, or the parser's complaint, into a descriptor.
pub fn descriptor_from_url(parsed: Result<UrlParts, String>) -> (r: Result<
    ServerDescriptor,
    ConfigError,
>)
    ensures
        descriptor_view(r) == descriptor_of(parsed_view(parsed)),
{
    let parts = match parsed {
        Ok(parts) => parts,
        Err(e) => {
            return Err(ConfigError::MalformedUrl(e));
        },
    };
    let transport = match transport_for_scheme(parts.scheme.as_str()) {
        Some(t) => t,
        None => {
            return Err(ConfigError::UnsupportedScheme(parts.scheme));
        },
    };
    let host = match parts.host {
        Some(h) => h,
        None => {
            return Err(ConfigError::MissingHost);
        },
    };
    let port = match parts.port {
        Some(p) => p,
        None => default_port_for(transport),
    };
    let http_endpoint = endpoint_for(transport, parts.path.as_str());
    Ok(ServerDescriptor { domain: host, port, transport, http_endpoint })
}

/// Whether the text is a bare IP address, of either family.
pub fn is_ip_literal(s: &str) -> (r: bool)
    ensures
        r == is_ip_address(s@),
{
    let chars = to_chars(s);
    parse_ipv4_chars(&chars).is_some() || is_ipv6_chars(&chars)
}

/// Reads a server descriptor: a bare IP address, or a URL whose scheme is
/// `https`, `tls`, `quic` or `h3`.
pub fn parse_server_descriptor(server: &str) -> (r: Result<ServerDescriptor, ConfigError>)
    ensures
        descriptor_view(r) == server_descriptor(server@),
{
    if is_ip_literal(server) {
        return Ok(
            ServerDescriptor {
                domain: server.to_owned(),
                port: 53,
                transport: Transport::Udp,
                http_endpoint: None,
            },
        );
    }
    descriptor_from_url(parse_url(server))
}

/// A second, simpler resolver that is asked only for the address of the
/// upstream resolver: a server descriptor of its own, and an address at
/// which to reach it, if one is known.
#[derive(Debug)]
pub struct BootstrapHint {
    pub server: String,
    pub bootstrap_ip: Option<String>,
}

/// Contents of a [`BootstrapHint`].
pub struct BootstrapHintView {
    pub server: Seq<char>,
    pub bootstrap_ip: Option<Seq<char>>,
}

impl View for BootstrapHint {
    type V = BootstrapHintView;

    open spec fn view(&self) -> BootstrapHintView {
        BootstrapHintView { server: self.server@, bootstrap_ip: opt_text(self.bootstrap_ip) }
    }
}

/// The hint, by its contents.
pub open spec fn hint_view(hint: Option<&BootstrapHint>) -> Option<BootstrapHintView> {
    match hint {
        Some(h) => Some(h@),
        None => None,
    }
}

/// A bootstrap resolver made ready: where it is, and the address at which
/// to reach it where one was given.
#[derive(Debug)]
pub struct BootstrapPlan {
    pub descriptor: ServerDescriptor,
    pub address: Option<String>,
}

/// Contents of a [`BootstrapPlan`].
pub struct BootstrapPlanView {
    pub descriptor: ServerDescriptorView,
    pub address: Option<Seq<char>>,
}

impl View for BootstrapPlan {
    type V = BootstrapPlanView;

    open spec fn view(&self) -> BootstrapPlanView {
        BootstrapPlanView { descriptor: self.descriptor@, address: opt_text(self.address) }
    }
}

/// How the address of the upstream resolver is found.
#[derive(Debug)]
pub enum AddressSource {
    /// The address was given.
    Explicit(String),
    /// The address is asked of a bootstrap resolver.
    Bootstrap(BootstrapPlan),
    /// The address is asked of the system's name resolution.
    System,
}

/// Contents of an [`AddressSource`].
pub enum AddressSourceView {
    Explicit(Seq<char>),
    Bootstrap(BootstrapPlanView),
    System,
}

impl View for AddressSource {
    type V = AddressSourceView;

    open spec fn view(&self) -> AddressSourceView {
        match self {
            AddressSource::Explicit(ip) => AddressSourceView::Explicit(ip@),
            AddressSource::Bootstrap(plan) => AddressSourceView::Bootstrap(plan@),
            AddressSource::System => AddressSourceView::System,
        }
    }
}

/// An address source or the reason why there is none, by contents.
pub open spec fn source_view(r: Result<AddressSource, ConfigError>) -> Result<
    AddressSourceView,
    ConfigErrorView,
> {
    match r {
        Ok(s) => Ok(s@),
        Err(e) => Err(e@),
    }
}

/// How the upstream resolver's address is found: a given address comes
/// before a bootstrap resolver, and a bootstrap resolver before the
/// system's name resolution. A bootstrap resolver whose own descriptor
/// cannot be read is an error, but only where it is needed.
pub open spec fn address_source_of(
    bootstrap_ip: Option<Seq<char>>,
    bootstrap: Option<BootstrapHintView>,
) -> Result<AddressSourceView, ConfigErrorView> {
    match bootstrap_ip {
        Some(ip) => Ok(AddressSourceView::Explicit(ip)),
        None => match bootstrap {
            Some(hint) => match server_descriptor(hint.server) {
                Ok(descriptor) => Ok(
                    AddressSourceView::Bootstrap(
                        BootstrapPlanView { descriptor, address: hint.bootstrap_ip },
                    ),
                ),
                Err(e) => Err(e),
            },
            None => Ok(AddressSourceView::System),
        },
    }
}

/// Decides how the upstream resolver's address is found.
pub fn address_source(bootstrap_ip: Option<String>, bootstrap: Option<&BootstrapHint>) -> (r:
    Result<AddressSource, ConfigError>)
    ensures
        source_view(r) == address_source_of(opt_text(bootstrap_ip), hint_view(bootstrap)),
{
    match bootstrap_ip {
        Some(ip) => Ok(AddressSource::Explicit(ip)),
        None => match bootstrap {
            Some(hint) => match parse_server_descriptor(hint.server.as_str()) {
                Ok(descriptor) => {
                    let address = clone_opt_text(&hint.bootstrap_ip);
                    Ok(AddressSource::Bootstrap(BootstrapPlan { descriptor, address }))
                },
                Err(e) => Err(e),
            },
            None => Ok(AddressSource::System),
        },
    }
}

/// The address text or the reason why there is none, by contents.
pub open spec fn address_view(r: Result<String, ConfigError>) -> Result<Seq<char>, ConfigErrorView> {
    match r {
        Ok(a) => Ok(a@),
        Err(e) => Err(e@),
    }
}

/// What the system's name resolution gave, by contents.
pub open spec fn resolved_view(r: Result<Vec<String>, String>) -> Result<Seq<Seq<char>>, Seq<char>> {
    match r {
        Ok(v) => Ok(crate::dns_types::texts(v@)),
        Err(e) => Err(e@),
    }
}

/// The address taken from the system's name resolution: the first that it
/// gave; where it failed, or gave none, the host cannot be resolved.
pub open spec fn system_address_of(
    domain: Seq<char>,
    resolved: Result<Seq<Seq<char>>, Seq<char>>,
) -> Result<Seq<char>, ConfigErrorView> {
    match resolved {
        Err(e) => Err(ConfigErrorView::UnresolvableDomain(e)),
        Ok(addresses) => if addresses.len() > 0 {
            Ok(addresses[0])
        } else {
            Err(ConfigErrorView::UnresolvableDomain(domain))
        },
    }
}

/// Takes the upstream resolver's address from what the system's name
/// resolution gave for `domain`.
pub fn system_address(domain: &str, resolved: Result<Vec<String>, String>) -> (r: Result<
    String,
    ConfigError,
>)
    ensures
        address_view(r) == system_address_of(domain@, resolved_view(resolved)),
{
    match resolved {
        Err(e) => Err(ConfigError::UnresolvableDomain(e)),
        Ok(addresses) => {
            if addresses.len() > 0 {
                Ok(addresses[0].clone())
            } else {
                Err(ConfigError::UnresolvableDomain(domain.to_owned()))
            }
        },
    }
}

/// The address taken from a bootstrap lookup: the first that it returned,
/// an error where it returned none.
pub open spec fn bootstrap_address_of(addresses: Seq<Seq<char>>) -> Result<
    Seq<char>,
    ConfigErrorView,
> {
    if addresses.len() > 0 {
        Ok(addresses[0])
    } else {
        Err(ConfigErrorView::NoBootstrapAddress)
    }
}

/// Takes the upstream resolver's address from what the bootstrap lookup
/// returned.
pub fn bootstrap_address(addresses: &Vec<String>) -> (r: Result<String, ConfigError>)
    ensures
        address_view(r) == bootstrap_address_of(crate::dns_types::texts(addresses@)),
{
    if addresses.len() > 0 {
        Ok(addresses[0].clone())
    } else {
        Err(ConfigError::NoBootstrapAddress)
    }
}

/// The one name-server entry of the upstream resolver.
#[derive(Debug)]
pub struct NameServerPlan {
    /// The resolver's address, as text.
    pub address: String,
    pub port: u16,
    pub transport: Transport,
    /// The name that transport security expects of the server.
    pub tls_dns_name: Option<String>,
    pub http_endpoint: Option<String>,
    pub trust_negative_responses: bool,
}

/// Contents of a [`NameServerPlan`].
pub struct NameServerPlanView {
    pub address: Seq<char>,
    pub port: u16,
    pub transport: Transport,
    pub tls_dns_name: Option<Seq<char>>,
    pub http_endpoint: Option<Seq<char>>,
    pub trust_negative_responses: bool,
}

impl View for NameServerPlan {
    type V = NameServerPlanView;

    open spec fn view(&self) -> NameServerPlanView {
        NameServerPlanView {
            address: self.address@,
            port: self.port,
            transport: self.transport,
            tls_dns_name: opt_text(self.tls_dns_name),
            http_endpoint: opt_text(self.http_endpoint),
            trust_negative_responses: self.trust_negative_responses,
        }
    }
}

/// The name-server entry for a descriptor and the address found for it:
/// the server is named to transport security on every transport but plain
/// UDP, and its negative responses are trusted.
pub open spec fn name_server_of(descriptor: ServerDescriptorView, address: Seq<char>) -> NameServerPlanView {
    NameServerPlanView {
        address,
        port: descriptor.port,
        transport: descriptor.transport,
        tls_dns_name: if is_secure(descriptor.transport) {
            Some(descriptor.domain)
        } else {
            None
        },
        http_endpoint: descriptor.http_endpoint,
        trust_negative_responses: true,
    }
}

} // verus!
