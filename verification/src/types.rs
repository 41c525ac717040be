//! The outcome of trying a DNS-over-HTTPS server.

use vstd::prelude::*;

use crate::dns_resolver::{LookupResult, LookupResultView};
use crate::text::{join, opt_text};
use crate::upstream::{
    descriptor_from_url, descriptor_of, descriptor_view, parse_url, url_parse, ConfigError,
    ConfigErrorView, ServerDescriptor, ServerDescriptorView, UrlParts, UrlPartsView,
};

verus! {

/// How a trial lookup through a server went.
#[derive(Debug)]
pub struct DoHTestResult {
    pub success: bool,
    pub latency: usize,
    pub error: Option<String>,
}

/// Contents of a [`DoHTestResult`].
pub struct DoHTestResultView {
    pub success: bool,
    pub latency: usize,
    pub error: Option<Seq<char>>,
}

impl View for DoHTestResult {
    type V = DoHTestResultView;

    open spec fn view(&self) -> DoHTestResultView {
        DoHTestResultView {
            success: self.success,
            latency: self.latency,
            error: opt_text(self.error),
        }
    }
}

/// The descriptor of a server to try: that of a URL, whose scheme must be
/// `https`. A parse error comes before a wrong scheme, a wrong scheme
/// before a missing host.
pub open spec fn doh_descriptor_of(parsed: Result<UrlPartsView, Seq<char>>) -> Result<
    ServerDescriptorView,
    ConfigErrorView,
> {
    match parsed {
        Err(e) => Err(ConfigErrorView::MalformedUrl(e)),
        Ok(parts) => if parts.scheme == "https"@ {
            descriptor_of(parsed)
        } else {
            Err(ConfigErrorView::UnsupportedScheme(parts.scheme))
        },
    }
}

/// The result of a trial, or the complaint, by contents.
pub open spec fn trial_view(r: Result<DoHTestResult, String>) -> Result<DoHTestResultView, Seq<char>> {
    match r {
        Ok(t) => Ok(t@),
        Err(e) => Err(e@),
    }
}

/// What a trial reports: success with the time it took where the lookup
/// answered; the lookup's error, or the time after which it was given up,
/// where it did not.
pub open spec fn trial_of(result: LookupResultView, latency: usize, elapsed: Seq<char>) -> Result<
    DoHTestResultView,
    Seq<char>,
> {
    match result {
        LookupResultView::Answered(_) => Ok(
            DoHTestResultView { success: true, latency, error: None },
        ),
        LookupResultView::Failed(e) => Err("DNS lookup failed: "@ + e),
        LookupResultView::TimedOut => Err("DNS lookup timed out after "@ + elapsed),
    }
}

/// Turns a parsed URL into the descriptor of a DNS-over-HTTPS server to
/// try.
pub fn doh_descriptor(parsed: Result<UrlParts, String>) -> (r: Result<ServerDescriptor, ConfigError>)
    ensures
        descriptor_view(r) == doh_descriptor_of(crate::upstream::parsed_view(parsed)),
{
    match parsed {
        Err(e) => Err(ConfigError::MalformedUrl(e)),
        Ok(parts) => {
            if crate::text::same_text(parts.scheme.as_str(), "https") {
                descriptor_from_url(Ok(parts))
            } else {
                Err(ConfigError::UnsupportedScheme(parts.scheme))
            }
        },
    }
}

/// Reads the descriptor of a DNS-over-HTTPS server to try.
pub fn test_doh_server(server: &str) -> (r: Result<ServerDescriptor, ConfigError>)
    ensures
        descriptor_view(r) == doh_descriptor_of(url_parse(server@)),
{
    doh_descriptor(parse_url(server))
}

/// Reports a trial lookup: `latency` is the time it took in milliseconds,
/// `elapsed` the same time in words.
pub fn doh_test_outcome(result: &LookupResult, latency: usize, elapsed: &str) -> (r: Result<
    DoHTestResult,
    String,
>)
    ensures
        trial_view(r) == trial_of(result@, latency, elapsed@),
{
    match result {
        LookupResult::Answered(_) => Ok(DoHTestResult { success: true, latency, error: None }),
        LookupResult::Failed(e) => Err(join("DNS lookup failed: ", e.as_str())),
        LookupResult::TimedOut => Err(join("DNS lookup timed out after ", elapsed)),
    }
}

} // verus!
