//! The proxy's lifecycle: what a start needs, and what the controller
//! holds while the proxy runs and after it was told to stop.

use vstd::prelude::*;

use crate::text::{clone_opt_text, opt_text};
use crate::upstream::{
    address_source, address_source_of, hint_view, is_ip_address, is_ip_literal, name_server_of,
    parse_server_descriptor,
    server_descriptor, AddressSource, AddressSourceView, BootstrapHint, BootstrapHintView,
    ConfigError, ConfigErrorView, NameServerPlan, ServerDescriptor, ServerDescriptorView, Transport,
};

verus! {

/// The port on which the proxy listens.
pub const LISTEN_PORT: u16 = 53;

/// The loopback address on which the proxy listens. It is not the host's
/// first loopback address, which the system's own resolver may use.
pub fn listen_address() -> (r: String)
    ensures
        r@ == "127.0.0.2"@,
{
    "127.0.0.2".to_owned()
}

/// What a start needs before the socket is bound: the upstream resolver's
/// descriptor, and how its address is found.
#[derive(Debug)]
pub struct StartPlan {
    pub descriptor: ServerDescriptor,
    pub address: AddressSource,
}

/// Contents of a [`StartPlan`].
pub struct StartPlanView {
    pub descriptor: ServerDescriptorView,
    pub address: AddressSourceView,
}

impl View for StartPlan {
    type V = StartPlanView;

    open spec fn view(&self) -> StartPlanView {
        StartPlanView { descriptor: self.descriptor@, address: self.address@ }
    }
}

/// A plan or the reason why there is none, by contents.
pub open spec fn plan_view(r: Result<StartPlan, ConfigError>) -> Result<
    StartPlanView,
    ConfigErrorView,
> {
    match r {
        Ok(p) => Ok(p@),
        Err(e) => Err(e@),
    }
}

/// The plan of a start: the descriptor must be readable, then the way to
/// the address must be.
pub open spec fn start_plan_of(
    server: Seq<char>,
    bootstrap_ip: Option<Seq<char>>,
    bootstrap: Option<BootstrapHintView>,
) -> Result<StartPlanView, ConfigErrorView> {
    match server_descriptor(server) {
        Err(e) => Err(e),
        Ok(descriptor) => match address_source_of(bootstrap_ip, bootstrap) {
            Err(e) => Err(e),
            Ok(address) => Ok(StartPlanView { descriptor, address }),
        },
    }
}

/// What the controller does when told to stop.
#[derive(Debug, Clone, Copy, PartialEq, Eq, Structural)]
pub enum ShutdownAction {
    /// Send the cancellation signal to the serving task.
    SendSignal,
    /// Nothing: there is no one to signal.
    Nothing,
}

/// What the controller holds: the handle of the running server, and the
/// sender of the cancellation signal.
#[derive(Debug, Clone, Copy, PartialEq, Eq, Structural)]
pub struct DnsServer {
    server: bool,
    shutdown_sender: bool,
}

/// What the controller holds after it was told to stop: nothing.
pub open spec fn stopped() -> DnsServerView {
    DnsServerView { server: false, shutdown_sender: false }
}

/// What the controller holds while the proxy serves: the server's handle
/// and the sender of the signal.
pub open spec fn serving() -> DnsServerView {
    DnsServerView { server: true, shutdown_sender: true }
}

/// What the controller does when told to stop: it signals where it holds a
/// sender.
pub open spec fn shutdown_action(state: DnsServerView) -> ShutdownAction {
    if state.shutdown_sender {
        ShutdownAction::SendSignal
    } else {
        ShutdownAction::Nothing
    }
}

/// Contents of a [`DnsServer`].
pub struct DnsServerView {
    pub server: bool,
    pub shutdown_sender: bool,
}

impl View for DnsServer {
    type V = DnsServerView;

    closed spec fn view(&self) -> DnsServerView {
        DnsServerView { server: self.server, shutdown_sender: self.shutdown_sender }
    }
}

impl DnsServer {
    /// A controller of a proxy that does not run.
    pub fn new() -> (r: Self)
        ensures
            r@ == stopped(),
    {
        DnsServer { server: false, shutdown_sender: false }
    }

    /// Prepares a start. Nothing is held yet: a start that fails, here or
    /// when the socket is bound, leaves the controller as it was.
    pub fn run(&self, server: &str, bootstrap_ip: Option<String>, bootstrap: Option<&BootstrapHint>) -> (r:
        Result<StartPlan, ConfigError>)
        ensures
            plan_view(r) == start_plan_of(server@, opt_text(bootstrap_ip), hint_view(bootstrap)),
    {
        let descriptor = match parse_server_descriptor(server) {
            Ok(d) => d,
            Err(e) => {
                return Err(e);
            },
        };
        match address_source(bootstrap_ip, bootstrap) {
            Ok(address) => Ok(StartPlan { descriptor, address }),
            Err(e) => Err(e),
        }
    }

    /// Records that the socket is bound and the serving task runs: the
    /// controller now holds the server's handle and the signal's sender,
    /// in place of any that it held before.
    pub fn serve(&mut self)
        ensures
            final(self)@ == serving(),
    {
        self.server = true;
        self.shutdown_sender = true;
    }

    /// Tells the proxy to stop: the signal is to be sent where a sender is
    /// held, and the controller lets go of sender and handle. It does not
    /// wait for the serving task.
    pub fn shutdown(&mut self) -> (action: ShutdownAction)
        ensures
            action == shutdown_action(old(self)@),
            final(self)@ == after_shutdown(old(self)@),
    {
        let action = if self.shutdown_sender {
            ShutdownAction::SendSignal
        } else {
            ShutdownAction::Nothing
        };
        self.shutdown_sender = false;
        self.server = false;
        action
    }

    /// Whether the controller holds the handle of a server.
    pub fn is_running(&self) -> (r: bool)
        ensures
            r == self@.server,
    {
        self.server
    }

    /// Makes the one name-server entry of the upstream resolver from its
    /// descriptor and the address found for it. An address that is no IP
    /// address, of either family, cannot be used.
    pub fn create_dns_resolver(descriptor: &ServerDescriptor, address: String) -> (r: Result<
        NameServerPlan,
        ConfigError,
    >)
        ensures
            match r {
                Ok(plan) => is_ip_address(address@) && plan@ == name_server_of(descriptor@, address@),
                Err(e) => !is_ip_address(address@) && e@ == ConfigErrorView::UnresolvableDomain(
                    address@,
                ),
            },
    {
        if !is_ip_literal(address.as_str()) {
            return Err(ConfigError::UnresolvableDomain(address));
        }
        let tls_dns_name = match descriptor.transport {
            Transport::Udp => None,
            _ => Some(descriptor.domain.clone()),
        };
        let http_endpoint = clone_opt_text(&descriptor.http_endpoint);
        Ok(
            NameServerPlan {
                address,
                port: descriptor.port,
                transport: descriptor.transport,
                tls_dns_name,
                http_endpoint,
                trust_negative_responses: true,
            },
        )
    }
}

/// What the controller holds after it was told to stop.
pub open spec fn after_shutdown(state: DnsServerView) -> DnsServerView {
    stopped()
}

/// Of two stops in a row the second signals no one and changes nothing,
/// whatever the controller held before the first.
pub proof fn law_second_shutdown_is_idle(state: DnsServerView)
    ensures
        shutdown_action(after_shutdown(state)) == ShutdownAction::Nothing,
        after_shutdown(after_shutdown(state)) == after_shutdown(state),
        !after_shutdown(state).server,
{
}

} // verus!
