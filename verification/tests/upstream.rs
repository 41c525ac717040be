use dns_proxy::dns_server::{listen_address, DnsServer, ShutdownAction, LISTEN_PORT};
use dns_proxy::upstream::{
    address_source, bootstrap_address, descriptor_from_url, parse_server_descriptor,
    system_address, AddressSource, BootstrapHint, ConfigError, ServerDescriptor, Transport,
    UrlParts,
};

fn descriptor(server: &str) -> ServerDescriptor {
    parse_server_descriptor(server).expect("descriptor should be read")
}

#[test]
fn https_selects_doh_on_443_with_the_given_path() {
    let d = descriptor("https://dns.google/dns-query");
    assert_eq!(d.domain, "dns.google");
    assert_eq!(d.port, 443);
    assert_eq!(d.transport, Transport::Https);
    assert_eq!(d.http_endpoint, Some("/dns-query".to_string()));
    let d = descriptor("https://dns.google");
    assert_eq!(d.port, 443);
    assert_eq!(d.http_endpoint, Some("/".to_string()));
    let d = descriptor("https://doh.example:8443/custom/path");
    assert_eq!(d.domain, "doh.example");
    assert_eq!(d.port, 8443);
    assert_eq!(d.http_endpoint, Some("/custom/path".to_string()));
}

#[test]
fn tls_selects_dot_on_853() {
    let d = descriptor("tls://dns.quad9.net");
    assert_eq!(d.domain, "dns.quad9.net");
    assert_eq!(d.port, 853);
    assert_eq!(d.transport, Transport::Tls);
    assert_eq!(d.http_endpoint, None);
    let d = descriptor("tls://dns.quad9.net:8853");
    assert_eq!(d.port, 8853);
}

#[test]
fn quic_selects_doq_on_853() {
    let d = descriptor("quic://dns.adguard.com");
    assert_eq!(d.domain, "dns.adguard.com");
    assert_eq!(d.port, 853);
    assert_eq!(d.transport, Transport::Quic);
    assert_eq!(d.http_endpoint, None);
    let d = descriptor("quic://dns.adguard.com:784");
    assert_eq!(d.port, 784);
}

#[test]
fn h3_selects_doh3_on_443_with_default_endpoint() {
    let d = descriptor("h3://dns.google");
    assert_eq!(d.domain, "dns.google");
    assert_eq!(d.port, 443);
    assert_eq!(d.transport, Transport::H3);
    assert_eq!(d.http_endpoint, Some("/dns-query".to_string()));
    let d = descriptor("h3://dns.google/");
    assert_eq!(d.http_endpoint, Some("/dns-query".to_string()));
    let d = descriptor("h3://dns.google:8443/resolve");
    assert_eq!(d.port, 8443);
    assert_eq!(d.http_endpoint, Some("/resolve".to_string()));
}

#[test]
fn bare_ipv4_selects_udp_on_53() {
    let d = descriptor("8.8.8.8");
    assert_eq!(d.domain, "8.8.8.8");
    assert_eq!(d.port, 53);
    assert_eq!(d.transport, Transport::Udp);
    assert_eq!(d.http_endpoint, None);
}

#[test]
fn bare_ipv6_selects_udp_on_53() {
    for server in ["2001:4860:4860::8888", "::1", "fe80::1", "::ffff:8.8.8.8"] {
        let d = descriptor(server);
        assert_eq!(d.domain, server);
        assert_eq!(d.port, 53);
        assert_eq!(d.transport, Transport::Udp);
        assert_eq!(d.http_endpoint, None);
    }
}

#[test]
fn what_is_an_ip_address() {
    for text in [
        "8.8.8.8", "0.0.0.0", "::", "::1", "1::", "1:2:3:4:5:6:7:8", "1:2:3:4:5:6:7::",
        "::2:3:4:5:6:7:8", "1:2:3:4:5:6:1.2.3.4", "::1.2.3.4", "::ffff:1.2.3.4", "1::1.2.3.4",
        "2001:DB8::abcd", "2001:0db8:0000:0000:0000:0000:0000:0001", "a:b:c:d:e:f:0:1",
        "1:2:3:4:5::1.2.3.4",
    ] {
        assert!(dns_proxy::upstream::is_ip_literal(text), "{:?}", text);
    }
    for text in [
        "", ":", ":::", "::::", "1:2:3:4:5:6:7", "1:2:3:4:5:6:7:8:9", "1::2::3", "12345::", "g::",
        "1.2.3.4::", "::1.2.3.4:5", "1:2:3:4:5:6:7:1.2.3.4", "1:2:3:4:5:6:7::8", "[::1]",
        "::1%eth0", "1:2:3:4:5:6:7:8::", "::01.2.3.4", "1:", ":1", "1:2:3:4:5:6:7:8:", "::1:",
        " ::1", "::1 ", "1:2:3:4:5:6::1.2.3.4", "1.2.3.4:5::", "::1.2.3", "dns.google",
        "1:2:3:4:5:6:7:", "1:2:3:4:5:6:7:8::1", "::-1", "0x1::",
    ] {
        assert!(!dns_proxy::upstream::is_ip_literal(text), "{:?}", text);
    }
}

#[test]
fn unsupported_scheme_is_named() {
    match parse_server_descriptor("ftp://example.com") {
        Err(ConfigError::UnsupportedScheme(scheme)) => assert_eq!(scheme, "ftp"),
        other => panic!("unexpected: {:?}", other),
    }
    match parse_server_descriptor("http://example.com/dns-query") {
        Err(e) => assert_eq!(e.message(), "Invalid protocol: http"),
        Ok(d) => panic!("unexpected: {:?}", d),
    }
}

#[test]
fn malformed_url_is_reported() {
    match parse_server_descriptor("not a url") {
        Err(ConfigError::MalformedUrl(reason)) => {
            assert_eq!(reason, "relative URL without a base")
        }
        other => panic!("unexpected: {:?}", other),
    }
    match parse_server_descriptor("") {
        Err(e) => assert_eq!(e.message(), "Failed to parse server: relative URL without a base"),
        Ok(d) => panic!("unexpected: {:?}", d),
    }
    assert!(matches!(parse_server_descriptor("8.8.8"), Err(ConfigError::MalformedUrl(_))));
    assert!(matches!(parse_server_descriptor("https://"), Err(ConfigError::MalformedUrl(_))));
}

#[test]
fn url_without_host_is_refused() {
    match parse_server_descriptor("tls:dns.example") {
        Err(ConfigError::MissingHost) => {}
        other => panic!("unexpected: {:?}", other),
    }
    assert_eq!(ConfigError::MissingHost.message(), "Failed to get domain");
}

#[test]
fn descriptor_from_parts_follows_the_scheme() {
    let parts = UrlParts {
        scheme: "h3".to_string(),
        host: Some("dns.example".to_string()),
        port: None,
        path: String::new(),
    };
    let d = descriptor_from_url(Ok(parts)).expect("descriptor");
    assert_eq!(d.port, 443);
    assert_eq!(d.http_endpoint, Some("/dns-query".to_string()));
    let parts = UrlParts {
        scheme: "https".to_string(),
        host: None,
        port: Some(1),
        path: "/".to_string(),
    };
    assert!(matches!(descriptor_from_url(Ok(parts)), Err(ConfigError::MissingHost)));
    let parts = UrlParts {
        scheme: "gopher".to_string(),
        host: None,
        port: None,
        path: "/".to_string(),
    };
    assert!(matches!(descriptor_from_url(Ok(parts)), Err(ConfigError::UnsupportedScheme(_))));
    match descriptor_from_url(Err("bad".to_string())) {
        Err(ConfigError::MalformedUrl(reason)) => assert_eq!(reason, "bad"),
        other => panic!("unexpected: {:?}", other),
    }
}

#[test]
fn explicit_bootstrap_ip_comes_first() {
    let hint = BootstrapHint { server: "not a url".to_string(), bootstrap_ip: None };
    match address_source(Some("1.2.3.4".to_string()), Some(&hint)) {
        Ok(AddressSource::Explicit(ip)) => assert_eq!(ip, "1.2.3.4"),
        other => panic!("unexpected: {:?}", other),
    }
}

#[test]
fn bootstrap_resolver_comes_before_the_system() {
    let hint = BootstrapHint {
        server: "tls://dns.quad9.net".to_string(),
        bootstrap_ip: Some("9.9.9.9".to_string()),
    };
    match address_source(None, Some(&hint)) {
        Ok(AddressSource::Bootstrap(plan)) => {
            assert_eq!(plan.descriptor.domain, "dns.quad9.net");
            assert_eq!(plan.descriptor.port, 853);
            assert_eq!(plan.descriptor.transport, Transport::Tls);
            assert_eq!(plan.address, Some("9.9.9.9".to_string()));
        }
        other => panic!("unexpected: {:?}", other),
    }
    let hint = BootstrapHint { server: "1.1.1.1".to_string(), bootstrap_ip: None };
    match address_source(None, Some(&hint)) {
        Ok(AddressSource::Bootstrap(plan)) => {
            assert_eq!(plan.descriptor.transport, Transport::Udp);
            assert_eq!(plan.descriptor.port, 53);
            assert_eq!(plan.address, None);
        }
        other => panic!("unexpected: {:?}", other),
    }
    assert!(matches!(address_source(None, None), Ok(AddressSource::System)));
}

#[test]
fn unreadable_bootstrap_resolver_is_an_error() {
    let hint = BootstrapHint { server: "ftp://x".to_string(), bootstrap_ip: None };
    assert!(matches!(address_source(None, Some(&hint)), Err(ConfigError::UnsupportedScheme(_))));
}

#[test]
fn system_resolution_gives_the_first_address() {
    let got = system_address("dns.google", Ok(vec!["8.8.8.8".to_string(), "8.8.4.4".to_string()]));
    assert_eq!(got.expect("address"), "8.8.8.8");
    match system_address("dns.google", Ok(Vec::new())) {
        Err(e) => assert_eq!(e.message(), "Failed to resolve domain: dns.google"),
        Ok(a) => panic!("unexpected: {}", a),
    }
    match system_address("dns.google", Err("no such host".to_string())) {
        Err(e) => assert_eq!(e.message(), "Failed to resolve domain: no such host"),
        Ok(a) => panic!("unexpected: {}", a),
    }
}

#[test]
fn bootstrap_lookup_without_records_fails() {
    let got = bootstrap_address(&vec!["9.9.9.9".to_string(), "149.112.112.112".to_string()]);
    assert_eq!(got.expect("address"), "9.9.9.9");
    match bootstrap_address(&Vec::new()) {
        Err(ConfigError::NoBootstrapAddress) => {}
        other => panic!("unexpected: {:?}", other),
    }
    assert_eq!(
        ConfigError::NoBootstrapAddress.message(),
        "Bootstrap resolver returned no address"
    );
}

#[test]
fn name_server_entry_names_the_server_on_secure_transports() {
    let d = descriptor("https://dns.google/dns-query");
    let plan = DnsServer::create_dns_resolver(&d, "8.8.8.8".to_string()).expect("entry");
    assert_eq!(plan.address, "8.8.8.8");
    assert_eq!(plan.port, 443);
    assert_eq!(plan.transport, Transport::Https);
    assert_eq!(plan.tls_dns_name, Some("dns.google".to_string()));
    assert_eq!(plan.http_endpoint, Some("/dns-query".to_string()));
    assert!(plan.trust_negative_responses);
    let d = descriptor("9.9.9.9");
    let plan = DnsServer::create_dns_resolver(&d, "9.9.9.9".to_string()).expect("entry");
    assert_eq!(plan.port, 53);
    assert_eq!(plan.transport, Transport::Udp);
    assert_eq!(plan.tls_dns_name, None);
    assert_eq!(plan.http_endpoint, None);
    for server in ["tls://a.example", "quic://a.example", "h3://a.example"] {
        let d = descriptor(server);
        let plan = DnsServer::create_dns_resolver(&d, "192.0.2.1".to_string()).expect("entry");
        assert_eq!(plan.tls_dns_name, Some("a.example".to_string()));
    }
    let plan = DnsServer::create_dns_resolver(&d, "2001:db8::1".to_string()).expect("entry");
    assert_eq!(plan.address, "2001:db8::1");
}

#[test]
fn an_address_that_is_no_ip_address_cannot_be_used() {
    let d = descriptor("https://dns.google/dns-query");
    for address in ["dns.google", "", "8.8.8", "8.8.8.8:53", "[::1]"] {
        match DnsServer::create_dns_resolver(&d, address.to_string()) {
            Err(e) => assert_eq!(e.message(), format!("Failed to resolve domain: {}", address)),
            Ok(plan) => panic!("unexpected: {:?}", plan),
        }
    }
}

#[test]
fn proxy_listens_on_its_own_loopback_address() {
    assert_eq!(listen_address(), "127.0.0.2");
    assert_eq!(LISTEN_PORT, 53);
}

#[test]
fn start_needs_a_readable_descriptor() {
    let server = DnsServer::new();
    assert!(!server.is_running());
    match server.run("smtp://mail.example", None, None) {
        Err(e) => assert_eq!(e.message(), "Invalid protocol: smtp"),
        Ok(p) => panic!("unexpected: {:?}", p),
    }
    assert!(!server.is_running());
    let plan = server.run("https://dns.google/dns-query", Some("8.8.4.4".to_string()), None);
    let plan = plan.expect("plan");
    assert_eq!(plan.descriptor.domain, "dns.google");
    assert!(matches!(plan.address, AddressSource::Explicit(_)));
    let plan = server.run("https://dns.google/dns-query", None, None).expect("plan");
    assert!(matches!(plan.address, AddressSource::System));
    assert!(!server.is_running());
}

#[test]
fn shutdown_twice_signals_once() {
    let mut server = DnsServer::new();
    server.serve();
    assert!(server.is_running());
    assert_eq!(server.shutdown(), ShutdownAction::SendSignal);
    assert!(!server.is_running());
    assert_eq!(server.shutdown(), ShutdownAction::Nothing);
    assert!(!server.is_running());
}

#[test]
fn shutdown_of_a_proxy_that_never_ran_does_nothing() {
    let mut server = DnsServer::new();
    assert_eq!(server.shutdown(), ShutdownAction::Nothing);
    assert!(!server.is_running());
    server.serve();
    server.serve();
    assert!(server.is_running());
    assert_eq!(server.shutdown(), ShutdownAction::SendSignal);
}
