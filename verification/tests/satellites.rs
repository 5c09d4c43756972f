use anystream::addr::SocketAddress;
use anystream::any_stream::{plan, AnyStreamBuilder, BuildError, InnerLayer, StreamLayout, TlsLayer};
use anystream::dns::{first_ipv4, DnsCache, ResolveError, FRESH_NANOS};
use anystream::tcp::{
    after_connect, cvt, is_in_progress, ConnectAction, ConnectAttempt, InProgressCodes,
    EALREADY_BSD, EALREADY_LINUX, EINPROGRESS_BSD, EINPROGRESS_LINUX,
};

const SECOND: u64 = 1_000_000_000;

fn v4(ip: u32, port: u16) -> SocketAddress {
    SocketAddress::V4 { ip, port }
}

fn v6(ip: u128, port: u16) -> SocketAddress {
    SocketAddress::V6 { ip, port }
}

#[test]
fn fresh_window_is_100_seconds() {
    assert_eq!(FRESH_NANOS, 100 * SECOND);
}

#[test]
fn empty_cache_finds_nothing() {
    let cache = DnsCache::new();
    assert_eq!(cache.lookup(&"\"example.com:80\"".to_string(), 0), None);
}

#[test]
fn stored_address_is_found_for_100_seconds() {
    let key = "\"example.com:80\"".to_string();
    let mut cache = DnsCache::new();
    assert_eq!(cache.reslove(key.clone(), &[v4(0x5db8_d822, 80)], 5 * SECOND), Ok(v4(0x5db8_d822, 80)));
    assert_eq!(cache.lookup(&key, 5 * SECOND), Some(v4(0x5db8_d822, 80)));
    assert_eq!(cache.lookup(&key, 105 * SECOND - 1), Some(v4(0x5db8_d822, 80)));
    assert_eq!(cache.lookup(&key, 105 * SECOND), None);
    assert_eq!(cache.lookup(&key, 4 * SECOND), Some(v4(0x5db8_d822, 80)));
    assert_eq!(cache.lookup(&"\"example.org:80\"".to_string(), 6 * SECOND), None);
}

#[test]
fn second_resolution_within_100_seconds_returns_the_cached_address() {
    let key = "\"example.com:443\"".to_string();
    let mut cache = DnsCache::new();
    let first = cache.reslove(key.clone(), &[v4(1, 443)], 0);
    assert_eq!(first, Ok(v4(1, 443)));
    assert_eq!(cache.lookup(&key, 99 * SECOND), Some(v4(1, 443)));
    let second = cache.reslove(key.clone(), &[v4(2, 443)], 99 * SECOND);
    assert_eq!(second, Ok(v4(1, 443)));
    assert_eq!(cache.lookup(&key, 100 * SECOND - 1), Some(v4(1, 443)));
}

#[test]
fn stale_entry_is_resolved_anew() {
    let key = "\"example.com:443\"".to_string();
    let mut cache = DnsCache::new();
    assert_eq!(cache.reslove(key.clone(), &[v4(1, 443)], 0), Ok(v4(1, 443)));
    assert_eq!(cache.lookup(&key, 100 * SECOND), None);
    assert_eq!(cache.reslove(key.clone(), &[v4(2, 443)], 100 * SECOND), Ok(v4(2, 443)));
    assert_eq!(cache.lookup(&key, 150 * SECOND), Some(v4(2, 443)));
    assert_eq!(cache.lookup(&key, 200 * SECOND), None);
}

#[test]
fn resolution_takes_the_first_ipv4_candidate() {
    let candidates = [v6(1, 80), v4(7, 80), v4(8, 80)];
    assert_eq!(first_ipv4(&candidates), Some(v4(7, 80)));
    assert_eq!(first_ipv4(&[v6(1, 80), v6(2, 80)]), None);
    assert_eq!(first_ipv4(&[]), None);
    let mut cache = DnsCache::new();
    assert_eq!(cache.reslove("\"h:80\"".to_string(), &candidates, 0), Ok(v4(7, 80)));
}

#[test]
fn resolution_without_ipv4_fails_and_stores_nothing() {
    let key = "\"v6only:80\"".to_string();
    let mut cache = DnsCache::new();
    assert_eq!(cache.reslove(key.clone(), &[v6(1, 80)], 0), Err(ResolveError::NoAddressFound));
    assert_eq!(cache.reslove(key.clone(), &[], 0), Err(ResolveError::NoAddressFound));
    assert_eq!(cache.lookup(&key, 0), None);
    assert_eq!(ResolveError::NoAddressFound.message(), "SocketAddr not found");
}

#[test]
fn keys_are_kept_apart() {
    let mut cache = DnsCache::new();
    assert_eq!(cache.reslove("a".to_string(), &[v4(1, 1)], 0), Ok(v4(1, 1)));
    assert_eq!(cache.reslove("b".to_string(), &[v4(2, 2)], 0), Ok(v4(2, 2)));
    assert_eq!(cache.reslove("a".to_string(), &[v4(3, 3)], 100 * SECOND), Ok(v4(3, 3)));
    assert_eq!(cache.lookup(&"a".to_string(), 100 * SECOND + 20), Some(v4(3, 3)));
    assert_eq!(cache.lookup(&"b".to_string(), 20), Some(v4(2, 2)));
    assert_eq!(cache.lookup(&"b".to_string(), 100 * SECOND), None);
    assert_eq!(cache.lookup(&"c".to_string(), 20), None);
}

#[test]
fn socket_address_family() {
    assert!(v4(0, 0).is_ipv4());
    assert!(!v6(0, 0).is_ipv4());
}

fn linux() -> InProgressCodes {
    InProgressCodes { in_progress: EINPROGRESS_LINUX, already: EALREADY_LINUX }
}

fn bsd() -> InProgressCodes {
    InProgressCodes { in_progress: EINPROGRESS_BSD, already: EALREADY_BSD }
}

#[test]
fn connect_in_progress_counts_as_made() {
    assert!(is_in_progress(Some(115), linux()));
    assert!(is_in_progress(Some(36), bsd()));
    assert!(!is_in_progress(Some(111), linux()));
    assert!(!is_in_progress(None, linux()));
    assert_eq!(after_connect(ConnectAttempt::Connected, linux()), ConnectAction::UseStream);
    assert_eq!(
        after_connect(ConnectAttempt::Failed { raw_os_error: Some(115) }, linux()),
        ConnectAction::AdoptSocket
    );
    assert_eq!(
        after_connect(ConnectAttempt::Failed { raw_os_error: Some(36) }, bsd()),
        ConnectAction::AdoptSocket
    );
    assert_eq!(
        after_connect(ConnectAttempt::Failed { raw_os_error: Some(111) }, linux()),
        ConnectAction::Fail
    );
    assert_eq!(
        after_connect(ConnectAttempt::Failed { raw_os_error: None }, linux()),
        ConnectAction::Fail
    );
}

#[test]
fn connect_already_in_progress_counts_as_made() {
    assert!(is_in_progress(Some(114), linux()));
    assert!(is_in_progress(Some(37), bsd()));
    assert_eq!(
        after_connect(ConnectAttempt::Failed { raw_os_error: Some(114) }, linux()),
        ConnectAction::AdoptSocket
    );
    assert_eq!(
        after_connect(ConnectAttempt::Failed { raw_os_error: Some(37) }, bsd()),
        ConnectAction::AdoptSocket
    );
}

#[test]
fn in_progress_numbers_are_those_of_the_platform() {
    assert_eq!(
        (EINPROGRESS_LINUX, EALREADY_LINUX, EINPROGRESS_BSD, EALREADY_BSD),
        (115, 114, 36, 37)
    );
    assert!(!is_in_progress(Some(36), linux()));
    assert!(!is_in_progress(Some(37), linux()));
    assert!(!is_in_progress(Some(115), bsd()));
    assert!(!is_in_progress(Some(114), bsd()));
    assert_eq!(
        after_connect(ConnectAttempt::Failed { raw_os_error: Some(36) }, linux()),
        ConnectAction::Fail
    );
    assert_eq!(
        after_connect(ConnectAttempt::Failed { raw_os_error: Some(111) }, bsd()),
        ConnectAction::Fail
    );
    let here = InProgressCodes { in_progress: libc::EINPROGRESS, already: libc::EALREADY };
    assert!(here == linux() || here == bsd());
    assert!(is_in_progress(Some(libc::EINPROGRESS), here));
    assert!(is_in_progress(Some(libc::EALREADY), here));
}

#[test]
fn status_of_a_system_call() {
    assert_eq!(cvt(-1), None);
    assert_eq!(cvt(0), Some(0));
    assert_eq!(cvt(7), Some(7));
}

#[test]
fn plain_stream_has_no_tls() {
    let b = AnyStreamBuilder { proxy_protocol: false, tls_client: None, tls_server: false };
    assert_eq!(b.build(), Ok(StreamLayout { inner: InnerLayer::Raw, tls: TlsLayer::Plain }));
    let b = AnyStreamBuilder { proxy_protocol: true, tls_client: None, tls_server: false };
    assert_eq!(b.build(), Ok(StreamLayout { inner: InnerLayer::Sniffed, tls: TlsLayer::Plain }));
}

#[test]
fn tls_lies_around_the_inner_layer() {
    let b = AnyStreamBuilder {
        proxy_protocol: false,
        tls_client: Some("example.com".to_string()),
        tls_server: false,
    };
    assert_eq!(b.build(), Ok(StreamLayout { inner: InnerLayer::Raw, tls: TlsLayer::Client }));
    let b = AnyStreamBuilder { proxy_protocol: true, tls_client: None, tls_server: true };
    assert_eq!(b.build(), Ok(StreamLayout { inner: InnerLayer::Sniffed, tls: TlsLayer::Server }));
    let b = AnyStreamBuilder {
        proxy_protocol: true,
        tls_client: Some("example.com".to_string()),
        tls_server: true,
    };
    assert_eq!(b.build(), Ok(StreamLayout { inner: InnerLayer::Sniffed, tls: TlsLayer::Client }));
}

#[test]
fn invalid_client_host_name_is_refused() {
    let b = AnyStreamBuilder {
        proxy_protocol: false,
        tls_client: Some("not a host name".to_string()),
        tls_server: false,
    };
    assert_eq!(b.build(), Err(BuildError::InvalidHostname));
    let b = AnyStreamBuilder {
        proxy_protocol: false,
        tls_client: Some(String::new()),
        tls_server: true,
    };
    assert_eq!(b.build(), Err(BuildError::InvalidHostname));
    assert_eq!(BuildError::InvalidHostname.message(), "InvalidDNSNameError");
}

#[test]
fn plan_goes_by_its_arguments() {
    assert_eq!(plan(true, true, false, true), Err(BuildError::InvalidHostname));
    assert_eq!(
        plan(true, true, true, false),
        Ok(StreamLayout { inner: InnerLayer::Sniffed, tls: TlsLayer::Client })
    );
    assert_eq!(
        plan(false, false, false, true),
        Ok(StreamLayout { inner: InnerLayer::Raw, tls: TlsLayer::Server })
    );
    assert_eq!(
        plan(false, false, true, false),
        Ok(StreamLayout { inner: InnerLayer::Raw, tls: TlsLayer::Plain })
    );
}
