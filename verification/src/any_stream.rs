//! The layers of a stream. Innermost is the socket, raw or behind the
//! sniffer for a PROXY protocol preamble; a TLS session, where one is asked
//! for, lies around it.

use vstd::prelude::*;

verus! {

/// What stands directly on the socket.
#[derive(Clone, Copy, Debug, PartialEq, Eq, Structural)]
pub enum InnerLayer {
    /// The socket itself.
    Raw,
    /// The socket behind the sniffer.
    Sniffed,
}

/// The TLS session around the inner layer.
#[derive(Clone, Copy, Debug, PartialEq, Eq, Structural)]
pub enum TlsLayer {
    /// No TLS.
    Plain,
    /// A session in the client's role, for the host that the builder names.
    Client,
    /// A session in the server's role.
    Server,
}

/// The layers of one stream, from the inside out.
#[derive(Clone, Copy, Debug, PartialEq, Eq, Structural)]
pub struct StreamLayout {
    pub inner: InnerLayer,
    pub tls: TlsLayer,
}

/// Why no stream can be built.
#[derive(Clone, Copy, Debug, PartialEq, Eq, Structural)]
pub enum BuildError {
    /// The host name for the TLS client is no DNS name.
    InvalidHostname,
}

impl BuildError {
    /// The error in words.
    pub fn message(&self) -> (r: &'static str)
        ensures
            r@ == "InvalidDNSNameError"@,
    {
        "InvalidDNSNameError"
    }
}

/// What is asked of a stream.
pub struct AnyStreamBuilder {
    /// Whether to look for a PROXY protocol preamble.
    pub proxy_protocol: bool,
    /// The host to reach over TLS, where the stream is a TLS client.
    pub tls_client: Option<String>,
    /// Whether the stream is a TLS server.
    pub tls_server: bool,
}

/// Whether `webpki::DNSNameRef::try_from_ascii_str` accepts `hostname`.
pub uninterp spec fn valid_dns_name(hostname: Seq<char>) -> bool;

/// Calls `webpki::DNSNameRef::try_from_ascii_str` on `hostname` and says
/// whether it gave a name. Trusted: the answer is a function of the text
/// alone.
#[verifier::external_body]
fn is_dns_name(hostname: &str) -> (r: bool)
    ensures
        r == valid_dns_name(hostname@),
{
    webpki::DNSNameRef::try_from_ascii_str(hostname).is_ok()
}

/// The layers for a request. The sniffer stands on the socket where a
/// preamble is looked for. A client host name asks for a TLS client, and
/// comes before a request for a TLS server; it has to be a DNS name.
pub open spec fn layout_of(
    proxy_protocol: bool,
    tls_client: bool,
    hostname_ok: bool,
    tls_server: bool,
) -> Result<StreamLayout, BuildError> {
    if tls_client && !hostname_ok {
        Err(BuildError::InvalidHostname)
    } else {
        Ok(
            StreamLayout {
                inner: if proxy_protocol {
                    InnerLayer::Sniffed
                } else {
                    InnerLayer::Raw
                },
                tls: if tls_client {
                    TlsLayer::Client
                } else if tls_server {
                    TlsLayer::Server
                } else {
                    TlsLayer::Plain
                },
            },
        )
    }
}

/// Lays out a stream: `tls_client` says whether a client host name was
/// given, `hostname_ok` whether it is a DNS name.
pub fn plan(
    proxy_protocol: bool,
    tls_client: bool,
    hostname_ok: bool,
    tls_server: bool,
) -> (r: Result<StreamLayout, BuildError>)
    ensures
        r == layout_of(proxy_protocol, tls_client, hostname_ok, tls_server),
{
    let inner = if proxy_protocol {
        InnerLayer::Sniffed
    } else {
        InnerLayer::Raw
    };
    if tls_client {
        if hostname_ok {
            Ok(StreamLayout { inner, tls: TlsLayer::Client })
        } else {
            Err(BuildError::InvalidHostname)
        }
    } else if tls_server {
        Ok(StreamLayout { inner, tls: TlsLayer::Server })
    } else {
        Ok(StreamLayout { inner, tls: TlsLayer::Plain })
    }
}

impl AnyStreamBuilder {
    /// The layers that this request leads to.
    pub open spec fn layout(&self) -> Result<StreamLayout, BuildError> {
        layout_of(
            self.proxy_protocol,
            self.tls_client is Some,
            self.tls_client is Some && valid_dns_name(self.tls_client->0@),
            self.tls_server,
        )
    }

    /// Lays out the stream that is asked for, or refuses a client host name
    /// that is no DNS name.
    pub fn build(&self) -> (r: Result<StreamLayout, BuildError>)
        ensures
            r == self.layout(),
            self.tls_client is None ==> r is Ok,
    {
        match &self.tls_client {
            Some(hostname) => {
                let ok = is_dns_name(hostname.as_str());
                plan(self.proxy_protocol, true, ok, self.tls_server)
            },
            None => plan(self.proxy_protocol, false, false, self.tls_server),
        }
    }
}

/// The inner layer depends on the request for the sniffer alone, and TLS,
/// where there is any, lies outside it: no choice of TLS changes what stands
/// on the socket.
pub proof fn law_sniffer_is_innermost(
    proxy_protocol: bool,
    tls_client: bool,
    hostname_ok: bool,
    tls_server: bool,
)
    ensures
        layout_of(proxy_protocol, tls_client, hostname_ok, tls_server) matches Ok(l) ==> (l.inner
            == InnerLayer::Sniffed <==> proxy_protocol),
        layout_of(proxy_protocol, tls_client, hostname_ok, tls_server) is Err <==> tls_client
            && !hostname_ok,
        !tls_client && !tls_server ==> (layout_of(
            proxy_protocol,
            tls_client,
            hostname_ok,
            tls_server,
        ) matches Ok(l) && l.tls == TlsLayer::Plain),
{
}

} // verus!
