//! Where a request connects to, and with which TLS context.

use vstd::prelude::*;

use crate::error::Error;

use super::ssl_cache::SslContextCacheEntry;
use super::startup::InitOpts;

verus! {

/// The parts of an address.
pub struct Url {
    pub href: Vec<u8>,
    pub protocol: Vec<u8>,
    pub hostname: Vec<u8>,
    /// The port that it names, or the one that goes with its protocol.
    pub port: u16,
}

/// The TLS configuration of a request.
#[derive(Copy, Clone, Debug, PartialEq, Eq, Structural)]
pub struct TlsProps {
    /// Names the configuration; equal configurations have equal names.
    pub config: u64,
    /// The default context will not do.
    pub requires_custom_request_ctx: bool,
}

/// What decides where a request connects to.
pub struct ConnectRequest {
    /// A path to connect to in place of a host; empty for none.
    pub unix_socket_path: Vec<u8>,
    pub tls_props: Option<TlsProps>,
    pub http_proxy: Option<Url>,
    pub url: Url,
}

/// What is to be done next to connect.
#[derive(Copy, Clone, Debug, PartialEq, Eq)]
pub enum ConnectStep<'a> {
    /// Connect to a path, with the default context.
    Unix(&'a [u8]),
    /// Connect to a host and port, with the custom context if there is one and else
    /// with the default context.
    Dial { hostname: &'a [u8], port: u16 },
    /// Make a context for the configuration and report what came of it.
    CreateContext(u64),
    /// Give up.
    Fail(Error),
}

/// What a step says.
pub ghost enum ConnectStepView {
    Unix(Seq<u8>),
    Dial { hostname: Seq<u8>, port: u16 },
    CreateContext(u64),
    Fail(Error),
}

impl<'a> View for ConnectStep<'a> {
    type V = ConnectStepView;

    open spec fn view(&self) -> ConnectStepView {
        match self {
            ConnectStep::Unix(path) => ConnectStepView::Unix(path@),
            ConnectStep::Dial { hostname, port } => ConnectStepView::Dial {
                hostname: hostname@,
                port: *port,
            },
            ConnectStep::CreateContext(config) => ConnectStepView::CreateContext(*config),
            ConnectStep::Fail(err) => ConnectStepView::Fail(*err),
        }
    }
}

/// How a connection attempt goes on. The parts are to be acted on in this order.
pub struct Connecting<'a> {
    /// The default TLS context is to be set up first; failure ends the process.
    pub init_https: Option<InitOpts>,
    /// Contexts that are no longer kept and are to be released.
    pub released: Vec<SslContextCacheEntry>,
    /// The custom context that the client is to hold, by its handle.
    pub custom_ctx: Option<u64>,
    pub step: ConnectStep<'a>,
}

/// The bytes of an ASCII text.
pub open spec fn ascii(text: &str) -> Seq<u8> {
    text@.map_values(|c: char| c as u8)
}

/// The protocols that a proxy is spoken to in: http, https, and none given.
pub open spec fn proxy_protocol_known(protocol: Seq<u8>) -> bool {
    ||| protocol.len() == 0
    ||| protocol == ascii("https")
    ||| protocol == ascii("http")
}

/// Whether a proxy with this protocol can be used.
pub fn is_known_proxy_protocol(protocol: &[u8]) -> (r: bool)
    ensures
        r == proxy_protocol_known(protocol@),
{
    proof {
        reveal_strlit("https");
        reveal_strlit("http");
        assert(ascii("https") =~= seq![104u8, 116u8, 116u8, 112u8, 115u8]);
        assert(ascii("http") =~= seq![104u8, 116u8, 116u8, 112u8]);
    }
    let n = protocol.len();
    if n == 0 {
        return true;
    }
    if n != 4 && n != 5 {
        return false;
    }
    let http = protocol[0] == 104 && protocol[1] == 116 && protocol[2] == 116 && protocol[3] == 112;
    let r = http && (n == 4 || protocol[4] == 115);
    proof {
        if r && n == 4 {
            assert(protocol@ =~= ascii("http"));
        }
        if r && n == 5 {
            assert(protocol@ =~= ascii("https"));
        }
    }
    r
}

impl Url {
    pub open spec fn dialed(&self) -> ConnectStepView {
        ConnectStepView::Dial { hostname: self.hostname@, port: self.port }
    }

    /// Dialed as a proxy, if its protocol is known.
    pub open spec fn dialed_as_proxy(&self) -> ConnectStepView {
        if proxy_protocol_known(self.protocol@) {
            self.dialed()
        } else {
            ConnectStepView::Fail(Error::UnsupportedProxyProtocol)
        }
    }

    fn dial(&self) -> (r: ConnectStep<'_>)
        ensures
            r@ == self.dialed(),
    {
        ConnectStep::Dial { hostname: self.hostname.as_slice(), port: self.port }
    }

    fn dial_as_proxy(&self) -> (r: ConnectStep<'_>)
        ensures
            r@ == self.dialed_as_proxy(),
    {
        if is_known_proxy_protocol(self.protocol.as_slice()) {
            self.dial()
        } else {
            ConnectStep::Fail(Error::UnsupportedProxyProtocol)
        }
    }
}

impl ConnectRequest {
    /// The configuration of the custom context that a request over TLS asks for.
    pub open spec fn custom_config(&self) -> Option<u64> {
        match self.tls_props {
            Some(tls) => if tls.requires_custom_request_ctx {
                Some(tls.config)
            } else {
                None
            },
            None => None,
        }
    }

    pub(super) fn get_custom_config(&self) -> (r: Option<u64>)
        ensures
            r == self.custom_config(),
    {
        match &self.tls_props {
            Some(tls) => if tls.requires_custom_request_ctx {
                Some(tls.config)
            } else {
                None
            },
            None => None,
        }
    }

    /// Where to with the default context: a proxy that has an address, or the host.
    pub open spec fn with_default_ctx(&self) -> ConnectStepView {
        match self.http_proxy {
            Some(proxy) => if proxy.href@.len() > 0 {
                proxy.dialed_as_proxy()
            } else {
                self.url.dialed()
            },
            None => self.url.dialed(),
        }
    }

    pub(super) fn step_with_default_ctx(&self) -> (r: ConnectStep<'_>)
        ensures
            r@ == self.with_default_ctx(),
    {
        match &self.http_proxy {
            Some(proxy) => if proxy.href.len() > 0 {
                proxy.dial_as_proxy()
            } else {
                self.url.dial()
            },
            None => self.url.dial(),
        }
    }

    /// Where to with a context that was kept: any proxy, or the host.
    pub open spec fn with_kept_ctx(&self) -> ConnectStepView {
        match self.http_proxy {
            Some(proxy) => proxy.dialed(),
            None => self.url.dialed(),
        }
    }

    pub(super) fn step_with_kept_ctx(&self) -> (r: ConnectStep<'_>)
        ensures
            r@ == self.with_kept_ctx(),
    {
        match &self.http_proxy {
            Some(proxy) => proxy.dial(),
            None => self.url.dial(),
        }
    }

    /// Where to with a context that was just made: a proxy whose protocol is known, or
    /// the host.
    pub open spec fn with_new_ctx(&self) -> ConnectStepView {
        match self.http_proxy {
            Some(proxy) => proxy.dialed_as_proxy(),
            None => self.url.dialed(),
        }
    }

    pub(super) fn step_with_new_ctx(&self) -> (r: ConnectStep<'_>)
        ensures
            r@ == self.with_new_ctx(),
    {
        match &self.http_proxy {
            Some(proxy) => proxy.dial_as_proxy(),
            None => self.url.dial(),
        }
    }
}

} // verus!
