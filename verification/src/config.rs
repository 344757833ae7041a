//! Relay configuration: where the upstream UDP service, the local UDP
//! endpoint and the WebSocket listener are.

use crate::error::{config_outcome, ConfigError, ConfigErrorView};
use crate::net::{outcome_view, socket_addr_parse, IpAddr, SocketAddr};
use vstd::prelude::*;

verus! {

/// How one socket address is configured: as a `url` such as
/// `127.0.0.1:8000`, as a `host` and a `port`, or as both (which must then
/// agree).
#[derive(Clone, Debug)]
pub struct SocketConfig {
    pub url: Option<String>,
    pub host: Option<IpAddr>,
    pub port: Option<u16>,
}

/// The configuration as written: one section per address.
#[derive(Clone, Debug)]
pub struct SerializeConfig {
    pub rcsss: SocketConfig,
    pub udp_proxy: SocketConfig,
    pub ws: SocketConfig,
}

/// The three addresses the relay works with.
#[derive(Clone, Copy, Debug)]
pub struct Config {
    /// The upstream UDP service that data is relayed to.
    pub udp_rcsss_url: SocketAddr,
    /// The local UDP address the relay sends from.
    pub udp_proxy_url: SocketAddr,
    /// The address the WebSocket listener binds.
    pub ws_url: SocketAddr,
}

impl Default for SocketConfig {
    fn default() -> (r: SocketConfig)
        ensures
            r.url is None,
            r.host is None,
            r.port is None,
    {
        SocketConfig { url: None, host: None, port: None }
    }
}

/// The fields named when a url disagrees with the host and port.
pub open spec fn conflict_fields() -> Seq<Seq<char>> {
    seq!["url"@, "host"@, "port"@]
}

/// The view of an optional parse outcome.
pub open spec fn parsed_view(url: Option<Result<SocketAddr, String>>) -> Option<
    Result<SocketAddr, Seq<char>>,
> {
    match url {
        Some(r) => Some(outcome_view(r)),
        None => None,
    }
}

/// The address a section resolves to, given the outcome of parsing its url
/// (if it has one), its host and its port:
/// - a url that does not parse is an invalid value of `url`;
/// - a url given with a host and a port must be the address of that host and
///   port, or the three fields conflict;
/// - otherwise the url alone decides;
/// - without a url, a host and a port give their address;
/// - with none of these, `url` is missing.
pub open spec fn spec_resolve(
    url: Option<Result<SocketAddr, Seq<char>>>,
    host: Option<IpAddr>,
    port: Option<u16>,
) -> Result<SocketAddr, ConfigErrorView> {
    match url {
        Some(Err(reason)) => Err(ConfigErrorView::InvalidValue("url"@, reason)),
        Some(Ok(a)) => match (host, port) {
            (Some(h), Some(p)) => if a == SocketAddr::spec_new(h, p) {
                Ok(a)
            } else {
                Err(ConfigErrorView::ConflictFields(conflict_fields()))
            },
            _ => Ok(a),
        },
        None => match (host, port) {
            (Some(h), Some(p)) => Ok(SocketAddr::spec_new(h, p)),
            _ => Err(ConfigErrorView::MissingField("url"@)),
        },
    }
}

/// Resolves a section from the outcome of parsing its url, its host and
/// its port (see `spec_resolve`).
pub fn resolve_socket_addr(
    url: Option<Result<SocketAddr, String>>,
    host: Option<IpAddr>,
    port: Option<u16>,
) -> (r: Result<SocketAddr, ConfigError>)
    ensures
        config_outcome(r) == spec_resolve(parsed_view(url), host, port),
{
    match url {
        Some(Err(reason)) => Err(ConfigError::InvalidValue("url", reason)),
        Some(Ok(addr1)) => match (host, port) {
            (Some(h), Some(p)) => {
                let addr2 = SocketAddr::new(h, p);
                if addr1 == addr2 {
                    Ok(addr1)
                } else {
                    let fields: Vec<&'static str> = vec!["url", "host", "port"];
                    let r = Err(ConfigError::ConflictFields(fields));
                    assert(fields@.map_values(|f: &'static str| f@) =~= conflict_fields());
                    r
                }
            },
            _ => Ok(addr1),
        },
        None => match (host, port) {
            (Some(h), Some(p)) => Ok(SocketAddr::new(h, p)),
            _ => Err(ConfigError::MissingField("url")),
        },
    }
}

impl SocketConfig {
    /// The outcome of parsing the url, if there is one.
    pub open spec fn url_outcome(self) -> Option<Result<SocketAddr, Seq<char>>> {
        match self.url {
            Some(u) => Some(socket_addr_parse(u@)),
            None => None,
        }
    }

    /// The address this section resolves to.
    pub open spec fn spec_socket_addr(self) -> Result<SocketAddr, ConfigErrorView> {
        spec_resolve(self.url_outcome(), self.host, self.port)
    }

    /// Resolves this section to a socket address; the url, when present, is
    /// parsed as a socket address.
    pub fn socket_addr(&self) -> (r: Result<SocketAddr, ConfigError>)
        ensures
            config_outcome(r) == self.spec_socket_addr(),
    {
        let parsed = match &self.url {
            Some(url) => Some(SocketAddr::parse(url.as_str())),
            None => None,
        };
        resolve_socket_addr(parsed, self.host, self.port)
    }
}

impl Config {
    /// The configuration that the sections of `c` resolve to; the first
    /// section that fails, in the order rcsss, udp_proxy, ws, gives the error.
    pub open spec fn spec_try_from(c: SerializeConfig) -> Result<Config, ConfigErrorView> {
        match c.rcsss.spec_socket_addr() {
            Err(e) => Err(e),
            Ok(udp_rcsss_url) => match c.udp_proxy.spec_socket_addr() {
                Err(e) => Err(e),
                Ok(udp_proxy_url) => match c.ws.spec_socket_addr() {
                    Err(e) => Err(e),
                    Ok(ws_url) => Ok(Config { udp_rcsss_url, udp_proxy_url, ws_url }),
                },
            },
        }
    }

    /// Resolves the three sections of a written configuration.
    pub fn try_from(config: SerializeConfig) -> (r: Result<Config, ConfigError>)
        ensures
            config_outcome(r) == Self::spec_try_from(config),
    {
        let udp_rcsss_url = match config.rcsss.socket_addr() {
            Ok(a) => a,
            Err(e) => return Err(e),
        };
        let udp_proxy_url = match config.udp_proxy.socket_addr() {
            Ok(a) => a,
            Err(e) => return Err(e),
        };
        let ws_url = match config.ws.socket_addr() {
            Ok(a) => a,
            Err(e) => return Err(e),
        };
        Ok(Config { udp_rcsss_url, udp_proxy_url, ws_url })
    }
}


/// A url given together with a host and a port is accepted exactly when it
/// is their address; otherwise the three fields are reported as conflicting.
pub proof fn law_url_must_agree(a: SocketAddr, h: IpAddr, p: u16)
    ensures
        spec_resolve(Some(Ok(a)), Some(h), Some(p)) == if a == SocketAddr::spec_new(h, p) {
            Ok::<SocketAddr, ConfigErrorView>(a)
        } else {
            Err(ConfigErrorView::ConflictFields(conflict_fields()))
        },
{
}

/// A resolved section's address is its url's when it has a url, and
/// otherwise the address of its host and port, which are then both given.
pub proof fn law_resolved_address(
    url: Option<Result<SocketAddr, Seq<char>>>,
    host: Option<IpAddr>,
    port: Option<u16>,
)
    ensures
        spec_resolve(url, host, port) matches Ok(a) ==> {
            &&& url matches Some(Ok(u)) ==> a == u
            &&& url is None ==> host is Some && port is Some && a == SocketAddr::spec_new(
                host.unwrap(),
                port.unwrap(),
            )
        },
        url is None && (host is None || port is None) ==> spec_resolve(url, host, port)
            == Err::<SocketAddr, ConfigErrorView>(ConfigErrorView::MissingField("url"@)),
{
}

/// A configuration loads exactly when each of its three sections resolves,
/// and then holds the three resolved addresses.
pub proof fn law_config_sections(c: SerializeConfig)
    ensures
        Config::spec_try_from(c) is Ok <==> (c.rcsss.spec_socket_addr() is Ok
            && c.udp_proxy.spec_socket_addr() is Ok && c.ws.spec_socket_addr() is Ok),
        Config::spec_try_from(c) matches Ok(cfg) ==> {
            &&& c.rcsss.spec_socket_addr() == Ok::<SocketAddr, ConfigErrorView>(cfg.udp_rcsss_url)
            &&& c.udp_proxy.spec_socket_addr() == Ok::<SocketAddr, ConfigErrorView>(cfg.udp_proxy_url)
            &&& c.ws.spec_socket_addr() == Ok::<SocketAddr, ConfigErrorView>(cfg.ws_url)
        },
{
}


/// A section without a url but with a host and a port always resolves, to
/// the address of that host (IPv4 or IPv6) and that port.
pub proof fn law_host_and_port_resolve(h: IpAddr, p: u16)
    ensures
        spec_resolve(None, Some(h), Some(p)) == Ok::<SocketAddr, ConfigErrorView>(
            SocketAddr::spec_new(h, p),
        ),
        spec_resolve(None, Some(h), Some(p)) matches Ok(a) && a.spec_ip() == h && a.spec_port() == p,
{
}

/// A section whose url parses to an address, IPv4 or IPv6, and that does not
/// give both a host and a port, resolves to that address.
pub proof fn law_url_alone_resolves(a: SocketAddr, h: Option<IpAddr>, p: Option<u16>)
    requires
        h is None || p is None,
    ensures
        spec_resolve(Some(Ok(a)), h, p) == Ok::<SocketAddr, ConfigErrorView>(a),
{
}

/// Every outcome of resolving a section, case by case: an unparsable url is
/// an invalid `url` value with the parse error's text; a parsed url with a
/// host and a port is accepted exactly when it is their address and is
/// otherwise a conflict of `url`, `host` and `port`; a parsed url alone is
/// accepted; a host and a port alone give their address; anything else is a
/// missing `url`.
pub proof fn law_resolve_cases(
    url: Option<Result<SocketAddr, Seq<char>>>,
    host: Option<IpAddr>,
    port: Option<u16>,
)
    ensures
        url matches Some(Err(m)) ==> spec_resolve(url, host, port) == Err::<
            SocketAddr,
            ConfigErrorView,
        >(ConfigErrorView::InvalidValue("url"@, m)),
        url matches Some(Ok(a)) ==> (host is Some && port is Some ==> (spec_resolve(url, host, port)
            is Ok <==> a == SocketAddr::spec_new(host.unwrap(), port.unwrap()))),
        url matches Some(Ok(a)) ==> (host is Some && port is Some && a != SocketAddr::spec_new(
            host.unwrap(),
            port.unwrap(),
        ) ==> spec_resolve(url, host, port) == Err::<SocketAddr, ConfigErrorView>(
            ConfigErrorView::ConflictFields(seq!["url"@, "host"@, "port"@]),
        )),
        url matches Some(Ok(a)) ==> (spec_resolve(url, host, port) is Ok ==> spec_resolve(
            url,
            host,
            port,
        ) == Ok::<SocketAddr, ConfigErrorView>(a)),
        url matches Some(Ok(a)) ==> (host is None || port is None ==> spec_resolve(url, host, port)
            == Ok::<SocketAddr, ConfigErrorView>(a)),
        url is None && host is Some && port is Some ==> spec_resolve(url, host, port) == Ok::<
            SocketAddr,
            ConfigErrorView,
        >(SocketAddr::spec_new(host.unwrap(), port.unwrap())),
        url is None && (host is None || port is None) ==> spec_resolve(url, host, port) == Err::<
            SocketAddr,
            ConfigErrorView,
        >(ConfigErrorView::MissingField("url"@)),
{
}

/// A section resolves from its own fields: its url text is parsed as a
/// socket address, and that outcome, with the section's host and port,
/// decides. With a url that parses to `a` and a host `h` and port `p`, the
/// section is accepted exactly when `a` is the address of `h` and `p`, and is
/// otherwise a conflict of `url`, `host` and `port`.
pub proof fn law_section_resolves_its_fields(c: SocketConfig)
    ensures
        c.spec_socket_addr() == spec_resolve(
            match c.url {
                Some(u) => Some(socket_addr_parse(u@)),
                None => None,
            },
            c.host,
            c.port,
        ),
        c.url matches Some(u) ==> (socket_addr_parse(u@) matches Ok(a) ==> (c.host is Some
            && c.port is Some ==> (c.spec_socket_addr() is Ok <==> a == SocketAddr::spec_new(
            c.host.unwrap(),
            c.port.unwrap(),
        )))),
        c.url matches Some(u) ==> (socket_addr_parse(u@) matches Ok(a) ==> (c.host is Some
            && c.port is Some && a != SocketAddr::spec_new(c.host.unwrap(), c.port.unwrap())
            ==> c.spec_socket_addr() == Err::<SocketAddr, ConfigErrorView>(
            ConfigErrorView::ConflictFields(seq!["url"@, "host"@, "port"@]),
        ))),
        c.url matches Some(u) ==> (socket_addr_parse(u@) matches Ok(a) ==> (c.spec_socket_addr()
            is Ok ==> c.spec_socket_addr() == Ok::<SocketAddr, ConfigErrorView>(a))),
        c.url matches Some(u) ==> (socket_addr_parse(u@) matches Err(m) ==> c.spec_socket_addr()
            == Err::<SocketAddr, ConfigErrorView>(ConfigErrorView::InvalidValue("url"@, m))),
        c.url is None && c.host is Some && c.port is Some ==> c.spec_socket_addr() == Ok::<
            SocketAddr,
            ConfigErrorView,
        >(SocketAddr::spec_new(c.host.unwrap(), c.port.unwrap())),
{
    law_resolve_cases(c.url_outcome(), c.host, c.port);
}


/// A configuration that does not load fails with the error of its first
/// failing section, in the order rcsss, udp_proxy, ws.
pub proof fn law_config_first_error(c: SerializeConfig)
    ensures
        c.rcsss.spec_socket_addr() matches Err(e) ==> Config::spec_try_from(c) == Err::<
            Config,
            ConfigErrorView,
        >(e),
        c.rcsss.spec_socket_addr() is Ok ==> (c.udp_proxy.spec_socket_addr() matches Err(e)
            ==> Config::spec_try_from(c) == Err::<Config, ConfigErrorView>(e)),
        c.rcsss.spec_socket_addr() is Ok && c.udp_proxy.spec_socket_addr() is Ok ==> (
        c.ws.spec_socket_addr() matches Err(e) ==> Config::spec_try_from(c) == Err::<
            Config,
            ConfigErrorView,
        >(e)),
{
}

} // verus!
