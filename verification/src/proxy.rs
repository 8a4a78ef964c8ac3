//! The proxy that requests go through: how it is made out of the preferences or of
//! what the desktop names, and how it is shown.

use crate::app_config;
use crate::app_config::{NetworkProxyMode, NetworkProxyPreferences, NetworkProxyProtocol};
use crate::error::{DogiError, ErrorKind};
use crate::network;
use crate::text;
use vstd::prelude::*;

verus! {

/// How a proxy is spoken to.
#[derive(Clone, Copy, Debug, PartialEq, Eq, Structural)]
pub enum RouteProtocol {
    Http,
    Https,
    Socks4,
    Socks4A,
    Socks5,
    Socks5h,
    Other,
}

/// How a proxy that the user entered is spoken to.
#[derive(Clone, Copy, Debug, PartialEq, Eq, Structural)]
pub enum ManualProtocol {
    Http,
    Https,
    Socks5h,
}

/// Where a proxy is found.
#[derive(Debug, PartialEq, Eq)]
pub struct ProxyAddress {
    pub protocol: RouteProtocol,
    pub host: String,
    pub port: u16,
}

impl View for ProxyAddress {
    type V = (RouteProtocol, Seq<char>, u16);

    open spec fn view(&self) -> (RouteProtocol, Seq<char>, u16) {
        (self.protocol, self.host@, self.port)
    }
}

/// The view of an address that may be missing.
pub open spec fn address_view(address: Option<ProxyAddress>) -> Option<(
    RouteProtocol,
    Seq<char>,
    u16,
)> {
    match address {
        Some(address) => Some(address@),
        None => None,
    }
}

/// The protocol, the host and the port that `ureq::Proxy::new` finds in a URI, if it
/// accepts it.
pub uninterp spec fn proxy_at(uri: Seq<char>) -> Option<(RouteProtocol, Seq<char>, u16)>;

/// The host and the port of the proxy that the builder of `ureq::Proxy` makes, if it
/// makes one.
pub uninterp spec fn proxy_built(
    protocol: ManualProtocol,
    host: Seq<char>,
    port: u16,
    credentials: Option<(Seq<char>, Seq<char>)>,
) -> Option<(Seq<char>, u16)>;

/// Calls `ureq::Proxy::new` on a URI and hands out the protocol, the host and the port
/// of the proxy. Which URIs it accepts, and what it finds in them, is only named.
#[verifier::external_body]
pub(crate) fn read_proxy(uri: &str) -> (r: Option<ProxyAddress>)
    ensures
        address_view(r) == proxy_at(uri@),
{
    let proxy = ureq::Proxy::new(uri).ok()?;
    let protocol = match proxy.protocol() {
        ureq::ProxyProtocol::Http => RouteProtocol::Http,
        ureq::ProxyProtocol::Https => RouteProtocol::Https,
        ureq::ProxyProtocol::Socks4 => RouteProtocol::Socks4,
        ureq::ProxyProtocol::Socks4A => RouteProtocol::Socks4A,
        ureq::ProxyProtocol::Socks5 => RouteProtocol::Socks5,
        ureq::ProxyProtocol::Socks5h => RouteProtocol::Socks5h,
        _ => RouteProtocol::Other,
    };
    Some(ProxyAddress { protocol, host: proxy.host().to_owned(), port: proxy.port() })
}

/// The view of what the builder of `ureq::Proxy` made.
pub open spec fn built_view(built: Option<(String, u16)>) -> Option<(Seq<char>, u16)> {
    match built {
        Some(built) => Some((built.0@, built.1)),
        None => None,
    }
}

/// The view of a user name and a password.
pub open spec fn credentials_view(credentials: Option<(String, String)>) -> Option<
    (Seq<char>, Seq<char>),
> {
    match credentials {
        Some(credentials) => Some((credentials.0@, credentials.1@)),
        None => None,
    }
}

/// Calls the builder that `ureq::Proxy::builder` gives, with a host, a port and
/// credentials, and hands out the host and the port of the proxy. Which hosts it
/// accepts is only named.
#[verifier::external_body]
pub(crate) fn build_proxy(
    protocol: ManualProtocol,
    host: &str,
    port: u16,
    credentials: &Option<(String, String)>,
) -> (r: Option<(String, u16)>)
    ensures
        built_view(r) == proxy_built(protocol, host@, port, credentials_view(*credentials)),
{
    let protocol = match protocol {
        ManualProtocol::Http => ureq::ProxyProtocol::Http,
        ManualProtocol::Https => ureq::ProxyProtocol::Https,
        ManualProtocol::Socks5h => ureq::ProxyProtocol::Socks5h,
    };
    let mut builder = ureq::Proxy::builder(protocol).host(host).port(port);
    if let Some((username, password)) = credentials {
        builder = builder.username(username).password(password);
    }
    let proxy = builder.build().ok()?;
    Some((proxy.host().to_owned(), proxy.port()))
}

/// The word for a protocol in a route.
pub open spec fn protocol_label(protocol: RouteProtocol) -> Seq<char> {
    match protocol {
        RouteProtocol::Http => "HTTP"@,
        RouteProtocol::Https => "HTTPS"@,
        RouteProtocol::Socks4 => "SOCKS4"@,
        RouteProtocol::Socks4A => "SOCKS4A"@,
        RouteProtocol::Socks5 => "SOCKS5"@,
        RouteProtocol::Socks5h => "SOCKS5"@,
        RouteProtocol::Other => "PROXY"@,
    }
}

/// A proxy as it is shown: never with its credentials.
pub open spec fn route_text(address: (RouteProtocol, Seq<char>, u16)) -> Seq<char> {
    protocol_label(address.0) + " · "@ + address.1 + ":"@ + text::decimal(address.2 as nat)
}

/// A proxy as it is shown.
pub fn proxy_route(address: &ProxyAddress) -> (r: String)
    ensures
        r@ == route_text(address@),
{
    let label: &str = match address.protocol {
        RouteProtocol::Http => "HTTP",
        RouteProtocol::Https => "HTTPS",
        RouteProtocol::Socks4 => "SOCKS4",
        RouteProtocol::Socks4A => "SOCKS4A",
        RouteProtocol::Socks5 => "SOCKS5",
        RouteProtocol::Socks5h => "SOCKS5",
        RouteProtocol::Other => "PROXY",
    };
    let mut route = text::concat3(label, " · ", address.host.as_str());
    route.append(":");
    text::push_decimal(&mut route, address.port as u64);
    route
}

/// What the desktop names as the way to a URL.
#[derive(Debug, PartialEq, Eq)]
pub enum SystemRoute {
    /// No proxy.
    Direct,
    /// The proxy that a URI names.
    Through { uri: String, address: ProxyAddress },
    /// None that can be used.
    Unsupported,
}

/// The mathematical value of [`SystemRoute`].
pub enum SystemRouteView {
    Direct,
    Through { uri: Seq<char>, address: (RouteProtocol, Seq<char>, u16) },
    Unsupported,
}

impl View for SystemRoute {
    type V = SystemRouteView;

    open spec fn view(&self) -> SystemRouteView {
        match self {
            SystemRoute::Direct => SystemRouteView::Direct,
            SystemRoute::Through { uri, address } => SystemRouteView::Through {
                uri: uri@,
                address: address@,
            },
            SystemRoute::Unsupported => SystemRouteView::Unsupported,
        }
    }
}

/// The first candidate that can be used, from position `i` on, where `found` tells the
/// proxy that each of them names.
pub open spec fn system_route(
    candidates: Seq<Seq<char>>,
    found: Seq<Option<(RouteProtocol, Seq<char>, u16)>>,
    i: int,
) -> SystemRouteView
    decreases candidates.len() - i,
{
    if i < 0 || i >= candidates.len() {
        SystemRouteView::Unsupported
    } else if text::lowered(candidates[i]) == text::lowered("direct://"@) {
        SystemRouteView::Direct
    } else {
        match found[i] {
            Some(address) => SystemRouteView::Through { uri: candidates[i], address },
            None => system_route(candidates, found, i + 1),
        }
    }
}

/// The proxies that some URIs name.
pub open spec fn proxies_at(uris: Seq<Seq<char>>) -> Seq<Option<(RouteProtocol, Seq<char>, u16)>> {
    uris.map_values(|uri: Seq<char>| proxy_at(uri))
}

/// The views of the proxies that were found.
pub open spec fn address_views(found: Seq<Option<ProxyAddress>>) -> Seq<
    Option<(RouteProtocol, Seq<char>, u16)>,
> {
    found.map_values(|address: Option<ProxyAddress>| address_view(address))
}

/// Takes the first candidate that can be used, where `found` tells the proxy that each
/// of them names.
pub fn pick_system_proxy(candidates: &Vec<String>, found: Vec<Option<ProxyAddress>>) -> (r:
    SystemRoute)
    requires
        found@.len() == candidates@.len(),
    ensures
        r@ == system_route(text::texts(candidates@), address_views(found@), 0),
{
    let ghost all = address_views(found@);
    let ghost uris = text::texts(candidates@);
    let mut rest = found;
    let mut i: usize = 0;
    while i < candidates.len()
        invariant
            i <= candidates@.len(),
            uris == text::texts(candidates@),
            all == address_views(found@),
            found@.len() == candidates@.len(),
            rest@ == found@.skip(i as int),
            system_route(uris, all, 0) == system_route(uris, all, i as int),
        decreases candidates@.len() - i,
    {
        let address = rest.remove(0);
        assert(address == found@[i as int]);
        assert(all[i as int] == address_view(address));
        assert(uris[i as int] == candidates@[i as int]@);
        if text::same_ignoring_case(candidates[i].as_str(), "direct://") {
            return SystemRoute::Direct;
        }
        if let Some(address) = address {
            return SystemRoute::Through { uri: candidates[i].clone(), address };
        }
        assert(rest@ =~= found@.skip(i as int + 1));
        i += 1;
    }
    SystemRoute::Unsupported
}

/// Takes the first candidate that can be used: none, or the first that `ureq` accepts.
pub fn resolve_system_proxy(candidates: &Vec<String>) -> (r: SystemRoute)
    ensures
        r@ == system_route(text::texts(candidates@), proxies_at(text::texts(candidates@)), 0),
{
    let mut found: Vec<Option<ProxyAddress>> = Vec::new();
    let mut i: usize = 0;
    while i < candidates.len()
        invariant
            i <= candidates@.len(),
            address_views(found@) == proxies_at(text::texts(candidates@)).take(i as int),
        decreases candidates@.len() - i,
    {
        let ghost before = found@;
        let address = read_proxy(candidates[i].as_str());
        found.push(address);
        proof {
            assert(text::texts(candidates@)[i as int] == candidates@[i as int]@);
            assert(address_views(found@) =~= address_views(before).push(address_view(address)));
            assert(proxies_at(text::texts(candidates@)).take(i as int + 1) =~= proxies_at(
                text::texts(candidates@),
            ).take(i as int).push(proxy_at(candidates@[i as int]@)));
        }
        i += 1;
    }
    assert(proxies_at(text::texts(candidates@)).take(i as int) =~= proxies_at(
        text::texts(candidates@),
    ));
    assert(address_views(found@).len() == found@.len());
    pick_system_proxy(candidates, found)
}

/// Which way requests take.
#[derive(Debug, PartialEq, Eq)]
pub enum ProxyPolicy {
    /// The one that the desktop names.
    System,
    Direct,
    Manual(ManualProxy),
}

/// A proxy that the user entered.
#[derive(Debug, PartialEq, Eq)]
pub struct ManualProxy {
    pub protocol: ManualProtocol,
    pub host: String,
    pub port: u16,
    pub credentials: Option<(String, String)>,
    pub address: ProxyAddress,
}

/// The mathematical value of [`ManualProxy`].
pub struct ManualView {
    pub protocol: ManualProtocol,
    pub host: Seq<char>,
    pub port: u16,
    pub credentials: Option<(Seq<char>, Seq<char>)>,
    pub address: (RouteProtocol, Seq<char>, u16),
}

impl View for ManualProxy {
    type V = ManualView;

    open spec fn view(&self) -> ManualView {
        ManualView {
            protocol: self.protocol,
            host: self.host@,
            port: self.port,
            credentials: credentials_view(self.credentials),
            address: self.address@,
        }
    }
}

/// The mathematical value of [`ProxyPolicy`].
pub enum PolicyView {
    System,
    Direct,
    Manual(ManualView),
}

impl View for ProxyPolicy {
    type V = PolicyView;

    open spec fn view(&self) -> PolicyView {
        match self {
            ProxyPolicy::System => PolicyView::System,
            ProxyPolicy::Direct => PolicyView::Direct,
            ProxyPolicy::Manual(proxy) => PolicyView::Manual(proxy@),
        }
    }
}

/// What making a policy comes to.
#[derive(Debug, PartialEq, Eq)]
pub enum PolicyStep {
    Ready(ProxyPolicy),
    /// The kept password has to be read first.
    ReadPassword,
}

/// The mathematical value of [`PolicyStep`].
pub enum PolicyStepView {
    Ready(PolicyView),
    ReadPassword,
    Refuse(Seq<char>),
}

/// The view of a step, or of what it was refused with.
pub open spec fn policy_step_view(step: Result<PolicyStep, DogiError>) -> PolicyStepView {
    match step {
        Ok(PolicyStep::Ready(policy)) => PolicyStepView::Ready(policy@),
        Ok(PolicyStep::ReadPassword) => PolicyStepView::ReadPassword,
        Err(error) => PolicyStepView::Refuse(error@.1),
    }
}

/// How a proxy of the user's is spoken to. A host behind a SOCKS proxy is looked up by
/// the proxy.
pub open spec fn manual_protocol(protocol: NetworkProxyProtocol) -> ManualProtocol {
    match protocol {
        NetworkProxyProtocol::Http => ManualProtocol::Http,
        NetworkProxyProtocol::Https => ManualProtocol::Https,
        NetworkProxyProtocol::Socks5 => ManualProtocol::Socks5h,
    }
}

/// The protocol of a proxy of the user's in a route.
pub open spec fn route_protocol(protocol: ManualProtocol) -> RouteProtocol {
    match protocol {
        ManualProtocol::Http => RouteProtocol::Http,
        ManualProtocol::Https => RouteProtocol::Https,
        ManualProtocol::Socks5h => RouteProtocol::Socks5h,
    }
}

/// The credentials that a proxy is given.
pub open spec fn credentials_for(
    p: app_config::ProxyView,
    password: Option<Seq<char>>,
) -> Option<(Seq<char>, Seq<char>)> {
    match password {
        Some(password) => if p.authentication_enabled {
            Some((p.username, password))
        } else {
            None
        },
        None => None,
    }
}

/// The policy for a proxy, where `built` is what the proxy comes out as.
pub open spec fn policy_with(
    p: app_config::ProxyView,
    password: Option<Seq<char>>,
    built: Option<(Seq<char>, u16)>,
) -> PolicyStepView {
    let clean = network::cleaned(p);
    match network::proxy_fault(p) {
        Some(fault) => PolicyStepView::Refuse(fault),
        None => match clean.mode {
            NetworkProxyMode::System => PolicyStepView::Ready(PolicyView::System),
            NetworkProxyMode::Direct => PolicyStepView::Ready(PolicyView::Direct),
            NetworkProxyMode::Manual => if clean.authentication_enabled && password is None {
                PolicyStepView::ReadPassword
            } else {
                match built {
                    None => PolicyStepView::Refuse("invalid proxy settings: invalid proxy url"@),
                    Some((host, port)) => PolicyStepView::Ready(
                        PolicyView::Manual(
                            ManualView {
                                protocol: manual_protocol(clean.protocol),
                                host: clean.host,
                                port: clean.port,
                                credentials: credentials_for(clean, password),
                                address: (
                                    route_protocol(manual_protocol(clean.protocol)),
                                    host,
                                    port,
                                ),
                            },
                        ),
                    ),
                }
            },
        },
    }
}

/// What a proxy of the user's comes out as.
pub open spec fn built_for(
    p: app_config::ProxyView,
    password: Option<Seq<char>>,
) -> Option<(Seq<char>, u16)> {
    let clean = network::cleaned(p);
    proxy_built(
        manual_protocol(clean.protocol),
        clean.host,
        clean.port,
        credentials_for(clean, password),
    )
}

/// How a proxy of the user's is spoken to.
pub fn protocol_for(protocol: NetworkProxyProtocol) -> (r: ManualProtocol)
    ensures
        r == manual_protocol(protocol),
{
    match protocol {
        NetworkProxyProtocol::Http => ManualProtocol::Http,
        NetworkProxyProtocol::Https => ManualProtocol::Https,
        NetworkProxyProtocol::Socks5 => ManualProtocol::Socks5h,
    }
}

/// The credentials that a proxy is given.
pub fn credentials_of(preferences: &NetworkProxyPreferences, password: &Option<String>) -> (r:
    Option<(String, String)>)
    ensures
        credentials_view(r) == credentials_for(preferences@, text::optional(*password)),
{
    match password {
        Some(password) => if preferences.authentication_enabled {
            Some((preferences.username.clone(), password.clone()))
        } else {
            None
        },
        None => None,
    }
}

/// The policy for a proxy, where `built` is the host and the port that the proxy comes
/// out with.
pub fn conclude_policy(
    preferences: NetworkProxyPreferences,
    password: Option<String>,
    built: Option<(String, u16)>,
) -> (r: Result<PolicyStep, DogiError>)
    ensures
        policy_step_view(r) == policy_with(
            preferences@,
            text::optional(password),
            built_view(built),
        ),
        r matches Err(e) ==> e@.0 == ErrorKind::InvalidArgument,
{
    let clean = match network::normalize(preferences) {
        Ok(clean) => clean,
        Err(error) => return Err(error),
    };
    match clean.mode {
        NetworkProxyMode::System => Ok(PolicyStep::Ready(ProxyPolicy::System)),
        NetworkProxyMode::Direct => Ok(PolicyStep::Ready(ProxyPolicy::Direct)),
        NetworkProxyMode::Manual => {
            if clean.authentication_enabled && password.is_none() {
                return Ok(PolicyStep::ReadPassword);
            }
            let credentials = credentials_of(&clean, &password);
            let protocol = protocol_for(clean.protocol);
            match built {
                None => Err(
                    DogiError::InvalidArgument(
                        "invalid proxy settings: invalid proxy url".to_owned(),
                    ),
                ),
                Some((host, port)) => {
                    let route = match protocol {
                        ManualProtocol::Http => RouteProtocol::Http,
                        ManualProtocol::Https => RouteProtocol::Https,
                        ManualProtocol::Socks5h => RouteProtocol::Socks5h,
                    };
                    Ok(
                        PolicyStep::Ready(
                            ProxyPolicy::Manual(
                                ManualProxy {
                                    protocol,
                                    host: clean.host,
                                    port: clean.port,
                                    credentials,
                                    address: ProxyAddress { protocol: route, host, port },
                                },
                            ),
                        ),
                    )
                },
            }
        },
    }
}

/// The policy for a proxy.
pub fn policy_from_preferences(
    preferences: NetworkProxyPreferences,
    password: Option<String>,
) -> (r: Result<PolicyStep, DogiError>)
    ensures
        policy_step_view(r) == policy_with(
            preferences@,
            text::optional(password),
            built_for(preferences@, text::optional(password)),
        ),
        r matches Err(e) ==> e@.0 == ErrorKind::InvalidArgument,
{
    let clean = match network::normalize(preferences.clone()) {
        Ok(clean) => clean,
        Err(error) => return Err(error),
    };
    if clean.mode != NetworkProxyMode::Manual || (clean.authentication_enabled
        && password.is_none()) {
        return conclude_policy(preferences, password, None);
    }
    let credentials = credentials_of(&clean, &password);
    let built = build_proxy(
        protocol_for(clean.protocol),
        clean.host.as_str(),
        clean.port,
        &credentials,
    );
    conclude_policy(preferences, password, built)
}

/// The route of a policy that does not ask the desktop.
pub fn policy_route(policy: &ProxyPolicy) -> (r: Option<String>)
    ensures
        text::optional(r) == match policy@ {
            PolicyView::System => None,
            PolicyView::Direct => Some(Seq::empty()),
            PolicyView::Manual(proxy) => Some(route_text(proxy.address)),
        },
{
    match policy {
        ProxyPolicy::System => None,
        ProxyPolicy::Direct => Some(String::new()),
        ProxyPolicy::Manual(proxy) => Some(proxy_route(&proxy.address)),
    }
}

/// A route tells nothing of the credentials: where the proxy comes out at the same
/// address, it is the same for any of them.
pub proof fn law_routes_hide_credentials(
    p: app_config::ProxyView,
    username: Seq<char>,
    password: Seq<char>,
    other: Seq<char>,
    built: Option<(Seq<char>, u16)>,
)
    requires
        policy_with(p, Some(password), built) matches PolicyStepView::Ready(PolicyView::Manual(_)),
        policy_with(app_config::ProxyView { username, ..p }, Some(other), built) matches
            PolicyStepView::Ready(PolicyView::Manual(_)),
    ensures
        ({
            let a = policy_with(p, Some(password), built)->Ready_0->Manual_0;
            let b = policy_with(
                app_config::ProxyView { username, ..p },
                Some(other),
                built,
            )->Ready_0->Manual_0;
            route_text(a.address) == route_text(b.address)
        }),
{
}

/// The system is asked for its proxies in the order in which they are to be tried: the first
/// that is either no proxy at all or one that can be used decides.
pub proof fn law_first_usable_proxy_decides(
    candidates: Seq<Seq<char>>,
    found: Seq<Option<(RouteProtocol, Seq<char>, u16)>>,
    i: int,
)
    requires
        found.len() == candidates.len(),
    ensures
        0 <= i < candidates.len() && (forall|k: int|
            0 <= k < i ==> text::lowered(#[trigger] candidates[k]) != "direct://"@ && found[k]
                is None) ==> {
            &&& text::lowered(candidates[i]) == "direct://"@ ==> system_route(candidates, found, 0)
                == SystemRouteView::Direct
            &&& text::lowered(candidates[i]) != "direct://"@ && found[i] is Some ==> system_route(
                candidates,
                found,
                0,
            ) == (SystemRouteView::Through { uri: candidates[i], address: found[i]->0 })
        },
{
    reveal_strlit("direct://");
    assert(text::lowered("direct://"@) =~= "direct://"@);
    if 0 <= i < candidates.len() && (forall|k: int|
        0 <= k < i ==> text::lowered(#[trigger] candidates[k]) != "direct://"@ && found[k]
            is None) {
        lemma_passed_over(candidates, found, 0, i);
    }
}

/// Where the system names no proxy that can be used, there is no route.
pub proof fn law_no_usable_proxy_is_no_route(
    candidates: Seq<Seq<char>>,
    found: Seq<Option<(RouteProtocol, Seq<char>, u16)>>,
)
    requires
        found.len() == candidates.len(),
        forall|k: int|
            0 <= k < candidates.len() ==> text::lowered(#[trigger] candidates[k]) != "direct://"@
                && found[k] is None,
    ensures
        system_route(candidates, found, 0) == SystemRouteView::Unsupported,
{
    reveal_strlit("direct://");
    assert(text::lowered("direct://"@) =~= "direct://"@);
    lemma_passed_over(candidates, found, 0, candidates.len() as int);
}

proof fn lemma_passed_over(
    candidates: Seq<Seq<char>>,
    found: Seq<Option<(RouteProtocol, Seq<char>, u16)>>,
    i: int,
    n: int,
)
    requires
        0 <= i <= n <= candidates.len(),
        found.len() == candidates.len(),
        text::lowered("direct://"@) == "direct://"@,
        forall|k: int|
            i <= k < n ==> text::lowered(#[trigger] candidates[k]) != "direct://"@ && found[k]
                is None,
    ensures
        system_route(candidates, found, i) == system_route(candidates, found, n),
    decreases n - i,
{
    if i < n {
        assert(text::lowered(candidates[i]) != "direct://"@);
        lemma_passed_over(candidates, found, i + 1, n);
    }
}

/// The policy is the one that the user chose: the system, no proxy, or the proxy as it was
/// written down, with its user and password where it asks for them.
pub proof fn law_policy_is_the_chosen_one(
    p: app_config::ProxyView,
    password: Seq<char>,
    host: Seq<char>,
    port: u16,
)
    requires
        network::proxy_fault(p) is None,
    ensures
        p.mode is System ==> policy_with(p, None, None) == PolicyStepView::Ready(
            PolicyView::System,
        ),
        p.mode is Direct ==> policy_with(p, None, None) == PolicyStepView::Ready(
            PolicyView::Direct,
        ),
        p.mode is Manual && p.authentication_enabled ==> policy_with(p, None, Some((host, port)))
            is ReadPassword,
        p.mode is Manual && !p.authentication_enabled ==> ({
            let step = policy_with(p, None, Some((host, port)));
            let made = step->Ready_0->Manual_0;
            &&& step is Ready && step->Ready_0 is Manual
            &&& made.host == text::trimmed(p.host) && made.port == p.port
            &&& made.credentials is None
            &&& made.address.1 == host && made.address.2 == port
        }),
        p.mode is Manual && p.authentication_enabled ==> ({
            let step = policy_with(p, Some(password), Some((host, port)));
            let made = step->Ready_0->Manual_0;
            &&& step is Ready && step->Ready_0 is Manual
            &&& made.host == text::trimmed(p.host) && made.port == p.port
            &&& made.credentials == Some((text::trimmed(p.username), password))
            &&& p.protocol is Http ==> made.protocol is Http && made.address.0 is Http
            &&& p.protocol is Https ==> made.protocol is Https && made.address.0 is Https
            &&& p.protocol is Socks5 ==> made.protocol is Socks5h && made.address.0 is Socks5h
        }),
        p.mode is Manual ==> policy_with(p, Some(password), None) is Refuse,
{
}

/// A route is shown with the name of its protocol, its host and its port.
pub proof fn law_routes_are_shown(host: Seq<char>, port: u16, policy: &ProxyPolicy)
    ensures
        route_text((RouteProtocol::Http, host, port)) == "HTTP"@ + " · "@ + host + ":"@
            + text::decimal(port as nat),
        route_text((RouteProtocol::Https, host, port)) == "HTTPS"@ + " · "@ + host + ":"@
            + text::decimal(port as nat),
        route_text((RouteProtocol::Socks5, host, port)) == "SOCKS5"@ + " · "@ + host + ":"@
            + text::decimal(port as nat),
        route_text((RouteProtocol::Socks5h, host, port)) == "SOCKS5"@ + " · "@ + host + ":"@
            + text::decimal(port as nat),
        route_text((RouteProtocol::Socks4, host, port)) == "SOCKS4"@ + " · "@ + host + ":"@
            + text::decimal(port as nat),
        route_text((RouteProtocol::Socks4A, host, port)) == "SOCKS4A"@ + " · "@ + host + ":"@
            + text::decimal(port as nat),
        forall|r: Option<String>|
            #![trigger call_ensures(policy_route, (policy,), r)]
            call_ensures(policy_route, (policy,), r) ==> {
                &&& policy@ is System <==> r is None
                &&& policy@ is Direct ==> r->0@.len() == 0
                &&& policy@ matches PolicyView::Manual(proxy) ==> r->0@ == route_text(proxy.address)
            },
{
}

/// What a request goes through is what is answered: the system, nothing or the proxy that the
/// user wrote down, or that a password has to be read first.
pub proof fn law_policies_are_answered(
    preferences: NetworkProxyPreferences,
    password: Option<String>,
    host: String,
    port: u16,
)
    ensures
        forall|r: Result<PolicyStep, DogiError>|
            #![trigger call_ensures(conclude_policy, (preferences, password, Some((host, port))), r)]
            call_ensures(conclude_policy, (preferences, password, Some((host, port))), r) ==> {
                let said = policy_with(
                    preferences@,
                    text::optional(password),
                    Some((host@, port)),
                );
                &&& r matches Ok(PolicyStep::Ready(policy)) ==> said == PolicyStepView::Ready(
                    policy@,
                )
                &&& r matches Ok(PolicyStep::ReadPassword) ==> said is ReadPassword
                &&& r is Err <==> said is Refuse
            },
        forall|candidates: &Vec<String>, r: SystemRoute|
            #![trigger call_ensures(resolve_system_proxy, (candidates,), r)]
            call_ensures(resolve_system_proxy, (candidates,), r) ==> (candidates@.len() == 0 ==> r@
                is Unsupported) && (candidates@.len() > 0 && text::lowered(candidates@[0]@)
                == "direct://"@ ==> r@ is Direct),
{
    reveal_strlit("direct://");
    assert(text::lowered("direct://"@) =~= "direct://"@);
    assert forall|candidates: &Vec<String>, r: SystemRoute|
        #![trigger call_ensures(resolve_system_proxy, (candidates,), r)]
        call_ensures(resolve_system_proxy, (candidates,), r) && candidates@.len() > 0
            && text::lowered(candidates@[0]@) == "direct://"@ implies r@ is Direct by {
        assert(text::texts(candidates@)[0] == candidates@[0]@);
    }
}

}
