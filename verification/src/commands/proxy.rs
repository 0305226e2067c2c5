//! How outbound HTTP clients are routed, decided from the stored proxy form.

use crate::settings::types::{NetworkProxyForm, ProxyMode, ProxyProtocol};
use crate::text::{decimal, decimal_u64};
use vstd::prelude::*;
use vstd::string::*;

verus! {

/// How an HTTP client is to be built.
#[derive(Debug, Clone, PartialEq, Eq)]
pub enum ClientPlan {
    /// Without any proxy: every request goes straight to its host, whatever
    /// the operating system has configured.
    Direct,
    /// With the HTTP library's defaults, which follow the proxy settings of
    /// the operating system.
    Default,
    /// With every request routed through the proxy at `url`, authenticating
    /// with the name and password of `basic_auth` when present.
    Proxied { url: String, basic_auth: Option<(String, String)> },
}

/// The mathematical content of a [`ClientPlan`].
pub enum PlanView {
    Direct,
    Default,
    Proxied(Seq<char>, Option<(Seq<char>, Seq<char>)>),
}

/// The name and password of optional proxy credentials.
pub open spec fn auth_view(auth: Option<(String, String)>) -> Option<(Seq<char>, Seq<char>)> {
    match auth {
        Some((name, password)) => Some((name@, password@)),
        None => None,
    }
}

impl View for ClientPlan {
    type V = PlanView;

    open spec fn view(&self) -> PlanView {
        match *self {
            ClientPlan::Direct => PlanView::Direct,
            ClientPlan::Default => PlanView::Default,
            ClientPlan::Proxied { url, basic_auth } => PlanView::Proxied(
                url@,
                auth_view(basic_auth),
            ),
        }
    }
}

/// The URL scheme of a proxy protocol; plain HTTP when none is chosen.
pub open spec fn scheme(protocol: Option<ProxyProtocol>) -> Seq<char> {
    match protocol {
        Some(ProxyProtocol::Https) => "https"@,
        Some(ProxyProtocol::Socks5) => "socks5"@,
        _ => "http"@,
    }
}

/// The address of a proxy: `scheme://host:port`, the port in decimal.
pub open spec fn proxy_url(protocol: Option<ProxyProtocol>, host: Seq<char>, port: u16) -> Seq<
    char,
> {
    scheme(protocol) + "://"@ + host + ":"@ + decimal(port as nat)
}

/// The credentials presented to a proxy: both must be given and the name
/// must not be empty.
pub open spec fn proxy_auth(username: Option<String>, password: Option<String>) -> Option<
    (Seq<char>, Seq<char>),
> {
    match (username, password) {
        (Some(name), Some(secret)) => if name@.len() > 0 {
            Some((name@, secret@))
        } else {
            None
        },
        _ => None,
    }
}

/// The plan that a stored proxy form calls for. A disabled proxy routes
/// nothing through any proxy. The system choice, and no form at all, leave
/// the client to its defaults. A manual form routes through the proxy it
/// names, provided that it has a host and a port other than zero; without
/// them it leaves the client to its defaults too.
pub open spec fn planned(proxy: Option<NetworkProxyForm>) -> PlanView {
    match proxy {
        Some(form) => match form.mode {
            ProxyMode::Disable => PlanView::Direct,
            ProxyMode::System => PlanView::Default,
            ProxyMode::Manual => match (form.host, form.port) {
                (Some(host), Some(port)) => if host@.len() > 0 && port != 0 {
                    PlanView::Proxied(
                        proxy_url(form.protocol, host@, port),
                        proxy_auth(form.username, form.password),
                    )
                } else {
                    PlanView::Default
                },
                _ => PlanView::Default,
            },
        },
        None => PlanView::Default,
    }
}

/// A disabled proxy routes nothing through any proxy, whatever the rest of
/// the form holds.
pub proof fn law_disabled_proxy_is_direct(form: NetworkProxyForm)
    requires
        form.mode == ProxyMode::Disable,
    ensures
        planned(Some(form)) == PlanView::Direct,
{
}

/// The three choices of a form with a host and a port lead to three
/// different plans.
pub proof fn law_proxy_choices_differ(form: NetworkProxyForm)
    requires
        form.host matches Some(host) && host@.len() > 0,
        form.port matches Some(port) && port != 0,
    ensures
        planned(Some(form)) is Direct <==> form.mode == ProxyMode::Disable,
        planned(Some(form)) is Default <==> form.mode == ProxyMode::System,
        planned(Some(form)) is Proxied <==> form.mode == ProxyMode::Manual,
{
}

fn scheme_of(protocol: Option<ProxyProtocol>) -> (name: &'static str)
    ensures
        name@ == scheme(protocol),
{
    match protocol {
        Some(ProxyProtocol::Https) => "https",
        Some(ProxyProtocol::Socks5) => "socks5",
        _ => "http",
    }
}

/// Decides how to build the HTTP client for a stored proxy form.
pub fn client_plan(proxy: Option<NetworkProxyForm>) -> (plan: ClientPlan)
    ensures
        plan@ == planned(proxy),
{
    let form = match proxy {
        Some(form) => form,
        None => {
            return ClientPlan::Default;
        },
    };
    match (form.mode, form.host, form.port) {
        (ProxyMode::Disable, _, _) => ClientPlan::Direct,
        (ProxyMode::Manual, Some(host), Some(port)) => {
            if host.as_str().is_empty() || port == 0 {
                return ClientPlan::Default;
            }
            let mut url = String::from_str(scheme_of(form.protocol));
            url.append("://");
            url.append(host.as_str());
            url.append(":");
            url.append(decimal_u64(port as u64).as_str());
            let basic_auth = match (form.username, form.password) {
                (Some(name), Some(secret)) => if name.as_str().is_empty() {
                    None
                } else {
                    Some((name, secret))
                },
                _ => None,
            };
            ClientPlan::Proxied { url, basic_auth }
        },
        _ => ClientPlan::Default,
    }
}

} // verus!
