//! The HTTP-to-HTTPS redirector's decisions: the canonical HTTPS target URI
//! for an inbound request, the response it earns, the secondary serving
//! configuration, and the lifecycle of the redirect listener.

use vstd::prelude::*;

verus! {

/// The character for a single decimal digit.
pub open spec fn digit_char(d: nat) -> char {
    if d == 0 {
        '0'
    } else if d == 1 {
        '1'
    } else if d == 2 {
        '2'
    } else if d == 3 {
        '3'
    } else if d == 4 {
        '4'
    } else if d == 5 {
        '5'
    } else if d == 6 {
        '6'
    } else if d == 7 {
        '7'
    } else if d == 8 {
        '8'
    } else {
        '9'
    }
}

/// The decimal digits of `n`, most significant first, without leading zeros
/// (`0` itself is the single digit `0`).
pub open spec fn dec_str(n: nat) -> Seq<char>
    decreases n,
{
    if n < 10 {
        seq![digit_char(n)]
    } else {
        dec_str(n / 10).push(digit_char(n % 10))
    }
}

/// A single decimal digit as a string slice.
fn digit_str(d: u16) -> (r: &'static str)
    requires
        d < 10,
    ensures
        r@ == seq![digit_char(d as nat)],
{
    if d == 0 {
        proof {
            reveal_strlit("0");
            assert("0"@ =~= seq![digit_char(0)]);
        }
        "0"
    } else if d == 1 {
        proof {
            reveal_strlit("1");
            assert("1"@ =~= seq![digit_char(1)]);
        }
        "1"
    } else if d == 2 {
        proof {
            reveal_strlit("2");
            assert("2"@ =~= seq![digit_char(2)]);
        }
        "2"
    } else if d == 3 {
        proof {
            reveal_strlit("3");
            assert("3"@ =~= seq![digit_char(3)]);
        }
        "3"
    } else if d == 4 {
        proof {
            reveal_strlit("4");
            assert("4"@ =~= seq![digit_char(4)]);
        }
        "4"
    } else if d == 5 {
        proof {
            reveal_strlit("5");
            assert("5"@ =~= seq![digit_char(5)]);
        }
        "5"
    } else if d == 6 {
        proof {
            reveal_strlit("6");
            assert("6"@ =~= seq![digit_char(6)]);
        }
        "6"
    } else if d == 7 {
        proof {
            reveal_strlit("7");
            assert("7"@ =~= seq![digit_char(7)]);
        }
        "7"
    } else if d == 8 {
        proof {
            reveal_strlit("8");
            assert("8"@ =~= seq![digit_char(8)]);
        }
        "8"
    } else {
        proof {
            reveal_strlit("9");
            assert("9"@ =~= seq![digit_char(9)]);
        }
        "9"
    }
}

/// The decimal rendering of a port number.
pub fn u16_to_dec(n: u16) -> (r: String)
    ensures
        r@ == dec_str(n as nat),
    decreases n,
{
    if n < 10 {
        String::from_str(digit_str(n))
    } else {
        let mut s = u16_to_dec(n / 10);
        s.append(digit_str(n % 10));
        proof {
            assert(s@ =~= dec_str((n / 10) as nat).push(digit_char((n % 10) as nat)));
        }
        s
    }
}

/// The inbound request carried no host information: a client error, not a
/// server fault.
#[derive(Clone, Copy, Debug, PartialEq, Eq, Structural)]
pub struct MissingHostError;

/// The canonical HTTPS URI a request for `path` on `host` is redirected to.
/// The default HTTPS port 443 is omitted; any other configured TLS port is
/// written out.
pub open spec fn redirect_uri(host: Seq<char>, path: Seq<char>, tls_port: u16) -> Seq<char> {
    if tls_port == 443 {
        "https://"@ + host + path
    } else {
        "https://"@ + host + ":"@ + dec_str(tls_port as nat) + path
    }
}

/// Computes the HTTPS URI a request is redirected to, or fails when the
/// request carries no host.
pub fn compute_redirect_target(host: Option<&String>, path: &str, tls_port: u16) -> (r: Result<
    String,
    MissingHostError,
>)
    ensures
        match r {
            Ok(uri) => host matches Some(h) && uri@ == redirect_uri(h@, path@, tls_port),
            Err(_) => host is None,
        },
{
    match host {
        None => Err(MissingHostError),
        Some(h) => {
            let mut uri = String::from_str("https://");
            uri.append(h.as_str());
            if tls_port != 443 {
                uri.append(":");
                let port = u16_to_dec(tls_port);
                uri.append(port.as_str());
            }
            uri.append(path);
            proof {
                assert(uri@ =~= redirect_uri(h@, path@, tls_port));
            }
            Ok(uri)
        },
    }
}

/// An HTTP method of an inbound request. The redirector answers every one of
/// them alike.
#[derive(Clone, Copy, Debug, PartialEq, Eq, Structural)]
pub enum HttpMethod {
    Get,
    Put,
    Post,
    Delete,
    Options,
    Head,
    Trace,
    Connect,
    Patch,
}

/// What the redirect handler answers: a temporary redirect with a target
/// location, or a bad request when the host is missing.
pub struct RedirectResponse {
    pub status: u16,
    pub location: Option<String>,
}

/// The status and location owed to a request, whatever its method: a
/// temporary redirect (307) to the canonical HTTPS URI when a host is
/// present, a bad request (400) without a location otherwise.
pub open spec fn response_model(
    method: HttpMethod,
    host: Option<Seq<char>>,
    path: Seq<char>,
    tls_port: u16,
) -> (u16, Option<Seq<char>>) {
    match host {
        Some(h) => (307, Some(redirect_uri(h, path, tls_port))),
        None => (400, None),
    }
}

/// The view of the host named by a request, if any.
pub open spec fn host_view(host: Option<&String>) -> Option<Seq<char>> {
    match host {
        Some(h) => Some(h@),
        None => None,
    }
}

/// The view of an optional location string.
pub open spec fn location_view(location: Option<String>) -> Option<Seq<char>> {
    match location {
        Some(l) => Some(l@),
        None => None,
    }
}

/// Answers an inbound request on the plain-HTTP listener: a temporary
/// redirect to the HTTPS equivalent, or a bad request when no host is
/// present. The method plays no part in the answer.
#[allow(unused_variables)]
pub fn redirect_response(
    method: HttpMethod,
    host: Option<&String>,
    path: &str,
    tls_port: u16,
) -> (r: RedirectResponse)
    ensures
        (r.status, location_view(r.location)) == response_model(
            method,
            host_view(host),
            path@,
            tls_port,
        ),
{
    match compute_redirect_target(host, path, tls_port) {
        Ok(uri) => RedirectResponse { status: 307, location: Some(uri) },
        Err(_) => RedirectResponse { status: 400, location: None },
    }
}

/// Law: the redirect decision does not depend on the HTTP method — every
/// method earns the same status and location.
pub proof fn lemma_method_irrelevant(
    m1: HttpMethod,
    m2: HttpMethod,
    host: Option<Seq<char>>,
    path: Seq<char>,
    tls_port: u16,
)
    ensures
        response_model(m1, host, path, tls_port) == response_model(m2, host, path, tls_port),
{
}

/// A snapshot of a serving configuration, as far as the redirector reads it:
/// the port served on, whether TLS is enabled, whether routine logging is on,
/// and the size of the worker pool carried over unchanged.
#[derive(Clone, Copy, Debug, PartialEq, Eq, Structural)]
pub struct ServiceConfig {
    pub port: u16,
    pub tls_enabled: bool,
    pub verbose_logging: bool,
    pub workers: u16,
}

/// Derives the secondary configuration the redirect listener starts with:
/// TLS disabled, the plain redirect port bound, routine logging suppressed,
/// everything else taken from the primary snapshot.
pub fn derive_redirector_config(primary: &ServiceConfig, redirect_port: u16) -> (r: ServiceConfig)
    ensures
        r.port == redirect_port,
        !r.tls_enabled,
        !r.verbose_logging,
        r.workers == primary.workers,
{
    ServiceConfig {
        port: redirect_port,
        tls_enabled: false,
        verbose_logging: false,
        workers: primary.workers,
    }
}

/// Where the redirect listener stands in its life.
#[derive(Clone, Copy, Debug, PartialEq, Eq, Structural)]
pub enum RedirectorState {
    Stopped,
    Starting,
    Running,
    Failed,
    Stopping,
}

/// What happens to the redirect listener.
#[derive(Clone, Copy, Debug, PartialEq, Eq, Structural)]
pub enum RedirectorEvent {
    /// The primary service asks for the redirector to start.
    Launch,
    /// The secondary listener bound its port.
    BindSucceeded,
    /// The secondary listener could not bind its port.
    BindFailed,
    /// The primary service begins shutdown.
    ShutdownSignal,
    /// The secondary listener is torn down.
    TeardownComplete,
}

/// What the surrounding service must do next.
#[derive(Clone, Copy, Debug, PartialEq, Eq, Structural)]
pub enum RedirectorAction {
    /// Bind the plain-HTTP listener.
    BindListener,
    /// Serve redirect responses.
    ServeRedirects,
    /// Shut the primary service down: a broken redirector is a deployment
    /// misconfiguration, not a degraded mode.
    EscalatePrimaryShutdown,
    /// Tear the secondary listener down without draining.
    TearDownListener,
    /// Nothing.
    Ignore,
}

/// The lifecycle of the redirect listener:
/// `Stopped -> Starting -> Running -> (Failed | Stopping -> Stopped)`.
/// Any event not listed leaves the state alone.
pub open spec fn spec_step(s: RedirectorState, e: RedirectorEvent) -> (
    RedirectorState,
    RedirectorAction,
) {
    match (s, e) {
        (RedirectorState::Stopped, RedirectorEvent::Launch) => (
            RedirectorState::Starting,
            RedirectorAction::BindListener,
        ),
        (RedirectorState::Starting, RedirectorEvent::BindSucceeded) => (
            RedirectorState::Running,
            RedirectorAction::ServeRedirects,
        ),
        (RedirectorState::Starting, RedirectorEvent::BindFailed) => (
            RedirectorState::Failed,
            RedirectorAction::EscalatePrimaryShutdown,
        ),
        (RedirectorState::Starting, RedirectorEvent::ShutdownSignal) => (
            RedirectorState::Stopping,
            RedirectorAction::TearDownListener,
        ),
        (RedirectorState::Running, RedirectorEvent::ShutdownSignal) => (
            RedirectorState::Stopping,
            RedirectorAction::TearDownListener,
        ),
        (RedirectorState::Stopping, RedirectorEvent::TeardownComplete) => (
            RedirectorState::Stopped,
            RedirectorAction::Ignore,
        ),
        _ => (s, RedirectorAction::Ignore),
    }
}

/// Advances the redirect listener's lifecycle on an event and says what the
/// surrounding service must do.
pub fn step(s: RedirectorState, e: RedirectorEvent) -> (r: (RedirectorState, RedirectorAction))
    ensures
        r == spec_step(s, e),
{
    match (s, e) {
        (RedirectorState::Stopped, RedirectorEvent::Launch) => (
            RedirectorState::Starting,
            RedirectorAction::BindListener,
        ),
        (RedirectorState::Starting, RedirectorEvent::BindSucceeded) => (
            RedirectorState::Running,
            RedirectorAction::ServeRedirects,
        ),
        (RedirectorState::Starting, RedirectorEvent::BindFailed) => (
            RedirectorState::Failed,
            RedirectorAction::EscalatePrimaryShutdown,
        ),
        (RedirectorState::Starting, RedirectorEvent::ShutdownSignal) => (
            RedirectorState::Stopping,
            RedirectorAction::TearDownListener,
        ),
        (RedirectorState::Running, RedirectorEvent::ShutdownSignal) => (
            RedirectorState::Stopping,
            RedirectorAction::TearDownListener,
        ),
        (RedirectorState::Stopping, RedirectorEvent::TeardownComplete) => (
            RedirectorState::Stopped,
            RedirectorAction::Ignore,
        ),
        _ => (s, RedirectorAction::Ignore),
    }
}

/// Law: a bind failure during startup deterministically fails the redirector
/// and escalates shutdown of the primary service.
pub proof fn lemma_bind_failure_escalates(s: RedirectorState)
    requires
        s is Starting,
    ensures
        spec_step(s, RedirectorEvent::BindFailed) == (
            RedirectorState::Failed,
            RedirectorAction::EscalatePrimaryShutdown,
        ),
{
}

} // verus!
