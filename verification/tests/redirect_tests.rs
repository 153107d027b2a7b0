use site_helpers::redirect::{
    compute_redirect_target, derive_redirector_config, redirect_response, step, u16_to_dec,
    HttpMethod, RedirectorAction, RedirectorEvent, RedirectorState, ServiceConfig,
};

fn all_methods() -> Vec<HttpMethod> {
    vec![
        HttpMethod::Get,
        HttpMethod::Put,
        HttpMethod::Post,
        HttpMethod::Delete,
        HttpMethod::Options,
        HttpMethod::Head,
        HttpMethod::Trace,
        HttpMethod::Connect,
        HttpMethod::Patch,
    ]
}

#[test]
fn redirect_omits_default_port() {
    let host = "example.com".to_string();
    let uri = compute_redirect_target(Some(&host), "/a/b?x=1", 443);
    assert_eq!(uri.unwrap(), "https://example.com/a/b?x=1");
}

#[test]
fn redirect_includes_custom_port() {
    let host = "example.com".to_string();
    let uri = compute_redirect_target(Some(&host), "/a", 8443);
    assert_eq!(uri.unwrap(), "https://example.com:8443/a");
}

#[test]
fn missing_host_is_client_error() {
    let uri = compute_redirect_target(None, "/a", 443);
    assert!(uri.is_err());
}

#[test]
fn missing_host_maps_to_bad_request_for_every_method() {
    for method in all_methods() {
        let response = redirect_response(method, None, "/any/path", 443);
        assert_eq!(response.status, 400);
        assert_eq!(response.location, None);
    }
}

#[test]
fn redirect_is_temporary_for_every_method() {
    let host = "example.com".to_string();
    for method in all_methods() {
        let response = redirect_response(method, Some(&host), "/a", 8443);
        assert_eq!(response.status, 307);
        assert_eq!(
            response.location,
            Some("https://example.com:8443/a".to_string())
        );
    }
}

#[test]
fn port_renders_in_decimal() {
    assert_eq!(u16_to_dec(0), "0");
    assert_eq!(u16_to_dec(9), "9");
    assert_eq!(u16_to_dec(80), "80");
    assert_eq!(u16_to_dec(443), "443");
    assert_eq!(u16_to_dec(8443), "8443");
    assert_eq!(u16_to_dec(65535), "65535");
}

#[test]
fn derived_config_disables_tls_and_logging() {
    let primary = ServiceConfig {
        port: 443,
        tls_enabled: true,
        verbose_logging: true,
        workers: 16,
    };
    let secondary = derive_redirector_config(&primary, 80);
    assert_eq!(secondary.port, 80);
    assert!(!secondary.tls_enabled);
    assert!(!secondary.verbose_logging);
    assert_eq!(secondary.workers, 16);
}

#[test]
fn launch_binds_listener() {
    assert_eq!(
        step(RedirectorState::Stopped, RedirectorEvent::Launch),
        (RedirectorState::Starting, RedirectorAction::BindListener)
    );
}

#[test]
fn bind_failure_escalates_shutdown() {
    // Two listeners contend for one port: the first binds and runs, the
    // second cannot bind, fails, and must take the primary service down.
    let first = step(RedirectorState::Stopped, RedirectorEvent::Launch);
    assert_eq!(first.0, RedirectorState::Starting);
    let first = step(first.0, RedirectorEvent::BindSucceeded);
    assert_eq!(
        first,
        (RedirectorState::Running, RedirectorAction::ServeRedirects)
    );

    let second = step(RedirectorState::Stopped, RedirectorEvent::Launch);
    let second = step(second.0, RedirectorEvent::BindFailed);
    assert_eq!(
        second,
        (
            RedirectorState::Failed,
            RedirectorAction::EscalatePrimaryShutdown
        )
    );
}

#[test]
fn shutdown_tears_listener_down() {
    let running = RedirectorState::Running;
    let stopping = step(running, RedirectorEvent::ShutdownSignal);
    assert_eq!(
        stopping,
        (RedirectorState::Stopping, RedirectorAction::TearDownListener)
    );
    let stopped = step(stopping.0, RedirectorEvent::TeardownComplete);
    assert_eq!(stopped.0, RedirectorState::Stopped);
}

#[test]
fn unrelated_event_is_ignored() {
    assert_eq!(
        step(RedirectorState::Stopped, RedirectorEvent::BindFailed),
        (RedirectorState::Stopped, RedirectorAction::Ignore)
    );
    assert_eq!(
        step(RedirectorState::Running, RedirectorEvent::Launch),
        (RedirectorState::Running, RedirectorAction::Ignore)
    );
}
