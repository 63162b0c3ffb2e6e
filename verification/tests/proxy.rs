use openai_realtime_proxy::connector::{build_connect_request, ConnectError, ConnectOutcome};
use openai_realtime_proxy::proxy::HandleStep;
use openai_realtime_proxy::Proxy;

#[test]
fn connect_request_carries_the_fixed_target_and_headers() {
    let r = build_connect_request("sk-test-token");
    assert_eq!(
        r.url,
        "wss://api.openai.com/v1/realtime?model=gpt-4o-realtime-preview-2024-10-01"
    );
    assert_eq!(r.beta, "realtime=v1");
    assert_eq!(r.user_agent, "rust-openai-proxy");
    assert_eq!(r.authorization, "Bearer sk-test-token");
}

#[test]
fn proxy_builds_the_request_from_its_own_credential() {
    let p = Proxy::new(String::from("sk-abc"));
    let r = p.connect_request();
    assert_eq!(r.authorization, "Bearer sk-abc");
    assert_eq!(
        r.url,
        "wss://api.openai.com/v1/realtime?model=gpt-4o-realtime-preview-2024-10-01"
    );
}

#[test]
fn failed_connect_closes_downstream_without_forwarding() {
    let outcome = ConnectOutcome::Failed(ConnectError {
        detail: String::from("handshake rejected"),
    });
    assert_eq!(Proxy::on_connect_outcome(&outcome), HandleStep::CloseDownstream);
}

#[test]
fn successful_connect_runs_the_relay() {
    assert_eq!(
        Proxy::on_connect_outcome(&ConnectOutcome::Connected),
        HandleStep::RunRelay
    );
}
