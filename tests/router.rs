use caretta_framework::error::Error;
use caretta_framework::model::DevPingRequest;
use caretta_framework::model::DevPingResponse;
use caretta_framework::model::WorkspaceInitRequest;
use caretta_framework::identity::DeviceIdentifier;
use caretta_framework::router::finish;
use caretta_framework::router::from_envelope;
use caretta_framework::router::request_fits;
use caretta_framework::router::Operation;
use caretta_framework::router::Request;
use caretta_framework::router::Response;
use caretta_framework::router::Router;
use caretta_framework::router::RouterError;
use caretta_framework::router::WireCode;

#[test]
fn catalog_names() {
    let r = Router::with_catalog();
    assert_eq!(r.lookup(&"ping".to_string()), Some(Operation::Ping));
    assert_eq!(r.lookup(&"workspace.init".to_string()), Some(Operation::WorkspaceInit));
    assert_eq!(r.lookup(&"workspace.join".to_string()), Some(Operation::WorkspaceJoin));
    assert_eq!(r.lookup(&"workspace".to_string()), None);
}

#[test]
fn duplicate_name_is_refused() {
    let mut r = Router::with_catalog();
    assert_eq!(
        r.register("ping".to_string(), Operation::WorkspaceInit),
        Err(RouterError::DuplicateName("ping".to_string()))
    );
    assert_eq!(r.lookup(&"ping".to_string()), Some(Operation::Ping));
    assert_eq!(r.register("ping2".to_string(), Operation::Ping), Ok(()));
    assert_eq!(r.lookup(&"ping2".to_string()), Some(Operation::Ping));
}

#[test]
fn decode_failure_is_protocol_error() {
    let r = Router::with_catalog();
    let w = r.begin(&"workspace.init".to_string(), Err("missing field `name`".to_string())).unwrap_err();
    assert_eq!(w.code, WireCode::InvalidParams);
    assert_eq!(w.message, "invalid parameters: missing field `name`");
    assert_eq!(w.data, None);
}

#[test]
fn unknown_tool_is_method_not_found() {
    let r = Router::new();
    let req = Request::Ping(DevPingRequest { device: DeviceIdentifier::Handle("a".to_string()) });
    let w = r.begin(&"ping".to_string(), Ok(req)).unwrap_err();
    assert_eq!(w.code, WireCode::MethodNotFound);
    assert_eq!(w.message, "unknown tool: ping");
}

#[test]
fn request_for_other_tool_is_refused() {
    let r = Router::with_catalog();
    let req = Request::WorkspaceInit(WorkspaceInitRequest { name: "n".to_string() });
    assert!(!request_fits(&req, Operation::Ping));
    let w = r.begin(&"ping".to_string(), Ok(req)).unwrap_err();
    assert_eq!(w.code, WireCode::InvalidParams);
    assert_eq!(w.message, "invalid parameters: request is for another tool than ping");
    assert_eq!(w.data, None);
}

#[test]
fn admitted_request_passes_unchanged() {
    let r = Router::with_catalog();
    let req = Request::WorkspaceInit(WorkspaceInitRequest { name: "n".to_string() });
    assert_eq!(r.begin(&"workspace.init".to_string(), Ok(req.clone())), Ok((Operation::WorkspaceInit, req)));
}

#[test]
fn provider_failure_keeps_kind_and_payload() {
    let e = Error::DevicePingFailed("unreachable".to_string());
    let w = finish(Err(e.clone())).unwrap_err();
    assert_eq!(w.code, WireCode::InternalError);
    assert_eq!(w.message, "DevicePingFailed(\"unreachable\")");
    assert_eq!(from_envelope(w), Some(e));
}

#[test]
fn provider_success_passes_unchanged() {
    let resp = Response::Ping(DevPingResponse { rtt_micros: 9 });
    assert_eq!(finish(Ok(resp.clone())), Ok(resp));
}

#[test]
fn providers_compose_when_names_are_distinct() {
    let mut r = Router::new();
    assert_eq!(r.register_all(vec![("ping".to_string(), Operation::Ping)]), Ok(()));
    assert_eq!(
        r.register_all(vec![
            ("workspace.init".to_string(), Operation::WorkspaceInit),
            ("workspace.join".to_string(), Operation::WorkspaceJoin),
        ]),
        Ok(())
    );
    assert_eq!(r.lookup(&"workspace.join".to_string()), Some(Operation::WorkspaceJoin));
}

#[test]
fn providers_with_colliding_names_are_refused() {
    let mut r = Router::with_catalog();
    assert_eq!(
        r.register_all(vec![
            ("extra".to_string(), Operation::Ping),
            ("workspace.init".to_string(), Operation::WorkspaceJoin),
        ]),
        Err(RouterError::DuplicateName("workspace.init".to_string()))
    );
    assert_eq!(r.lookup(&"extra".to_string()), None);
    assert_eq!(r.lookup(&"workspace.init".to_string()), Some(Operation::WorkspaceInit));
    let mut s = Router::new();
    assert_eq!(
        s.register_all(vec![("a".to_string(), Operation::Ping), ("a".to_string(), Operation::Ping)]),
        Err(RouterError::DuplicateName("a".to_string()))
    );
    assert_eq!(s.lookup(&"a".to_string()), None);
}
