use host_lib::modes::{frontend_mode, review_mode, store_svc_mode, FrontendMode, HostMode};

#[test]
fn store_svc_hosts() {
    assert_eq!(store_svc_mode(None), Ok(HostMode::Svc));
    assert_eq!(store_svc_mode(Some("store")), Ok(HostMode::Store));
    assert_eq!(store_svc_mode(Some("svc")), Ok(HostMode::Svc));
    assert_eq!(store_svc_mode(Some("abi")), Err("unknown MODE=abi; expected store|svc".to_string()));
    assert_eq!(store_svc_mode(Some("")), Err("unknown MODE=; expected store|svc".to_string()));
}

#[test]
fn review_host() {
    assert_eq!(review_mode(None), Ok(HostMode::Abi));
    assert_eq!(review_mode(Some("abi")), Ok(HostMode::Abi));
    assert_eq!(review_mode(Some("store")), Ok(HostMode::Store));
    assert_eq!(review_mode(Some("tcp")), Err("unknown MODE=tcp; expected store|svc|abi".to_string()));
}

#[test]
fn frontend_host() {
    assert_eq!(frontend_mode(Some("abi")), FrontendMode::Abi);
    assert_eq!(frontend_mode(Some("tcp")), FrontendMode::Tcp);
    assert_eq!(frontend_mode(Some("ABI")), FrontendMode::Tcp);
    assert_eq!(frontend_mode(None), FrontendMode::Tcp);
}
