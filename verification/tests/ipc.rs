use zenith::ipc::{
    invalid_request_error, is_daemon_running, rpc_action, rpc_error, socket_path, RpcAction, INVALID_REQUEST_CODE,
    METHOD_NOT_FOUND_CODE, PING_REQUEST, sync_plan, sync_io_error, SyncPlan, INVALID_PARAMS_CODE, INTERNAL_ERROR_CODE,
};

#[test]
fn test_dispatch_known_and_unknown() {
    let a = rpc_action("ping");
    assert_eq!(a, RpcAction::Pong);
    assert!(rpc_error(a).is_none());
    let b = rpc_action("does_not_exist");
    let err = rpc_error(b);
    assert!(err.is_some());
    assert_eq!(err.unwrap_or((-1, "".to_string())).0, -32_601);
}

#[test]
fn rpc_methods() {
    assert_eq!(rpc_action("get_status"), RpcAction::Status);
    assert_eq!(rpc_action("reload_statusbar"), RpcAction::ReloadStatusbar);
    assert_eq!(rpc_action("echo"), RpcAction::Echo);
    assert_eq!(rpc_action("Ping"), RpcAction::MethodNotFound);
    assert_eq!(rpc_error(RpcAction::MethodNotFound), Some((METHOD_NOT_FOUND_CODE, "Method not found".to_string())));
    assert_eq!(invalid_request_error(), (INVALID_REQUEST_CODE, "Invalid Request".to_string()));
    assert_eq!(INVALID_REQUEST_CODE, -32_700);
}

#[test]
fn daemon_replies() {
    assert!(is_daemon_running(Some("{\"jsonrpc\":\"2.0\",\"result\":\"pong\",\"id\":0}\n")));
    assert!(is_daemon_running(Some("  {\"result\": null}  ")));
    assert!(!is_daemon_running(Some("{\"jsonrpc\":\"2.0\",\"error\":{\"code\":-32601},\"id\":0}")));
    assert!(!is_daemon_running(Some("   ")));
    assert!(!is_daemon_running(Some("not json")));
    assert!(!is_daemon_running(Some("[1, 2]")));
    assert!(!is_daemon_running(None));
    let v: serde_json::Value = serde_json::from_str(PING_REQUEST).expect("valid request");
    assert_eq!(v["method"], "ping");
}

#[test]
fn socket_locations() {
    assert_eq!(socket_path(Some("/run/user/1000")), "/run/user/1000/zenith.sock");
    assert_eq!(socket_path(Some("")), "/tmp/zenith.sock");
    assert_eq!(socket_path(None), "/tmp/zenith.sock");
}

#[test]
fn sync_methods_are_known() {
    assert_eq!(rpc_action("sync.list"), RpcAction::SyncList);
    assert_eq!(rpc_action("sync.get_config"), RpcAction::SyncGetConfig);
    assert_eq!(rpc_action("sync.set_config"), RpcAction::SyncSetConfig);
    assert_eq!(rpc_error(RpcAction::SyncList), None);
}

fn plan_text(p: Option<SyncPlan>) -> String {
    match p {
        None => "none".to_string(),
        Some(SyncPlan::List(v)) => format!("list {}", v.join(",")),
        Some(SyncPlan::Read(p)) => format!("read {}", p),
        Some(SyncPlan::Write(p, t)) => format!("write {} {}", p, t),
        Some(SyncPlan::Refuse(c, m)) => format!("refuse {} {}", c, m),
    }
}

#[test]
fn sync_plans_serve_only_managed_files() {
    let home = "/home/u";
    assert_eq!(plan_text(sync_plan(RpcAction::SyncList, None, None, home)), "list zenith-hypr,quickshell,waybar");
    assert_eq!(
        plan_text(sync_plan(RpcAction::SyncGetConfig, Some("zenith-hypr"), None, home)),
        "read /home/u/.config/hypr/zenith.conf"
    );
    assert_eq!(
        plan_text(sync_plan(RpcAction::SyncSetConfig, Some("waybar"), Some("{}"), home)),
        "write /home/u/.config/waybar/config {}"
    );
    assert_eq!(
        plan_text(sync_plan(RpcAction::SyncGetConfig, Some("quickshell"), None, home)),
        "read /home/u/.config/quickshell/zenith-shell.json"
    );
    assert_eq!(
        plan_text(sync_plan(RpcAction::SyncGetConfig, Some("/etc/passwd"), None, home)),
        format!("refuse {} Not a managed file", INVALID_PARAMS_CODE)
    );
    assert_eq!(
        plan_text(sync_plan(RpcAction::SyncSetConfig, Some("waybar"), None, home)),
        format!("refuse {} Invalid params", INVALID_PARAMS_CODE)
    );
    assert_eq!(
        plan_text(sync_plan(RpcAction::SyncGetConfig, None, None, home)),
        format!("refuse {} Invalid params", INVALID_PARAMS_CODE)
    );
    assert_eq!(plan_text(sync_plan(RpcAction::Pong, Some("waybar"), None, home)), "none");
    assert_eq!(sync_io_error(), (INTERNAL_ERROR_CODE, "Internal error".to_string()));
}
