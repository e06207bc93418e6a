use vstd::prelude::*;

use crate::backup::{join_path, path_join};
use crate::text::{copy_str, str_eq, trim, trimmed};

verus! {

/// Whether serde_json reads `text` as a JSON value that is an object with a
/// member named `key`.
pub uninterp spec fn json_has_member(text: Seq<char>, key: Seq<char>) -> bool;

/// Reads `text` with `serde_json::from_str::<serde_json::Value>` and, when
/// that succeeds, looks up `key` with `serde_json::Value::get`. Claimed: the
/// answer depends on `text` and `key` alone (it is false when the text is
/// no JSON).
#[verifier::external_body]
fn json_member_present(text: &str, key: &str) -> (r: bool)
    ensures
        r == json_has_member(text@, key@),
{
    match serde_json::from_str::<serde_json::Value>(text) {
        Ok(v) => v.get(key).is_some(),
        Err(_) => false,
    }
}

/// The request the control center sends to see whether the daemon runs.
pub const PING_REQUEST: &'static str = "{\"jsonrpc\":\"2.0\",\"method\":\"ping\",\"id\":0}";

/// Whether the daemon answered a ping: it replied (`reply` is what was read
/// back, `None` when the socket could not be reached), the reply is not
/// blank, and it is a JSON object with a `result` member.
pub open spec fn daemon_answered(reply: Option<Seq<char>>) -> bool {
    match reply {
        None => false,
        Some(t) => trimmed(t).len() > 0 && json_has_member(trimmed(t), "result"@),
    }
}

/// Whether the daemon runs, judged from its reply to [`PING_REQUEST`].
pub fn is_daemon_running(reply: Option<&str>) -> (r: bool)
    ensures
        r == daemon_answered(
            match reply {
                Some(t) => Some(t@),
                None => None,
            },
        ),
{
    match reply {
        None => false,
        Some(t) => {
            let body = trim(t);
            if body.unicode_len() == 0 {
                false
            } else {
                json_member_present(body.as_str(), "result")
            }
        },
    }
}

/// Where the daemon's socket is: `zenith.sock` in the runtime directory when
/// one is set and not empty, else `/tmp/zenith.sock`.
pub fn socket_path(runtime_dir: Option<&str>) -> (p: String)
    ensures
        p@ == match runtime_dir {
            Some(r) => if r@.len() > 0 {
                path_join(r@, "zenith.sock"@)
            } else {
                "/tmp/zenith.sock"@
            },
            None => "/tmp/zenith.sock"@,
        },
{
    match runtime_dir {
        Some(r) => {
            if r.unicode_len() > 0 {
                join_path(r, "zenith.sock")
            } else {
                copy_str("/tmp/zenith.sock")
            }
        },
        None => copy_str("/tmp/zenith.sock"),
    }
}

/// What the daemon does for a JSON-RPC method.
#[derive(Clone, Copy, Debug, PartialEq, Eq, Structural)]
pub enum RpcAction {
    /// `ping`: answer `"pong"`.
    Pong,
    /// `get_status`: answer the daemon's status.
    Status,
    /// `reload_statusbar`: signal the bar to redraw, answer `true`.
    ReloadStatusbar,
    /// `echo`: answer the parameters (`null` when there are none).
    Echo,
    /// `sync.list`: answer the names of the files the daemon keeps in sync.
    SyncList,
    /// `sync.get_config`: answer the current text of a managed file.
    SyncGetConfig,
    /// `sync.set_config`: replace the text of a managed file.
    SyncSetConfig,
    /// Anything else: the JSON-RPC error "Method not found".
    MethodNotFound,
}

/// The JSON-RPC error code for an unknown method.
pub const METHOD_NOT_FOUND_CODE: i32 = -32601;

/// The JSON-RPC error code for a request that cannot be read.
pub const INVALID_REQUEST_CODE: i32 = -32700;

/// The action for a method name.
pub fn rpc_action(method: &str) -> (r: RpcAction)
    ensures
        r == if method@ == "ping"@ {
            RpcAction::Pong
        } else if method@ == "get_status"@ {
            RpcAction::Status
        } else if method@ == "reload_statusbar"@ {
            RpcAction::ReloadStatusbar
        } else if method@ == "echo"@ {
            RpcAction::Echo
        } else if method@ == "sync.list"@ {
            RpcAction::SyncList
        } else if method@ == "sync.get_config"@ {
            RpcAction::SyncGetConfig
        } else if method@ == "sync.set_config"@ {
            RpcAction::SyncSetConfig
        } else {
            RpcAction::MethodNotFound
        },
{
    if str_eq(method, "ping") {
        RpcAction::Pong
    } else if str_eq(method, "get_status") {
        RpcAction::Status
    } else if str_eq(method, "reload_statusbar") {
        RpcAction::ReloadStatusbar
    } else if str_eq(method, "echo") {
        RpcAction::Echo
    } else if str_eq(method, "sync.list") {
        RpcAction::SyncList
    } else if str_eq(method, "sync.get_config") {
        RpcAction::SyncGetConfig
    } else if str_eq(method, "sync.set_config") {
        RpcAction::SyncSetConfig
    } else {
        RpcAction::MethodNotFound
    }
}

/// The error (code and message) a JSON-RPC answer carries for an action, if
/// any: only an unknown method fails.
pub fn rpc_error(action: RpcAction) -> (r: Option<(i32, String)>)
    ensures
        action == RpcAction::MethodNotFound ==> (r matches Some((c, m)) && c == METHOD_NOT_FOUND_CODE && m@
            == "Method not found"@),
        action != RpcAction::MethodNotFound ==> r is None,
{
    match action {
        RpcAction::MethodNotFound => Some((METHOD_NOT_FOUND_CODE, copy_str("Method not found"))),
        _ => None,
    }
}

/// The error a JSON-RPC answer carries when the request cannot be read.
pub fn invalid_request_error() -> (r: (i32, String))
    ensures
        r.0 == INVALID_REQUEST_CODE,
        r.1@ == "Invalid Request"@,
{
    (INVALID_REQUEST_CODE, copy_str("Invalid Request"))
}


// ---------------------------------------------------------------------------
// Two-way sync: the daemon reads and writes the managed files on request.
// ---------------------------------------------------------------------------

/// The JSON-RPC error code for parameters that do not fit the method.
pub const INVALID_PARAMS_CODE: i32 = -32602;

/// The JSON-RPC error code for a failure inside the daemon (a file that
/// cannot be read or written).
pub const INTERNAL_ERROR_CODE: i32 = -32603;

/// The names of the files the daemon keeps in sync: the generated Hyprland
/// settings, the Quickshell configuration and the Waybar configuration.
pub open spec fn managed_names() -> Seq<Seq<char>> {
    seq!["zenith-hypr"@, "quickshell"@, "waybar"@]
}

/// Where a managed file lives under the home directory; no other name is
/// served.
pub open spec fn managed_path_of(name: Seq<char>, home: Seq<char>) -> Option<Seq<char>> {
    if name == "zenith-hypr"@ {
        Some(path_join(home, ".config/hypr/zenith.conf"@))
    } else if name == "quickshell"@ {
        Some(path_join(home, ".config/quickshell/zenith-shell.json"@))
    } else if name == "waybar"@ {
        Some(path_join(home, ".config/waybar/config"@))
    } else {
        None
    }
}

/// The names of the managed files, in order.
pub fn managed_names_list() -> (r: Vec<String>)
    ensures
        crate::text::views(r@) == managed_names(),
{
    let mut r: Vec<String> = Vec::new();
    r.push(copy_str("zenith-hypr"));
    r.push(copy_str("quickshell"));
    r.push(copy_str("waybar"));
    proof {
        assert(crate::text::views(r@) =~= managed_names());
    }
    r
}

/// The path of a managed file, or none for a name that is not managed.
pub fn managed_path(name: &str, home: &str) -> (r: Option<String>)
    ensures
        match r {
            Some(p) => managed_path_of(name@, home@) == Some(p@),
            None => managed_path_of(name@, home@) is None,
        },
{
    if str_eq(name, "zenith-hypr") {
        Some(join_path(home, ".config/hypr/zenith.conf"))
    } else if str_eq(name, "quickshell") {
        Some(join_path(home, ".config/quickshell/zenith-shell.json"))
    } else if str_eq(name, "waybar") {
        Some(join_path(home, ".config/waybar/config"))
    } else {
        None
    }
}

/// What the daemon does for a sync request.
pub enum SyncPlan {
    /// Answer the list of managed names.
    List(Vec<String>),
    /// Read this file and answer its text.
    Read(String),
    /// Write this text to this file and answer `true`.
    Write(String, String),
    /// Answer this JSON-RPC error.
    Refuse(i32, String),
}

pub enum SyncPlanView {
    List(Seq<Seq<char>>),
    Read(Seq<char>),
    Write(Seq<char>, Seq<char>),
    Refuse(i32, Seq<char>),
}

impl View for SyncPlan {
    type V = SyncPlanView;

    open spec fn view(&self) -> SyncPlanView {
        match self {
            SyncPlan::List(v) => SyncPlanView::List(crate::text::views(v@)),
            SyncPlan::Read(p) => SyncPlanView::Read(p@),
            SyncPlan::Write(p, t) => SyncPlanView::Write(p@, t@),
            SyncPlan::Refuse(c, m) => SyncPlanView::Refuse(*c, m@),
        }
    }
}

/// The plan for a sync request, from its action, the `name` parameter, the
/// `content` parameter (each when it is present as a text) and the home
/// directory: the list needs nothing; reading needs a name; writing needs a
/// name and a content; a missing parameter is refused as invalid parameters,
/// and a name that is not managed is refused as well, so no other path is
/// ever read or written.
pub open spec fn sync_plan_of(
    action: RpcAction,
    name: Option<Seq<char>>,
    content: Option<Seq<char>>,
    home: Seq<char>,
) -> Option<SyncPlanView> {
    if action == RpcAction::SyncList {
        Some(SyncPlanView::List(managed_names()))
    } else if action == RpcAction::SyncGetConfig || action == RpcAction::SyncSetConfig {
        match name {
            None => Some(SyncPlanView::Refuse(INVALID_PARAMS_CODE, "Invalid params"@)),
            Some(n) => match managed_path_of(n, home) {
                None => Some(SyncPlanView::Refuse(INVALID_PARAMS_CODE, "Not a managed file"@)),
                Some(p) => if action == RpcAction::SyncGetConfig {
                    Some(SyncPlanView::Read(p))
                } else {
                    match content {
                        None => Some(SyncPlanView::Refuse(INVALID_PARAMS_CODE, "Invalid params"@)),
                        Some(t) => Some(SyncPlanView::Write(p, t)),
                    }
                },
            },
        }
    } else {
        None
    }
}

/// The plan for a sync request; none for an action that is not a sync one.
pub fn sync_plan(action: RpcAction, name: Option<&str>, content: Option<&str>, home: &str) -> (r: Option<SyncPlan>)
    ensures
        match r {
            Some(p) => sync_plan_of(
                action,
                match name {
                    Some(n) => Some(n@),
                    None => None,
                },
                match content {
                    Some(t) => Some(t@),
                    None => None,
                },
                home@,
            ) == Some(p@),
            None => sync_plan_of(
                action,
                match name {
                    Some(n) => Some(n@),
                    None => None,
                },
                match content {
                    Some(t) => Some(t@),
                    None => None,
                },
                home@,
            ) is None,
        },
{
    match action {
        RpcAction::SyncList => Some(SyncPlan::List(managed_names_list())),
        RpcAction::SyncGetConfig | RpcAction::SyncSetConfig => {
            match name {
                None => Some(SyncPlan::Refuse(INVALID_PARAMS_CODE, copy_str("Invalid params"))),
                Some(n) => match managed_path(n, home) {
                    None => Some(SyncPlan::Refuse(INVALID_PARAMS_CODE, copy_str("Not a managed file"))),
                    Some(p) => {
                        if action == RpcAction::SyncGetConfig {
                            Some(SyncPlan::Read(p))
                        } else {
                            match content {
                                None => Some(SyncPlan::Refuse(INVALID_PARAMS_CODE, copy_str("Invalid params"))),
                                Some(t) => Some(SyncPlan::Write(p, copy_str(t))),
                            }
                        }
                    },
                },
            }
        },
        _ => None,
    }
}

/// The error a sync answer carries when the managed file cannot be read or
/// written.
pub fn sync_io_error() -> (r: (i32, String))
    ensures
        r.0 == INTERNAL_ERROR_CODE,
        r.1@ == "Internal error"@,
{
    (INTERNAL_ERROR_CODE, copy_str("Internal error"))
}

/// Only managed files are ever read or written: every `Read` or `Write`
/// plan names the path of one of the managed names.
pub proof fn law_sync_touches_only_managed_files(
    action: RpcAction,
    name: Option<Seq<char>>,
    content: Option<Seq<char>>,
    home: Seq<char>,
)
    ensures
        match sync_plan_of(action, name, content, home) {
            Some(SyncPlanView::Read(p)) => exists|k: int|
                0 <= k < managed_names().len() && managed_path_of(managed_names()[k], home) == Some(p),
            Some(SyncPlanView::Write(p, _)) => exists|k: int|
                0 <= k < managed_names().len() && managed_path_of(managed_names()[k], home) == Some(p),
            _ => true,
        },
{
    match name {
        Some(n) => {
            if n == "zenith-hypr"@ {
                assert(managed_names()[0] == n);
            } else if n == "quickshell"@ {
                assert(managed_names()[1] == n);
            } else if n == "waybar"@ {
                assert(managed_names()[2] == n);
            }
        },
        None => {},
    }
}

} // verus!
