use vstd::prelude::*;

verus! {

/// A window as the daemon knows it: the owning process and a per-process sequence number.
#[derive(Clone, Copy, Debug, PartialEq, Eq, Structural)]
pub struct WindowId {
    pub pid: i32,
    pub idx: u32,
}

/// The identifier the host window server assigned to a window surface.
#[derive(Clone, Copy, Debug, PartialEq, Eq, Structural)]
pub struct WindowServerId(pub u32);

/// What an application reported about one of its windows.
#[derive(Clone, Copy, Debug, PartialEq, Eq, Structural)]
pub struct WindowInfo {
    pub is_manageable: bool,
    pub sys_id: Option<WindowServerId>,
}

/// What the host window server reports for one window surface.
#[derive(Clone, Copy, Debug, PartialEq, Eq, Structural)]
pub struct WindowServerInfo {
    pub id: WindowServerId,
    pub pid: i32,
}

/// Descriptive facts about a running application.
#[derive(Debug, PartialEq, Eq)]
pub struct AppInfo {
    pub bundle_id: Option<String>,
    pub name: String,
}

/// A send-only handle to one application's actor, named by its mailbox number.
#[derive(Clone, Copy, Debug, PartialEq, Eq, Structural)]
pub struct AppThreadHandle {
    pub mailbox: u64,
}

/// Whether an activation was initiated by the daemon itself.
#[derive(Clone, Copy, Debug, PartialEq, Eq, Structural)]
pub enum Quiet {
    Yes,
    No,
}

/// A request to an application's own actor.
#[derive(Clone, Copy, Debug, PartialEq, Eq, Structural)]
pub enum AppRequest {
    Terminate,
    GetVisibleWindows { force_refresh: bool },
}

/// An outgoing command produced by an event handler, for another actor.
#[derive(Debug, PartialEq, Eq)]
pub enum Command {
    /// Send `request` to the actor behind `handle`, which serves process `pid`.
    ToApp { pid: i32, handle: AppThreadHandle, request: AppRequest },
    /// Tell the lifecycle controller that the actor thread of `pid` exited.
    AppThreadTerminated(i32),
    /// Ask the app-rules engine to place `windows` of process `pid`.
    ApplyAppRules { pid: i32, windows: Vec<WindowId>, info: AppInfo },
    /// Follow an externally initiated activation of `pid` to its workspace.
    ActivationWorkspaceSwitch(i32),
}

/// A copy of `info` that is equal to it.
pub fn copy_app_info(info: &AppInfo) -> (r: AppInfo)
    ensures
        r == *info,
{
    let bundle_id = match &info.bundle_id {
        Some(b) => Some(b.clone()),
        None => None,
    };
    AppInfo { bundle_id, name: info.name.clone() }
}

} // verus!
