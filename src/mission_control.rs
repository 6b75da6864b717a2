use vstd::prelude::*;

use crate::model::{WindowId, WindowServerId};

verus! {

/// A request to the mission-control actor.
#[derive(Clone, Copy, Debug, PartialEq, Eq, Structural)]
pub enum Event {
    ShowAll,
    ShowCurrent,
    Dismiss,
    RefreshCurrentWorkspace,
}

/// Which view the overlay shows.
#[derive(Clone, Copy, Debug, PartialEq, Eq, Structural)]
pub enum MissionControlViewMode {
    AllWorkspaces,
    CurrentWorkspace,
}

/// What the user did on the overlay.
#[derive(Clone, Copy, Debug, PartialEq, Eq, Structural)]
pub enum MissionControlAction {
    Dismiss,
    SwitchToWorkspace(usize),
    FocusWindow { window_id: WindowId, window_server_id: Option<WindowServerId> },
}

/// A command for the reactor that a user action on the overlay gives rise to.
#[derive(Clone, Copy, Debug, PartialEq, Eq, Structural)]
pub enum ReactorRequest {
    SwitchToWorkspace(usize),
    FocusWindow { window_id: WindowId, window_server_id: Option<WindowServerId> },
}

/// The work the actor's loop performs for one event.
#[derive(Clone, Copy, Debug, PartialEq, Eq, Structural)]
pub enum Effect {
    /// Nothing to do.
    Nothing,
    /// Hide the overlay and drop it.
    Dispose,
    /// Show the overlay with no workspaces, then query every workspace and show them.
    ShowAllWorkspaces,
    /// Show the overlay with no windows, then query the active space's windows and show them.
    ShowCurrentWorkspace,
    /// Query the active space's windows again and show them; what is shown stays meanwhile.
    RefreshCurrentWorkspace,
    /// Query the active workspace and move the highlight to it.
    RefreshHighlight,
}

/// The decisions of the overlay controller: whether the overlay is up, and in which view.
#[derive(Clone, Copy, Debug, PartialEq, Eq, Structural)]
pub struct MissionControlActor {
    pub mission_control_active: bool,
    pub current_view_mode: Option<MissionControlViewMode>,
}

/// The effect of event `e` on a controller in state `s`.
pub open spec fn effect_of(s: MissionControlActor, e: Event) -> Effect {
    match e {
        Event::ShowAll => if s.mission_control_active {
            Effect::Dispose
        } else {
            Effect::ShowAllWorkspaces
        },
        Event::ShowCurrent => if s.mission_control_active {
            Effect::Dispose
        } else {
            Effect::ShowCurrentWorkspace
        },
        Event::Dismiss => Effect::Dispose,
        Event::RefreshCurrentWorkspace => if !s.mission_control_active {
            Effect::Nothing
        } else {
            match s.current_view_mode {
                Some(MissionControlViewMode::CurrentWorkspace) => Effect::RefreshCurrentWorkspace,
                Some(MissionControlViewMode::AllWorkspaces) => Effect::RefreshHighlight,
                None => Effect::Nothing,
            }
        },
    }
}

/// The controller state once `effect` was decided from state `s`.
pub open spec fn state_after(s: MissionControlActor, effect: Effect) -> MissionControlActor {
    match effect {
        Effect::Dispose => MissionControlActor {
            mission_control_active: false,
            current_view_mode: None,
        },
        Effect::ShowAllWorkspaces => MissionControlActor {
            mission_control_active: true,
            current_view_mode: Some(MissionControlViewMode::AllWorkspaces),
        },
        Effect::ShowCurrentWorkspace => MissionControlActor {
            mission_control_active: true,
            current_view_mode: Some(MissionControlViewMode::CurrentWorkspace),
        },
        _ => s,
    }
}

impl MissionControlActor {
    /// A controller with no overlay shown.
    pub fn new() -> (r: MissionControlActor)
        ensures
            !r.mission_control_active,
            r.current_view_mode == None::<MissionControlViewMode>,
    {
        MissionControlActor { mission_control_active: false, current_view_mode: None }
    }

    /// Marks the overlay as gone; no later action on it is acted upon.
    pub fn dispose_overlay(&mut self)
        ensures
            !final(self).mission_control_active,
            final(self).current_view_mode == None::<MissionControlViewMode>,
    {
        self.mission_control_active = false;
        self.current_view_mode = None;
    }

    /// Enters the view of every workspace.
    pub fn show_all_workspaces(&mut self)
        ensures
            final(self).mission_control_active,
            final(self).current_view_mode == Some(MissionControlViewMode::AllWorkspaces),
    {
        self.mission_control_active = true;
        self.current_view_mode = Some(MissionControlViewMode::AllWorkspaces);
    }

    /// Enters the view of the active workspace.
    pub fn show_current_workspace(&mut self)
        ensures
            final(self).mission_control_active,
            final(self).current_view_mode == Some(MissionControlViewMode::CurrentWorkspace),
    {
        self.mission_control_active = true;
        self.current_view_mode = Some(MissionControlViewMode::CurrentWorkspace);
    }

    /// Decides what event `event` calls for, and updates the state to match. A show request
    /// toggles: while the overlay is up it dismisses it. A refresh re-queries for the view
    /// last shown, without passing through an empty view.
    pub fn handle_event(&mut self, event: Event) -> (effect: Effect)
        ensures
            effect == effect_of(*old(self), event),
            *final(self) == state_after(*old(self), effect),
    {
        match event {
            Event::ShowAll => {
                if self.mission_control_active {
                    self.dispose_overlay();
                    Effect::Dispose
                } else {
                    self.show_all_workspaces();
                    Effect::ShowAllWorkspaces
                }
            },
            Event::ShowCurrent => {
                if self.mission_control_active {
                    self.dispose_overlay();
                    Effect::Dispose
                } else {
                    self.show_current_workspace();
                    Effect::ShowCurrentWorkspace
                }
            },
            Event::Dismiss => {
                self.dispose_overlay();
                Effect::Dispose
            },
            Event::RefreshCurrentWorkspace => {
                if !self.mission_control_active {
                    return Effect::Nothing;
                }
                match self.current_view_mode {
                    Some(MissionControlViewMode::CurrentWorkspace) => Effect::RefreshCurrentWorkspace,
                    Some(MissionControlViewMode::AllWorkspaces) => Effect::RefreshHighlight,
                    None => Effect::Nothing,
                }
            },
        }
    }

    /// Turns a user action on the overlay into a reactor command and closes the overlay.
    /// An action that arrives once the overlay is gone is ignored.
    pub fn handle_overlay_action(&mut self, action: MissionControlAction) -> (r: Option<
        ReactorRequest,
    >)
        ensures
            !old(self).mission_control_active ==> r == None::<ReactorRequest> && *final(self)
                == *old(self),
            old(self).mission_control_active ==> {
                &&& !final(self).mission_control_active
                &&& final(self).current_view_mode == None::<MissionControlViewMode>
                &&& r == match action {
                    MissionControlAction::Dismiss => None,
                    MissionControlAction::SwitchToWorkspace(i) => Some(
                        ReactorRequest::SwitchToWorkspace(i),
                    ),
                    MissionControlAction::FocusWindow { window_id, window_server_id } => Some(
                        ReactorRequest::FocusWindow { window_id, window_server_id },
                    ),
                }
            },
    {
        if !self.mission_control_active {
            return None;
        }
        let r = match action {
            MissionControlAction::Dismiss => None,
            MissionControlAction::SwitchToWorkspace(i) => Some(ReactorRequest::SwitchToWorkspace(i)),
            MissionControlAction::FocusWindow { window_id, window_server_id } => Some(
                ReactorRequest::FocusWindow { window_id, window_server_id },
            ),
        };
        self.dispose_overlay();
        r
    }
}

/// A refresh never clears what the overlay shows: it neither changes the state nor asks
/// for an empty view.
pub proof fn lemma_refresh_keeps_view(s: MissionControlActor)
    ensures
        state_after(s, effect_of(s, Event::RefreshCurrentWorkspace)) == s,
        effect_of(s, Event::RefreshCurrentWorkspace) != Effect::ShowAllWorkspaces,
        effect_of(s, Event::RefreshCurrentWorkspace) != Effect::ShowCurrentWorkspace,
{
}

} // verus!
