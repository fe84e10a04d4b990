//! The classified inventory of island routes and panel states: which may
//! appear in the primary island UI, and what replaces the legacy ones.
use vstd::prelude::*;

verus! {

/// How an island route relates to Continue.
#[derive(Debug, Clone, Copy, PartialEq, Eq)]
pub enum IslandRouteKind {
    PrimaryContinueState,
    PrimaryContinueOpen,
    PrimaryInspectEvidence,
    PrimaryLocalMemoryControl,
    SecondaryLocalMemoryControl,
    PresentationOnly,
    DiagnosticCloudResume,
    DiagnosticSessionTrail,
    DeprecatedLegacyOpen,
}

/// Whether a route or state may appear in the island.
#[derive(Debug, Clone, Copy, PartialEq, Eq)]
pub enum IslandActionDisposition {
    AllowedPrimary,
    AllowedSecondary,
    DiagnosticOnly,
    DeprecatedBlocked,
}

/// One classified island route.
#[derive(Debug, Clone, Copy)]
pub struct IslandRouteInventoryItem {
    pub route_name: &'static str,
    pub current_handler: &'static str,
    pub kind: IslandRouteKind,
    pub disposition: IslandActionDisposition,
    pub allowed_in_primary_ui: bool,
    pub requires_continue_decision_id: bool,
    pub replacement: &'static str,
    pub notes: &'static str,
}

/// One classified panel state.
#[derive(Debug, Clone, Copy)]
pub struct IslandStateInventoryItem {
    pub state_name: &'static str,
    pub classification: IslandActionDisposition,
    pub replacement_copy: &'static str,
    pub requires_continue_decision_id: bool,
    pub notes: &'static str,
}

/// A route, by views.
pub struct RouteView {
    pub route_name: Seq<char>,
    pub current_handler: Seq<char>,
    pub kind: IslandRouteKind,
    pub disposition: IslandActionDisposition,
    pub allowed_in_primary_ui: bool,
    pub requires_continue_decision_id: bool,
    pub replacement: Seq<char>,
    pub notes: Seq<char>,
}

impl View for IslandRouteInventoryItem {
    type V = RouteView;

    open spec fn view(&self) -> RouteView {
        RouteView {
            route_name: self.route_name@,
            current_handler: self.current_handler@,
            kind: self.kind,
            disposition: self.disposition,
            allowed_in_primary_ui: self.allowed_in_primary_ui,
            requires_continue_decision_id: self.requires_continue_decision_id,
            replacement: self.replacement@,
            notes: self.notes@,
        }
    }
}

/// A panel state, by views.
pub struct StateItemView {
    pub state_name: Seq<char>,
    pub classification: IslandActionDisposition,
    pub replacement_copy: Seq<char>,
    pub requires_continue_decision_id: bool,
    pub notes: Seq<char>,
}

impl View for IslandStateInventoryItem {
    type V = StateItemView;

    open spec fn view(&self) -> StateItemView {
        StateItemView {
            state_name: self.state_name@,
            classification: self.classification,
            replacement_copy: self.replacement_copy@,
            requires_continue_decision_id: self.requires_continue_decision_id,
            notes: self.notes@,
        }
    }
}

/// The number of classified routes.
pub const ROUTE_COUNT: usize = 22;

/// The number of classified panel states.
pub const STATE_COUNT: usize = 10;

/// The classified route at position `i`.
pub open spec fn route_at(i: int) -> RouteView {
    if i == 0 {
        RouteView {
            route_name: "native_action_continue"@,
            current_handler: "continue_from_island -> get_island_continue_state_for_status"@,
            kind: IslandRouteKind::PrimaryContinueState,
            disposition: IslandActionDisposition::AllowedPrimary,
            allowed_in_primary_ui: true,
            requires_continue_decision_id: false,
            replacement: "island Continue gateway that returns a Continue decision"@,
            notes: "Primary island answer path; must stay backed by ContinueDecisionResult."@,
        }
    } else if i == 1 {
        RouteView {
            route_name: "native_action_perform_continue_action"@,
            current_handler: "perform_typed_continue_action_from_island -> perform_island_continue_action_for_status"@,
            kind: IslandRouteKind::PrimaryContinueOpen,
            disposition: IslandActionDisposition::AllowedPrimary,
            allowed_in_primary_ui: true,
            requires_continue_decision_id: true,
            replacement: "typed IslandActionKind dispatched from island available_actions with continue_decision_id for OpenContinueTarget"@,
            notes: "Typed P4.05 native envelope; non-open action kinds do not require a decision id at runtime."@,
        }
    } else if i == 2 {
        RouteView {
            route_name: "native_action_continue_feedback"@,
            current_handler: "perform_typed_continue_action_from_island -> record_continue_feedback"@,
            kind: IslandRouteKind::PrimaryContinueState,
            disposition: IslandActionDisposition::AllowedPrimary,
            allowed_in_primary_ui: true,
            requires_continue_decision_id: true,
            replacement: "record_continue_feedback({ source: island_primary, feedback_kind: rejected|ignored })"@,
            notes: "Island-origin correction path; stores ids and source only, never raw target text."@,
        }
    } else if i == 3 {
        RouteView {
            route_name: "native_action_open_resume_point"@,
            current_handler: "open_resume_point_from_island -> open_resume_point"@,
            kind: IslandRouteKind::PrimaryContinueOpen,
            disposition: IslandActionDisposition::AllowedPrimary,
            allowed_in_primary_ui: true,
            requires_continue_decision_id: true,
            replacement: "open_resume_point({ continue_decision_id, strict_continue_target: true })"@,
            notes: "Primary open path; missing decisions must fall back to Smalltalk, not legacy targets."@,
        }
    } else if i == 4 {
        RouteView {
            route_name: "native_action_open_main_window"@,
            current_handler: "open_main_window"@,
            kind: IslandRouteKind::PrimaryInspectEvidence,
            disposition: IslandActionDisposition::AllowedPrimary,
            allowed_in_primary_ui: true,
            requires_continue_decision_id: false,
            replacement: "Open Smalltalk / Inspect evidence"@,
            notes: "Safe fallback when Continue has no reliable open target."@,
        }
    } else if i == 5 {
        RouteView {
            route_name: "native_action_start_capture"@,
            current_handler: "start_capture_from_island"@,
            kind: IslandRouteKind::PrimaryLocalMemoryControl,
            disposition: IslandActionDisposition::AllowedPrimary,
            allowed_in_primary_ui: true,
            requires_continue_decision_id: false,
            replacement: "Start local memory"@,
            notes: "Allowed as a local-memory control, not as a target selector."@,
        }
    } else if i == 6 {
        RouteView {
            route_name: "native_action_stop_capture"@,
            current_handler: "stop_capture_from_island"@,
            kind: IslandRouteKind::SecondaryLocalMemoryControl,
            disposition: IslandActionDisposition::AllowedSecondary,
            allowed_in_primary_ui: false,
            requires_continue_decision_id: false,
            replacement: "Pause local memory"@,
            notes: "Secondary control; stopping capture must not be a prerequisite for Continue."@,
        }
    } else if i == 7 {
        RouteView {
            route_name: "native_action_capture_once"@,
            current_handler: "capture_once_from_island"@,
            kind: IslandRouteKind::SecondaryLocalMemoryControl,
            disposition: IslandActionDisposition::AllowedSecondary,
            allowed_in_primary_ui: false,
            requires_continue_decision_id: false,
            replacement: "Capture evidence now"@,
            notes: "Secondary privacy-safe evidence action."@,
        }
    } else if i == 8 {
        RouteView {
            route_name: "native_action_show_trail"@,
            current_handler: "open_main_window"@,
            kind: IslandRouteKind::PrimaryInspectEvidence,
            disposition: IslandActionDisposition::AllowedSecondary,
            allowed_in_primary_ui: false,
            requires_continue_decision_id: false,
            replacement: "Inspect evidence / Open Smalltalk"@,
            notes: "Legacy action name; implementation only opens Smalltalk."@,
        }
    } else if i == 9 {
        RouteView {
            route_name: "native_action_reconstruct_trail"@,
            current_handler: "continue_from_island"@,
            kind: IslandRouteKind::DeprecatedLegacyOpen,
            disposition: IslandActionDisposition::DeprecatedBlocked,
            allowed_in_primary_ui: false,
            requires_continue_decision_id: false,
            replacement: "native_action_continue"@,
            notes: "Legacy action alias; it currently routes to Continue but must not return as primary copy."@,
        }
    } else if i == 10 {
        RouteView {
            route_name: "native_action_resume_me"@,
            current_handler: "open_resume_point_from_island"@,
            kind: IslandRouteKind::DeprecatedLegacyOpen,
            disposition: IslandActionDisposition::DeprecatedBlocked,
            allowed_in_primary_ui: false,
            requires_continue_decision_id: true,
            replacement: "native_action_open_resume_point"@,
            notes: "Legacy action alias; the Continue-first primary action is open_resume_point with a decision id."@,
        }
    } else if i == 11 {
        RouteView {
            route_name: "native_action_continue_history"@,
            current_handler: "load_continue_history_from_island / select_continue_history_output_from_island"@,
            kind: IslandRouteKind::PresentationOnly,
            disposition: IslandActionDisposition::AllowedPrimary,
            allowed_in_primary_ui: true,
            requires_continue_decision_id: false,
            replacement: "read-only persisted Continue output history"@,
            notes: "Presentation-only history; it cannot regenerate, adopt, provide feedback for, or open an older decision."@,
        }
    } else if i == 12 {
        RouteView {
            route_name: "native_action_toggle_expanded"@,
            current_handler: "toggle_expanded_from_native"@,
            kind: IslandRouteKind::PresentationOnly,
            disposition: IslandActionDisposition::AllowedSecondary,
            allowed_in_primary_ui: false,
            requires_continue_decision_id: false,
            replacement: "Presentation toggle"@,
            notes: "Panel presentation only; it must not choose or open targets."@,
        }
    } else if i == 13 {
        RouteView {
            route_name: "native_action_collapse"@,
            current_handler: "set_session_island_expanded(false)"@,
            kind: IslandRouteKind::PresentationOnly,
            disposition: IslandActionDisposition::AllowedSecondary,
            allowed_in_primary_ui: false,
            requires_continue_decision_id: false,
            replacement: "Presentation collapse"@,
            notes: "Panel presentation only; it must not choose or open targets."@,
        }
    } else if i == 14 {
        RouteView {
            route_name: "apply_continue_decision_to_snapshot"@,
            current_handler: "ContinueDecisionResult -> SessionIslandSnapshot"@,
            kind: IslandRouteKind::PrimaryContinueState,
            disposition: IslandActionDisposition::AllowedPrimary,
            allowed_in_primary_ui: true,
            requires_continue_decision_id: true,
            replacement: "IslandContinueState derived from ContinueDecisionResult"@,
            notes: "Compatibility adapter; canonical island state is the gateway DTO."@,
        }
    } else if i == 15 {
        RouteView {
            route_name: "apply_cloud_resume_to_snapshot"@,
            current_handler: "CloudResumeResult -> SessionIslandSnapshot"@,
            kind: IslandRouteKind::DiagnosticCloudResume,
            disposition: IslandActionDisposition::DiagnosticOnly,
            allowed_in_primary_ui: false,
            requires_continue_decision_id: false,
            replacement: "ContinueDecisionResult -> SessionIslandSnapshot"@,
            notes: "Legacy diagnostic helper; not called by the current island primary path."@,
        }
    } else if i == 16 {
        RouteView {
            route_name: "remember_cloud_resume_output_path"@,
            current_handler: "CloudResumeResult.output_path cache"@,
            kind: IslandRouteKind::DiagnosticCloudResume,
            disposition: IslandActionDisposition::DiagnosticOnly,
            allowed_in_primary_ui: false,
            requires_continue_decision_id: false,
            replacement: "continue_decision_id cache"@,
            notes: "Legacy diagnostic cache; primary island open must not read this."@,
        }
    } else if i == 17 {
        RouteView {
            route_name: "legacy_command_run_cloud_resume"@,
            current_handler: "capture::run_cloud_resume Tauri command"@,
            kind: IslandRouteKind::DiagnosticCloudResume,
            disposition: IslandActionDisposition::DiagnosticOnly,
            allowed_in_primary_ui: false,
            requires_continue_decision_id: false,
            replacement: "get_continue_decision"@,
            notes: "Tauri command remains outside primary island behavior."@,
        }
    } else if i == 18 {
        RouteView {
            route_name: "legacy_command_build_resume_query_bundle"@,
            current_handler: "capture::build_resume_query_bundle Tauri command"@,
            kind: IslandRouteKind::DiagnosticSessionTrail,
            disposition: IslandActionDisposition::DiagnosticOnly,
            allowed_in_primary_ui: false,
            requires_continue_decision_id: false,
            replacement: "get_continue_decision_trace or Continue evidence inspection"@,
            notes: "Stop-time/export diagnostic path; not an island target selector."@,
        }
    } else if i == 19 {
        RouteView {
            route_name: "legacy_command_get_native_resume_card"@,
            current_handler: "capture::get_native_resume_card Tauri command"@,
            kind: IslandRouteKind::DiagnosticSessionTrail,
            disposition: IslandActionDisposition::DiagnosticOnly,
            allowed_in_primary_ui: false,
            requires_continue_decision_id: false,
            replacement: "ContinueDecisionResult handoff fields"@,
            notes: "Native card diagnostics must not feed island primary state."@,
        }
    } else if i == 20 {
        RouteView {
            route_name: "legacy_command_get_native_storyboard_dossier"@,
            current_handler: "capture::get_native_storyboard_dossier Tauri command"@,
            kind: IslandRouteKind::DiagnosticSessionTrail,
            disposition: IslandActionDisposition::DiagnosticOnly,
            allowed_in_primary_ui: false,
            requires_continue_decision_id: false,
            replacement: "Continue evidence inspection"@,
            notes: "Storyboard diagnostics must not feed island primary state."@,
        }
    } else {
        RouteView {
            route_name: "deprecated_open_without_continue_decision_id"@,
            current_handler: "open_resume_point_from_island missing decision fallback"@,
            kind: IslandRouteKind::DeprecatedLegacyOpen,
            disposition: IslandActionDisposition::DeprecatedBlocked,
            allowed_in_primary_ui: false,
            requires_continue_decision_id: true,
            replacement: "refresh Continue first, then strict open by continue_decision_id"@,
            notes: "Blocked behavior; current code opens Smalltalk when no decision can be obtained."@,
        }
    }
}

/// The classified panel state at position `i`.
pub open spec fn state_item_at(i: int) -> StateItemView {
    if i == 0 {
        StateItemView {
            state_name: "hidden"@,
            classification: IslandActionDisposition::AllowedSecondary,
            replacement_copy: "Hidden"@,
            requires_continue_decision_id: false,
            notes: "No product copy is visible."@,
        }
    } else if i == 1 {
        StateItemView {
            state_name: "ready"@,
            classification: IslandActionDisposition::AllowedPrimary,
            replacement_copy: "Continue"@,
            requires_continue_decision_id: false,
            notes: "Idle state should invite Continue or local memory, not session resume."@,
        }
    } else if i == 2 {
        StateItemView {
            state_name: "starting"@,
            classification: IslandActionDisposition::AllowedPrimary,
            replacement_copy: "Starting local memory"@,
            requires_continue_decision_id: false,
            notes: "Local-memory status only."@,
        }
    } else if i == 3 {
        StateItemView {
            state_name: "recording_compact"@,
            classification: IslandActionDisposition::AllowedPrimary,
            replacement_copy: "Local memory active"@,
            requires_continue_decision_id: false,
            notes: "Status only; it must not imply recorder-first product behavior."@,
        }
    } else if i == 4 {
        StateItemView {
            state_name: "recording_expanded"@,
            classification: IslandActionDisposition::AllowedPrimary,
            replacement_copy: "Local memory active"@,
            requires_continue_decision_id: false,
            notes: "Status only; it must not imply recorder-first product behavior."@,
        }
    } else if i == 5 {
        StateItemView {
            state_name: "processing"@,
            classification: IslandActionDisposition::AllowedPrimary,
            replacement_copy: "Checking Continue"@,
            requires_continue_decision_id: false,
            notes: "Busy state; future P4 steps should avoid pause-session wording."@,
        }
    } else if i == 6 {
        StateItemView {
            state_name: "stopped_toast"@,
            classification: IslandActionDisposition::AllowedSecondary,
            replacement_copy: "Local memory paused"@,
            requires_continue_decision_id: false,
            notes: "Transient status only; Continue must not require stopping memory."@,
        }
    } else if i == 7 {
        StateItemView {
            state_name: "trail_reconstructing"@,
            classification: IslandActionDisposition::DeprecatedBlocked,
            replacement_copy: "Checking Continue"@,
            requires_continue_decision_id: false,
            notes: "Legacy state name; visible copy should be Continue-first."@,
        }
    } else if i == 8 {
        StateItemView {
            state_name: "resume_ready"@,
            classification: IslandActionDisposition::AllowedPrimary,
            replacement_copy: "Continue ready"@,
            requires_continue_decision_id: true,
            notes: "Must only be shown as a primary state when backed by continue_decision_id."@,
        }
    } else {
        StateItemView {
            state_name: "error"@,
            classification: IslandActionDisposition::AllowedPrimary,
            replacement_copy: "Continue unavailable"@,
            requires_continue_decision_id: false,
            notes: "No target open should be offered."@,
        }
    }
}

/// The classified route at position `i`.
fn route_item(i: usize) -> (r: IslandRouteInventoryItem)
    requires
        i < 22,
    ensures
        r@ == route_at(i as int),
{
    if i == 0 {
        IslandRouteInventoryItem {
            route_name: "native_action_continue",
            current_handler: "continue_from_island -> get_island_continue_state_for_status",
            kind: IslandRouteKind::PrimaryContinueState,
            disposition: IslandActionDisposition::AllowedPrimary,
            allowed_in_primary_ui: true,
            requires_continue_decision_id: false,
            replacement: "island Continue gateway that returns a Continue decision",
            notes: "Primary island answer path; must stay backed by ContinueDecisionResult.",
        }
    } else if i == 1 {
        IslandRouteInventoryItem {
            route_name: "native_action_perform_continue_action",
            current_handler: "perform_typed_continue_action_from_island -> perform_island_continue_action_for_status",
            kind: IslandRouteKind::PrimaryContinueOpen,
            disposition: IslandActionDisposition::AllowedPrimary,
            allowed_in_primary_ui: true,
            requires_continue_decision_id: true,
            replacement: "typed IslandActionKind dispatched from island available_actions with continue_decision_id for OpenContinueTarget",
            notes: "Typed P4.05 native envelope; non-open action kinds do not require a decision id at runtime.",
        }
    } else if i == 2 {
        IslandRouteInventoryItem {
            route_name: "native_action_continue_feedback",
            current_handler: "perform_typed_continue_action_from_island -> record_continue_feedback",
            kind: IslandRouteKind::PrimaryContinueState,
            disposition: IslandActionDisposition::AllowedPrimary,
            allowed_in_primary_ui: true,
            requires_continue_decision_id: true,
            replacement: "record_continue_feedback({ source: island_primary, feedback_kind: rejected|ignored })",
            notes: "Island-origin correction path; stores ids and source only, never raw target text.",
        }
    } else if i == 3 {
        IslandRouteInventoryItem {
            route_name: "native_action_open_resume_point",
            current_handler: "open_resume_point_from_island -> open_resume_point",
            kind: IslandRouteKind::PrimaryContinueOpen,
            disposition: IslandActionDisposition::AllowedPrimary,
            allowed_in_primary_ui: true,
            requires_continue_decision_id: true,
            replacement: "open_resume_point({ continue_decision_id, strict_continue_target: true })",
            notes: "Primary open path; missing decisions must fall back to Smalltalk, not legacy targets.",
        }
    } else if i == 4 {
        IslandRouteInventoryItem {
            route_name: "native_action_open_main_window",
            current_handler: "open_main_window",
            kind: IslandRouteKind::PrimaryInspectEvidence,
            disposition: IslandActionDisposition::AllowedPrimary,
            allowed_in_primary_ui: true,
            requires_continue_decision_id: false,
            replacement: "Open Smalltalk / Inspect evidence",
            notes: "Safe fallback when Continue has no reliable open target.",
        }
    } else if i == 5 {
        IslandRouteInventoryItem {
            route_name: "native_action_start_capture",
            current_handler: "start_capture_from_island",
            kind: IslandRouteKind::PrimaryLocalMemoryControl,
            disposition: IslandActionDisposition::AllowedPrimary,
            allowed_in_primary_ui: true,
            requires_continue_decision_id: false,
            replacement: "Start local memory",
            notes: "Allowed as a local-memory control, not as a target selector.",
        }
    } else if i == 6 {
        IslandRouteInventoryItem {
            route_name: "native_action_stop_capture",
            current_handler: "stop_capture_from_island",
            kind: IslandRouteKind::SecondaryLocalMemoryControl,
            disposition: IslandActionDisposition::AllowedSecondary,
            allowed_in_primary_ui: false,
            requires_continue_decision_id: false,
            replacement: "Pause local memory",
            notes: "Secondary control; stopping capture must not be a prerequisite for Continue.",
        }
    } else if i == 7 {
        IslandRouteInventoryItem {
            route_name: "native_action_capture_once",
            current_handler: "capture_once_from_island",
            kind: IslandRouteKind::SecondaryLocalMemoryControl,
            disposition: IslandActionDisposition::AllowedSecondary,
            allowed_in_primary_ui: false,
            requires_continue_decision_id: false,
            replacement: "Capture evidence now",
            notes: "Secondary privacy-safe evidence action.",
        }
    } else if i == 8 {
        IslandRouteInventoryItem {
            route_name: "native_action_show_trail",
            current_handler: "open_main_window",
            kind: IslandRouteKind::PrimaryInspectEvidence,
            disposition: IslandActionDisposition::AllowedSecondary,
            allowed_in_primary_ui: false,
            requires_continue_decision_id: false,
            replacement: "Inspect evidence / Open Smalltalk",
            notes: "Legacy action name; implementation only opens Smalltalk.",
        }
    } else if i == 9 {
        IslandRouteInventoryItem {
            route_name: "native_action_reconstruct_trail",
            current_handler: "continue_from_island",
            kind: IslandRouteKind::DeprecatedLegacyOpen,
            disposition: IslandActionDisposition::DeprecatedBlocked,
            allowed_in_primary_ui: false,
            requires_continue_decision_id: false,
            replacement: "native_action_continue",
            notes: "Legacy action alias; it currently routes to Continue but must not return as primary copy.",
        }
    } else if i == 10 {
        IslandRouteInventoryItem {
            route_name: "native_action_resume_me",
            current_handler: "open_resume_point_from_island",
            kind: IslandRouteKind::DeprecatedLegacyOpen,
            disposition: IslandActionDisposition::DeprecatedBlocked,
            allowed_in_primary_ui: false,
            requires_continue_decision_id: true,
            replacement: "native_action_open_resume_point",
            notes: "Legacy action alias; the Continue-first primary action is open_resume_point with a decision id.",
        }
    } else if i == 11 {
        IslandRouteInventoryItem {
            route_name: "native_action_continue_history",
            current_handler: "load_continue_history_from_island / select_continue_history_output_from_island",
            kind: IslandRouteKind::PresentationOnly,
            disposition: IslandActionDisposition::AllowedPrimary,
            allowed_in_primary_ui: true,
            requires_continue_decision_id: false,
            replacement: "read-only persisted Continue output history",
            notes: "Presentation-only history; it cannot regenerate, adopt, provide feedback for, or open an older decision.",
        }
    } else if i == 12 {
        IslandRouteInventoryItem {
            route_name: "native_action_toggle_expanded",
            current_handler: "toggle_expanded_from_native",
            kind: IslandRouteKind::PresentationOnly,
            disposition: IslandActionDisposition::AllowedSecondary,
            allowed_in_primary_ui: false,
            requires_continue_decision_id: false,
            replacement: "Presentation toggle",
            notes: "Panel presentation only; it must not choose or open targets.",
        }
    } else if i == 13 {
        IslandRouteInventoryItem {
            route_name: "native_action_collapse",
            current_handler: "set_session_island_expanded(false)",
            kind: IslandRouteKind::PresentationOnly,
            disposition: IslandActionDisposition::AllowedSecondary,
            allowed_in_primary_ui: false,
            requires_continue_decision_id: false,
            replacement: "Presentation collapse",
            notes: "Panel presentation only; it must not choose or open targets.",
        }
    } else if i == 14 {
        IslandRouteInventoryItem {
            route_name: "apply_continue_decision_to_snapshot",
            current_handler: "ContinueDecisionResult -> SessionIslandSnapshot",
            kind: IslandRouteKind::PrimaryContinueState,
            disposition: IslandActionDisposition::AllowedPrimary,
            allowed_in_primary_ui: true,
            requires_continue_decision_id: true,
            replacement: "IslandContinueState derived from ContinueDecisionResult",
            notes: "Compatibility adapter; canonical island state is the gateway DTO.",
        }
    } else if i == 15 {
        IslandRouteInventoryItem {
            route_name: "apply_cloud_resume_to_snapshot",
            current_handler: "CloudResumeResult -> SessionIslandSnapshot",
            kind: IslandRouteKind::DiagnosticCloudResume,
            disposition: IslandActionDisposition::DiagnosticOnly,
            allowed_in_primary_ui: false,
            requires_continue_decision_id: false,
            replacement: "ContinueDecisionResult -> SessionIslandSnapshot",
            notes: "Legacy diagnostic helper; not called by the current island primary path.",
        }
    } else if i == 16 {
        IslandRouteInventoryItem {
            route_name: "remember_cloud_resume_output_path",
            current_handler: "CloudResumeResult.output_path cache",
            kind: IslandRouteKind::DiagnosticCloudResume,
            disposition: IslandActionDisposition::DiagnosticOnly,
            allowed_in_primary_ui: false,
            requires_continue_decision_id: false,
            replacement: "continue_decision_id cache",
            notes: "Legacy diagnostic cache; primary island open must not read this.",
        }
    } else if i == 17 {
        IslandRouteInventoryItem {
            route_name: "legacy_command_run_cloud_resume",
            current_handler: "capture::run_cloud_resume Tauri command",
            kind: IslandRouteKind::DiagnosticCloudResume,
            disposition: IslandActionDisposition::DiagnosticOnly,
            allowed_in_primary_ui: false,
            requires_continue_decision_id: false,
            replacement: "get_continue_decision",
            notes: "Tauri command remains outside primary island behavior.",
        }
    } else if i == 18 {
        IslandRouteInventoryItem {
            route_name: "legacy_command_build_resume_query_bundle",
            current_handler: "capture::build_resume_query_bundle Tauri command",
            kind: IslandRouteKind::DiagnosticSessionTrail,
            disposition: IslandActionDisposition::DiagnosticOnly,
            allowed_in_primary_ui: false,
            requires_continue_decision_id: false,
            replacement: "get_continue_decision_trace or Continue evidence inspection",
            notes: "Stop-time/export diagnostic path; not an island target selector.",
        }
    } else if i == 19 {
        IslandRouteInventoryItem {
            route_name: "legacy_command_get_native_resume_card",
            current_handler: "capture::get_native_resume_card Tauri command",
            kind: IslandRouteKind::DiagnosticSessionTrail,
            disposition: IslandActionDisposition::DiagnosticOnly,
            allowed_in_primary_ui: false,
            requires_continue_decision_id: false,
            replacement: "ContinueDecisionResult handoff fields",
            notes: "Native card diagnostics must not feed island primary state.",
        }
    } else if i == 20 {
        IslandRouteInventoryItem {
            route_name: "legacy_command_get_native_storyboard_dossier",
            current_handler: "capture::get_native_storyboard_dossier Tauri command",
            kind: IslandRouteKind::DiagnosticSessionTrail,
            disposition: IslandActionDisposition::DiagnosticOnly,
            allowed_in_primary_ui: false,
            requires_continue_decision_id: false,
            replacement: "Continue evidence inspection",
            notes: "Storyboard diagnostics must not feed island primary state.",
        }
    } else {
        IslandRouteInventoryItem {
            route_name: "deprecated_open_without_continue_decision_id",
            current_handler: "open_resume_point_from_island missing decision fallback",
            kind: IslandRouteKind::DeprecatedLegacyOpen,
            disposition: IslandActionDisposition::DeprecatedBlocked,
            allowed_in_primary_ui: false,
            requires_continue_decision_id: true,
            replacement: "refresh Continue first, then strict open by continue_decision_id",
            notes: "Blocked behavior; current code opens Smalltalk when no decision can be obtained.",
        }
    }
}

/// The classified panel state at position `i`.
fn state_item(i: usize) -> (r: IslandStateInventoryItem)
    requires
        i < 10,
    ensures
        r@ == state_item_at(i as int),
{
    if i == 0 {
        IslandStateInventoryItem {
            state_name: "hidden",
            classification: IslandActionDisposition::AllowedSecondary,
            replacement_copy: "Hidden",
            requires_continue_decision_id: false,
            notes: "No product copy is visible.",
        }
    } else if i == 1 {
        IslandStateInventoryItem {
            state_name: "ready",
            classification: IslandActionDisposition::AllowedPrimary,
            replacement_copy: "Continue",
            requires_continue_decision_id: false,
            notes: "Idle state should invite Continue or local memory, not session resume.",
        }
    } else if i == 2 {
        IslandStateInventoryItem {
            state_name: "starting",
            classification: IslandActionDisposition::AllowedPrimary,
            replacement_copy: "Starting local memory",
            requires_continue_decision_id: false,
            notes: "Local-memory status only.",
        }
    } else if i == 3 {
        IslandStateInventoryItem {
            state_name: "recording_compact",
            classification: IslandActionDisposition::AllowedPrimary,
            replacement_copy: "Local memory active",
            requires_continue_decision_id: false,
            notes: "Status only; it must not imply recorder-first product behavior.",
        }
    } else if i == 4 {
        IslandStateInventoryItem {
            state_name: "recording_expanded",
            classification: IslandActionDisposition::AllowedPrimary,
            replacement_copy: "Local memory active",
            requires_continue_decision_id: false,
            notes: "Status only; it must not imply recorder-first product behavior.",
        }
    } else if i == 5 {
        IslandStateInventoryItem {
            state_name: "processing",
            classification: IslandActionDisposition::AllowedPrimary,
            replacement_copy: "Checking Continue",
            requires_continue_decision_id: false,
            notes: "Busy state; future P4 steps should avoid pause-session wording.",
        }
    } else if i == 6 {
        IslandStateInventoryItem {
            state_name: "stopped_toast",
            classification: IslandActionDisposition::AllowedSecondary,
            replacement_copy: "Local memory paused",
            requires_continue_decision_id: false,
            notes: "Transient status only; Continue must not require stopping memory.",
        }
    } else if i == 7 {
        IslandStateInventoryItem {
            state_name: "trail_reconstructing",
            classification: IslandActionDisposition::DeprecatedBlocked,
            replacement_copy: "Checking Continue",
            requires_continue_decision_id: false,
            notes: "Legacy state name; visible copy should be Continue-first.",
        }
    } else if i == 8 {
        IslandStateInventoryItem {
            state_name: "resume_ready",
            classification: IslandActionDisposition::AllowedPrimary,
            replacement_copy: "Continue ready",
            requires_continue_decision_id: true,
            notes: "Must only be shown as a primary state when backed by continue_decision_id.",
        }
    } else {
        IslandStateInventoryItem {
            state_name: "error",
            classification: IslandActionDisposition::AllowedPrimary,
            replacement_copy: "Continue unavailable",
            requires_continue_decision_id: false,
            notes: "No target open should be offered.",
        }
    }
}

/// Every island route, classified.
pub fn island_route_inventory() -> (r: Vec<IslandRouteInventoryItem>)
    ensures
        r@.len() == ROUTE_COUNT,
        forall|i: int| 0 <= i < ROUTE_COUNT ==> (#[trigger] r@[i])@ == route_at(i),
{
    let mut r: Vec<IslandRouteInventoryItem> = Vec::new();
    let mut i: usize = 0;
    while i < ROUTE_COUNT
        invariant
            i <= ROUTE_COUNT,
            r@.len() == i,
            forall|k: int| 0 <= k < i ==> (#[trigger] r@[k])@ == route_at(k),
        decreases ROUTE_COUNT - i,
    {
        r.push(route_item(i));
        i = i + 1;
    }
    r
}

/// Every panel state, classified.
pub fn island_state_inventory() -> (r: Vec<IslandStateInventoryItem>)
    ensures
        r@.len() == STATE_COUNT,
        forall|i: int| 0 <= i < STATE_COUNT ==> (#[trigger] r@[i])@ == state_item_at(i),
{
    let mut r: Vec<IslandStateInventoryItem> = Vec::new();
    let mut i: usize = 0;
    while i < STATE_COUNT
        invariant
            i <= STATE_COUNT,
            r@.len() == i,
            forall|k: int| 0 <= k < i ==> (#[trigger] r@[k])@ == state_item_at(k),
        decreases STATE_COUNT - i,
    {
        r.push(state_item(i));
        i = i + 1;
    }
    r
}

/// No route of the primary island UI is diagnostic or deprecated: its kind
/// is neither a diagnostic nor a legacy open, and it is neither
/// diagnostic-only nor blocked.
pub proof fn law_primary_routes_are_continue_routes(i: int)
    requires
        0 <= i < ROUTE_COUNT,
        route_at(i).allowed_in_primary_ui,
    ensures
        route_at(i).kind != IslandRouteKind::DiagnosticCloudResume,
        route_at(i).kind != IslandRouteKind::DiagnosticSessionTrail,
        route_at(i).kind != IslandRouteKind::DeprecatedLegacyOpen,
        route_at(i).disposition != IslandActionDisposition::DiagnosticOnly,
        route_at(i).disposition != IslandActionDisposition::DeprecatedBlocked,
{
}

/// Every primary Continue open route requires a Continue decision id, and
/// every diagnostic or blocked route stays out of the primary UI.
pub proof fn law_routes_are_gated(i: int)
    requires
        0 <= i < ROUTE_COUNT,
    ensures
        route_at(i).kind == IslandRouteKind::PrimaryContinueOpen ==> route_at(i).requires_continue_decision_id,
        route_at(i).disposition == IslandActionDisposition::DiagnosticOnly ==> !route_at(i).allowed_in_primary_ui,
        route_at(i).disposition == IslandActionDisposition::DeprecatedBlocked ==> !route_at(i).allowed_in_primary_ui,
{
}


/// The panel's "resume ready" state is backed by a Continue decision id.
pub proof fn law_resume_ready_needs_decision_id(i: int)
    requires
        0 <= i < STATE_COUNT,
        state_item_at(i).state_name == "resume_ready"@,
    ensures
        state_item_at(i).requires_continue_decision_id,
{
    if i == 0 {
        reveal_strlit("hidden");
        reveal_strlit("resume_ready");
        assert(state_item_at(0).state_name.len() != "resume_ready"@.len());
    } else if i == 1 {
        reveal_strlit("ready");
        reveal_strlit("resume_ready");
        assert(state_item_at(1).state_name.len() != "resume_ready"@.len());
    } else if i == 2 {
        reveal_strlit("starting");
        reveal_strlit("resume_ready");
        assert(state_item_at(2).state_name.len() != "resume_ready"@.len());
    } else if i == 3 {
        reveal_strlit("recording_compact");
        reveal_strlit("resume_ready");
        assert(state_item_at(3).state_name.len() != "resume_ready"@.len());
    } else if i == 4 {
        reveal_strlit("recording_expanded");
        reveal_strlit("resume_ready");
        assert(state_item_at(4).state_name.len() != "resume_ready"@.len());
    } else if i == 5 {
        reveal_strlit("processing");
        reveal_strlit("resume_ready");
        assert(state_item_at(5).state_name.len() != "resume_ready"@.len());
    } else if i == 6 {
        reveal_strlit("stopped_toast");
        reveal_strlit("resume_ready");
        assert(state_item_at(6).state_name.len() != "resume_ready"@.len());
    } else if i == 7 {
        reveal_strlit("trail_reconstructing");
        reveal_strlit("resume_ready");
        assert(state_item_at(7).state_name.len() != "resume_ready"@.len());
    } else if i == 8 {
        reveal_strlit("resume_ready");
        reveal_strlit("resume_ready");
    } else if i == 9 {
        reveal_strlit("error");
        reveal_strlit("resume_ready");
        assert(state_item_at(9).state_name.len() != "resume_ready"@.len());
    }
}

/// The legacy action aliases ("resume me", "reconstruct trail") are blocked
/// and stay out of the primary UI.
pub proof fn law_legacy_aliases_are_blocked(i: int)
    requires
        0 <= i < ROUTE_COUNT,
        route_at(i).route_name == "native_action_resume_me"@ || route_at(i).route_name
            == "native_action_reconstruct_trail"@,
    ensures
        route_at(i).disposition == IslandActionDisposition::DeprecatedBlocked,
        !route_at(i).allowed_in_primary_ui,
{
    if i == 0 {
        reveal_strlit("native_action_continue");
        reveal_strlit("native_action_resume_me");
        reveal_strlit("native_action_reconstruct_trail");
        assert(route_at(0).route_name.len() != "native_action_resume_me"@.len());
        assert(route_at(0).route_name.len() != "native_action_reconstruct_trail"@.len());
    } else if i == 1 {
        reveal_strlit("native_action_perform_continue_action");
        reveal_strlit("native_action_resume_me");
        reveal_strlit("native_action_reconstruct_trail");
        assert(route_at(1).route_name.len() != "native_action_resume_me"@.len());
        assert(route_at(1).route_name.len() != "native_action_reconstruct_trail"@.len());
    } else if i == 2 {
        reveal_strlit("native_action_continue_feedback");
        reveal_strlit("native_action_resume_me");
        reveal_strlit("native_action_reconstruct_trail");
        assert(route_at(2).route_name.len() != "native_action_resume_me"@.len());
        assert(route_at(2).route_name[14] != "native_action_reconstruct_trail"@[14]);
    } else if i == 3 {
        reveal_strlit("native_action_open_resume_point");
        reveal_strlit("native_action_resume_me");
        reveal_strlit("native_action_reconstruct_trail");
        assert(route_at(3).route_name.len() != "native_action_resume_me"@.len());
        assert(route_at(3).route_name[14] != "native_action_reconstruct_trail"@[14]);
    } else if i == 4 {
        reveal_strlit("native_action_open_main_window");
        reveal_strlit("native_action_resume_me");
        reveal_strlit("native_action_reconstruct_trail");
        assert(route_at(4).route_name.len() != "native_action_resume_me"@.len());
        assert(route_at(4).route_name.len() != "native_action_reconstruct_trail"@.len());
    } else if i == 5 {
        reveal_strlit("native_action_start_capture");
        reveal_strlit("native_action_resume_me");
        reveal_strlit("native_action_reconstruct_trail");
        assert(route_at(5).route_name.len() != "native_action_resume_me"@.len());
        assert(route_at(5).route_name.len() != "native_action_reconstruct_trail"@.len());
    } else if i == 6 {
        reveal_strlit("native_action_stop_capture");
        reveal_strlit("native_action_resume_me");
        reveal_strlit("native_action_reconstruct_trail");
        assert(route_at(6).route_name.len() != "native_action_resume_me"@.len());
        assert(route_at(6).route_name.len() != "native_action_reconstruct_trail"@.len());
    } else if i == 7 {
        reveal_strlit("native_action_capture_once");
        reveal_strlit("native_action_resume_me");
        reveal_strlit("native_action_reconstruct_trail");
        assert(route_at(7).route_name.len() != "native_action_resume_me"@.len());
        assert(route_at(7).route_name.len() != "native_action_reconstruct_trail"@.len());
    } else if i == 8 {
        reveal_strlit("native_action_show_trail");
        reveal_strlit("native_action_resume_me");
        reveal_strlit("native_action_reconstruct_trail");
        assert(route_at(8).route_name.len() != "native_action_resume_me"@.len());
        assert(route_at(8).route_name.len() != "native_action_reconstruct_trail"@.len());
    } else if i == 9 {
        reveal_strlit("native_action_reconstruct_trail");
        reveal_strlit("native_action_resume_me");
        reveal_strlit("native_action_reconstruct_trail");
    } else if i == 10 {
        reveal_strlit("native_action_resume_me");
        reveal_strlit("native_action_resume_me");
        reveal_strlit("native_action_reconstruct_trail");
    } else if i == 11 {
        reveal_strlit("native_action_continue_history");
        reveal_strlit("native_action_resume_me");
        reveal_strlit("native_action_reconstruct_trail");
        assert(route_at(11).route_name.len() != "native_action_resume_me"@.len());
        assert(route_at(11).route_name.len() != "native_action_reconstruct_trail"@.len());
    } else if i == 12 {
        reveal_strlit("native_action_toggle_expanded");
        reveal_strlit("native_action_resume_me");
        reveal_strlit("native_action_reconstruct_trail");
        assert(route_at(12).route_name.len() != "native_action_resume_me"@.len());
        assert(route_at(12).route_name.len() != "native_action_reconstruct_trail"@.len());
    } else if i == 13 {
        reveal_strlit("native_action_collapse");
        reveal_strlit("native_action_resume_me");
        reveal_strlit("native_action_reconstruct_trail");
        assert(route_at(13).route_name.len() != "native_action_resume_me"@.len());
        assert(route_at(13).route_name.len() != "native_action_reconstruct_trail"@.len());
    } else if i == 14 {
        reveal_strlit("apply_continue_decision_to_snapshot");
        reveal_strlit("native_action_resume_me");
        reveal_strlit("native_action_reconstruct_trail");
        assert(route_at(14).route_name.len() != "native_action_resume_me"@.len());
        assert(route_at(14).route_name.len() != "native_action_reconstruct_trail"@.len());
    } else if i == 15 {
        reveal_strlit("apply_cloud_resume_to_snapshot");
        reveal_strlit("native_action_resume_me");
        reveal_strlit("native_action_reconstruct_trail");
        assert(route_at(15).route_name.len() != "native_action_resume_me"@.len());
        assert(route_at(15).route_name.len() != "native_action_reconstruct_trail"@.len());
    } else if i == 16 {
        reveal_strlit("remember_cloud_resume_output_path");
        reveal_strlit("native_action_resume_me");
        reveal_strlit("native_action_reconstruct_trail");
        assert(route_at(16).route_name.len() != "native_action_resume_me"@.len());
        assert(route_at(16).route_name.len() != "native_action_reconstruct_trail"@.len());
    } else if i == 17 {
        reveal_strlit("legacy_command_run_cloud_resume");
        reveal_strlit("native_action_resume_me");
        reveal_strlit("native_action_reconstruct_trail");
        assert(route_at(17).route_name.len() != "native_action_resume_me"@.len());
        assert(route_at(17).route_name[0] != "native_action_reconstruct_trail"@[0]);
    } else if i == 18 {
        reveal_strlit("legacy_command_build_resume_query_bundle");
        reveal_strlit("native_action_resume_me");
        reveal_strlit("native_action_reconstruct_trail");
        assert(route_at(18).route_name.len() != "native_action_resume_me"@.len());
        assert(route_at(18).route_name.len() != "native_action_reconstruct_trail"@.len());
    } else if i == 19 {
        reveal_strlit("legacy_command_get_native_resume_card");
        reveal_strlit("native_action_resume_me");
        reveal_strlit("native_action_reconstruct_trail");
        assert(route_at(19).route_name.len() != "native_action_resume_me"@.len());
        assert(route_at(19).route_name.len() != "native_action_reconstruct_trail"@.len());
    } else if i == 20 {
        reveal_strlit("legacy_command_get_native_storyboard_dossier");
        reveal_strlit("native_action_resume_me");
        reveal_strlit("native_action_reconstruct_trail");
        assert(route_at(20).route_name.len() != "native_action_resume_me"@.len());
        assert(route_at(20).route_name.len() != "native_action_reconstruct_trail"@.len());
    } else if i == 21 {
        reveal_strlit("deprecated_open_without_continue_decision_id");
        reveal_strlit("native_action_resume_me");
        reveal_strlit("native_action_reconstruct_trail");
    }
}

/// The legacy resume routes are diagnostic only and never feed the primary UI.
pub proof fn law_legacy_resume_routes_are_diagnostic(i: int)
    requires
        0 <= i < ROUTE_COUNT,
        route_at(i).route_name == "apply_cloud_resume_to_snapshot"@
            || route_at(i).route_name == "remember_cloud_resume_output_path"@
            || route_at(i).route_name == "legacy_command_run_cloud_resume"@
            || route_at(i).route_name == "legacy_command_build_resume_query_bundle"@
            || route_at(i).route_name == "legacy_command_get_native_resume_card"@
            || route_at(i).route_name == "legacy_command_get_native_storyboard_dossier"@,
    ensures
        route_at(i).disposition == IslandActionDisposition::DiagnosticOnly,
        !route_at(i).allowed_in_primary_ui,
{
    if i == 0 {
        reveal_strlit("native_action_continue");
        reveal_strlit("apply_cloud_resume_to_snapshot");
        reveal_strlit("remember_cloud_resume_output_path");
        reveal_strlit("legacy_command_run_cloud_resume");
        reveal_strlit("legacy_command_build_resume_query_bundle");
        reveal_strlit("legacy_command_get_native_resume_card");
        reveal_strlit("legacy_command_get_native_storyboard_dossier");
        assert(route_at(0).route_name.len() != "apply_cloud_resume_to_snapshot"@.len());
        assert(route_at(0).route_name.len() != "remember_cloud_resume_output_path"@.len());
        assert(route_at(0).route_name.len() != "legacy_command_run_cloud_resume"@.len());
        assert(route_at(0).route_name.len() != "legacy_command_build_resume_query_bundle"@.len());
        assert(route_at(0).route_name.len() != "legacy_command_get_native_resume_card"@.len());
        assert(route_at(0).route_name.len() != "legacy_command_get_native_storyboard_dossier"@.len());
    } else if i == 1 {
        reveal_strlit("native_action_perform_continue_action");
        reveal_strlit("apply_cloud_resume_to_snapshot");
        reveal_strlit("remember_cloud_resume_output_path");
        reveal_strlit("legacy_command_run_cloud_resume");
        reveal_strlit("legacy_command_build_resume_query_bundle");
        reveal_strlit("legacy_command_get_native_resume_card");
        reveal_strlit("legacy_command_get_native_storyboard_dossier");
        assert(route_at(1).route_name.len() != "apply_cloud_resume_to_snapshot"@.len());
        assert(route_at(1).route_name.len() != "remember_cloud_resume_output_path"@.len());
        assert(route_at(1).route_name.len() != "legacy_command_run_cloud_resume"@.len());
        assert(route_at(1).route_name.len() != "legacy_command_build_resume_query_bundle"@.len());
        assert(route_at(1).route_name[0] != "legacy_command_get_native_resume_card"@[0]);
        assert(route_at(1).route_name.len() != "legacy_command_get_native_storyboard_dossier"@.len());
    } else if i == 2 {
        reveal_strlit("native_action_continue_feedback");
        reveal_strlit("apply_cloud_resume_to_snapshot");
        reveal_strlit("remember_cloud_resume_output_path");
        reveal_strlit("legacy_command_run_cloud_resume");
        reveal_strlit("legacy_command_build_resume_query_bundle");
        reveal_strlit("legacy_command_get_native_resume_card");
        reveal_strlit("legacy_command_get_native_storyboard_dossier");
        assert(route_at(2).route_name.len() != "apply_cloud_resume_to_snapshot"@.len());
        assert(route_at(2).route_name.len() != "remember_cloud_resume_output_path"@.len());
        assert(route_at(2).route_name[0] != "legacy_command_run_cloud_resume"@[0]);
        assert(route_at(2).route_name.len() != "legacy_command_build_resume_query_bundle"@.len());
        assert(route_at(2).route_name.len() != "legacy_command_get_native_resume_card"@.len());
        assert(route_at(2).route_name.len() != "legacy_command_get_native_storyboard_dossier"@.len());
    } else if i == 3 {
        reveal_strlit("native_action_open_resume_point");
        reveal_strlit("apply_cloud_resume_to_snapshot");
        reveal_strlit("remember_cloud_resume_output_path");
        reveal_strlit("legacy_command_run_cloud_resume");
        reveal_strlit("legacy_command_build_resume_query_bundle");
        reveal_strlit("legacy_command_get_native_resume_card");
        reveal_strlit("legacy_command_get_native_storyboard_dossier");
        assert(route_at(3).route_name.len() != "apply_cloud_resume_to_snapshot"@.len());
        assert(route_at(3).route_name.len() != "remember_cloud_resume_output_path"@.len());
        assert(route_at(3).route_name[0] != "legacy_command_run_cloud_resume"@[0]);
        assert(route_at(3).route_name.len() != "legacy_command_build_resume_query_bundle"@.len());
        assert(route_at(3).route_name.len() != "legacy_command_get_native_resume_card"@.len());
        assert(route_at(3).route_name.len() != "legacy_command_get_native_storyboard_dossier"@.len());
    } else if i == 4 {
        reveal_strlit("native_action_open_main_window");
        reveal_strlit("apply_cloud_resume_to_snapshot");
        reveal_strlit("remember_cloud_resume_output_path");
        reveal_strlit("legacy_command_run_cloud_resume");
        reveal_strlit("legacy_command_build_resume_query_bundle");
        reveal_strlit("legacy_command_get_native_resume_card");
        reveal_strlit("legacy_command_get_native_storyboard_dossier");
        assert(route_at(4).route_name[0] != "apply_cloud_resume_to_snapshot"@[0]);
        assert(route_at(4).route_name.len() != "remember_cloud_resume_output_path"@.len());
        assert(route_at(4).route_name.len() != "legacy_command_run_cloud_resume"@.len());
        assert(route_at(4).route_name.len() != "legacy_command_build_resume_query_bundle"@.len());
        assert(route_at(4).route_name.len() != "legacy_command_get_native_resume_card"@.len());
        assert(route_at(4).route_name.len() != "legacy_command_get_native_storyboard_dossier"@.len());
    } else if i == 5 {
        reveal_strlit("native_action_start_capture");
        reveal_strlit("apply_cloud_resume_to_snapshot");
        reveal_strlit("remember_cloud_resume_output_path");
        reveal_strlit("legacy_command_run_cloud_resume");
        reveal_strlit("legacy_command_build_resume_query_bundle");
        reveal_strlit("legacy_command_get_native_resume_card");
        reveal_strlit("legacy_command_get_native_storyboard_dossier");
        assert(route_at(5).route_name.len() != "apply_cloud_resume_to_snapshot"@.len());
        assert(route_at(5).route_name.len() != "remember_cloud_resume_output_path"@.len());
        assert(route_at(5).route_name.len() != "legacy_command_run_cloud_resume"@.len());
        assert(route_at(5).route_name.len() != "legacy_command_build_resume_query_bundle"@.len());
        assert(route_at(5).route_name.len() != "legacy_command_get_native_resume_card"@.len());
        assert(route_at(5).route_name.len() != "legacy_command_get_native_storyboard_dossier"@.len());
    } else if i == 6 {
        reveal_strlit("native_action_stop_capture");
        reveal_strlit("apply_cloud_resume_to_snapshot");
        reveal_strlit("remember_cloud_resume_output_path");
        reveal_strlit("legacy_command_run_cloud_resume");
        reveal_strlit("legacy_command_build_resume_query_bundle");
        reveal_strlit("legacy_command_get_native_resume_card");
        reveal_strlit("legacy_command_get_native_storyboard_dossier");
        assert(route_at(6).route_name.len() != "apply_cloud_resume_to_snapshot"@.len());
        assert(route_at(6).route_name.len() != "remember_cloud_resume_output_path"@.len());
        assert(route_at(6).route_name.len() != "legacy_command_run_cloud_resume"@.len());
        assert(route_at(6).route_name.len() != "legacy_command_build_resume_query_bundle"@.len());
        assert(route_at(6).route_name.len() != "legacy_command_get_native_resume_card"@.len());
        assert(route_at(6).route_name.len() != "legacy_command_get_native_storyboard_dossier"@.len());
    } else if i == 7 {
        reveal_strlit("native_action_capture_once");
        reveal_strlit("apply_cloud_resume_to_snapshot");
        reveal_strlit("remember_cloud_resume_output_path");
        reveal_strlit("legacy_command_run_cloud_resume");
        reveal_strlit("legacy_command_build_resume_query_bundle");
        reveal_strlit("legacy_command_get_native_resume_card");
        reveal_strlit("legacy_command_get_native_storyboard_dossier");
        assert(route_at(7).route_name.len() != "apply_cloud_resume_to_snapshot"@.len());
        assert(route_at(7).route_name.len() != "remember_cloud_resume_output_path"@.len());
        assert(route_at(7).route_name.len() != "legacy_command_run_cloud_resume"@.len());
        assert(route_at(7).route_name.len() != "legacy_command_build_resume_query_bundle"@.len());
        assert(route_at(7).route_name.len() != "legacy_command_get_native_resume_card"@.len());
        assert(route_at(7).route_name.len() != "legacy_command_get_native_storyboard_dossier"@.len());
    } else if i == 8 {
        reveal_strlit("native_action_show_trail");
        reveal_strlit("apply_cloud_resume_to_snapshot");
        reveal_strlit("remember_cloud_resume_output_path");
        reveal_strlit("legacy_command_run_cloud_resume");
        reveal_strlit("legacy_command_build_resume_query_bundle");
        reveal_strlit("legacy_command_get_native_resume_card");
        reveal_strlit("legacy_command_get_native_storyboard_dossier");
        assert(route_at(8).route_name.len() != "apply_cloud_resume_to_snapshot"@.len());
        assert(route_at(8).route_name.len() != "remember_cloud_resume_output_path"@.len());
        assert(route_at(8).route_name.len() != "legacy_command_run_cloud_resume"@.len());
        assert(route_at(8).route_name.len() != "legacy_command_build_resume_query_bundle"@.len());
        assert(route_at(8).route_name.len() != "legacy_command_get_native_resume_card"@.len());
        assert(route_at(8).route_name.len() != "legacy_command_get_native_storyboard_dossier"@.len());
    } else if i == 9 {
        reveal_strlit("native_action_reconstruct_trail");
        reveal_strlit("apply_cloud_resume_to_snapshot");
        reveal_strlit("remember_cloud_resume_output_path");
        reveal_strlit("legacy_command_run_cloud_resume");
        reveal_strlit("legacy_command_build_resume_query_bundle");
        reveal_strlit("legacy_command_get_native_resume_card");
        reveal_strlit("legacy_command_get_native_storyboard_dossier");
        assert(route_at(9).route_name.len() != "apply_cloud_resume_to_snapshot"@.len());
        assert(route_at(9).route_name.len() != "remember_cloud_resume_output_path"@.len());
        assert(route_at(9).route_name[0] != "legacy_command_run_cloud_resume"@[0]);
        assert(route_at(9).route_name.len() != "legacy_command_build_resume_query_bundle"@.len());
        assert(route_at(9).route_name.len() != "legacy_command_get_native_resume_card"@.len());
        assert(route_at(9).route_name.len() != "legacy_command_get_native_storyboard_dossier"@.len());
    } else if i == 10 {
        reveal_strlit("native_action_resume_me");
        reveal_strlit("apply_cloud_resume_to_snapshot");
        reveal_strlit("remember_cloud_resume_output_path");
        reveal_strlit("legacy_command_run_cloud_resume");
        reveal_strlit("legacy_command_build_resume_query_bundle");
        reveal_strlit("legacy_command_get_native_resume_card");
        reveal_strlit("legacy_command_get_native_storyboard_dossier");
        assert(route_at(10).route_name.len() != "apply_cloud_resume_to_snapshot"@.len());
        assert(route_at(10).route_name.len() != "remember_cloud_resume_output_path"@.len());
        assert(route_at(10).route_name.len() != "legacy_command_run_cloud_resume"@.len());
        assert(route_at(10).route_name.len() != "legacy_command_build_resume_query_bundle"@.len());
        assert(route_at(10).route_name.len() != "legacy_command_get_native_resume_card"@.len());
        assert(route_at(10).route_name.len() != "legacy_command_get_native_storyboard_dossier"@.len());
    } else if i == 11 {
        reveal_strlit("native_action_continue_history");
        reveal_strlit("apply_cloud_resume_to_snapshot");
        reveal_strlit("remember_cloud_resume_output_path");
        reveal_strlit("legacy_command_run_cloud_resume");
        reveal_strlit("legacy_command_build_resume_query_bundle");
        reveal_strlit("legacy_command_get_native_resume_card");
        reveal_strlit("legacy_command_get_native_storyboard_dossier");
        assert(route_at(11).route_name[0] != "apply_cloud_resume_to_snapshot"@[0]);
        assert(route_at(11).route_name.len() != "remember_cloud_resume_output_path"@.len());
        assert(route_at(11).route_name.len() != "legacy_command_run_cloud_resume"@.len());
        assert(route_at(11).route_name.len() != "legacy_command_build_resume_query_bundle"@.len());
        assert(route_at(11).route_name.len() != "legacy_command_get_native_resume_card"@.len());
        assert(route_at(11).route_name.len() != "legacy_command_get_native_storyboard_dossier"@.len());
    } else if i == 12 {
        reveal_strlit("native_action_toggle_expanded");
        reveal_strlit("apply_cloud_resume_to_snapshot");
        reveal_strlit("remember_cloud_resume_output_path");
        reveal_strlit("legacy_command_run_cloud_resume");
        reveal_strlit("legacy_command_build_resume_query_bundle");
        reveal_strlit("legacy_command_get_native_resume_card");
        reveal_strlit("legacy_command_get_native_storyboard_dossier");
        assert(route_at(12).route_name.len() != "apply_cloud_resume_to_snapshot"@.len());
        assert(route_at(12).route_name.len() != "remember_cloud_resume_output_path"@.len());
        assert(route_at(12).route_name.len() != "legacy_command_run_cloud_resume"@.len());
        assert(route_at(12).route_name.len() != "legacy_command_build_resume_query_bundle"@.len());
        assert(route_at(12).route_name.len() != "legacy_command_get_native_resume_card"@.len());
        assert(route_at(12).route_name.len() != "legacy_command_get_native_storyboard_dossier"@.len());
    } else if i == 13 {
        reveal_strlit("native_action_collapse");
        reveal_strlit("apply_cloud_resume_to_snapshot");
        reveal_strlit("remember_cloud_resume_output_path");
        reveal_strlit("legacy_command_run_cloud_resume");
        reveal_strlit("legacy_command_build_resume_query_bundle");
        reveal_strlit("legacy_command_get_native_resume_card");
        reveal_strlit("legacy_command_get_native_storyboard_dossier");
        assert(route_at(13).route_name.len() != "apply_cloud_resume_to_snapshot"@.len());
        assert(route_at(13).route_name.len() != "remember_cloud_resume_output_path"@.len());
        assert(route_at(13).route_name.len() != "legacy_command_run_cloud_resume"@.len());
        assert(route_at(13).route_name.len() != "legacy_command_build_resume_query_bundle"@.len());
        assert(route_at(13).route_name.len() != "legacy_command_get_native_resume_card"@.len());
        assert(route_at(13).route_name.len() != "legacy_command_get_native_storyboard_dossier"@.len());
    } else if i == 14 {
        reveal_strlit("apply_continue_decision_to_snapshot");
        reveal_strlit("apply_cloud_resume_to_snapshot");
        reveal_strlit("remember_cloud_resume_output_path");
        reveal_strlit("legacy_command_run_cloud_resume");
        reveal_strlit("legacy_command_build_resume_query_bundle");
        reveal_strlit("legacy_command_get_native_resume_card");
        reveal_strlit("legacy_command_get_native_storyboard_dossier");
        assert(route_at(14).route_name.len() != "apply_cloud_resume_to_snapshot"@.len());
        assert(route_at(14).route_name.len() != "remember_cloud_resume_output_path"@.len());
        assert(route_at(14).route_name.len() != "legacy_command_run_cloud_resume"@.len());
        assert(route_at(14).route_name.len() != "legacy_command_build_resume_query_bundle"@.len());
        assert(route_at(14).route_name.len() != "legacy_command_get_native_resume_card"@.len());
        assert(route_at(14).route_name.len() != "legacy_command_get_native_storyboard_dossier"@.len());
    } else if i == 15 {
        reveal_strlit("apply_cloud_resume_to_snapshot");
        reveal_strlit("apply_cloud_resume_to_snapshot");
        reveal_strlit("remember_cloud_resume_output_path");
        reveal_strlit("legacy_command_run_cloud_resume");
        reveal_strlit("legacy_command_build_resume_query_bundle");
        reveal_strlit("legacy_command_get_native_resume_card");
        reveal_strlit("legacy_command_get_native_storyboard_dossier");
    } else if i == 16 {
        reveal_strlit("remember_cloud_resume_output_path");
        reveal_strlit("apply_cloud_resume_to_snapshot");
        reveal_strlit("remember_cloud_resume_output_path");
        reveal_strlit("legacy_command_run_cloud_resume");
        reveal_strlit("legacy_command_build_resume_query_bundle");
        reveal_strlit("legacy_command_get_native_resume_card");
        reveal_strlit("legacy_command_get_native_storyboard_dossier");
    } else if i == 17 {
        reveal_strlit("legacy_command_run_cloud_resume");
        reveal_strlit("apply_cloud_resume_to_snapshot");
        reveal_strlit("remember_cloud_resume_output_path");
        reveal_strlit("legacy_command_run_cloud_resume");
        reveal_strlit("legacy_command_build_resume_query_bundle");
        reveal_strlit("legacy_command_get_native_resume_card");
        reveal_strlit("legacy_command_get_native_storyboard_dossier");
    } else if i == 18 {
        reveal_strlit("legacy_command_build_resume_query_bundle");
        reveal_strlit("apply_cloud_resume_to_snapshot");
        reveal_strlit("remember_cloud_resume_output_path");
        reveal_strlit("legacy_command_run_cloud_resume");
        reveal_strlit("legacy_command_build_resume_query_bundle");
        reveal_strlit("legacy_command_get_native_resume_card");
        reveal_strlit("legacy_command_get_native_storyboard_dossier");
    } else if i == 19 {
        reveal_strlit("legacy_command_get_native_resume_card");
        reveal_strlit("apply_cloud_resume_to_snapshot");
        reveal_strlit("remember_cloud_resume_output_path");
        reveal_strlit("legacy_command_run_cloud_resume");
        reveal_strlit("legacy_command_build_resume_query_bundle");
        reveal_strlit("legacy_command_get_native_resume_card");
        reveal_strlit("legacy_command_get_native_storyboard_dossier");
    } else if i == 20 {
        reveal_strlit("legacy_command_get_native_storyboard_dossier");
        reveal_strlit("apply_cloud_resume_to_snapshot");
        reveal_strlit("remember_cloud_resume_output_path");
        reveal_strlit("legacy_command_run_cloud_resume");
        reveal_strlit("legacy_command_build_resume_query_bundle");
        reveal_strlit("legacy_command_get_native_resume_card");
        reveal_strlit("legacy_command_get_native_storyboard_dossier");
    } else if i == 21 {
        reveal_strlit("deprecated_open_without_continue_decision_id");
        reveal_strlit("apply_cloud_resume_to_snapshot");
        reveal_strlit("remember_cloud_resume_output_path");
        reveal_strlit("legacy_command_run_cloud_resume");
        reveal_strlit("legacy_command_build_resume_query_bundle");
        reveal_strlit("legacy_command_get_native_resume_card");
        reveal_strlit("legacy_command_get_native_storyboard_dossier");
        assert(route_at(21).route_name.len() != "apply_cloud_resume_to_snapshot"@.len());
        assert(route_at(21).route_name.len() != "remember_cloud_resume_output_path"@.len());
        assert(route_at(21).route_name.len() != "legacy_command_run_cloud_resume"@.len());
        assert(route_at(21).route_name.len() != "legacy_command_build_resume_query_bundle"@.len());
        assert(route_at(21).route_name.len() != "legacy_command_get_native_resume_card"@.len());
        assert(route_at(21).route_name[0] != "legacy_command_get_native_storyboard_dossier"@[0]);
    }
}

} // verus!
