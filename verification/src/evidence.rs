//! How on-screen evidence spans are named and screened: their sources and
//! roles, the control hints that never carry a user goal, and the hashes
//! that reference their text.
use vstd::prelude::*;
use vstd::utf8::encode_utf8;
use crate::contract::concat;
use crate::text::{ascii_lower, ascii_lowercase, contains, copy_str, str_contains, str_trim, trim};
use crate::turn::{contains_any, contains_some, fnv1a, hex16, normalize_text, normalized, stable_hash};

verus! {

/// Where an evidence span was read from.
#[derive(Debug, Clone, Copy, PartialEq, Eq)]
pub enum EvidenceSourceKind {
    AccessibilityNode,
    OcrSpan,
    ContentUnit,
    FlattenedTextFallback,
}

/// The label of a value.
pub open spec fn source_kind_label(x: EvidenceSourceKind) -> Seq<char> {
    match x {
        EvidenceSourceKind::AccessibilityNode => "accessibility_node"@,
        EvidenceSourceKind::OcrSpan => "ocr_span"@,
        EvidenceSourceKind::ContentUnit => "content_unit"@,
        EvidenceSourceKind::FlattenedTextFallback => "flattened_text_fallback"@,
    }
}

impl EvidenceSourceKind {
    /// The label of this value.
    pub fn label(self) -> (s: &'static str)
        ensures
            s@ == source_kind_label(self),
    {
        match self {
            EvidenceSourceKind::AccessibilityNode => "accessibility_node",
            EvidenceSourceKind::OcrSpan => "ocr_span",
            EvidenceSourceKind::ContentUnit => "content_unit",
            EvidenceSourceKind::FlattenedTextFallback => "flattened_text_fallback",
        }
    }

    /// How much a source is trusted: accessibility nodes most, then content
    /// units, OCR spans, and flattened text least.
    pub fn priority(self) -> (p: u8)
        ensures
            p == match self {
                EvidenceSourceKind::AccessibilityNode => 4u8,
                EvidenceSourceKind::ContentUnit => 3u8,
                EvidenceSourceKind::OcrSpan => 2u8,
                EvidenceSourceKind::FlattenedTextFallback => 1u8,
            },
    {
        match self {
            EvidenceSourceKind::AccessibilityNode => 4,
            EvidenceSourceKind::ContentUnit => 3,
            EvidenceSourceKind::OcrSpan => 2,
            EvidenceSourceKind::FlattenedTextFallback => 1,
        }
    }
}

/// How much of a span's text is stored.
#[derive(Debug, Clone, Copy, PartialEq, Eq)]
pub enum TextStorageClass {
    SourceReferenceOnly,
    BoundedPublicSafeSummary,
}

/// The label of a value.
pub open spec fn storage_label(x: TextStorageClass) -> Seq<char> {
    match x {
        TextStorageClass::SourceReferenceOnly => "source_reference_only"@,
        TextStorageClass::BoundedPublicSafeSummary => "bounded_public_safe_summary"@,
    }
}

impl TextStorageClass {
    /// The label of this value.
    pub fn label(self) -> (s: &'static str)
        ensures
            s@ == storage_label(self),
    {
        match self {
            TextStorageClass::SourceReferenceOnly => "source_reference_only",
            TextStorageClass::BoundedPublicSafeSummary => "bounded_public_safe_summary",
        }
    }
}

/// The role of a screen region.
#[derive(Debug, Clone, Copy, PartialEq, Eq)]
pub enum RegionRole {
    AppChrome,
    Navigation,
    Sidebar,
    ConversationHistory,
    UserMessage,
    AgentMessage,
    AgentStatus,
    SystemStatus,
    ToolOutput,
    EditorContent,
    TerminalInput,
    TerminalOutput,
    Composer,
    Dialog,
    Notification,
    Control,
    Unknown,
}

/// The label of a value.
pub open spec fn region_label(x: RegionRole) -> Seq<char> {
    match x {
        RegionRole::AppChrome => "app_chrome"@,
        RegionRole::Navigation => "navigation"@,
        RegionRole::Sidebar => "sidebar"@,
        RegionRole::ConversationHistory => "conversation_history"@,
        RegionRole::UserMessage => "user_message"@,
        RegionRole::AgentMessage => "agent_message"@,
        RegionRole::AgentStatus => "agent_status"@,
        RegionRole::SystemStatus => "system_status"@,
        RegionRole::ToolOutput => "tool_output"@,
        RegionRole::EditorContent => "editor_content"@,
        RegionRole::TerminalInput => "terminal_input"@,
        RegionRole::TerminalOutput => "terminal_output"@,
        RegionRole::Composer => "composer"@,
        RegionRole::Dialog => "dialog"@,
        RegionRole::Notification => "notification"@,
        RegionRole::Control => "control"@,
        RegionRole::Unknown => "unknown"@,
    }
}

impl RegionRole {
    /// The label of this value.
    pub fn label(self) -> (s: &'static str)
        ensures
            s@ == region_label(self),
    {
        match self {
            RegionRole::AppChrome => "app_chrome",
            RegionRole::Navigation => "navigation",
            RegionRole::Sidebar => "sidebar",
            RegionRole::ConversationHistory => "conversation_history",
            RegionRole::UserMessage => "user_message",
            RegionRole::AgentMessage => "agent_message",
            RegionRole::AgentStatus => "agent_status",
            RegionRole::SystemStatus => "system_status",
            RegionRole::ToolOutput => "tool_output",
            RegionRole::EditorContent => "editor_content",
            RegionRole::TerminalInput => "terminal_input",
            RegionRole::TerminalOutput => "terminal_output",
            RegionRole::Composer => "composer",
            RegionRole::Dialog => "dialog",
            RegionRole::Notification => "notification",
            RegionRole::Control => "control",
            RegionRole::Unknown => "unknown",
        }
    }

    /// The region holds agent output.
    pub fn is_agent(self) -> (b: bool)
        ensures
            b == (self == RegionRole::AgentMessage || self == RegionRole::AgentStatus),
    {
        match self {
            RegionRole::AgentMessage | RegionRole::AgentStatus => true,
            _ => false,
        }
    }
}

/// Who speaks in a span.
#[derive(Debug, Clone, Copy, PartialEq, Eq)]
pub enum ConversationalRole {
    User,
    AssistantOrAgent,
    System,
    Tool,
    NonConversation,
    Unknown,
}

/// The label of a value.
pub open spec fn conversational_label(x: ConversationalRole) -> Seq<char> {
    match x {
        ConversationalRole::User => "user"@,
        ConversationalRole::AssistantOrAgent => "assistant_or_agent"@,
        ConversationalRole::System => "system"@,
        ConversationalRole::Tool => "tool"@,
        ConversationalRole::NonConversation => "non_conversation"@,
        ConversationalRole::Unknown => "unknown"@,
    }
}

impl ConversationalRole {
    /// The label of this value.
    pub fn label(self) -> (s: &'static str)
        ensures
            s@ == conversational_label(self),
    {
        match self {
            ConversationalRole::User => "user",
            ConversationalRole::AssistantOrAgent => "assistant_or_agent",
            ConversationalRole::System => "system",
            ConversationalRole::Tool => "tool",
            ConversationalRole::NonConversation => "non_conversation",
            ConversationalRole::Unknown => "unknown",
        }
    }
}

/// A reference to the text of a span, without the text.
#[derive(Debug, Clone, PartialEq, Eq)]
pub struct EvidenceSourceRef {
    pub source_kind: EvidenceSourceKind,
    pub source_record_id: String,
    pub source_text_reference: String,
    pub text_hash: String,
}

/// The hash that references span text without storing it.
pub open spec fn span_text_hash(text: Seq<char>) -> Seq<char> {
    hex16(fnv1a(encode_utf8("task_turn_text_v1|"@ + normalized(text))))
}

/// The hash that references span text without storing it.
pub fn text_hash(value: &str) -> (r: String)
    ensures
        r@ == span_text_hash(value@),
{
    let normal = normalize_text(value);
    let material = concat("task_turn_text_v1|", normal.as_str());
    stable_hash(material.as_str().as_bytes())
}

/// A reference to the text of record `id` of the given source.
pub fn source_ref(kind: EvidenceSourceKind, id: &str, text: &str) -> (r: EvidenceSourceRef)
    ensures
        r.source_kind == kind,
        r.source_record_id@ == id@,
        r.source_text_reference@ == source_kind_label(kind) + ":"@ + id@ + ":text"@,
        r.text_hash@ == span_text_hash(text@),
{
    let reference = concat(concat(concat(kind.label(), ":").as_str(), id).as_str(), ":text");
    EvidenceSourceRef {
        source_kind: kind,
        source_record_id: copy_str(id),
        source_text_reference: reference,
        text_hash: text_hash(text),
    }
}

/// The hints that mark a span as a control, never a user goal.
pub open spec fn control_hints() -> Seq<Seq<char>> {
    seq![
        "axbutton"@,
        " button"@,
        "button "@,
        "axmenuitem"@,
        "menu_item"@,
        "menuitem"@,
        "axpopupbutton"@,
        "pop_up_button"@,
        "popup_button"@,
        "model_picker"@,
        "model-picker"@,
        "approval_chip"@,
        "approval-chip"@,
        "axradiobutton"@,
        "radio_button"@,
        "axcheckbox"@,
        "checkbox"@,
        "axswitch"@,
        "axlink"@,
        "axtabgroup"@,
        "axtabbutton"@,
        "axtoolbar"@,
        "segmented_control"@,
        "notification_action"@,
        "dialog_action"@,
        "status_badge"@,
        "composer_placeholder"@,
        "tab_chrome"@,
        "browser_chrome"@,
        "axpress"@,
    ]
}

/// The hint marks a categorical control.
pub fn is_categorical_control_hint(hint: &str) -> (b: bool)
    ensures
        b == contains_some(hint@, control_hints()),
{
    let needles = [
        "axbutton",
        " button",
        "button ",
        "axmenuitem",
        "menu_item",
        "menuitem",
        "axpopupbutton",
        "pop_up_button",
        "popup_button",
        "model_picker",
        "model-picker",
        "approval_chip",
        "approval-chip",
        "axradiobutton",
        "radio_button",
        "axcheckbox",
        "checkbox",
        "axswitch",
        "axlink",
        "axtabgroup",
        "axtabbutton",
        "axtoolbar",
        "segmented_control",
        "notification_action",
        "dialog_action",
        "status_badge",
        "composer_placeholder",
        "tab_chrome",
        "browser_chrome",
        "axpress",
    ];
    let b = contains_any(hint, &needles);
    assert(needles@.map_values(|n: &str| n@) =~= control_hints());
    b
}

/// A privacy status, lowercased, blocks the text.
pub open spec fn privacy_blocked(value: Seq<char>) -> bool {
    let l = ascii_lower(value);
    contains(l, "blocked"@) || contains(l, "sensitive"@) || contains(l, "private"@) || contains(
        l,
        "excluded"@,
    )
}

/// Whether a privacy status blocks the text.
pub fn is_privacy_blocked(value: &str) -> (b: bool)
    ensures
        b == privacy_blocked(value@),
{
    let lower = ascii_lowercase(value);
    let l = lower.as_str();
    crate::text::str_contains(l, "blocked") || crate::text::str_contains(l, "sensitive")
        || crate::text::str_contains(l, "private") || crate::text::str_contains(l, "excluded")
}

/// A span's privacy status, where it has one, blocks the text.
pub open spec fn status_blocks(status: Option<String>) -> bool {
    match status {
        Some(s) => privacy_blocked(s@),
        None => false,
    }
}

/// Whether any of the spans' privacy statuses blocks the text; a span
/// without a recorded status blocks nothing.
pub fn any_privacy_blocked(statuses: &Vec<Option<String>>) -> (b: bool)
    ensures
        b == exists|i: int| 0 <= i < statuses@.len() && #[trigger] status_blocks(statuses@[i]),
{
    let mut i: usize = 0;
    while i < statuses.len()
        invariant
            0 <= i <= statuses@.len(),
            forall|j: int| 0 <= j < i ==> !#[trigger] status_blocks(statuses@[j]),
        decreases statuses.len() - i,
    {
        if let Some(s) = &statuses[i] {
            if is_privacy_blocked(s.as_str()) {
                assert(status_blocks(statuses@[i as int]));
                return true;
            }
        }
        i += 1;
    }
    false
}

/// An identity compared without case or surrounding space: none when blank.
pub open spec fn identity_of(value: Option<Seq<char>>) -> Option<Seq<char>> {
    match value {
        Some(v) => if trim(v).len() == 0 {
            None
        } else {
            Some(ascii_lower(trim(v)))
        },
        None => None,
    }
}

/// An identity compared without case or surrounding space.
pub fn normalized_identity(value: Option<&str>) -> (r: Option<String>)
    ensures
        crate::text::opt_str(r) == identity_of(
            match value {
                Some(v) => Some(v@),
                None => None,
            },
        ),
{
    match value {
        Some(v) => {
            let t = str_trim(v);
            if t.as_str().unicode_len() == 0 {
                None
            } else {
                Some(ascii_lowercase(t.as_str()))
            }
        },
        None => None,
    }
}

/// Why a span cannot be the user's goal: a control, a region the user does
/// not author, text not by the user, or a surface the frame does not own.
pub open spec fn goal_ineligibility(
    region: RegionRole,
    role: ConversationalRole,
    scope: Seq<char>,
    ownership: Seq<char>,
) -> Option<Seq<char>> {
    if region == RegionRole::Control {
        Some("categorical_control_ineligible"@)
    } else if region == RegionRole::AppChrome || region == RegionRole::Navigation || region
        == RegionRole::Sidebar || region == RegionRole::Composer || region == RegionRole::SystemStatus
        || region == RegionRole::Dialog || region == RegionRole::Notification {
        Some("non_authored_region_ineligible"@)
    } else if role != ConversationalRole::User {
        Some("not_user_authored"@)
    } else if scope == "background_display"@ || ownership == "OtherWindowOwned"@ || ownership
        == "DisplayOnlyUnattributed"@ {
        Some("surface_ownership_ineligible"@)
    } else {
        None
    }
}

/// Why a span cannot be the user's goal, if it cannot.
pub fn user_goal_ineligibility(
    region_role: RegionRole,
    conversational_role: ConversationalRole,
    source_scope: &str,
    ownership_kind: &str,
) -> (r: Option<&'static str>)
    ensures
        match r {
            Some(reason) => goal_ineligibility(region_role, conversational_role, source_scope@, ownership_kind@)
                == Some(reason@),
            None => goal_ineligibility(region_role, conversational_role, source_scope@, ownership_kind@) is None,
        },
{
    match region_role {
        RegionRole::Control => {
            return Some("categorical_control_ineligible");
        },
        RegionRole::AppChrome
        | RegionRole::Navigation
        | RegionRole::Sidebar
        | RegionRole::Composer
        | RegionRole::SystemStatus
        | RegionRole::Dialog
        | RegionRole::Notification => {
            return Some("non_authored_region_ineligible");
        },
        _ => {},
    }
    if !matches!(conversational_role, ConversationalRole::User) {
        Some("not_user_authored")
    } else if crate::text::str_eq(source_scope, "background_display") || crate::text::str_eq(
        ownership_kind,
        "OtherWindowOwned",
    ) || crate::text::str_eq(ownership_kind, "DisplayOnlyUnattributed") {
        Some("surface_ownership_ineligible")
    } else {
        None
    }
}

/// Where a typing burst was typed: its app and window.
#[derive(Debug, Clone, PartialEq, Eq, Default)]
pub struct TypingSurface {
    pub app_bundle_id: Option<String>,
    pub app_name: Option<String>,
    pub window_id: Option<i64>,
    pub window_title: Option<String>,
}

/// Two identities name the same thing: both are present and equal without
/// case or surrounding space.
pub open spec fn same_identity(a: Option<Seq<char>>, b: Option<Seq<char>>) -> bool {
    identity_of(a) is Some && identity_of(a) == identity_of(b)
}

/// A typing burst was typed on a frame's surface: the same app (by bundle
/// id when both have one, else by name) and the same window (by id when
/// both have one, else by title).
pub open spec fn surface_matches(
    t: TypingSurface,
    bundle: Option<Seq<char>>,
    app: Option<Seq<char>>,
    window: Option<i64>,
    title: Option<Seq<char>>,
) -> bool {
    let app_ok = match (crate::text::opt_str(t.app_bundle_id), bundle) {
        (Some(l), Some(r)) => if trim(l).len() > 0 && trim(r).len() > 0 {
            l == r
        } else {
            same_identity(crate::text::opt_str(t.app_name), app)
        },
        _ => same_identity(crate::text::opt_str(t.app_name), app),
    };
    let window_ok = match (t.window_id, window) {
        (Some(l), Some(r)) => l == r,
        _ => same_identity(crate::text::opt_str(t.window_title), title),
    };
    app_ok && window_ok
}

/// Two identities name the same thing.
fn identities_match(a: Option<&str>, b: Option<&str>) -> (r: bool)
    ensures
        r == same_identity(
            match a {
                Some(x) => Some(x@),
                None => None,
            },
            match b {
                Some(x) => Some(x@),
                None => None,
            },
        ),
{
    match (normalized_identity(a), normalized_identity(b)) {
        (Some(l), Some(r)) => crate::text::str_eq(l.as_str(), r.as_str()),
        _ => false,
    }
}

/// Whether a typing burst was typed on a frame's surface.
pub fn typing_surface_matches(
    candidate: &TypingSurface,
    frame_bundle_id: Option<&str>,
    frame_app_name: Option<&str>,
    frame_window_id: Option<i64>,
    frame_window_title: Option<&str>,
) -> (b: bool)
    ensures
        b == surface_matches(
            *candidate,
            match frame_bundle_id {
                Some(x) => Some(x@),
                None => None,
            },
            match frame_app_name {
                Some(x) => Some(x@),
                None => None,
            },
            frame_window_id,
            match frame_window_title {
                Some(x) => Some(x@),
                None => None,
            },
        ),
{
    let candidate_app = match &candidate.app_name {
        Some(a) => Some(a.as_str()),
        None => None,
    };
    let app_matches = match (&candidate.app_bundle_id, frame_bundle_id) {
        (Some(l), Some(r)) => {
            let lt = str_trim(l.as_str());
            let rt = str_trim(r);
            if lt.as_str().unicode_len() > 0 && rt.as_str().unicode_len() > 0 {
                crate::text::str_eq(l.as_str(), r)
            } else {
                identities_match(candidate_app, frame_app_name)
            }
        },
        _ => identities_match(candidate_app, frame_app_name),
    };
    let candidate_title = match &candidate.window_title {
        Some(t) => Some(t.as_str()),
        None => None,
    };
    let window_matches = match (candidate.window_id, frame_window_id) {
        (Some(l), Some(r)) => l == r,
        _ => identities_match(candidate_title, frame_window_title),
    };
    app_matches && window_matches
}

/// Texts joined by a separator.
pub open spec fn joined_by(parts: Seq<Seq<char>>, sep: Seq<char>) -> Seq<char>
    decreases parts.len(),
{
    if parts.len() == 0 {
        Seq::empty()
    } else if parts.len() == 1 {
        parts[0]
    } else {
        joined_by(parts.drop_last(), sep) + sep + parts.last()
    }
}

/// Texts joined by a separator (`join`).
pub fn join_with(parts: &Vec<String>, sep: &str) -> (r: String)
    ensures
        r@ == joined_by(crate::text::strs(parts@), sep@),
{
    let mut out = String::new();
    let mut i: usize = 0;
    assert(crate::text::strs(parts@).take(0) =~= Seq::<Seq<char>>::empty());
    while i < parts.len()
        invariant
            i <= parts@.len(),
            out@ == joined_by(crate::text::strs(parts@).take(i as int), sep@),
        decreases parts.len() - i,
    {
        let ghost all = crate::text::strs(parts@);
        proof {
            assert(all.take(i as int + 1).drop_last() =~= all.take(i as int));
            assert(all.take(i as int + 1).last() == parts@[i as int]@);
        }
        if i == 0 {
            out = parts[0].clone();
        } else {
            let with_sep = concat(out.as_str(), sep);
            out = concat(with_sep.as_str(), parts[i].as_str());
        }
        i = i + 1;
    }
    assert(crate::text::strs(parts@).take(i as int) =~= crate::text::strs(parts@));
    out
}

/// A span may stand for the user's goal by its place on screen: a region of
/// unknown role that the frame owns, with no hint of a control.
pub open spec fn geometry_goal_candidate(
    scope: Seq<char>,
    ownership: Seq<char>,
    reason_codes: Seq<Seq<char>>,
    quality_flags: Seq<Seq<char>>,
    region: RegionRole,
) -> bool {
    &&& scope != "background_display"@
    &&& ownership != "OtherWindowOwned"@
    &&& ownership != "DisplayOnlyUnattributed"@
    &&& !contains_some(ascii_lower(joined_by(reason_codes + quality_flags, " "@)), control_hints())
    &&& region == RegionRole::Unknown
}

/// Whether a span may stand for the user's goal by its place on screen.
pub fn user_goal_geometry_candidate_is_eligible(
    source_scope: &str,
    ownership_kind: &str,
    reason_codes: &Vec<String>,
    quality_flags: &Vec<String>,
    region_role: RegionRole,
) -> (b: bool)
    ensures
        b == geometry_goal_candidate(
            source_scope@,
            ownership_kind@,
            crate::text::strs(reason_codes@),
            crate::text::strs(quality_flags@),
            region_role,
        ),
{
    if crate::text::str_eq(source_scope, "background_display") || crate::text::str_eq(
        ownership_kind,
        "OtherWindowOwned",
    ) || crate::text::str_eq(ownership_kind, "DisplayOnlyUnattributed") {
        return false;
    }
    let mut hints: Vec<String> = Vec::new();
    let mut i: usize = 0;
    while i < reason_codes.len()
        invariant
            i <= reason_codes@.len(),
            crate::text::strs(hints@) == crate::text::strs(reason_codes@).take(i as int),
        decreases reason_codes.len() - i,
    {
        crate::text::push_string(&mut hints, reason_codes[i].clone());
        assert(crate::text::strs(reason_codes@).take(i as int + 1) =~= crate::text::strs(reason_codes@).take(i as int).push(reason_codes@[i as int]@));
        i = i + 1;
    }
    let mut j: usize = 0;
    assert(crate::text::strs(reason_codes@).take(i as int) =~= crate::text::strs(reason_codes@));
    while j < quality_flags.len()
        invariant
            j <= quality_flags@.len(),
            crate::text::strs(hints@) == crate::text::strs(reason_codes@) + crate::text::strs(quality_flags@).take(j as int),
        decreases quality_flags.len() - j,
    {
        crate::text::push_string(&mut hints, quality_flags[j].clone());
        assert(crate::text::strs(quality_flags@).take(j as int + 1) =~= crate::text::strs(quality_flags@).take(j as int).push(quality_flags@[j as int]@));
        j = j + 1;
    }
    assert(crate::text::strs(quality_flags@).take(j as int) =~= crate::text::strs(quality_flags@));
    let joined = join_with(&hints, " ");
    let lower = ascii_lowercase(joined.as_str());
    !is_categorical_control_hint(lower.as_str()) && matches!(region_role, RegionRole::Unknown)
}

/// The text that carries a selection's meaning: its user goal and agent
/// state samples, each once, one per line.
pub open spec fn semantic_text(user: Option<Seq<char>>, agent: Option<Seq<char>>) -> Seq<char> {
    match (user, agent) {
        (Some(u), Some(a)) => if u == a {
            u
        } else {
            u + seq!['\n'] + a
        },
        (Some(u), None) => u,
        (None, Some(a)) => a,
        (None, None) => Seq::empty(),
    }
}

/// The text that carries a selection's meaning.
pub fn selection_semantic_text(user_goal_sample: Option<&str>, agent_state_sample: Option<&str>) -> (r: String)
    ensures
        r@ == semantic_text(
            match user_goal_sample {
                Some(u) => Some(u@),
                None => None,
            },
            match agent_state_sample {
                Some(a) => Some(a@),
                None => None,
            },
        ),
{
    match (user_goal_sample, agent_state_sample) {
        (Some(u), Some(a)) => if crate::text::str_eq(u, a) {
            copy_str(u)
        } else {
            let first = concat(u, "\n");
            proof {
                reveal_strlit("\n");
            }
            concat(first.as_str(), a)
        },
        (Some(u), None) => copy_str(u),
        (None, Some(a)) => copy_str(a),
        (None, None) => String::new(),
    }
}

/// A span sits on the frame's surface: the same app (by bundle id, or else
/// name) and the same window, wherever both sides know them.
pub open spec fn on_context_surface(
    owner_app: Option<Seq<char>>,
    owner_window: Option<i64>,
    bundle: Option<Seq<char>>,
    app: Option<Seq<char>>,
    window: Option<i64>,
) -> bool {
    let context_app = match bundle {
        Some(b) => Some(b),
        None => app,
    };
    let app_ok = match (owner_app, context_app) {
        (Some(l), Some(r)) => l == r,
        _ => true,
    };
    let window_ok = match (owner_window, window) {
        (Some(l), Some(r)) => l == r,
        _ => true,
    };
    app_ok && window_ok
}

/// Whether a span sits on the frame's surface.
pub fn span_matches_context_surface(
    owner_app_id: Option<&str>,
    owner_window_id: Option<i64>,
    context_bundle_id: Option<&str>,
    context_app_name: Option<&str>,
    context_window_id: Option<i64>,
) -> (b: bool)
    ensures
        b == on_context_surface(
            match owner_app_id {
                Some(x) => Some(x@),
                None => None,
            },
            owner_window_id,
            match context_bundle_id {
                Some(x) => Some(x@),
                None => None,
            },
            match context_app_name {
                Some(x) => Some(x@),
                None => None,
            },
            context_window_id,
        ),
{
    let context_app = match context_bundle_id {
        Some(b) => Some(b),
        None => context_app_name,
    };
    let app_matches = match (owner_app_id, context_app) {
        (Some(l), Some(r)) => crate::text::str_eq(l, r),
        _ => true,
    };
    let window_matches = match (owner_window_id, context_window_id) {
        (Some(l), Some(r)) => l == r,
        _ => true,
    };
    app_matches && window_matches
}

/// A hint of system instructions.
pub open spec fn system_instruction_hint(h: Seq<char>) -> bool {
    contains(h, "system_instruction"@) || contains(h, "system-instruction"@)
}

/// A hint of system instructions.
fn is_system_instruction_hint(h: &str) -> (b: bool)
    ensures
        b == system_instruction_hint(h@),
{
    str_contains(h, "system_instruction") || str_contains(h, "system-instruction")
}

/// A hint of a sidebar or outline.
pub open spec fn sidebar_hint(h: Seq<char>) -> bool {
    contains(h, "sidebar"@) || contains(h, "source_list"@) || contains(h, "outline"@) || contains(h, "navigator"@)
}

/// A hint of a sidebar or outline.
fn is_sidebar_hint(h: &str) -> (b: bool)
    ensures
        b == sidebar_hint(h@),
{
    str_contains(h, "sidebar") || str_contains(h, "source_list") || str_contains(h, "outline") || str_contains(h, "navigator")
}

/// A hint of navigation.
pub open spec fn navigation_hint(h: Seq<char>) -> bool {
    contains(h, "search_result"@) || contains(h, "navigation"@) || contains(h, "breadcrumb"@) || contains(h, "tab_list"@)
}

/// A hint of navigation.
fn is_navigation_hint(h: &str) -> (b: bool)
    ensures
        b == navigation_hint(h@),
{
    str_contains(h, "search_result") || str_contains(h, "navigation") || str_contains(h, "breadcrumb") || str_contains(h, "tab_list")
}

/// A hint of app chrome.
pub open spec fn chrome_hint(h: Seq<char>) -> bool {
    contains(h, "toolbar"@) || contains(h, "menu"@) || contains(h, "titlebar"@) || contains(h, "app_chrome"@)
}

/// A hint of app chrome.
fn is_chrome_hint(h: &str) -> (b: bool)
    ensures
        b == chrome_hint(h@),
{
    str_contains(h, "toolbar") || str_contains(h, "menu") || str_contains(h, "titlebar") || str_contains(h, "app_chrome")
}

/// A hint of a text composer.
pub open spec fn composer_hint(h: Seq<char>) -> bool {
    contains(h, "composer"@) || contains(h, "text_area"@) || contains(h, "textarea"@) || contains(h, "prompt_input"@)
}

/// A hint of a text composer.
fn is_composer_hint(h: &str) -> (b: bool)
    ensures
        b == composer_hint(h@),
{
    str_contains(h, "composer") || str_contains(h, "text_area") || str_contains(h, "textarea") || str_contains(h, "prompt_input")
}

/// A hint of a dialog.
pub open spec fn dialog_hint(h: Seq<char>) -> bool {
    contains(h, "dialog"@) || contains(h, "sheet"@) || contains(h, "alert"@)
}

/// A hint of a dialog.
fn is_dialog_hint(h: &str) -> (b: bool)
    ensures
        b == dialog_hint(h@),
{
    str_contains(h, "dialog") || str_contains(h, "sheet") || str_contains(h, "alert")
}

/// A hint of a notification.
pub open spec fn notification_hint(h: Seq<char>) -> bool {
    contains(h, "notification"@) || contains(h, "toast"@)
}

/// A hint of a notification.
fn is_notification_hint(h: &str) -> (b: bool)
    ensures
        b == notification_hint(h@),
{
    str_contains(h, "notification") || str_contains(h, "toast")
}

/// A hint of tool output.
pub open spec fn tool_output_hint(h: Seq<char>) -> bool {
    contains(h, "tool_output"@) || contains(h, "tool-result"@) || contains(h, "tool_result"@)
}

/// A hint of tool output.
fn is_tool_output_hint(h: &str) -> (b: bool)
    ensures
        b == tool_output_hint(h@),
{
    str_contains(h, "tool_output") || str_contains(h, "tool-result") || str_contains(h, "tool_result")
}

/// A hint of terminal input.
pub open spec fn terminal_input_hint(h: Seq<char>) -> bool {
    contains(h, "prompt"@) || contains(h, "command"@) || contains(h, "terminal_input"@)
}

/// A hint of terminal input.
fn is_terminal_input_hint(h: &str) -> (b: bool)
    ensures
        b == terminal_input_hint(h@),
{
    str_contains(h, "prompt") || str_contains(h, "command") || str_contains(h, "terminal_input")
}

/// A hint of earlier conversation.
pub open spec fn history_hint(h: Seq<char>) -> bool {
    contains(h, "conversation_history"@) || contains(h, "history-assistant"@) || contains(h, "prior-assistant"@) || contains(h, "prior_result"@) || contains(h, "ax-prior"@)
}

/// A hint of earlier conversation.
fn is_history_hint(h: &str) -> (b: bool)
    ensures
        b == history_hint(h@),
{
    str_contains(h, "conversation_history") || str_contains(h, "history-assistant") || str_contains(h, "prior-assistant") || str_contains(h, "prior_result") || str_contains(h, "ax-prior")
}

/// A hint of a user message.
pub open spec fn user_message_hint(h: Seq<char>) -> bool {
    contains(h, "user-message"@) || contains(h, "user_message"@) || contains(h, "human-message"@) || contains(h, "message-user"@) || contains(h, "ax-user"@)
}

/// A hint of a user message.
fn is_user_message_hint(h: &str) -> (b: bool)
    ensures
        b == user_message_hint(h@),
{
    str_contains(h, "user-message") || str_contains(h, "user_message") || str_contains(h, "human-message") || str_contains(h, "message-user") || str_contains(h, "ax-user")
}

/// A hint of an agent status line.
pub open spec fn agent_status_hint(h: Seq<char>) -> bool {
    contains(h, "agent-status"@) || contains(h, "assistant-status"@) || contains(h, "working-status"@) || contains(h, "thinking-status"@)
}

/// A hint of an agent status line.
fn is_agent_status_hint(h: &str) -> (b: bool)
    ensures
        b == agent_status_hint(h@),
{
    str_contains(h, "agent-status") || str_contains(h, "assistant-status") || str_contains(h, "working-status") || str_contains(h, "thinking-status")
}

/// A hint of an agent message.
pub open spec fn agent_message_hint(h: Seq<char>) -> bool {
    contains(h, "assistant-message"@) || contains(h, "assistant_message"@) || contains(h, "agent-message"@) || contains(h, "message-assistant"@) || contains(h, "ax-agent"@)
}

/// A hint of an agent message.
fn is_agent_message_hint(h: &str) -> (b: bool)
    ensures
        b == agent_message_hint(h@),
{
    str_contains(h, "assistant-message") || str_contains(h, "assistant_message") || str_contains(h, "agent-message") || str_contains(h, "message-assistant") || str_contains(h, "ax-agent")
}

/// A hint of a system message.
pub open spec fn system_message_hint(h: Seq<char>) -> bool {
    contains(h, "system-message"@) || contains(h, "system_status"@)
}

/// A hint of a system message.
fn is_system_message_hint(h: &str) -> (b: bool)
    ensures
        b == system_message_hint(h@),
{
    str_contains(h, "system-message") || str_contains(h, "system_status")
}

/// The kind of surface a frame shows.
#[derive(Debug, Clone, Copy, PartialEq, Eq)]
pub enum SurfaceFamily {
    AgentChat,
    BrowserChat,
    Editor,
    Terminal,
    Other,
}

/// Words of an event that shows an agent at work.
pub open spec fn status_event_words() -> Seq<Seq<char>> {
    seq!["ax_value_changed"@, "agent_status"@, "stream"@, "thinking"@]
}

/// An event, lowercased, shows an agent at work.
pub open spec fn status_event(e: Seq<char>) -> bool {
    contains_some(ascii_lower(e), status_event_words())
}

/// Whether any of the events near a frame shows an agent at work.
pub fn has_agent_status_event(event_types: &Vec<String>) -> (b: bool)
    ensures
        b == exists|i: int| 0 <= i < event_types@.len() && #[trigger] status_event(event_types@[i]@),
{
    let words: [&str; 4] = ["ax_value_changed", "agent_status", "stream", "thinking"];
    assert(words@.map_values(|n: &str| n@) =~= status_event_words());
    let mut i: usize = 0;
    while i < event_types.len()
        invariant
            i <= event_types@.len(),
            words@.map_values(|n: &str| n@) == status_event_words(),
            forall|k: int| 0 <= k < i ==> !#[trigger] status_event(event_types@[k]@),
        decreases event_types.len() - i,
    {
        let lower = ascii_lowercase(event_types[i].as_str());
        if contains_any(lower.as_str(), &words) {
            assert(status_event(event_types@[i as int]@));
            return true;
        }
        i = i + 1;
    }
    false
}

/// The roles a span is given, with their confidences in hundredths and the
/// reason.
#[derive(Debug, Clone, PartialEq, Eq)]
pub struct RoleClassification {
    pub region_role: RegionRole,
    pub conversational_role: ConversationalRole,
    pub region_confidence_hundredths: u8,
    pub speaker_confidence_hundredths: u8,
    pub reason: String,
}

/// The roles of a span by its structural hint, the surface it is on, and
/// whether it has focus: controls and structure first, then the surface's
/// own adapters, then chat structure; otherwise the roles stay unknown.
pub open spec fn role_of(
    h: Seq<char>,
    semantic_role: Seq<char>,
    focused: bool,
    family: SurfaceFamily,
    agent_status_event: bool,
) -> (RegionRole, ConversationalRole, u8, u8, Seq<char>) {
    if contains_some(h, control_hints()) {
        (RegionRole::Control, ConversationalRole::NonConversation, 98, 99, "categorical_control_ineligible"@)
    } else if system_instruction_hint(h) {
        (RegionRole::SystemStatus, ConversationalRole::System, 96, 98, "system_instruction_ineligible"@)
    } else if sidebar_hint(h) {
        (RegionRole::Sidebar, ConversationalRole::NonConversation, 92, 95, "structural_sidebar"@)
    } else if navigation_hint(h) {
        (RegionRole::Navigation, ConversationalRole::NonConversation, 90, 95, "structural_navigation"@)
    } else if chrome_hint(h) {
        (RegionRole::AppChrome, ConversationalRole::NonConversation, 90, 95, "structural_app_chrome"@)
    } else if composer_hint(h) && focused {
        (RegionRole::Composer, ConversationalRole::User, 90, 72, "focused_composer"@)
    } else if dialog_hint(h) {
        (RegionRole::Dialog, ConversationalRole::System, 86, 82, "structural_dialog"@)
    } else if notification_hint(h) {
        (RegionRole::Notification, ConversationalRole::System, 88, 84, "structural_notification"@)
    } else if tool_output_hint(h) || semantic_role == "tool_output"@ {
        (RegionRole::ToolOutput, ConversationalRole::Tool, 90, 90, "structural_tool_output"@)
    } else if family == SurfaceFamily::Terminal {
        if terminal_input_hint(h) {
            (RegionRole::TerminalInput, ConversationalRole::NonConversation, 84, 95, "terminal_adapter_input"@)
        } else {
            (RegionRole::TerminalOutput, ConversationalRole::NonConversation, 76, 95, "terminal_adapter_output"@)
        }
    } else if family == SurfaceFamily::Editor {
        (RegionRole::EditorContent, ConversationalRole::NonConversation, 82, 95, "editor_adapter"@)
    } else if (family == SurfaceFamily::AgentChat || family == SurfaceFamily::BrowserChat) && history_hint(h) {
        (RegionRole::ConversationHistory, ConversationalRole::AssistantOrAgent, 91, 88, "chat_history_structure"@)
    } else if (family == SurfaceFamily::AgentChat || family == SurfaceFamily::BrowserChat) && user_message_hint(h) {
        (RegionRole::UserMessage, ConversationalRole::User, 94, 94, "chat_user_structure"@)
    } else if (family == SurfaceFamily::AgentChat || family == SurfaceFamily::BrowserChat) && agent_status_hint(h) {
        (RegionRole::AgentStatus, ConversationalRole::AssistantOrAgent, 95, 95, "chat_agent_status_structure"@)
    } else if (family == SurfaceFamily::AgentChat || family == SurfaceFamily::BrowserChat) && agent_message_hint(h) {
        (
            if agent_status_event {
                RegionRole::AgentStatus
            } else {
                RegionRole::AgentMessage
            },
            ConversationalRole::AssistantOrAgent,
            90,
            92,
            "chat_agent_structure"@,
        )
    } else if (family == SurfaceFamily::AgentChat || family == SurfaceFamily::BrowserChat) && system_message_hint(h) {
        (RegionRole::SystemStatus, ConversationalRole::System, 88, 90, "chat_system_structure"@)
    } else {
        (RegionRole::Unknown, ConversationalRole::Unknown, 28, 20, "insufficient_role_structure"@)
    }
}

/// A classification.
fn classified(
    region_role: RegionRole,
    conversational_role: ConversationalRole,
    region: u8,
    speaker: u8,
    reason: &str,
) -> (r: RoleClassification)
    ensures
        (r.region_role, r.conversational_role, r.region_confidence_hundredths, r.speaker_confidence_hundredths, r.reason@)
            == (region_role, conversational_role, region, speaker, reason@),
{
    RoleClassification {
        region_role,
        conversational_role,
        region_confidence_hundredths: region,
        speaker_confidence_hundredths: speaker,
        reason: copy_str(reason),
    }
}

/// The roles of a span by its structural hint, the surface it is on, and
/// whether it has focus.
pub fn classify_role(
    family: SurfaceFamily,
    has_agent_status_event: bool,
    hint: &str,
    semantic_role: &str,
    focused: bool,
) -> (r: RoleClassification)
    ensures
        (r.region_role, r.conversational_role, r.region_confidence_hundredths, r.speaker_confidence_hundredths, r.reason@)
            == role_of(hint@, semantic_role@, focused, family, has_agent_status_event),
{
    let h = hint;
    if is_categorical_control_hint(h) {
        return classified(RegionRole::Control, ConversationalRole::NonConversation, 98, 99, "categorical_control_ineligible");
    }
    if is_system_instruction_hint(h) {
        return classified(RegionRole::SystemStatus, ConversationalRole::System, 96, 98, "system_instruction_ineligible");
    }
    if is_sidebar_hint(h) {
        return classified(RegionRole::Sidebar, ConversationalRole::NonConversation, 92, 95, "structural_sidebar");
    }
    if is_navigation_hint(h) {
        return classified(RegionRole::Navigation, ConversationalRole::NonConversation, 90, 95, "structural_navigation");
    }
    if is_chrome_hint(h) {
        return classified(RegionRole::AppChrome, ConversationalRole::NonConversation, 90, 95, "structural_app_chrome");
    }
    if is_composer_hint(h) && focused {
        return classified(RegionRole::Composer, ConversationalRole::User, 90, 72, "focused_composer");
    }
    if is_dialog_hint(h) {
        return classified(RegionRole::Dialog, ConversationalRole::System, 86, 82, "structural_dialog");
    }
    if is_notification_hint(h) {
        return classified(RegionRole::Notification, ConversationalRole::System, 88, 84, "structural_notification");
    }
    if is_tool_output_hint(h) || crate::text::str_eq(semantic_role, "tool_output") {
        return classified(RegionRole::ToolOutput, ConversationalRole::Tool, 90, 90, "structural_tool_output");
    }
    match family {
        SurfaceFamily::Terminal => {
            return if is_terminal_input_hint(h) {
                classified(RegionRole::TerminalInput, ConversationalRole::NonConversation, 84, 95, "terminal_adapter_input")
            } else {
                classified(RegionRole::TerminalOutput, ConversationalRole::NonConversation, 76, 95, "terminal_adapter_output")
            };
        },
        SurfaceFamily::Editor => {
            return classified(RegionRole::EditorContent, ConversationalRole::NonConversation, 82, 95, "editor_adapter");
        },
        SurfaceFamily::AgentChat | SurfaceFamily::BrowserChat => {
            if is_history_hint(h) {
                return classified(RegionRole::ConversationHistory, ConversationalRole::AssistantOrAgent, 91, 88, "chat_history_structure");
            }
            if is_user_message_hint(h) {
                return classified(RegionRole::UserMessage, ConversationalRole::User, 94, 94, "chat_user_structure");
            }
            if is_agent_status_hint(h) {
                return classified(RegionRole::AgentStatus, ConversationalRole::AssistantOrAgent, 95, 95, "chat_agent_status_structure");
            }
            if is_agent_message_hint(h) {
                let region = if has_agent_status_event {
                    RegionRole::AgentStatus
                } else {
                    RegionRole::AgentMessage
                };
                return classified(region, ConversationalRole::AssistantOrAgent, 90, 92, "chat_agent_structure");
            }
            if is_system_message_hint(h) {
                return classified(RegionRole::SystemStatus, ConversationalRole::System, 88, 90, "chat_system_structure");
            }
        },
        SurfaceFamily::Other => {},
    }
    classified(RegionRole::Unknown, ConversationalRole::Unknown, 28, 20, "insufficient_role_structure")
}

/// A span whose hint marks a categorical control is classified as a control,
/// whatever its words, and a control is never the user's goal.
pub proof fn law_controls_are_never_user_goals(
    hint: Seq<char>,
    semantic_role: Seq<char>,
    focused: bool,
    family: SurfaceFamily,
    agent_status_event: bool,
    scope: Seq<char>,
    ownership: Seq<char>,
)
    requires
        contains_some(hint, control_hints()),
    ensures
        role_of(hint, semantic_role, focused, family, agent_status_event).0 == RegionRole::Control,
        goal_ineligibility(
            role_of(hint, semantic_role, focused, family, agent_status_event).0,
            role_of(hint, semantic_role, focused, family, agent_status_event).1,
            scope,
            ownership,
        ) == Some("categorical_control_ineligible"@),
{
}

/// Why a span was not taken into the latest turn: it cannot be a goal, it
/// is chrome or navigation, terminal output, earlier conversation, older
/// than the latest user turn, or typed with too little confidence; else it
/// was simply not salient.
pub open spec fn rejection_of(
    region: RegionRole,
    role: ConversationalRole,
    scope: Seq<char>,
    ownership: Seq<char>,
    observed_at_ms: i64,
    latest_user_observed_at_ms: Option<i64>,
    below_role_confidence: bool,
) -> Seq<char> {
    match goal_ineligibility(region, role, scope, ownership) {
        Some(reason) => reason,
        None => if region == RegionRole::Navigation || region == RegionRole::Sidebar || region
            == RegionRole::AppChrome {
            "non_conversation_region"@
        } else if region == RegionRole::TerminalOutput {
            "unrelated_terminal_pane"@
        } else if region == RegionRole::ConversationHistory {
            "prior_conversation_context"@
        } else if latest_user_observed_at_ms matches Some(t) && observed_at_ms < t {
            "older_than_latest_user_turn"@
        } else if below_role_confidence {
            "role_confidence_below_threshold"@
        } else {
            "not_salient_for_latest_turn"@
        },
    }
}

/// Why a span was not taken into the latest turn; `below_role_confidence`
/// says whether its region was typed with less than the confidence a typed
/// role needs.
pub fn rejection_reason(
    region_role: RegionRole,
    conversational_role: ConversationalRole,
    source_scope: &str,
    ownership_kind: &str,
    observed_at_ms: i64,
    latest_user_observed_at_ms: Option<i64>,
    below_role_confidence: bool,
) -> (r: String)
    ensures
        r@ == rejection_of(
            region_role,
            conversational_role,
            source_scope@,
            ownership_kind@,
            observed_at_ms,
            latest_user_observed_at_ms,
            below_role_confidence,
        ),
{
    if let Some(reason) = user_goal_ineligibility(region_role, conversational_role, source_scope, ownership_kind) {
        return copy_str(reason);
    }
    match region_role {
        RegionRole::Navigation | RegionRole::Sidebar | RegionRole::AppChrome => {
            return copy_str("non_conversation_region");
        },
        RegionRole::TerminalOutput => {
            return copy_str("unrelated_terminal_pane");
        },
        RegionRole::ConversationHistory => {
            return copy_str("prior_conversation_context");
        },
        _ => {},
    }
    let older = match latest_user_observed_at_ms {
        Some(t) => observed_at_ms < t,
        None => false,
    };
    if older {
        copy_str("older_than_latest_user_turn")
    } else if below_role_confidence {
        copy_str("role_confidence_below_threshold")
    } else {
        copy_str("not_salient_for_latest_turn")
    }
}

/// An agent chat and a chat in a browser are read alike: every span gets the
/// same roles, confidences and reason on both.
pub proof fn law_chat_surfaces_read_alike(h: Seq<char>, semantic_role: Seq<char>, focused: bool, agent_status_event: bool)
    ensures
        role_of(h, semantic_role, focused, SurfaceFamily::AgentChat, agent_status_event) == role_of(
            h,
            semantic_role,
            focused,
            SurfaceFamily::BrowserChat,
            agent_status_event,
        ),
{
}

/// On a chat surface, of an agent or in a browser, a span marked as a
/// user's message and not as a control, system instruction, sidebar,
/// navigation, app chrome, focused composer, dialog, notification, tool
/// output or history is the user's message, spoken by the user, with 94
/// hundredths of confidence in both and the chat user structure as reason;
/// and only a chat surface has user messages.
pub proof fn law_chat_user_messages_are_the_users(
    h: Seq<char>,
    semantic_role: Seq<char>,
    focused: bool,
    family: SurfaceFamily,
    agent_status_event: bool,
)
    ensures
        (family == SurfaceFamily::AgentChat || family == SurfaceFamily::BrowserChat) && user_message_hint(h)
            && !contains_some(h, control_hints()) && !system_instruction_hint(h) && !sidebar_hint(h)
            && !navigation_hint(h) && !chrome_hint(h) && !(composer_hint(h) && focused) && !dialog_hint(h)
            && !notification_hint(h) && !tool_output_hint(h) && semantic_role != "tool_output"@
            && !history_hint(h) ==> {
            let r = role_of(h, semantic_role, focused, family, agent_status_event);
            &&& r.0 == RegionRole::UserMessage
            &&& r.1 == ConversationalRole::User
            &&& r.2 == 94 && r.3 == 94
            &&& r.4 == "chat_user_structure"@
        },
        role_of(h, semantic_role, focused, family, agent_status_event).0 == RegionRole::UserMessage
            ==> family == SurfaceFamily::AgentChat || family == SurfaceFamily::BrowserChat,
{
}

} // verus!
