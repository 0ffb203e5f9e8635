//! Decision logic of the desktop-layer attacher.
//!
//! Attaching reparents the caller's top-level window into the desktop
//! shell's background rendering layer. The shell-side windows are located
//! by structural pattern matching over the host's top-level windows; the
//! caller's window is then restyled, reparented and fitted to the layer's
//! client area. Every window-manager call is performed by an unverified
//! host driver; this module holds the decisions: which window is the
//! attach target, which style words are written, which geometry is applied,
//! and in which order the steps run.

use vstd::prelude::*;

verus! {

/// Null window-handle sentinel: the absent window.
pub const NULL_WINDOW: u64 = 0;

/// Class name of the desktop-manager root window.
pub const ROOT_WINDOW_CLASS: &'static str = "Progman";

/// Class name of the icon-view child that identifies the reference window.
pub const ICON_VIEW_CLASS: &'static str = "SHELLDLL_DefView";

/// Class name of the background container window.
pub const CONTAINER_CLASS: &'static str = "WorkerW";

/// Message code sent to the root window to make the shell spawn the
/// background container.
pub const SPAWN_MESSAGE: u32 = 0x052C;

/// Parameter value carried by the spawn message.
pub const SPAWN_WPARAM: u64 = 0x0D;

/// Style bit: the window has a title bar.
pub const WS_CAPTION: u32 = 0x00C0_0000;

/// Style bit: the window has a resizable border.
pub const WS_THICKFRAME: u32 = 0x0004_0000;

/// Style bit: the window has a minimize box.
pub const WS_MINIMIZEBOX: u32 = 0x0002_0000;

/// Style bit: the window has a maximize box.
pub const WS_MAXIMIZEBOX: u32 = 0x0001_0000;

/// Style bit: the window has a system menu.
pub const WS_SYSMENU: u32 = 0x0008_0000;

/// Style bit: the window is a popup window.
pub const WS_POPUP: u32 = 0x8000_0000;

/// Style bit: the window is a child window.
pub const WS_CHILD: u32 = 0x4000_0000;

/// Style bit: the window is visible.
pub const WS_VISIBLE: u32 = 0x1000_0000;

/// Extended style bit: the window is not activated when shown.
pub const WS_EX_NOACTIVATE: u32 = 0x0800_0000;

/// Extended style bit: tool window, excluded from taskbar and alt-tab.
pub const WS_EX_TOOLWINDOW: u32 = 0x0000_0080;

/// Positioning flag: show the window.
pub const SWP_SHOWWINDOW: u32 = 0x0040;

/// Positioning flag: recompute non-client frame metrics.
pub const SWP_FRAMECHANGED: u32 = 0x0020;

/// Z-order target: place the window at the bottom of its siblings.
pub const INSERT_AFTER_BOTTOM: u64 = 1;

/// The style word of an embedded window: the decorated-top-level bits are
/// cleared and the child-layer bits are set.
pub open spec fn spec_embedded_style(style: u32) -> u32 {
    (style & !(WS_CAPTION | WS_THICKFRAME | WS_MINIMIZEBOX | WS_MAXIMIZEBOX | WS_SYSMENU
        | WS_POPUP)) | (WS_CHILD | WS_VISIBLE)
}

/// The extended style word of an embedded window: a pure superset of the
/// original, adding the no-activate and tool-window bits.
pub open spec fn spec_embedded_ex_style(ex_style: u32) -> u32 {
    ex_style | (WS_EX_NOACTIVATE | WS_EX_TOOLWINDOW)
}

/// Compute the style word written back to the caller's window.
pub fn embedded_style(style: u32) -> (r: u32)
    ensures
        r == spec_embedded_style(style),
        r == (style & !(WS_CAPTION | WS_THICKFRAME | WS_MINIMIZEBOX | WS_MAXIMIZEBOX | WS_SYSMENU
            | WS_POPUP)) | (WS_CHILD | WS_VISIBLE),
{
    (style & !(WS_CAPTION | WS_THICKFRAME | WS_MINIMIZEBOX | WS_MAXIMIZEBOX | WS_SYSMENU
        | WS_POPUP)) | (WS_CHILD | WS_VISIBLE)
}

/// Compute the extended style word written back to the caller's window.
pub fn embedded_ex_style(ex_style: u32) -> (r: u32)
    ensures
        r == spec_embedded_ex_style(ex_style),
        r == ex_style | (WS_EX_NOACTIVATE | WS_EX_TOOLWINDOW),
{
    ex_style | (WS_EX_NOACTIVATE | WS_EX_TOOLWINDOW)
}

/// Writing the embedded style twice is the same as writing it once, and
/// likewise for the extended style, so re-running the attachment on an
/// already-attached window leaves both style words unchanged; the placement
/// is a pure function of the container rectangle, so an unchanged container
/// also yields an unchanged geometry.
pub proof fn lemma_attach_idempotent(style: u32, ex_style: u32)
    ensures
        spec_embedded_style(spec_embedded_style(style)) == spec_embedded_style(style),
        spec_embedded_ex_style(spec_embedded_ex_style(ex_style)) == spec_embedded_ex_style(
            ex_style,
        ),
{
    assert(spec_embedded_style(spec_embedded_style(style)) == spec_embedded_style(style))
        by (bit_vector);
    assert(spec_embedded_ex_style(spec_embedded_ex_style(ex_style)) == spec_embedded_ex_style(
        ex_style,
    )) by (bit_vector);
}

/// The embedded extended style never clears a bit: every bit set in the
/// original extended style survives.
pub proof fn lemma_ex_style_keeps_bits(ex_style: u32)
    ensures
        spec_embedded_ex_style(ex_style) & ex_style == ex_style,
{
    assert(spec_embedded_ex_style(ex_style) & ex_style == ex_style) by (bit_vector);
}

/// A window's client-area bounds, origin-relative.
#[derive(Clone, Copy, PartialEq, Eq, Debug)]
pub struct Rect {
    pub left: i32,
    pub top: i32,
    pub right: i32,
    pub bottom: i32,
}

/// The rectangle's extent fits the machine's signed word, so its width and
/// height can be computed.
pub open spec fn rect_fits(rect: Rect) -> bool {
    &&& i32::MIN <= rect.right - rect.left <= i32::MAX
    &&& i32::MIN <= rect.bottom - rect.top <= i32::MAX
}

/// Where and how the caller's window is placed inside its new parent.
#[derive(Clone, Copy, PartialEq, Eq, Debug)]
pub struct Placement {
    pub x: i32,
    pub y: i32,
    pub width: i32,
    pub height: i32,
    pub insert_after: u64,
    pub flags: u32,
}

/// The placement that fits the caller's window to a container client
/// rectangle: origin, the container's width and height, bottom of the
/// z-order, shown with a frame-change notification.
pub open spec fn spec_embed_placement(rect: Rect) -> Placement {
    Placement {
        x: 0,
        y: 0,
        width: (rect.right - rect.left) as i32,
        height: (rect.bottom - rect.top) as i32,
        insert_after: INSERT_AFTER_BOTTOM,
        flags: SWP_SHOWWINDOW | SWP_FRAMECHANGED,
    }
}

/// Compute the placement of the caller's window from the container's
/// client rectangle.
pub fn embed_placement(rect: Rect) -> (p: Placement)
    requires
        rect_fits(rect),
    ensures
        p == spec_embed_placement(rect),
        p.x == 0 && p.y == 0,
        p.width == rect.right - rect.left,
        p.height == rect.bottom - rect.top,
        p.insert_after == INSERT_AFTER_BOTTOM,
        p.flags == SWP_SHOWWINDOW | SWP_FRAMECHANGED,
{
    Placement {
        x: 0,
        y: 0,
        width: rect.right - rect.left,
        height: rect.bottom - rect.top,
        insert_after: INSERT_AFTER_BOTTOM,
        flags: SWP_SHOWWINDOW | SWP_FRAMECHANGED,
    }
}

/// What the structural probes report of one top-level window: whether it
/// hosts an icon-view child, and the handle of the first container-class
/// window positioned after it among the host's top-level windows
/// (`NULL_WINDOW` if there is none).
#[derive(Clone, Copy, PartialEq, Eq, Debug)]
pub struct Candidate {
    pub hosts_icon_view: bool,
    pub trailing_container: u64,
}

/// The attach target taken from a reference window's probe: the trailing
/// container, if one exists.
pub open spec fn candidate_result(c: Candidate) -> Option<u64> {
    if c.trailing_container != NULL_WINDOW {
        Some(c.trailing_container)
    } else {
        None
    }
}

/// What the per-window examination decides: keep enumerating, or stop with
/// the target taken from this window.
#[derive(Clone, Copy, PartialEq, Eq, Debug)]
pub enum ScanStep {
    Continue,
    Stop { container: Option<u64> },
}

/// The decision taken on one candidate: the first window hosting an
/// icon-view child stops the enumeration, whether or not a trailing
/// container was found beside it.
pub open spec fn spec_examine(c: Candidate) -> ScanStep {
    if c.hosts_icon_view {
        ScanStep::Stop { container: candidate_result(c) }
    } else {
        ScanStep::Continue
    }
}

/// Examine one enumerated top-level window.
pub fn examine_candidate(c: &Candidate) -> (r: ScanStep)
    ensures
        r == spec_examine(*c),
{
    if c.hosts_icon_view {
        if c.trailing_container != NULL_WINDOW {
            ScanStep::Stop { container: Some(c.trailing_container) }
        } else {
            ScanStep::Stop { container: None }
        }
    } else {
        ScanStep::Continue
    }
}

/// The target that scanning the candidates from position `i` on yields:
/// taken from the first reference window at or after `i`, absent if there
/// is none.
pub open spec fn locate_from(s: Seq<Candidate>, i: int) -> Option<u64>
    decreases s.len() - i,
{
    if i < 0 || i >= s.len() {
        None
    } else if s[i].hosts_icon_view {
        candidate_result(s[i])
    } else {
        locate_from(s, i + 1)
    }
}

/// How many candidates a scan from position `i` examines before stopping:
/// up to and including the first reference window, or all of them.
pub open spec fn examined_from(s: Seq<Candidate>, i: int) -> int
    decreases s.len() - i,
{
    if i < 0 || i >= s.len() {
        i
    } else if s[i].hosts_icon_view {
        i + 1
    } else {
        examined_from(s, i + 1)
    }
}

/// Scan a sequence of enumerated top-level windows for the attach target.
/// Returns the located container (if any) and how many candidates were
/// examined: enumeration short-circuits at the first reference window.
pub fn locate_container(candidates: &Vec<Candidate>) -> (r: (Option<u64>, usize))
    ensures
        r.0 == locate_from(candidates@, 0),
        r.1 == examined_from(candidates@, 0),
        r.1 <= candidates@.len(),
{
    let mut i: usize = 0;
    while i < candidates.len()
        invariant
            i <= candidates@.len(),
            locate_from(candidates@, 0) == locate_from(candidates@, i as int),
            examined_from(candidates@, 0) == examined_from(candidates@, i as int),
        decreases candidates@.len() - i,
    {
        match examine_candidate(&candidates[i]) {
            ScanStep::Continue => {
                proof {
                    assert(locate_from(candidates@, i as int) == locate_from(candidates@, i + 1));
                    assert(examined_from(candidates@, i as int) == examined_from(
                        candidates@,
                        i + 1,
                    ));
                }
                i += 1;
            },
            ScanStep::Stop { container } => {
                return (container, i + 1);
            },
        }
    }
    (None, i)
}

/// The scan stops at the first reference window: if position `k` holds the
/// first candidate hosting an icon-view child, exactly `k + 1` candidates
/// are examined — later positions are never evaluated — and the target is
/// taken from position `k`.
pub proof fn lemma_scan_stops_at_first_match(s: Seq<Candidate>, k: int)
    requires
        0 <= k < s.len(),
        s[k].hosts_icon_view,
        forall|j: int| 0 <= j < k ==> !s[j].hosts_icon_view,
    ensures
        examined_from(s, 0) == k + 1,
        locate_from(s, 0) == candidate_result(s[k]),
{
    lemma_scan_from(s, k, 0);
}

proof fn lemma_scan_from(s: Seq<Candidate>, k: int, i: int)
    requires
        0 <= i <= k < s.len(),
        s[k].hosts_icon_view,
        forall|j: int| i <= j < k ==> !s[j].hosts_icon_view,
    ensures
        examined_from(s, i) == k + 1,
        locate_from(s, i) == candidate_result(s[k]),
    decreases k - i,
{
    if i < k {
        lemma_scan_from(s, k, i + 1);
    }
}

/// A scan over candidates none of which hosts an icon-view child examines
/// them all and finds no target.
pub proof fn lemma_scan_exhausts_without_match(s: Seq<Candidate>)
    requires
        forall|j: int| 0 <= j < s.len() ==> !s[j].hosts_icon_view,
    ensures
        locate_from(s, 0) is None,
        examined_from(s, 0) == s.len(),
{
    lemma_scan_exhausts_from(s, 0);
}

proof fn lemma_scan_exhausts_from(s: Seq<Candidate>, i: int)
    requires
        0 <= i <= s.len(),
        forall|j: int| i <= j < s.len() ==> !s[j].hosts_icon_view,
    ensures
        locate_from(s, i) is None,
        examined_from(s, i) == s.len(),
    decreases s.len() - i,
{
    if i < s.len() {
        lemma_scan_exhausts_from(s, i + 1);
    }
}

/// Why an attach attempt failed.
#[derive(PartialEq, Eq, Debug)]
pub enum AttachError {
    /// The background container window could not be located.
    TargetNotFound,
    /// The caller's window could not be resolved to a native handle.
    HandleUnresolved { detail: String },
}

impl AttachError {
    /// The human-readable rendering of the error.
    pub open spec fn spec_message(&self) -> Seq<char> {
        match self {
            AttachError::TargetNotFound => "Could not find WorkerW"@,
            AttachError::HandleUnresolved { detail } => detail@,
        }
    }

    /// Render the error for the caller.
    pub fn message(&self) -> (r: String)
        ensures
            r@ == self.spec_message(),
    {
        match self {
            AttachError::TargetNotFound => "Could not find WorkerW".to_owned(),
            AttachError::HandleUnresolved { detail } => detail.clone(),
        }
    }
}

/// Where an attach attempt stands. Each phase names the single
/// window-manager action the host driver performs next; the driver reports
/// what the action yielded as an `Event` and steps the machine.
#[derive(PartialEq, Eq, Debug)]
pub enum AttachPhase {
    /// Look up the desktop-manager root window by its class name.
    LocatingRoot,
    /// Send the spawn message to the root window (sent even when the root
    /// lookup yielded the null window: a missing container surfaces later
    /// as `TargetNotFound`).
    Triggering { root: u64 },
    /// Enumerate the host's top-level windows, examining each candidate
    /// until one stops the scan.
    Scanning,
    /// Resolve the caller's window to its native handle.
    Resolving { container: u64 },
    /// Read the caller's style word.
    ReadingStyle { window: u64, container: u64 },
    /// Write the embedded style word; the outcome is not escalated.
    WritingStyle { window: u64, container: u64, value: u32 },
    /// Read the caller's extended style word.
    ReadingExStyle { window: u64, container: u64 },
    /// Write the embedded extended style word; the outcome is not escalated.
    WritingExStyle { window: u64, container: u64, value: u32 },
    /// Reparent the caller's window under the container.
    Reparenting { window: u64, container: u64 },
    /// Read the container's client rectangle.
    ReadingRect { window: u64, container: u64 },
    /// Apply the computed placement; the outcome is not escalated.
    Positioning { window: u64, container: u64, placement: Placement },
    /// The attachment is complete.
    Done,
    /// The attempt failed; no further action is taken.
    Failed { error: AttachError },
}

/// What the host driver reports back after performing a phase's action.
#[derive(PartialEq, Eq, Debug)]
pub enum Event {
    /// The root window lookup yielded this handle (`NULL_WINDOW` if absent).
    RootLocated { root: u64 },
    /// The spawn message round-trip completed.
    SpawnTriggered,
    /// Enumeration finished with the located container, if any.
    ScanFinished { container: Option<u64> },
    /// Native-handle resolution succeeded with the handle, or failed with
    /// the abstraction's rendering of the fault.
    HandleResolved { outcome: Result<u64, String> },
    /// The style word read from the caller's window.
    StyleRead { value: u32 },
    /// The extended style word read from the caller's window.
    ExStyleRead { value: u32 },
    /// The client rectangle read from the container.
    RectRead { rect: Rect },
    /// A best-effort mutation completed; whether it succeeded is recorded
    /// but deliberately ignored.
    StepDone { succeeded: bool },
}

/// Whether `event` is the kind of report the phase's action produces. The
/// terminal phases admit no event. A rectangle report must fit the machine
/// word so the placement can be computed.
pub open spec fn event_fits(phase: AttachPhase, event: Event) -> bool {
    match (phase, event) {
        (AttachPhase::LocatingRoot, Event::RootLocated { .. }) => true,
        (AttachPhase::Triggering { .. }, Event::SpawnTriggered) => true,
        (AttachPhase::Scanning, Event::ScanFinished { .. }) => true,
        (AttachPhase::Resolving { .. }, Event::HandleResolved { .. }) => true,
        (AttachPhase::ReadingStyle { .. }, Event::StyleRead { .. }) => true,
        (AttachPhase::WritingStyle { .. }, Event::StepDone { .. }) => true,
        (AttachPhase::ReadingExStyle { .. }, Event::ExStyleRead { .. }) => true,
        (AttachPhase::WritingExStyle { .. }, Event::StepDone { .. }) => true,
        (AttachPhase::Reparenting { .. }, Event::StepDone { .. }) => true,
        (AttachPhase::ReadingRect { .. }, Event::RectRead { rect }) => rect_fits(rect),
        (AttachPhase::Positioning { .. }, Event::StepDone { .. }) => true,
        _ => false,
    }
}

/// The transition relation of the attacher: given the report for the
/// current phase's action, the phase that follows. A scan without a
/// container and a failed handle resolution are the only reported errors;
/// best-effort mutation outcomes are dropped.
pub open spec fn spec_step(phase: AttachPhase, event: Event) -> AttachPhase {
    match (phase, event) {
        (AttachPhase::LocatingRoot, Event::RootLocated { root }) => AttachPhase::Triggering {
            root,
        },
        (AttachPhase::Triggering { .. }, Event::SpawnTriggered) => AttachPhase::Scanning,
        (AttachPhase::Scanning, Event::ScanFinished { container }) => match container {
            Some(c) => AttachPhase::Resolving { container: c },
            None => AttachPhase::Failed { error: AttachError::TargetNotFound },
        },
        (AttachPhase::Resolving { container }, Event::HandleResolved { outcome }) => match outcome {
            Ok(w) => AttachPhase::ReadingStyle { window: w, container },
            Err(detail) => AttachPhase::Failed {
                error: AttachError::HandleUnresolved { detail },
            },
        },
        (AttachPhase::ReadingStyle { window, container }, Event::StyleRead { value }) => {
            AttachPhase::WritingStyle { window, container, value: spec_embedded_style(value) }
        },
        (AttachPhase::WritingStyle { window, container, .. }, Event::StepDone { .. }) => {
            AttachPhase::ReadingExStyle { window, container }
        },
        (AttachPhase::ReadingExStyle { window, container }, Event::ExStyleRead { value }) => {
            AttachPhase::WritingExStyle {
                window,
                container,
                value: spec_embedded_ex_style(value),
            }
        },
        (AttachPhase::WritingExStyle { window, container, .. }, Event::StepDone { .. }) => {
            AttachPhase::Reparenting { window, container }
        },
        (AttachPhase::Reparenting { window, container }, Event::StepDone { .. }) => {
            AttachPhase::ReadingRect { window, container }
        },
        (AttachPhase::ReadingRect { window, container }, Event::RectRead { rect }) => {
            AttachPhase::Positioning { window, container, placement: spec_embed_placement(rect) }
        },
        (AttachPhase::Positioning { .. }, Event::StepDone { .. }) => AttachPhase::Done,
        (p, _) => p,
    }
}

/// The phase an attach attempt starts in.
pub fn initial_phase() -> (p: AttachPhase)
    ensures
        p == AttachPhase::LocatingRoot,
{
    AttachPhase::LocatingRoot
}

/// Step the attacher: consume the report for the current phase's action
/// and move to the next phase.
pub fn step(phase: AttachPhase, event: Event) -> (next: AttachPhase)
    requires
        event_fits(phase, event),
    ensures
        next == spec_step(phase, event),
{
    match (phase, event) {
        (AttachPhase::LocatingRoot, Event::RootLocated { root }) => AttachPhase::Triggering {
            root,
        },
        (AttachPhase::Triggering { .. }, Event::SpawnTriggered) => AttachPhase::Scanning,
        (AttachPhase::Scanning, Event::ScanFinished { container }) => match container {
            Some(c) => AttachPhase::Resolving { container: c },
            None => AttachPhase::Failed { error: AttachError::TargetNotFound },
        },
        (AttachPhase::Resolving { container }, Event::HandleResolved { outcome }) => match outcome {
            Ok(w) => AttachPhase::ReadingStyle { window: w, container },
            Err(detail) => AttachPhase::Failed {
                error: AttachError::HandleUnresolved { detail },
            },
        },
        (AttachPhase::ReadingStyle { window, container }, Event::StyleRead { value }) => {
            AttachPhase::WritingStyle { window, container, value: embedded_style(value) }
        },
        (AttachPhase::WritingStyle { window, container, .. }, Event::StepDone { .. }) => {
            AttachPhase::ReadingExStyle { window, container }
        },
        (AttachPhase::ReadingExStyle { window, container }, Event::ExStyleRead { value }) => {
            AttachPhase::WritingExStyle { window, container, value: embedded_ex_style(value) }
        },
        (AttachPhase::WritingExStyle { window, container, .. }, Event::StepDone { .. }) => {
            AttachPhase::Reparenting { window, container }
        },
        (AttachPhase::Reparenting { window, container }, Event::StepDone { .. }) => {
            AttachPhase::ReadingRect { window, container }
        },
        (AttachPhase::ReadingRect { window, container }, Event::RectRead { rect }) => {
            AttachPhase::Positioning { window, container, placement: embed_placement(rect) }
        },
        (AttachPhase::Positioning { .. }, Event::StepDone { .. }) => AttachPhase::Done,
        (p, _) => p,
    }
}

/// Whether the phase's pending action mutates the caller's window: a style
/// write, a reparenting, or a repositioning.
pub open spec fn mutating_phase(phase: AttachPhase) -> bool {
    match phase {
        AttachPhase::WritingStyle { .. } => true,
        AttachPhase::WritingExStyle { .. } => true,
        AttachPhase::Reparenting { .. } => true,
        AttachPhase::Positioning { .. } => true,
        _ => false,
    }
}

/// Whether driving the machine from `phase` with the reports in `events`
/// ever puts it in a phase whose action mutates the caller's window. The
/// driver stops at the first report that does not fit.
pub open spec fn reaches_mutation(phase: AttachPhase, events: Seq<Event>) -> bool
    decreases events.len(),
{
    if mutating_phase(phase) {
        true
    } else if events.len() == 0 {
        false
    } else if event_fits(phase, events[0]) {
        reaches_mutation(spec_step(phase, events[0]), events.drop_first())
    } else {
        false
    }
}

/// A failed attempt is inert: no sequence of reports can drive the machine
/// out of the failed phase, in particular never into a mutating one.
pub proof fn lemma_failed_phase_mutates_nothing(error: AttachError, events: Seq<Event>)
    ensures
        !reaches_mutation((AttachPhase::Failed { error }), events),
{
    if events.len() > 0 {
        assert(!event_fits(AttachPhase::Failed { error }, events[0]));
    }
}

/// When enumeration reports that no window satisfied the structural match,
/// the attempt fails with `TargetNotFound`, and no later report can drive
/// the machine into a phase that would mutate the caller's window.
pub proof fn lemma_target_not_found_mutates_nothing(events: Seq<Event>)
    ensures
        spec_step(AttachPhase::Scanning, (Event::ScanFinished { container: None }))
            == (AttachPhase::Failed { error: AttachError::TargetNotFound }),
        !reaches_mutation(
            spec_step(AttachPhase::Scanning, (Event::ScanFinished { container: None })),
            events,
        ),
{
    lemma_failed_phase_mutates_nothing(AttachError::TargetNotFound, events);
}

/// When native-handle resolution reports a fault, the attempt fails with
/// `HandleUnresolved` carrying that fault, and no later report can drive
/// the machine into a phase that would mutate the caller's window.
pub proof fn lemma_unresolved_handle_mutates_nothing(
    container: u64,
    detail: String,
    events: Seq<Event>,
)
    ensures
        spec_step(
            (AttachPhase::Resolving { container }),
            (Event::HandleResolved { outcome: Err(detail) }),
        ) == (AttachPhase::Failed { error: AttachError::HandleUnresolved { detail } }),
        !reaches_mutation(
            spec_step(
                (AttachPhase::Resolving { container }),
                (Event::HandleResolved { outcome: Err(detail) }),
            ),
            events,
        ),
{
    lemma_failed_phase_mutates_nothing(AttachError::HandleUnresolved { detail }, events);
}

/// Whether the phase lies before the enumeration result is consumed.
pub open spec fn pre_scan_phase(phase: AttachPhase) -> bool {
    match phase {
        AttachPhase::LocatingRoot => true,
        AttachPhase::Triggering { .. } => true,
        AttachPhase::Scanning => true,
        _ => false,
    }
}

/// Whether the phase lies before the native-handle resolution result is
/// consumed.
pub open spec fn pre_resolve_phase(phase: AttachPhase) -> bool {
    pre_scan_phase(phase) || phase matches AttachPhase::Resolving { .. }
}

/// Whether the report announces a located container.
pub open spec fn is_container_report(event: Event) -> bool {
    event matches Event::ScanFinished { container: Some(_) }
}

/// Whether the report announces a resolved native handle.
pub open spec fn is_resolution_report(event: Event) -> bool {
    event matches Event::HandleResolved { outcome: Ok(_) }
}

/// No mutation without a located container: a run that starts before the
/// enumeration result is consumed and reaches a mutating phase must
/// contain a report that the scan located a container.
pub proof fn lemma_mutation_requires_container(phase: AttachPhase, events: Seq<Event>)
    requires
        pre_scan_phase(phase),
        reaches_mutation(phase, events),
    ensures
        exists|i: int| 0 <= i < events.len() && is_container_report(#[trigger] events[i]),
    decreases events.len(),
{
    let ev = events[0];
    let next = spec_step(phase, ev);
    if pre_scan_phase(next) {
        lemma_mutation_requires_container(next, events.drop_first());
        let i = choose|i: int|
            0 <= i < events.drop_first().len() && is_container_report(
                #[trigger] events.drop_first()[i],
            );
        assert(is_container_report(events[i + 1]));
    } else {
        match next {
            AttachPhase::Failed { error } => {
                lemma_failed_phase_mutates_nothing(error, events.drop_first());
            },
            _ => {
                assert(is_container_report(events[0]));
            },
        }
    }
}

/// No mutation without a resolved handle: a run that starts before the
/// handle-resolution result is consumed and reaches a mutating phase must
/// contain a report that the caller's native handle was resolved.
pub proof fn lemma_mutation_requires_resolved_handle(phase: AttachPhase, events: Seq<Event>)
    requires
        pre_resolve_phase(phase),
        reaches_mutation(phase, events),
    ensures
        exists|i: int| 0 <= i < events.len() && is_resolution_report(#[trigger] events[i]),
    decreases events.len(),
{
    let ev = events[0];
    let next = spec_step(phase, ev);
    if pre_resolve_phase(next) {
        lemma_mutation_requires_resolved_handle(next, events.drop_first());
        let i = choose|i: int|
            0 <= i < events.drop_first().len() && is_resolution_report(
                #[trigger] events.drop_first()[i],
            );
        assert(is_resolution_report(events[i + 1]));
    } else {
        match next {
            AttachPhase::Failed { error } => {
                lemma_failed_phase_mutates_nothing(error, events.drop_first());
            },
            _ => {
                assert(is_resolution_report(events[0]));
            },
        }
    }
}

} // verus!
