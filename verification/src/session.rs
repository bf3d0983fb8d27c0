//! Modal session state machine.
//!
//! The session owns the current mode (normal browsing, pod-search overlay,
//! post-delete overlay), the displayed text buffer, the scroll viewport, the
//! active target and the one-shot pending action flags.  Keyboard dispatch
//! and result application are pure transitions; the surrounding event loop
//! performs the provider calls and hands their results back.

use vstd::prelude::*;

use crate::resolver::resolve;
use crate::resolver::spec_resolve;
use crate::resolver::PodIdentifier;
use crate::resolver::PodView;
use crate::resolver::ResolutionError;
use crate::text::spec_line_count;
use crate::text::TextBuffer;
use crate::viewport::ScrollUnit;
use crate::viewport::ViewportState;

verus! {

/// Keyboard events the session understands; the terminal layer translates
/// raw input into these.
#[derive(Clone, Copy, PartialEq, Eq, Structural, Debug)]
pub enum Key {
    Char(char),
    Up,
    Down,
    PageUp,
    PageDown,
    Enter,
    Esc,
    Backspace,
    Other,
}

/// Which modal surface currently captures input.
#[derive(Clone, Copy, PartialEq, Eq, Structural, Debug)]
pub enum Mode {
    Normal,
    PodSearch,
    PodDeletedConfirm,
}

/// One-shot action flags raised by input handling and drained once per tick.
/// Raising an already-pending flag is idempotent.
#[derive(Clone, Copy, PartialEq, Eq, Structural, Debug)]
pub struct PendingActions {
    pub refetch_logs: bool,
    pub refetch_previous_container_logs: bool,
    pub delete_pod: bool,
}

/// Failure of a content-provider call, as the session records it.
#[derive(Clone, Copy, PartialEq, Eq, Structural, Debug)]
pub enum ProviderError {
    CommandFailed,
    IOFailure,
}

/// What the session last failed at; rendered as an inline indicator while
/// the prior content stays visible.
#[derive(Clone, Copy, PartialEq, Eq, Structural, Debug)]
pub enum SessionError {
    Resolution(ResolutionError),
    Provider(ProviderError),
}

/// A synchronous action the event loop must perform right after a key
/// dispatch.
#[derive(Clone, Copy, PartialEq, Eq, Structural, Debug)]
pub enum Directive {
    Idle,
    Quit,
    FetchDescription,
    FetchListing,
    ExecInteractive,
    OpenInEditor,
    ResolveTarget,
}

/// Where the viewport lands after fresh content arrives.
#[derive(Clone, Copy, PartialEq, Eq, Structural, Debug)]
pub enum ScrollReset {
    End,
    Start,
}

/// Spec-level image of the whole session.
pub struct SessionView {
    pub mode: Mode,
    pub input: Seq<char>,
    pub pending: PendingActions,
    pub viewport: ViewportState,
    pub buffer: Seq<char>,
    pub target: PodView,
    pub last_error: Option<SessionError>,
}

impl SessionView {
    /// The viewport is well-formed and tracks the buffer's line count.
    pub open spec fn wf(self) -> bool {
        &&& self.viewport.wf()
        &&& self.viewport.content_length == spec_line_count(self.buffer)
    }
}

/// The session state: mode, search input, pending actions, viewport, text
/// buffer, active target and last failure indicator.
pub struct SessionState {
    pub mode: Mode,
    pub input: Vec<char>,
    pub pending: PendingActions,
    pub viewport: ViewportState,
    pub buffer: TextBuffer,
    pub target: PodIdentifier,
    pub last_error: Option<SessionError>,
}

impl View for SessionState {
    type V = SessionView;

    open spec fn view(&self) -> SessionView {
        SessionView {
            mode: self.mode,
            input: self.input@,
            pending: self.pending,
            viewport: self.viewport,
            buffer: self.buffer.content@,
            target: self.target@,
            last_error: self.last_error,
        }
    }
}

/// Which keys the normal-mode dispatch table assigns a meaning to.
pub open spec fn normal_key_in_table(k: Key) -> bool {
    match k {
        Key::Char(c) => c == 'q' || c == 's' || c == 'f' || c == 'l' || c == 'p' || c == 'd' || c
            == 'w' || c == 'e' || c == 'v' || c == 'j' || c == 'k',
        Key::Up | Key::Down | Key::PageUp | Key::PageDown => true,
        _ => false,
    }
}

/// The synchronous action a key requires in the given state.
pub open spec fn spec_directive(s: SessionView, k: Key) -> Directive {
    match s.mode {
        Mode::Normal => match k {
            Key::Char(c) => if c == 'q' {
                Directive::Quit
            } else if c == 'd' {
                Directive::FetchDescription
            } else if c == 'w' {
                Directive::FetchListing
            } else if c == 'e' {
                Directive::ExecInteractive
            } else if c == 'v' {
                Directive::OpenInEditor
            } else {
                Directive::Idle
            },
            _ => Directive::Idle,
        },
        Mode::PodSearch => match k {
            Key::Enter => Directive::ResolveTarget,
            _ => Directive::Idle,
        },
        Mode::PodDeletedConfirm => match k {
            Key::Char(c) => if c == 'q' {
                Directive::Quit
            } else {
                Directive::Idle
            },
            _ => Directive::Idle,
        },
    }
}

/// The state a key dispatch leaves the session in.
pub open spec fn spec_step(s: SessionView, k: Key) -> SessionView {
    match s.mode {
        Mode::Normal => match k {
            Key::Char(c) => if c == 's' {
                SessionView { mode: Mode::PodSearch, input: Seq::empty(), ..s }
            } else if c == 'f' {
                SessionView { pending: (PendingActions { refetch_logs: true, ..s.pending }), ..s }
            } else if c == 'l' {
                SessionView {
                    pending: (PendingActions {
                        refetch_previous_container_logs: true,
                        ..s.pending
                    }),
                    ..s
                }
            } else if c == 'p' {
                SessionView { pending: (PendingActions { delete_pod: true, ..s.pending }), ..s }
            } else if c == 'j' {
                SessionView { viewport: s.viewport.spec_scroll_by(1, ScrollUnit::Line), ..s }
            } else if c == 'k' {
                SessionView { viewport: s.viewport.spec_scroll_by(-1, ScrollUnit::Line), ..s }
            } else {
                s
            },
            Key::Down => SessionView {
                viewport: s.viewport.spec_scroll_by(1, ScrollUnit::Line),
                ..s
            },
            Key::Up => SessionView {
                viewport: s.viewport.spec_scroll_by(-1, ScrollUnit::Line),
                ..s
            },
            Key::PageDown => SessionView {
                viewport: s.viewport.spec_scroll_by(1, ScrollUnit::Page),
                ..s
            },
            Key::PageUp => SessionView {
                viewport: s.viewport.spec_scroll_by(-1, ScrollUnit::Page),
                ..s
            },
            _ => s,
        },
        Mode::PodSearch => match k {
            Key::Char(c) => SessionView { input: s.input.push(c), ..s },
            Key::Backspace => SessionView {
                input: if s.input.len() > 0 {
                    s.input.drop_last()
                } else {
                    s.input
                },
                ..s
            },
            Key::Esc => SessionView { mode: Mode::Normal, input: Seq::empty(), ..s },
            _ => s,
        },
        Mode::PodDeletedConfirm => s,
    }
}

/// The session after the pending flags are drained: all flags cleared.
pub open spec fn spec_drained(s: SessionView) -> SessionView {
    SessionView {
        pending: (PendingActions {
            refetch_logs: false,
            refetch_previous_container_logs: false,
            delete_pod: false,
        }),
        ..s
    }
}

/// The session after fresh content arrives: the buffer is replaced wholesale,
/// the viewport tracks the new line count and jumps to the requested end, and
/// a stale failure indicator is cleared.
pub open spec fn spec_apply_content(s: SessionView, text: Seq<char>, at: ScrollReset) -> SessionView {
    let n = spec_line_count(text);
    SessionView {
        buffer: text,
        viewport: (ViewportState {
            vertical_offset: if at is Start || n == 0 {
                0
            } else {
                (n - 1) as usize
            },
            horizontal_offset: s.viewport.horizontal_offset,
            content_length: n as usize,
        }),
        last_error: Option::None,
        ..s
    }
}

/// The session after a failure: everything stays as it was, and the failure
/// is recorded for the renderer's inline indicator.
pub open spec fn spec_note_error(s: SessionView, e: SessionError) -> SessionView {
    SessionView { last_error: Option::Some(e), ..s }
}

/// The session after a delete confirmation arrives: the post-delete overlay
/// takes over input.
pub open spec fn spec_apply_deleted(s: SessionView) -> SessionView {
    SessionView { mode: Mode::PodDeletedConfirm, last_error: Option::None, ..s }
}

/// The session after the search overlay's input is resolved against a
/// listing: on success the target is replaced, a log refetch is raised, the
/// viewport jumps to the start and the overlay closes; on failure the overlay
/// stays open and the failure is recorded.
pub open spec fn spec_apply_resolution(s: SessionView, listing: Seq<char>) -> SessionView {
    match spec_resolve(s.input, listing) {
        Option::Some(pv) => SessionView {
            mode: Mode::Normal,
            input: Seq::empty(),
            pending: (PendingActions { refetch_logs: true, ..s.pending }),
            viewport: s.viewport.spec_reset_to_start(),
            target: pv,
            last_error: Option::None,
            ..s
        },
        Option::None => spec_note_error(
            s,
            SessionError::Resolution(ResolutionError::NotFound),
        ),
    }
}

impl SessionState {
    /// The buffer's stored line count is honest and the viewport tracks it.
    pub open spec fn wf(self) -> bool {
        &&& self.buffer.wf()
        &&& self@.wf()
    }

    /// A fresh session on a resolved target: normal mode, empty buffer, and
    /// an initial log fetch already pending.
    pub fn new(target: PodIdentifier) -> (s: SessionState)
        ensures
            s.wf(),
            s@.mode == Mode::Normal,
            s@.input == Seq::<char>::empty(),
            s@.pending == (PendingActions {
                refetch_logs: true,
                refetch_previous_container_logs: false,
                delete_pod: false,
            }),
            s@.viewport == ViewportState::spec_new(),
            s@.buffer == Seq::<char>::empty(),
            s@.target == target@,
            s@.last_error is None,
    {
        SessionState {
            mode: Mode::Normal,
            input: Vec::new(),
            pending: PendingActions {
                refetch_logs: true,
                refetch_previous_container_logs: false,
                delete_pod: false,
            },
            viewport: ViewportState::new(),
            buffer: TextBuffer::empty(),
            target,
            last_error: Option::None,
        }
    }

    /// Dispatch one keyboard event through the mode table; the returned
    /// directive tells the event loop which synchronous action to run.
    pub fn handle_key(&mut self, k: Key) -> (d: Directive)
        requires
            old(self).wf(),
        ensures
            final(self)@ == spec_step(old(self)@, k),
            d == spec_directive(old(self)@, k),
            final(self).wf(),
    {
        match self.mode {
            Mode::Normal => match k {
                Key::Char(c) => {
                    if c == 'q' {
                        Directive::Quit
                    } else if c == 's' {
                        self.mode = Mode::PodSearch;
                        self.input = Vec::new();
                        Directive::Idle
                    } else if c == 'f' {
                        self.pending.refetch_logs = true;
                        Directive::Idle
                    } else if c == 'l' {
                        self.pending.refetch_previous_container_logs = true;
                        Directive::Idle
                    } else if c == 'p' {
                        self.pending.delete_pod = true;
                        Directive::Idle
                    } else if c == 'd' {
                        Directive::FetchDescription
                    } else if c == 'w' {
                        Directive::FetchListing
                    } else if c == 'e' {
                        Directive::ExecInteractive
                    } else if c == 'v' {
                        Directive::OpenInEditor
                    } else if c == 'j' {
                        self.viewport.scroll_by(1, ScrollUnit::Line);
                        Directive::Idle
                    } else if c == 'k' {
                        self.viewport.scroll_by(-1, ScrollUnit::Line);
                        Directive::Idle
                    } else {
                        Directive::Idle
                    }
                },
                Key::Down => {
                    self.viewport.scroll_by(1, ScrollUnit::Line);
                    Directive::Idle
                },
                Key::Up => {
                    self.viewport.scroll_by(-1, ScrollUnit::Line);
                    Directive::Idle
                },
                Key::PageDown => {
                    self.viewport.scroll_by(1, ScrollUnit::Page);
                    Directive::Idle
                },
                Key::PageUp => {
                    self.viewport.scroll_by(-1, ScrollUnit::Page);
                    Directive::Idle
                },
                _ => Directive::Idle,
            },
            Mode::PodSearch => match k {
                Key::Char(c) => {
                    self.input.push(c);
                    Directive::Idle
                },
                Key::Backspace => {
                    if self.input.len() > 0 {
                        self.input.pop();
                    }
                    Directive::Idle
                },
                Key::Esc => {
                    self.mode = Mode::Normal;
                    self.input = Vec::new();
                    Directive::Idle
                },
                Key::Enter => Directive::ResolveTarget,
                _ => Directive::Idle,
            },
            Mode::PodDeletedConfirm => match k {
                Key::Char(c) => {
                    if c == 'q' {
                        Directive::Quit
                    } else {
                        Directive::Idle
                    }
                },
                _ => Directive::Idle,
            },
        }
    }

    /// Drain the one-shot action flags for this tick.  A delete that was
    /// raised after the pod is already gone is dropped rather than re-issued.
    pub fn take_pending(&mut self) -> (acts: PendingActions)
        requires
            old(self).wf(),
        ensures
            final(self)@ == spec_drained(old(self)@),
            final(self).wf(),
            acts.refetch_logs == old(self)@.pending.refetch_logs,
            acts.refetch_previous_container_logs
                == old(self)@.pending.refetch_previous_container_logs,
            acts.delete_pod == (old(self)@.pending.delete_pod && old(self)@.mode
                != Mode::PodDeletedConfirm),
    {
        let already_deleted = match self.mode {
            Mode::PodDeletedConfirm => true,
            _ => false,
        };
        let acts = PendingActions {
            refetch_logs: self.pending.refetch_logs,
            refetch_previous_container_logs: self.pending.refetch_previous_container_logs,
            delete_pod: self.pending.delete_pod && !already_deleted,
        };
        self.pending = PendingActions {
            refetch_logs: false,
            refetch_previous_container_logs: false,
            delete_pod: false,
        };
        acts
    }

    /// Apply the outcome of a content fetch (logs, description or listing).
    /// On success the buffer is replaced and the viewport jumps to the
    /// requested end; on failure everything stays as it was and the failure
    /// is recorded.
    pub fn apply_fetch_result(&mut self, r: Result<Vec<char>, ProviderError>, at: ScrollReset)
        requires
            old(self).wf(),
        ensures
            final(self).wf(),
            match r {
                Ok(text) => final(self)@ == spec_apply_content(old(self)@, text@, at),
                Err(e) => final(self)@ == spec_note_error(
                    old(self)@,
                    SessionError::Provider(e),
                ),
            },
    {
        match r {
            Ok(text) => {
                let buf = TextBuffer::new(text);
                self.viewport.set_content_length(buf.line_count);
                match at {
                    ScrollReset::End => self.viewport.reset_to_end(),
                    ScrollReset::Start => self.viewport.reset_to_start(),
                }
                self.buffer = buf;
                self.last_error = Option::None;
            },
            Err(e) => {
                self.last_error = Option::Some(SessionError::Provider(e));
            },
        }
    }

    /// Apply the outcome of a delete request.  On success the post-delete
    /// overlay takes over; on failure the session continues unchanged with
    /// the failure recorded.
    pub fn apply_delete_result(&mut self, r: Result<(), ProviderError>)
        requires
            old(self).wf(),
        ensures
            final(self).wf(),
            match r {
                Ok(u) => final(self)@ == spec_apply_deleted(old(self)@),
                Err(e) => final(self)@ == spec_note_error(
                    old(self)@,
                    SessionError::Provider(e),
                ),
            },
    {
        match r {
            Ok(_) => {
                self.mode = Mode::PodDeletedConfirm;
                self.last_error = Option::None;
            },
            Err(e) => {
                self.last_error = Option::Some(SessionError::Provider(e));
            },
        }
    }

    /// Apply the outcome of an action that yields no content (interactive
    /// exec, open-in-editor): only the failure indicator changes.
    pub fn apply_action_result(&mut self, r: Result<(), ProviderError>)
        requires
            old(self).wf(),
        ensures
            final(self).wf(),
            match r {
                Ok(u) => final(self)@ == (SessionView { last_error: Option::None, ..old(self)@ }),
                Err(e) => final(self)@ == spec_note_error(
                    old(self)@,
                    SessionError::Provider(e),
                ),
            },
    {
        match r {
            Ok(_) => {
                self.last_error = Option::None;
            },
            Err(e) => {
                self.last_error = Option::Some(SessionError::Provider(e));
            },
        }
    }

    /// Resolve the search overlay's input against a freshly fetched listing
    /// and apply the outcome.  A failure to fetch the listing itself is
    /// recorded like any provider failure.
    pub fn apply_resolution(&mut self, listing_result: Result<Vec<char>, ProviderError>)
        requires
            old(self).wf(),
        ensures
            final(self).wf(),
            match listing_result {
                Ok(listing) => final(self)@ == spec_apply_resolution(old(self)@, listing@),
                Err(e) => final(self)@ == spec_note_error(
                    old(self)@,
                    SessionError::Provider(e),
                ),
            },
    {
        match listing_result {
            Ok(listing) => {
                match resolve(&self.input, &listing) {
                    Ok(pod) => {
                        self.target = pod;
                        self.mode = Mode::Normal;
                        self.input = Vec::new();
                        self.pending.refetch_logs = true;
                        self.viewport.reset_to_start();
                        self.last_error = Option::None;
                    },
                    Err(_) => {
                        self.last_error = Option::Some(
                            SessionError::Resolution(ResolutionError::NotFound),
                        );
                    },
                }
            },
            Err(e) => {
                self.last_error = Option::Some(SessionError::Provider(e));
            },
        }
    }
}

/// Law: in normal mode, every key outside the dispatch table leaves the
/// session unchanged and requires no action.
pub proof fn lemma_normal_unlisted_key_is_noop(s: SessionView, k: Key)
    requires
        s.mode == Mode::Normal,
        !normal_key_in_table(k),
    ensures
        spec_step(s, k) == s,
        spec_directive(s, k) == Directive::Idle,
{
}

/// Law: in the post-delete overlay, every key but `q` is ignored.
pub proof fn lemma_deleted_overlay_ignores_keys(s: SessionView, k: Key)
    requires
        s.mode == Mode::PodDeletedConfirm,
    ensures
        spec_step(s, k) == s,
        k != Key::Char('q') ==> spec_directive(s, k) == Directive::Idle,
        k == Key::Char('q') ==> spec_directive(s, k) == Directive::Quit,
{
}

/// Law: raising the delete action twice before it is drained has the same
/// effect as raising it once.
pub proof fn lemma_delete_request_idempotent(s: SessionView)
    requires
        s.mode == Mode::Normal,
    ensures
        spec_step(spec_step(s, Key::Char('p')), Key::Char('p')) == spec_step(s, Key::Char('p')),
{
}

/// Law: submitting the search overlay with an empty input behaves exactly as
/// a resolution failure: the overlay stays open and only the failure
/// indicator changes.
pub proof fn lemma_enter_on_empty_input_keeps_overlay(s: SessionView, listing: Seq<char>)
    requires
        s.mode == Mode::PodSearch,
        s.input.len() == 0,
    ensures
        spec_apply_resolution(s, listing) == spec_note_error(
            s,
            SessionError::Resolution(ResolutionError::NotFound),
        ),
        spec_apply_resolution(s, listing).mode == Mode::PodSearch,
{
    assert(s.input =~= Seq::<char>::empty());
    crate::resolver::lemma_empty_matcher_not_found(listing);
}

} // verus!
