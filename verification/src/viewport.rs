//! Scroll/viewport model: a vertical offset clamped against a line count.

use vstd::prelude::*;

verus! {

/// Number of lines a page-sized scroll step moves.
pub const PAGE_LINES: usize = 20;

/// Granularity of one scroll step: a single line or a page.
#[derive(Clone, Copy, PartialEq, Eq, Structural, Debug)]
pub enum ScrollUnit {
    Line,
    Page,
}

/// How many lines one unit of the given granularity spans.
pub open spec fn lines_per(unit: ScrollUnit) -> int {
    match unit {
        ScrollUnit::Line => 1,
        ScrollUnit::Page => PAGE_LINES as int,
    }
}

/// Scroll position over a text buffer of `content_length` lines.
///
/// The vertical offset is the index of the topmost visible line; it never
/// points at or past `content_length` (and is zero for empty content).
#[derive(Clone, Copy, PartialEq, Eq, Structural, Debug)]
pub struct ViewportState {
    pub vertical_offset: usize,
    pub horizontal_offset: usize,
    pub content_length: usize,
}

impl ViewportState {
    /// The offset stays strictly below `max(1, content_length)`.
    pub open spec fn wf(self) -> bool {
        if self.content_length == 0 {
            self.vertical_offset == 0
        } else {
            self.vertical_offset < self.content_length
        }
    }

    pub open spec fn spec_new() -> ViewportState {
        ViewportState { vertical_offset: 0, horizontal_offset: 0, content_length: 0 }
    }

    /// Record a new line count, clamping the offset back into range.
    pub open spec fn spec_set_content_length(self, n: usize) -> ViewportState {
        ViewportState {
            vertical_offset: if n == 0 {
                0
            } else if self.vertical_offset >= n {
                (n - 1) as usize
            } else {
                self.vertical_offset
            },
            horizontal_offset: self.horizontal_offset,
            content_length: n,
        }
    }

    /// Jump to the last line (or line zero when there is no content).
    pub open spec fn spec_reset_to_end(self) -> ViewportState {
        ViewportState {
            vertical_offset: if self.content_length == 0 {
                0
            } else {
                (self.content_length - 1) as usize
            },
            horizontal_offset: self.horizontal_offset,
            content_length: self.content_length,
        }
    }

    /// Jump to the first line.
    pub open spec fn spec_reset_to_start(self) -> ViewportState {
        ViewportState {
            vertical_offset: 0,
            horizontal_offset: self.horizontal_offset,
            content_length: self.content_length,
        }
    }

    /// Scroll by `delta` units.  A downward move that would land at or past
    /// the end of the content is rejected outright (offset unchanged); an
    /// upward move saturates at line zero.
    pub open spec fn spec_scroll_by(self, delta: int, unit: ScrollUnit) -> ViewportState {
        let mag = if delta >= 0 { delta } else { -delta };
        let step = mag * lines_per(unit);
        if delta >= 0 {
            if self.vertical_offset + step < self.content_length {
                ViewportState {
                    vertical_offset: (self.vertical_offset + step) as usize,
                    horizontal_offset: self.horizontal_offset,
                    content_length: self.content_length,
                }
            } else {
                self
            }
        } else {
            ViewportState {
                vertical_offset: if step >= self.vertical_offset {
                    0
                } else {
                    (self.vertical_offset - step) as usize
                },
                horizontal_offset: self.horizontal_offset,
                content_length: self.content_length,
            }
        }
    }

    pub fn new() -> (r: ViewportState)
        ensures
            r == ViewportState::spec_new(),
            r.wf(),
    {
        ViewportState { vertical_offset: 0, horizontal_offset: 0, content_length: 0 }
    }

    pub fn set_content_length(&mut self, n: usize)
        ensures
            *final(self) == old(self).spec_set_content_length(n),
            final(self).wf(),
    {
        self.content_length = n;
        if n == 0 {
            self.vertical_offset = 0;
        } else if self.vertical_offset >= n {
            self.vertical_offset = n - 1;
        }
    }

    pub fn reset_to_end(&mut self)
        ensures
            *final(self) == old(self).spec_reset_to_end(),
            final(self).wf(),
    {
        if self.content_length == 0 {
            self.vertical_offset = 0;
        } else {
            self.vertical_offset = self.content_length - 1;
        }
    }

    pub fn reset_to_start(&mut self)
        ensures
            *final(self) == old(self).spec_reset_to_start(),
            old(self).wf() ==> final(self).wf(),
    {
        self.vertical_offset = 0;
    }

    pub fn scroll_by(&mut self, delta: isize, unit: ScrollUnit)
        requires
            old(self).wf(),
        ensures
            *final(self) == old(self).spec_scroll_by(delta as int, unit),
            final(self).wf(),
    {
        let wide: i128 = delta as i128;
        let mag_wide: i128 = if wide < 0 {
            -wide
        } else {
            wide
        };
        let mag: usize = if mag_wide > usize::MAX as i128 {
            usize::MAX
        } else {
            mag_wide as usize
        };
        let per: usize = match unit {
            ScrollUnit::Line => 1,
            ScrollUnit::Page => PAGE_LINES,
        };
        proof {
            let true_mag = if delta as int >= 0 { delta as int } else { -(delta as int) };
            assert(mag == true_mag || (mag == usize::MAX && true_mag > usize::MAX as int));
        }
        let step: usize = match mag.checked_mul(per) {
            Some(s) => s,
            None => usize::MAX,
        };
        if delta >= 0 {
            if self.vertical_offset < self.content_length && step
                < self.content_length - self.vertical_offset {
                self.vertical_offset = self.vertical_offset + step;
            }
        } else {
            if step >= self.vertical_offset {
                self.vertical_offset = 0;
            } else {
                self.vertical_offset = self.vertical_offset - step;
            }
        }
    }
}

/// One viewport mutation, for stating laws over arbitrary operation
/// sequences.
#[derive(Clone, Copy, PartialEq, Eq, Structural, Debug)]
pub enum ViewportOp {
    SetContentLength(usize),
    ResetToEnd,
    ResetToStart,
    ScrollBy(isize, ScrollUnit),
}

/// The effect of one viewport operation.
pub open spec fn spec_apply_op(v: ViewportState, op: ViewportOp) -> ViewportState {
    match op {
        ViewportOp::SetContentLength(n) => v.spec_set_content_length(n),
        ViewportOp::ResetToEnd => v.spec_reset_to_end(),
        ViewportOp::ResetToStart => v.spec_reset_to_start(),
        ViewportOp::ScrollBy(delta, unit) => v.spec_scroll_by(delta as int, unit),
    }
}

/// The effect of a sequence of viewport operations, applied left to right.
pub open spec fn spec_apply_ops(v: ViewportState, ops: Seq<ViewportOp>) -> ViewportState
    decreases ops.len(),
{
    if ops.len() == 0 {
        v
    } else {
        spec_apply_ops(spec_apply_op(v, ops[0]), ops.drop_first())
    }
}

/// Law: every single viewport operation preserves well-formedness.
pub proof fn lemma_op_preserves_wf(v: ViewportState, op: ViewportOp)
    requires
        v.wf(),
    ensures
        spec_apply_op(v, op).wf(),
{
}

/// Law: after any sequence of operations from a well-formed state, the
/// offset still satisfies `0 <= offset < max(1, content_length)`.
pub proof fn lemma_ops_preserve_wf(v: ViewportState, ops: Seq<ViewportOp>)
    requires
        v.wf(),
    ensures
        spec_apply_ops(v, ops).wf(),
    decreases ops.len(),
{
    if ops.len() > 0 {
        lemma_op_preserves_wf(v, ops[0]);
        lemma_ops_preserve_wf(spec_apply_op(v, ops[0]), ops.drop_first());
    }
}

/// Law: jumping to the end is idempotent.
pub proof fn lemma_reset_to_end_idempotent(v: ViewportState)
    ensures
        v.spec_reset_to_end().spec_reset_to_end() == v.spec_reset_to_end(),
{
}

/// Law: a downward scroll that would land at or past the end of the content
/// is a no-op, not a clamp.
pub proof fn lemma_scroll_down_past_end_is_noop(v: ViewportState, delta: int, unit: ScrollUnit)
    requires
        delta >= 0,
        v.vertical_offset + delta * lines_per(unit) >= v.content_length,
    ensures
        v.spec_scroll_by(delta, unit) == v,
{
}

} // verus!
