//! The sync pop-up: confirmation phase, streamed output and scrolling.
//!
//! The widget only keeps state; the shell around the library spawns
//! the upgrade process and feeds whatever the process prints into
//! [`SyncWidget::append_output`].  The scroll offset is free-running
//! and only clamped to the visible range at render time, through
//! [`clamped_scroll`].

use vstd::prelude::*;

verus! {

/// Phase of a sync session: waiting for confirmation, then running.
#[derive(Clone, Copy, PartialEq, Eq, Structural, Debug)]
pub enum SyncStates {
    Confirmation,
    Syncing,
}

impl Default for SyncStates {
    /// A fresh sync session asks for confirmation first.
    fn default() -> (r: Self)
        ensures
            r == SyncStates::Confirmation,
    {
        SyncStates::Confirmation
    }
}

/// State of the sync pop-up.
pub struct SyncWidget {
    /// Current phase.
    pub state: SyncStates,
    /// User-driven scroll offset over the output log.  Free-running:
    /// values outside the renderable range are harmless and clamped
    /// at render time.
    pub vertical_scroll: i16,
    /// Everything the upgrade process has printed so far.
    pub output: String,
}

impl SyncWidget {
    /// A fresh session: confirmation phase, no scroll, empty log.
    pub fn new() -> (r: Self)
        ensures
            r.state == SyncStates::Confirmation,
            r.vertical_scroll == 0,
            r.output@ == Seq::<char>::empty(),
    {
        SyncWidget { state: SyncStates::Confirmation, vertical_scroll: 0, output: String::new() }
    }

    /// Scroll the output log down one line, saturating.
    pub fn next(&mut self)
        ensures
            final(self).vertical_scroll == if old(self).vertical_scroll == i16::MAX {
                i16::MAX as int
            } else {
                old(self).vertical_scroll + 1
            },
            final(self).state == old(self).state,
            final(self).output == old(self).output,
    {
        if self.vertical_scroll < i16::MAX {
            self.vertical_scroll = self.vertical_scroll + 1;
        }
    }

    /// Scroll the output log up one line, saturating.
    pub fn previous(&mut self)
        ensures
            final(self).vertical_scroll == if old(self).vertical_scroll == i16::MIN {
                i16::MIN as int
            } else {
                old(self).vertical_scroll - 1
            },
            final(self).state == old(self).state,
            final(self).output == old(self).output,
    {
        if self.vertical_scroll > i16::MIN {
            self.vertical_scroll = self.vertical_scroll - 1;
        }
    }

    /// Leave the confirmation phase: the upgrade process is being
    /// spawned and its output will start streaming in.
    pub fn start_sync(&mut self)
        ensures
            final(self).state == SyncStates::Syncing,
            final(self).vertical_scroll == old(self).vertical_scroll,
            final(self).output == old(self).output,
    {
        self.state = SyncStates::Syncing;
    }

    /// Append a chunk of the upgrade process's output to the log.
    pub fn append_output(&mut self, chunk: &str)
        ensures
            final(self).output@ == old(self).output@ + chunk@,
            final(self).state == old(self).state,
            final(self).vertical_scroll == old(self).vertical_scroll,
    {
        self.output.append(chunk);
    }
}

/// The scroll offset actually used when drawing: clamped to
/// `[0, max(0, content_height - viewport_height)]`.
pub open spec fn spec_clamped_scroll(offset: int, content_height: int, viewport_height: int) -> int {
    let top = if content_height > viewport_height {
        content_height - viewport_height
    } else {
        0
    };
    if offset < 0 {
        0
    } else if offset > top {
        top
    } else {
        offset
    }
}

/// Clamp a free-running scroll offset to the renderable range for a
/// log of `content_height` lines shown in `viewport_height` lines.
pub fn clamped_scroll(offset: i16, content_height: usize, viewport_height: usize) -> (r: usize)
    ensures
        r == spec_clamped_scroll(offset as int, content_height as int, viewport_height as int),
{
    let top: usize = if content_height > viewport_height {
        content_height - viewport_height
    } else {
        0
    };
    if offset < 0 {
        0
    } else {
        let off: usize = offset as usize;
        if off > top {
            top
        } else {
            off
        }
    }
}

} // verus!
