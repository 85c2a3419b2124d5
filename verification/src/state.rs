//! Viewport state: the loaded document and the current scroll offset.
//!
//! The offset is the zero-based index of the first visible line. It never
//! points past the last line of the document, and it is zero when the
//! document is empty. Both scroll commands use clamping arithmetic, so no
//! amount of scrolling, however large, can break that invariant.

use vstd::prelude::*;

verus! {

/// The largest valid scroll offset for a document of `len` lines: the index
/// of the last line, or zero when there is no line at all.
pub open spec fn spec_last_index(len: nat) -> nat {
    if len == 0 {
        0
    } else {
        (len - 1) as nat
    }
}

/// Where an upward scroll by `amount` lands: the subtraction clamps at zero
/// instead of underflowing.
pub open spec fn spec_scroll_up(offset: nat, amount: nat) -> nat {
    if amount <= offset {
        (offset - amount) as nat
    } else {
        0
    }
}

/// Where a downward scroll by `amount` lands for a document of `len` lines:
/// the addition clamps at the last line index instead of running past the
/// end of the document.
pub open spec fn spec_scroll_down(offset: nat, amount: nat, len: nat) -> nat {
    if offset + amount <= spec_last_index(len) {
        offset + amount
    } else {
        spec_last_index(len)
    }
}

/// The scroll state of the pager: the loaded document and the index of the
/// first visible line.
pub struct App {
    pub lines: Vec<String>,
    pub offset: usize,
}

impl App {
    /// The document as a sequence of character sequences.
    pub open spec fn doc(&self) -> Seq<Seq<char>> {
        self.lines@.map_values(|s: String| s@)
    }

    /// The viewport invariant: the offset never indexes past the last line,
    /// and is zero for an empty document.
    pub open spec fn wf(&self) -> bool {
        self.offset <= spec_last_index(self.lines@.len())
    }

    /// A fresh viewport over `lines`, showing the document from the top.
    /// An empty document is valid and yields a viewport that displays
    /// nothing.
    pub fn new(lines: Vec<String>) -> (app: App)
        ensures
            app.lines == lines,
            app.offset == 0,
            app.wf(),
    {
        App { lines, offset: 0 }
    }

    /// Scroll up by `n` lines, clamping at the top of the document.
    pub fn scroll_up(&mut self, n: usize)
        ensures
            final(self).lines == old(self).lines,
            final(self).offset == spec_scroll_up(old(self).offset as nat, n as nat),
            old(self).wf() ==> final(self).wf(),
    {
        self.offset = self.offset.saturating_sub(n);
    }

    /// Scroll down by `n` lines, clamping at the index of the last line
    /// (treated as zero for an empty document).
    pub fn scroll_down(&mut self, n: usize)
        ensures
            final(self).lines == old(self).lines,
            final(self).offset == spec_scroll_down(
                old(self).offset as nat,
                n as nat,
                old(self).lines@.len(),
            ),
            final(self).wf(),
    {
        let last_line_idx = self.lines.len().saturating_sub(1);
        let sum = self.offset.saturating_add(n);
        self.offset = if sum < last_line_idx {
            sum
        } else {
            last_line_idx
        };
    }
}

/// Law: scrolling up and then down by the same amount returns to the
/// original offset, provided neither move clamps at a boundary: the upward
/// move stays at or above zero (`amount <= offset`) and the starting offset
/// is a valid one for the document.
pub proof fn lemma_scroll_round_trip(offset: nat, amount: nat, len: nat)
    requires
        offset <= spec_last_index(len),
        amount <= offset,
    ensures
        spec_scroll_down(spec_scroll_up(offset, amount), amount, len) == offset,
{
}

/// Law: a downward scroll never lands past the last line index, whatever
/// the amount and whatever the document length; on an empty document it
/// lands at zero.
pub proof fn lemma_scroll_down_bounded(offset: nat, amount: nat, len: nat)
    ensures
        spec_scroll_down(offset, amount, len) <= spec_last_index(len),
        len == 0 ==> spec_scroll_down(offset, amount, len) == 0,
{
}

/// Law: an upward scroll never lands below zero, even when the amount
/// exceeds the offset; in that case it lands exactly at zero, and it never
/// moves the offset upward.
pub proof fn lemma_scroll_up_never_underflows(offset: nat, amount: nat)
    ensures
        spec_scroll_up(offset, amount) >= 0,
        spec_scroll_up(offset, amount) <= offset,
        amount >= offset ==> spec_scroll_up(offset, amount) == 0,
{
}

/// Law: on an empty document a viewport at the top stays at the top under
/// either scroll command, so any number of scrolls leaves the offset at
/// zero.
pub proof fn lemma_empty_document_offset_pinned(amount: nat)
    ensures
        spec_scroll_up(0, amount) == 0,
        spec_scroll_down(0, amount, 0) == 0,
{
}

} // verus!
