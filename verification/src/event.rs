//! Event classification and the per-iteration decision of the pager loop.
//!
//! The surrounding application blocks on the terminal for the next input
//! event, translates it into a [`KeyInput`], and hands it here. The library
//! decides what the event means and applies it to the viewport; the
//! application only performs the resulting redraw or exit.

use vstd::prelude::*;
use crate::state::App;
use crate::state::spec_scroll_down;
use crate::state::spec_scroll_up;

verus! {

/// How many lines a single-line scroll key moves the viewport.
pub const LINE_STEP: usize = 1;

/// How many lines a page key moves the viewport.
pub const PAGE_STEP: usize = 10;

/// A keyboard event, reduced to the cases the pager distinguishes. Every
/// other terminal event maps to `Other`.
#[derive(Clone, Copy, Debug, PartialEq, Eq, Structural)]
pub enum KeyInput {
    Char(char),
    Up,
    Down,
    PageUp,
    PageDown,
    Other,
}

/// What a key event asks the pager to do.
#[derive(Clone, Copy, Debug, PartialEq, Eq, Structural)]
pub enum Command {
    Quit,
    ScrollUp(usize),
    ScrollDown(usize),
    Ignore,
}

/// Whether the pager loop keeps running after an event.
#[derive(Clone, Copy, Debug, PartialEq, Eq, Structural)]
pub enum LoopControl {
    Continue,
    Quit,
}

/// The key binding table: `q` quits, up-arrow and `k` scroll up one line,
/// down-arrow and `j` scroll down one line, the page keys move ten lines,
/// and everything else is ignored.
pub open spec fn spec_classify(key: KeyInput) -> Command {
    match key {
        KeyInput::Char(c) => if c == 'q' {
            Command::Quit
        } else if c == 'k' {
            Command::ScrollUp(LINE_STEP)
        } else if c == 'j' {
            Command::ScrollDown(LINE_STEP)
        } else {
            Command::Ignore
        },
        KeyInput::Up => Command::ScrollUp(LINE_STEP),
        KeyInput::Down => Command::ScrollDown(LINE_STEP),
        KeyInput::PageUp => Command::ScrollUp(PAGE_STEP),
        KeyInput::PageDown => Command::ScrollDown(PAGE_STEP),
        KeyInput::Other => Command::Ignore,
    }
}

/// The offset after a key event is applied to a viewport with scroll
/// offset `offset` over a document of `len` lines: scroll commands move it
/// with their clamping arithmetic, quit and ignored events leave it alone.
pub open spec fn spec_offset_after(offset: nat, len: nat, key: KeyInput) -> nat {
    match spec_classify(key) {
        Command::ScrollUp(n) => spec_scroll_up(offset, n as nat),
        Command::ScrollDown(n) => spec_scroll_down(offset, n as nat, len),
        Command::Quit => offset,
        Command::Ignore => offset,
    }
}

/// Translate one key event into a pager command, exactly as the key
/// binding table [`spec_classify`] states.
pub fn classify(key: KeyInput) -> (c: Command)
    ensures
        c == spec_classify(key),
{
    match key {
        KeyInput::Char(c) => if c == 'q' {
            Command::Quit
        } else if c == 'k' {
            Command::ScrollUp(LINE_STEP)
        } else if c == 'j' {
            Command::ScrollDown(LINE_STEP)
        } else {
            Command::Ignore
        },
        KeyInput::Up => Command::ScrollUp(LINE_STEP),
        KeyInput::Down => Command::ScrollDown(LINE_STEP),
        KeyInput::PageUp => Command::ScrollUp(PAGE_STEP),
        KeyInput::PageDown => Command::ScrollDown(PAGE_STEP),
        KeyInput::Other => Command::Ignore,
    }
}

/// Apply one key event to the viewport and say whether the loop goes on.
///
/// The document itself is never touched; the offset moves exactly as
/// [`spec_offset_after`] states; and a quit key ends the loop without
/// changing the viewport at all.
pub fn handle_key(app: &mut App, key: KeyInput) -> (ctl: LoopControl)
    requires
        old(app).wf(),
    ensures
        final(app).wf(),
        final(app).lines == old(app).lines,
        final(app).offset == spec_offset_after(
            old(app).offset as nat,
            old(app).lines@.len(),
            key,
        ),
        ctl == (if spec_classify(key) == Command::Quit {
            LoopControl::Quit
        } else {
            LoopControl::Continue
        }),
        spec_classify(key) == Command::Quit ==> *final(app) == *old(app),
{
    match classify(key) {
        Command::Quit => LoopControl::Quit,
        Command::ScrollUp(n) => {
            app.scroll_up(n);
            LoopControl::Continue
        },
        Command::ScrollDown(n) => {
            app.scroll_down(n);
            LoopControl::Continue
        },
        Command::Ignore => LoopControl::Continue,
    }
}

} // verus!
