//! The render compositor: a pure map from viewport state and a drawing
//! area height to the three texts of a frame.
//!
//! Every frame the pager draws a one-line header, the visible slice of the
//! document, and a one-line footer. `compose` computes all three from the
//! viewport alone; painting them is left to the surrounding application.
//!
//! The header reports the one-based inclusive range of visible lines, as
//! `File viewer – lines 21‑40`. For an empty document there is no such
//! range; the convention here is the explicit label
//! `File viewer – (empty)`.

use vstd::prelude::*;
use vstd::string::StringExecFns;
use crate::state::App;
use crate::text::decimal_string;
use crate::text::spec_decimal;

verus! {

/// What one frame of the pager displays: header line, visible document
/// slice, footer line.
pub struct Composed {
    pub header_text: String,
    pub body_lines: Vec<String>,
    pub footer_text: String,
}

/// One past the index of the last visible line: the viewport shows at most
/// `area_height` lines starting at `offset`, and never reads past the end
/// of a document of `len` lines.
pub open spec fn spec_visible_end(offset: nat, len: nat, area_height: nat) -> nat {
    if offset + area_height <= len {
        offset + area_height
    } else {
        len
    }
}

/// The visible slice of the document: at most `area_height` lines starting
/// at `offset`, fewer only near the end of the document.
pub open spec fn spec_body(doc: Seq<Seq<char>>, offset: nat, area_height: nat) -> Seq<Seq<char>>
    recommends
        offset <= doc.len(),
{
    doc.subrange(offset as int, spec_visible_end(offset, doc.len(), area_height) as int)
}

/// The header text: the one-based inclusive range of visible lines, or the
/// empty-document label.
pub open spec fn spec_header(offset: nat, len: nat, area_height: nat) -> Seq<char> {
    if len == 0 {
        "File viewer – (empty)"@
    } else {
        "File viewer – lines "@ + spec_decimal(offset + 1) + "‑"@ + spec_decimal(
            spec_visible_end(offset, len, area_height),
        )
    }
}

/// The footer text: a static legend of the key bindings, independent of
/// the viewport.
pub open spec fn spec_footer() -> Seq<char> {
    "↑/k ↓/j PgUp PgDn  q: quit"@
}

/// Compose one frame from the viewport and the drawing area height.
///
/// The result is a function of the arguments alone: each field is pinned
/// to [`spec_header`], [`spec_body`] and [`spec_footer`], so two calls on
/// equal inputs yield equal frames.
pub fn compose(app: &App, area_height: usize) -> (r: Composed)
    requires
        app.wf(),
    ensures
        r.header_text@ == spec_header(app.offset as nat, app.lines@.len(), area_height as nat),
        r.body_lines@.map_values(|s: String| s@) == spec_body(
            app.doc(),
            app.offset as nat,
            area_height as nat,
        ),
        r.body_lines@.len() == spec_visible_end(
            app.offset as nat,
            app.lines@.len(),
            area_height as nat,
        ) - app.offset,
        forall|j: int|
            0 <= j < r.body_lines@.len() ==> r.body_lines@[j]@ == app.lines@[app.offset + j]@,
        r.footer_text@ == spec_footer(),
{
    let len = app.lines.len();
    let sum = app.offset.saturating_add(area_height);
    let end = if sum < len {
        sum
    } else {
        len
    };
    proof {
        assert(end == spec_visible_end(app.offset as nat, app.lines@.len(), area_height as nat));
    }
    let header_text = if len == 0 {
        String::from_str("File viewer – (empty)")
    } else {
        let mut h = String::from_str("File viewer – lines ");
        let first = decimal_string(app.offset + 1);
        h.append(first.as_str());
        h.append("‑");
        let last = decimal_string(end);
        h.append(last.as_str());
        h
    };
    let mut body_lines: Vec<String> = Vec::new();
    let mut i = app.offset;
    while i < end
        invariant
            app.offset <= i <= end,
            end <= app.lines@.len(),
            body_lines@.len() == i - app.offset,
            forall|j: int|
                0 <= j < body_lines@.len() ==> body_lines@[j]@ == app.lines@[app.offset + j]@,
        decreases end - i,
    {
        body_lines.push(app.lines[i].clone());
        i += 1;
    }
    proof {
        assert(body_lines@.map_values(|s: String| s@) =~= spec_body(
            app.doc(),
            app.offset as nat,
            area_height as nat,
        ));
    }
    let footer_text = String::from_str("↑/k ↓/j PgUp PgDn  q: quit");
    Composed { header_text, body_lines, footer_text }
}

/// Law: on an empty document the visible slice is empty, whatever the area
/// height.
pub proof fn lemma_compose_empty_document(doc: Seq<Seq<char>>, area_height: nat)
    requires
        doc.len() == 0,
    ensures
        spec_body(doc, 0, area_height).len() == 0,
{
}

/// Law: the visible slice never holds more than `area_height` lines, and
/// never fewer than the smaller of `area_height` and the number of lines
/// from `offset` to the end of the document; its length is exactly that
/// minimum.
pub proof fn lemma_body_lines_count(doc: Seq<Seq<char>>, offset: nat, area_height: nat)
    requires
        offset <= doc.len(),
    ensures
        spec_body(doc, offset, area_height).len() <= area_height,
        spec_body(doc, offset, area_height).len() == if area_height <= doc.len() - offset {
            area_height as int
        } else {
            doc.len() - offset
        },
{
}

} // verus!
