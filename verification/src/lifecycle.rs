//! Lifecycle manager for the single overlay window.
//!
//! The manager owns the one overlay slot and the most recent context
//! payload. A show request runs in two halves around the host's window
//! creation: `begin_show` commits the context update, orders the teardown
//! of any existing overlay and computes the placement; `finish_show`
//! records whether creation succeeded and produces the reply. `hide`
//! clears the context unconditionally and orders the window closed if one
//! exists. The stored context and the window state are deliberately not
//! transactionally linked: a show whose payload failed to parse still
//! shows a window while leaving the stored context untouched, and a hide
//! clears the context even when no window existed.

use vstd::prelude::*;
use crate::placement::{
    place, placed_x, placed_y, DisplayGeometry, OverlayRect, OVERLAY_HEIGHT, OVERLAY_WIDTH,
};
use crate::text::concat_str;

verus! {

/// The payload the overlay displays: the text selected when it was
/// summoned, and whether a screenshot accompanies it.
pub struct OverlayContextData {
    pub selected_text: String,
    pub has_screenshot: bool,
}

impl View for OverlayContextData {
    type V = (Seq<char>, bool);

    open spec fn view(&self) -> (Seq<char>, bool) {
        (self.selected_text@, self.has_screenshot)
    }
}

/// The stored context as a mathematical value.
pub open spec fn context_view(c: Option<OverlayContextData>) -> Option<(Seq<char>, bool)> {
    match c {
        Some(d) => Some(d@),
        None => None,
    }
}

/// Abstract state of the overlay slot: whether a window is present and
/// which context payload is stored.
pub struct OverlayModel {
    pub window_present: bool,
    pub context: Option<(Seq<char>, bool)>,
}

/// State change a show request commits before the new window is created:
/// a valid payload replaces the stored context, an unparseable one leaves
/// it untouched; any existing window is gone afterwards.
pub open spec fn show_transition(m: OverlayModel, parsed: Option<(Seq<char>, bool)>) -> OverlayModel {
    OverlayModel {
        window_present: false,
        context: if parsed is Some {
            parsed
        } else {
            m.context
        },
    }
}

/// Whether a show request must tear a window down first.
pub open spec fn show_destroys(m: OverlayModel) -> bool {
    m.window_present
}

/// State after a hide: no window, no stored context.
pub open spec fn hide_transition(m: OverlayModel) -> OverlayModel {
    OverlayModel { window_present: false, context: None }
}

/// Owner of the overlay slot and the stored context payload.
pub struct OverlayManager {
    pub window_present: bool,
    pub context: Option<OverlayContextData>,
}

impl View for OverlayManager {
    type V = OverlayModel;

    open spec fn view(&self) -> OverlayModel {
        OverlayModel { window_present: self.window_present, context: context_view(self.context) }
    }
}

/// What the host must do to carry a show request out: tear down the
/// existing overlay first if one is present, then create the new window
/// at the computed rectangle.
pub struct ShowPlan {
    pub destroy_existing: bool,
    pub rect: OverlayRect,
}

impl OverlayManager {
    /// A manager with no overlay window and no stored context.
    pub fn new() -> (r: Self)
        ensures
            !r@.window_present,
            r@.context is None,
    {
        OverlayManager { window_present: false, context: None }
    }

    /// First half of a show request. Stores the parsed payload (or keeps
    /// the old one when parsing failed, i.e. `parsed` is `None`), and
    /// returns the teardown-and-create plan; the overlay slot is empty
    /// until `finish_show` reports the creation's outcome. The anchor
    /// bounds only keep the placement arithmetic within `i64`.
    pub fn begin_show(
        &mut self,
        anchor_x: i64,
        anchor_y: i64,
        geometry: Option<DisplayGeometry>,
        parsed: Option<OverlayContextData>,
    ) -> (plan: ShowPlan)
        requires
            i64::MIN + OVERLAY_WIDTH as int / 2 <= anchor_x,
            geometry is Some ==> anchor_x <= i64::MAX - OVERLAY_WIDTH as int / 2,
            geometry is Some ==> anchor_y <= i64::MAX - OVERLAY_HEIGHT,
            geometry matches Some(g) ==> g.wf(),
        ensures
            final(self)@ == show_transition(old(self)@, context_view(parsed)),
            plan.destroy_existing == show_destroys(old(self)@),
            plan.rect.x == placed_x(anchor_x as int, geometry),
            plan.rect.y == placed_y(anchor_y as int, geometry),
            plan.rect.width == OVERLAY_WIDTH,
            plan.rect.height == OVERLAY_HEIGHT,
    {
        let destroy_existing = self.window_present;
        self.window_present = false;
        match parsed {
            Some(d) => {
                self.context = Some(d);
            },
            None => {},
        }
        let rect = place(anchor_x, anchor_y, geometry);
        ShowPlan { destroy_existing, rect }
    }

    /// Second half of a show request: record whether the host's window
    /// creation succeeded. On success the slot holds the new window and
    /// the reply acknowledges it; on failure the show aborts with the
    /// windowing system's reason, without retry, and the stored context
    /// keeps whatever `begin_show` left in it.
    pub fn finish_show(&mut self, creation: Result<(), String>) -> (r: Result<String, String>)
        ensures
            final(self)@.context == old(self)@.context,
            final(self)@.window_present == creation is Ok,
            creation is Ok ==> (r matches Ok(m) && m@ == "Overlay shown"@),
            creation matches Err(e) ==> (r matches Err(m) && m@ == "Failed to create overlay: "@
                + e@),
    {
        match creation {
            Ok(()) => {
                self.window_present = true;
                Ok("Overlay shown".to_owned())
            },
            Err(e) => {
                self.window_present = false;
                Err(concat_str("Failed to create overlay: ", e.as_str()))
            },
        }
    }

    /// Hide the overlay: clear the stored context unconditionally, and
    /// tell the host to close the window exactly when one existed. The
    /// reply succeeds either way.
    pub fn hide_overlay(&mut self) -> (r: (bool, Result<String, String>))
        ensures
            final(self)@ == hide_transition(old(self)@),
            r.0 == old(self)@.window_present,
            r.1 matches Ok(m) && m@ == "Overlay hidden"@,
    {
        let close_window = self.window_present;
        self.window_present = false;
        self.context = None;
        (close_window, Ok("Overlay hidden".to_owned()))
    }

    /// Read-only query of the stored context; alters nothing.
    pub fn get_context(&self) -> (r: &Option<OverlayContextData>)
        ensures
            context_view(*r) == self@.context,
    {
        &self.context
    }
}

/// Hiding is idempotent: a second hide changes nothing, and the stored
/// context is none after each of the two calls.
pub proof fn lemma_hide_idempotent(m: OverlayModel)
    ensures
        hide_transition(hide_transition(m)) == hide_transition(m),
        hide_transition(m).context is None,
{
}

/// The lifecycle asymmetry: a show whose payload did not parse leaves the
/// stored context exactly as it was, while a hide — before or after such a
/// show — always clears it.
pub proof fn lemma_show_hide_asymmetry(m: OverlayModel)
    ensures
        show_transition(m, None).context == m.context,
        hide_transition(show_transition(m, None)).context is None,
        hide_transition(m).context is None,
{
}

/// No two overlay windows ever coexist: a show tears down the existing
/// window exactly when one is present, and the slot stays empty from that
/// teardown until the single new window is created.
pub proof fn lemma_show_destroys_prior(m: OverlayModel, parsed: Option<(Seq<char>, bool)>)
    ensures
        show_destroys(m) == m.window_present,
        !show_transition(m, parsed).window_present,
{
}

} // verus!
