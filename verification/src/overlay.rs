//! Overlay panels and their stacking order, plus the texts shown in the
//! on-screen areas. Drawing is left to the caller.

use vstd::prelude::*;

use crate::osc::{Osc, OSC_TIMEOUT_MS};
use crate::timer::elapsed;

verus! {

broadcast use vstd::string::group_string_axioms;

/// Which overlay panel.
#[derive(Debug, Clone, Copy, PartialEq, Eq, Structural)]
pub enum OverlayKind {
    Gallery,
    Help,
    Settings,
}

/// The test "is not `kind`".
pub open spec fn other_than(kind: OverlayKind) -> spec_fn(OverlayKind) -> bool {
    |k: OverlayKind| k != kind
}

/// The stack without any entry of `kind`.
pub open spec fn without(stack: Seq<OverlayKind>, kind: OverlayKind) -> Seq<OverlayKind> {
    stack.filter(other_than(kind))
}

/// Remove every entry of `kind` from the stack, keeping the order of the rest.
pub fn remove_kind(stack: &mut Vec<OverlayKind>, kind: OverlayKind)
    ensures
        final(stack)@ == without(old(stack)@, kind),
{
    let ghost orig = stack@;
    let mut kept: Vec<OverlayKind> = Vec::new();
    let mut i: usize = 0;
    while i < stack.len()
        invariant
            stack@ == orig,
            i <= stack@.len(),
            kept@ == without(orig.subrange(0, i as int), kind),
        decreases stack.len() - i,
    {
        let k = stack[i];
        proof {
            assert(orig.subrange(0, i + 1) =~= orig.subrange(0, i as int).push(k));
            orig.subrange(0, i as int).lemma_filter_push(k, other_than(kind));
        }
        if k != kind {
            kept.push(k);
        }
        i = i + 1;
    }
    assert(orig.subrange(0, orig.len() as int) =~= orig);
    *stack = kept;
}

/// Toggle an overlay's visibility, updating the stack: the kind is removed,
/// and pushed on top when it becomes visible. Returns the new visibility.
pub fn toggle_overlay(stack: &mut Vec<OverlayKind>, kind: OverlayKind, currently_shown: bool) -> (shown: bool)
    ensures
        shown == !currently_shown,
        final(stack)@ == (if shown {
            without(old(stack)@, kind).push(kind)
        } else {
            without(old(stack)@, kind)
        }),
{
    let new_state = !currently_shown;
    remove_kind(stack, kind);
    if new_state {
        stack.push(kind);
    }
    new_state
}

/// Appending an element that is absent keeps a sequence free of duplicates.
pub proof fn lemma_push_no_duplicates(s: Seq<OverlayKind>, x: OverlayKind)
    requires
        s.no_duplicates(),
        !s.contains(x),
    ensures
        s.push(x).no_duplicates(),
{
    assert forall|i: int, j: int| 0 <= i < s.push(x).len() && 0 <= j < s.push(x).len() && i != j implies s.push(x)[i] != s.push(x)[j] by {
        if i < s.len() && j < s.len() {
        } else if i < s.len() {
            assert(s.contains(s[i]));
        } else {
            assert(s.contains(s[j]));
        }
    }
}

/// Removing `kind` keeps the other entries and their absence of duplicates.
pub proof fn lemma_without(stack: Seq<OverlayKind>, kind: OverlayKind)
    ensures
        forall|k: OverlayKind| #[trigger] without(stack, kind).contains(k) <==> (stack.contains(k) && k
            != kind),
        stack.no_duplicates() ==> without(stack, kind).no_duplicates(),
    decreases stack.len(),
{
    broadcast use vstd::seq_lib::group_filter_ensures;

    if stack.len() > 0 {
        let init = stack.drop_last();
        lemma_without(init, kind);
        init.lemma_filter_push(stack.last(), other_than(kind));
        assert(init.push(stack.last()) =~= stack);
        if stack.no_duplicates() {
            assert(init.no_duplicates());
            assert(!init.contains(stack.last())) by {
                if init.contains(stack.last()) {
                    let i = choose|i: int| 0 <= i < init.len() && init[i] == stack.last();
                    assert(stack[i] == stack[stack.len() - 1]);
                }
            }
            if stack.last() != kind {
                lemma_push_no_duplicates(without(init, kind), stack.last());
            }
        }
        assert forall|k: OverlayKind| #[trigger] without(stack, kind).contains(k) <==> (stack.contains(k)
            && k != kind) by {
            if stack.contains(k) && k != kind {
                let i = choose|i: int| 0 <= i < stack.len() && stack[i] == k;
                if i < stack.len() - 1 {
                    assert(init[i] == k);
                }
            }
            if without(stack, kind).contains(k) {
                if k != stack.last() {
                    assert(without(init, kind).contains(k));
                    let i = choose|i: int| 0 <= i < init.len() && init[i] == k;
                    assert(stack[i] == k);
                }
            }
        }
    } else {
        assert(without(stack, kind) =~= stack);
    }
}

/// Toggling a panel that is shown hides it and takes it off the stack;
/// toggling a hidden one shows it and puts it on top. Either way the stack
/// holds no panel twice, and its other panels keep their order.
pub proof fn lemma_toggle_stack(stack: Seq<OverlayKind>, kind: OverlayKind, shown: bool)
    requires
        stack.no_duplicates(),
    ensures
        ({
            let after = if !shown {
                without(stack, kind).push(kind)
            } else {
                without(stack, kind)
            };
            &&& after.no_duplicates()
            &&& after.contains(kind) == !shown
            &&& !shown ==> after.last() == kind
            &&& forall|k: OverlayKind| k != kind ==> (after.contains(k) == stack.contains(k))
        }),
{
    lemma_without(stack, kind);
    let w = without(stack, kind);
    if !shown {
        assert(w.push(kind).last() == kind);
        assert(w.push(kind)[w.len() as int] == kind);
        assert forall|k: OverlayKind| k != kind implies (w.push(kind).contains(k) == stack.contains(k)) by {
            if w.push(kind).contains(k) {
                let i = choose|i: int| 0 <= i < w.push(kind).len() && w.push(kind)[i] == k;
                assert(w[i] == k);
            }
            if w.contains(k) {
                let i = choose|i: int| 0 <= i < w.len() && w[i] == k;
                assert(w.push(kind)[i] == k);
            }
        }
    }
}

/// The panel flags, the stack they are opened in, the on-screen texts, and
/// the controller.
pub struct OverlayState {
    filename_text: String,
    osd_text: String,
    info_text: String,
    center_error_text: String,
    show_info_overlay: bool,
    show_help_overlay: bool,
    show_settings: bool,
    show_gallery: bool,
    osc: Osc,
    overlay_stack: Vec<OverlayKind>,
}

/// `new` is `old` with panel `kind` toggled: the panel flips; when it opens
/// it goes on top of the stack, when it closes it leaves the stack; the other
/// panels, the info panel, the texts and the controller are unchanged.
pub open spec fn panel_toggled(old: OverlayState, new: OverlayState, kind: OverlayKind) -> bool {
    let shown = !old.shown_spec(kind);
    &&& new.shown_spec(kind) == shown
    &&& forall|k: OverlayKind| k != kind ==> new.shown_spec(k) == old.shown_spec(k)
    &&& new.stack_spec() == (if shown {
        without(old.stack_spec(), kind).push(kind)
    } else {
        without(old.stack_spec(), kind)
    })
    &&& new.info_spec() == old.info_spec()
    &&& new.texts_spec() == old.texts_spec()
    &&& new.osc_spec() == old.osc_spec()
    &&& new.osc_visible_spec() == old.osc_visible_spec()
}

/// Whether a panel is shown, given the three flags.
pub open spec fn panel_shown(kind: OverlayKind, gallery: bool, help: bool, settings: bool) -> bool {
    match kind {
        OverlayKind::Gallery => gallery,
        OverlayKind::Help => help,
        OverlayKind::Settings => settings,
    }
}

impl OverlayState {
    /// The open-order stack; the last entry is the frontmost panel.
    pub closed spec fn stack_spec(&self) -> Seq<OverlayKind> {
        self.overlay_stack@
    }

    /// Whether a panel is shown.
    pub closed spec fn shown_spec(&self, kind: OverlayKind) -> bool {
        panel_shown(kind, self.show_gallery, self.show_help_overlay, self.show_settings)
    }

    /// Whether the info panel is shown.
    pub closed spec fn info_spec(&self) -> bool {
        self.show_info_overlay
    }

    /// The texts of the filename bar, the OSD, the info panel and the
    /// centre error, in that order.
    pub closed spec fn texts_spec(&self) -> (Seq<char>, Seq<char>, Seq<char>, Seq<char>) {
        (self.filename_text@, self.osd_text@, self.info_text@, self.center_error_text@)
    }

    /// Whether the controller is visible.
    pub closed spec fn osc_visible_spec(&self) -> bool {
        self.osc.visible
    }

    /// The controller's state: last activity, visibility, hovering.
    pub closed spec fn osc_spec(&self) -> Osc {
        self.osc
    }

    /// The stack holds exactly the shown panels, each once.
    pub closed spec fn wf(&self) -> bool {
        &&& self.overlay_stack@.no_duplicates()
        &&& forall|k: OverlayKind| #[trigger] self.overlay_stack@.contains(k) == self.shown_spec(k)
    }

    /// Nothing shown, empty texts, a visible controller.
    pub fn new(now_ms: u64) -> (o: OverlayState)
        ensures
            o.wf(),
            o.stack_spec() == Seq::<OverlayKind>::empty(),
            !o.info_spec(),
            o.texts_spec() == (Seq::<char>::empty(), Seq::<char>::empty(), Seq::<char>::empty(), Seq::<char>::empty()),
            o.osc_visible_spec(),
    {
        OverlayState {
            filename_text: String::new(),
            osd_text: String::new(),
            info_text: String::new(),
            center_error_text: String::new(),
            show_info_overlay: false,
            show_help_overlay: false,
            show_settings: false,
            show_gallery: false,
            osc: Osc::new(now_ms),
            overlay_stack: Vec::new(),
        }
    }

    /// The frontmost shown panel, if any.
    pub fn front_overlay(&self) -> (k: Option<OverlayKind>)
        requires
            self.wf(),
        ensures
            self.stack_spec().len() == 0 ==> k is None,
            self.stack_spec().len() > 0 ==> k == Some(self.stack_spec().last()),
            k matches Some(f) ==> self.shown_spec(f),
    {
        let n = self.overlay_stack.len();
        if n == 0 {
            None
        } else {
            proof {
                assert(self.overlay_stack@.contains(self.overlay_stack@[n - 1]));
            }
            Some(self.overlay_stack[n - 1])
        }
    }

    /// Toggle a panel; see `toggle_overlay`. Returns its new visibility.
    pub fn toggle_panel(&mut self, kind: OverlayKind) -> (shown: bool)
        requires
            old(self).wf(),
        ensures
            final(self).wf(),
            shown == !old(self).shown_spec(kind),
            final(self).shown_spec(kind) == shown,
            forall|k: OverlayKind| k != kind ==> final(self).shown_spec(k) == old(self).shown_spec(k),
            final(self).stack_spec() == (if shown {
                without(old(self).stack_spec(), kind).push(kind)
            } else {
                without(old(self).stack_spec(), kind)
            }),
            final(self).info_spec() == old(self).info_spec(),
            final(self).texts_spec() == old(self).texts_spec(),
            final(self).osc_visible_spec() == old(self).osc_visible_spec(),
            panel_toggled(*old(self), *final(self), kind),
    {
        let current = match kind {
            OverlayKind::Gallery => self.show_gallery,
            OverlayKind::Help => self.show_help_overlay,
            OverlayKind::Settings => self.show_settings,
        };
        proof {
            lemma_toggle_stack(self.overlay_stack@, kind, current);
        }
        let shown = toggle_overlay(&mut self.overlay_stack, kind, current);
        match kind {
            OverlayKind::Gallery => self.show_gallery = shown,
            OverlayKind::Help => self.show_help_overlay = shown,
            OverlayKind::Settings => self.show_settings = shown,
        }
        proof {
            assert forall|k: OverlayKind| #[trigger] self.overlay_stack@.contains(k) == self.shown_spec(k) by {
                if k != kind {
                    assert(old(self).overlay_stack@.contains(k) == old(self).shown_spec(k));
                }
            }
        }
        shown
    }

    /// Toggle the help panel.
    pub fn toggle_help_overlay(&mut self) -> (shown: bool)
        requires
            old(self).wf(),
        ensures
            final(self).wf(),
            shown == !old(self).shown_spec(OverlayKind::Help),
            final(self).shown_spec(OverlayKind::Help) == shown,
            forall|k: OverlayKind| k != OverlayKind::Help ==> final(self).shown_spec(k) == old(self).shown_spec(k),
            final(self).stack_spec() == (if shown {
                without(old(self).stack_spec(), OverlayKind::Help).push(OverlayKind::Help)
            } else {
                without(old(self).stack_spec(), OverlayKind::Help)
            }),
            panel_toggled(*old(self), *final(self), OverlayKind::Help),
    {
        self.toggle_panel(OverlayKind::Help)
    }

    /// Toggle the settings panel.
    pub fn toggle_settings(&mut self) -> (shown: bool)
        requires
            old(self).wf(),
        ensures
            final(self).wf(),
            shown == !old(self).shown_spec(OverlayKind::Settings),
            final(self).shown_spec(OverlayKind::Settings) == shown,
            forall|k: OverlayKind| k != OverlayKind::Settings ==> final(self).shown_spec(k) == old(self).shown_spec(k),
            final(self).stack_spec() == (if shown {
                without(old(self).stack_spec(), OverlayKind::Settings).push(OverlayKind::Settings)
            } else {
                without(old(self).stack_spec(), OverlayKind::Settings)
            }),
            panel_toggled(*old(self), *final(self), OverlayKind::Settings),
    {
        self.toggle_panel(OverlayKind::Settings)
    }

    /// Toggle the gallery.
    pub fn toggle_gallery(&mut self) -> (shown: bool)
        requires
            old(self).wf(),
        ensures
            final(self).wf(),
            shown == !old(self).shown_spec(OverlayKind::Gallery),
            final(self).shown_spec(OverlayKind::Gallery) == shown,
            forall|k: OverlayKind| k != OverlayKind::Gallery ==> final(self).shown_spec(k) == old(self).shown_spec(k),
            final(self).stack_spec() == (if shown {
                without(old(self).stack_spec(), OverlayKind::Gallery).push(OverlayKind::Gallery)
            } else {
                without(old(self).stack_spec(), OverlayKind::Gallery)
            }),
            panel_toggled(*old(self), *final(self), OverlayKind::Gallery),
    {
        self.toggle_panel(OverlayKind::Gallery)
    }

    /// Hide a panel that was closed by other means (its window's close
    /// button, or Escape in the gallery) and take it off the stack.
    pub fn close_panel(&mut self, kind: OverlayKind)
        requires
            old(self).wf(),
        ensures
            final(self).wf(),
            !final(self).shown_spec(kind),
            forall|k: OverlayKind| k != kind ==> final(self).shown_spec(k) == old(self).shown_spec(k),
            final(self).stack_spec() == without(old(self).stack_spec(), kind),
            final(self).info_spec() == old(self).info_spec(),
            final(self).texts_spec() == old(self).texts_spec(),
            final(self).osc_visible_spec() == old(self).osc_visible_spec(),
    {
        proof {
            lemma_toggle_stack(self.overlay_stack@, kind, true);
        }
        remove_kind(&mut self.overlay_stack, kind);
        match kind {
            OverlayKind::Gallery => self.show_gallery = false,
            OverlayKind::Help => self.show_help_overlay = false,
            OverlayKind::Settings => self.show_settings = false,
        }
        proof {
            lemma_without(old(self).overlay_stack@, kind);
            assert forall|k: OverlayKind| #[trigger] self.overlay_stack@.contains(k) == self.shown_spec(k) by {
                if k != kind {
                    assert(old(self).overlay_stack@.contains(k) == old(self).shown_spec(k));
                }
            }
        }
    }

    /// Whether a panel is shown.
    pub fn is_shown(&self, kind: OverlayKind) -> (b: bool)
        ensures
            b == self.shown_spec(kind),
    {
        match kind {
            OverlayKind::Gallery => self.show_gallery,
            OverlayKind::Help => self.show_help_overlay,
            OverlayKind::Settings => self.show_settings,
        }
    }

    /// Toggle the info panel. Returns its new visibility.
    pub fn toggle_info_overlay(&mut self) -> (shown: bool)
        requires
            old(self).wf(),
        ensures
            final(self).wf(),
            shown == !old(self).info_spec(),
            final(self).info_spec() == shown,
            forall|k: OverlayKind| final(self).shown_spec(k) == old(self).shown_spec(k),
            final(self).stack_spec() == old(self).stack_spec(),
            final(self).texts_spec() == old(self).texts_spec(),
    {
        self.show_info_overlay = !self.show_info_overlay;
        self.show_info_overlay
    }

    /// Whether the info panel is shown.
    pub fn info_overlay_visible(&self) -> (b: bool)
        ensures
            b == self.info_spec(),
    {
        self.show_info_overlay
    }

    /// Whether anything that needs redrawing is shown: a panel or the
    /// controller.
    pub fn is_active(&self) -> (b: bool)
        ensures
            b == (self.shown_spec(OverlayKind::Settings) || self.shown_spec(OverlayKind::Help)
                || self.shown_spec(OverlayKind::Gallery) || self.osc_visible_spec()),
    {
        self.show_settings || self.show_help_overlay || self.show_gallery || self.osc.visible
    }

    /// Set the filename bar text.
    pub fn set_text(&mut self, text: &str)
        requires
            old(self).wf(),
        ensures
            final(self).wf(),
            final(self).texts_spec() == (text@, old(self).texts_spec().1, old(self).texts_spec().2, old(self).texts_spec().3),
            final(self).stack_spec() == old(self).stack_spec(),
            forall|k: OverlayKind| final(self).shown_spec(k) == old(self).shown_spec(k),
            final(self).info_spec() == old(self).info_spec(),
            final(self).osc_spec() == old(self).osc_spec(),
    {
        self.filename_text = text.to_string();
    }

    /// Set the OSD text.
    pub fn set_osd_text(&mut self, text: &str)
        requires
            old(self).wf(),
        ensures
            final(self).wf(),
            final(self).texts_spec() == (old(self).texts_spec().0, text@, old(self).texts_spec().2, old(self).texts_spec().3),
            final(self).stack_spec() == old(self).stack_spec(),
            forall|k: OverlayKind| final(self).shown_spec(k) == old(self).shown_spec(k),
            final(self).info_spec() == old(self).info_spec(),
            final(self).osc_spec() == old(self).osc_spec(),
    {
        self.osd_text = text.to_string();
    }

    /// Set the info panel text.
    pub fn set_info_text(&mut self, text: &str)
        requires
            old(self).wf(),
        ensures
            final(self).wf(),
            final(self).texts_spec() == (old(self).texts_spec().0, old(self).texts_spec().1, text@, old(self).texts_spec().3),
            final(self).stack_spec() == old(self).stack_spec(),
            forall|k: OverlayKind| final(self).shown_spec(k) == old(self).shown_spec(k),
            final(self).info_spec() == old(self).info_spec(),
            final(self).osc_spec() == old(self).osc_spec(),
    {
        self.info_text = text.to_string();
    }

    /// Set the centre error text.
    pub fn set_center_error(&mut self, text: &str)
        requires
            old(self).wf(),
        ensures
            final(self).wf(),
            final(self).texts_spec() == (old(self).texts_spec().0, old(self).texts_spec().1, old(self).texts_spec().2, text@),
            final(self).stack_spec() == old(self).stack_spec(),
            forall|k: OverlayKind| final(self).shown_spec(k) == old(self).shown_spec(k),
            final(self).info_spec() == old(self).info_spec(),
            final(self).osc_spec() == old(self).osc_spec(),
    {
        self.center_error_text = text.to_string();
    }

    /// Clear the centre error text.
    pub fn clear_center_error(&mut self)
        requires
            old(self).wf(),
        ensures
            final(self).wf(),
            final(self).texts_spec() == (old(self).texts_spec().0, old(self).texts_spec().1, old(self).texts_spec().2, Seq::<char>::empty()),
            final(self).stack_spec() == old(self).stack_spec(),
            forall|k: OverlayKind| final(self).shown_spec(k) == old(self).shown_spec(k),
            final(self).info_spec() == old(self).info_spec(),
            final(self).osc_spec() == old(self).osc_spec(),
    {
        self.center_error_text = String::new();
    }

    /// The filename bar text.
    pub fn filename_text(&self) -> (t: &String)
        ensures
            t@ == self.texts_spec().0,
    {
        &self.filename_text
    }

    /// The OSD text.
    pub fn osd_text(&self) -> (t: &String)
        ensures
            t@ == self.texts_spec().1,
    {
        &self.osd_text
    }

    /// The info panel text.
    pub fn info_text(&self) -> (t: &String)
        ensures
            t@ == self.texts_spec().2,
    {
        &self.info_text
    }

    /// The centre error text.
    pub fn center_error_text(&self) -> (t: &String)
        ensures
            t@ == self.texts_spec().3,
    {
        &self.center_error_text
    }

    /// Record mouse activity for the controller.
    pub fn update_osc_activity(&mut self, now_ms: u64)
        requires
            old(self).wf(),
        ensures
            final(self).wf(),
            final(self).osc_visible_spec(),
            final(self).stack_spec() == old(self).stack_spec(),
            forall|k: OverlayKind| final(self).shown_spec(k) == old(self).shown_spec(k),
            final(self).texts_spec() == old(self).texts_spec(),
            final(self).info_spec() == old(self).info_spec(),
    {
        self.osc.update_interaction(now_ms);
    }

    /// Let the controller hide itself after inactivity.
    pub fn update_osc(&mut self, now_ms: u64)
        requires
            old(self).wf(),
        ensures
            final(self).wf(),
            final(self).osc_visible_spec() ==> old(self).osc_visible_spec(),
            final(self).osc_visible_spec() == final(self).osc_spec().visible,
            final(self).osc_spec() == (Osc {
                visible: old(self).osc_spec().visible && !(!old(self).osc_spec().hovering
                    && elapsed(now_ms, old(self).osc_spec().last_interaction_ms) > OSC_TIMEOUT_MS),
                ..old(self).osc_spec()
            }),
            final(self).stack_spec() == old(self).stack_spec(),
            forall|k: OverlayKind| final(self).shown_spec(k) == old(self).shown_spec(k),
            final(self).texts_spec() == old(self).texts_spec(),
            final(self).info_spec() == old(self).info_spec(),
    {
        self.osc.check_autohide(now_ms);
    }

    /// The controller, for drawing.
    pub fn osc(&self) -> (o: &Osc)
        ensures
            o.visible == self.osc_visible_spec(),
    {
        &self.osc
    }

    /// Record whether the mouse is over the controller.
    pub fn set_osc_hovering(&mut self, hovering: bool)
        requires
            old(self).wf(),
        ensures
            final(self).wf(),
            final(self).osc_visible_spec() == old(self).osc_visible_spec(),
            final(self).osc_spec() == (Osc { hovering, ..old(self).osc_spec() }),
            final(self).stack_spec() == old(self).stack_spec(),
            forall|k: OverlayKind| final(self).shown_spec(k) == old(self).shown_spec(k),
            final(self).texts_spec() == old(self).texts_spec(),
            final(self).info_spec() == old(self).info_spec(),
    {
        self.osc.hovering = hovering;
    }
}

} // verus!
