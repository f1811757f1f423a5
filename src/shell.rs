use vstd::prelude::*;
use vstd::string::StringExecFns;
use crate::drag::{coordinate, Axis, DragSession};
use crate::layout::{initial_value, panel_axis, resized_value, Panel, PanelLayout};
use crate::shortcuts::{match_shortcut, shortcut_for, ShortcutAction};
use crate::toasts::{push_outcome, without_id, ToastQueue};
use crate::types::ToastType;

verus! {

/// The shell's independent on/off states; any combination is legal.
#[derive(Clone, Copy, Debug, PartialEq, Eq, Structural)]
pub struct VisibilityFlags {
    pub command_palette_open: bool,
    pub sidebar_collapsed: bool,
    pub assistant_collapsed: bool,
    pub terminal_visible: bool,
    pub do_not_disturb: bool,
    pub sound_enabled: bool,
}

/// The flags at startup: every panel but the terminal shown, nothing open,
/// sound on.
pub open spec fn initial_flags() -> VisibilityFlags {
    VisibilityFlags {
        command_palette_open: false,
        sidebar_collapsed: false,
        assistant_collapsed: false,
        terminal_visible: false,
        do_not_disturb: false,
        sound_enabled: true,
    }
}

/// `f` with panel `p` shown or hidden.
pub open spec fn flags_with(f: VisibilityFlags, p: Panel, shown: bool) -> VisibilityFlags {
    match p {
        Panel::Sidebar => VisibilityFlags { sidebar_collapsed: !shown, ..f },
        Panel::Assistant => VisibilityFlags { assistant_collapsed: !shown, ..f },
        Panel::Terminal => VisibilityFlags { terminal_visible: shown, ..f },
    }
}

/// The message of the toast that a save reports.
pub open spec fn saved_message() -> Seq<char> {
    "File saved successfully"@
}

impl VisibilityFlags {
    /// Whether panel `p` is on screen.
    pub open spec fn shows(&self, p: Panel) -> bool {
        match p {
            Panel::Sidebar => !self.sidebar_collapsed,
            Panel::Assistant => !self.assistant_collapsed,
            Panel::Terminal => self.terminal_visible,
        }
    }

    /// Whether panel `p` is on screen.
    pub fn shows_panel(&self, p: Panel) -> (r: bool)
        ensures
            r == self.shows(p),
    {
        match p {
            Panel::Sidebar => !self.sidebar_collapsed,
            Panel::Assistant => !self.assistant_collapsed,
            Panel::Terminal => self.terminal_visible,
        }
    }

    pub fn initial() -> (r: Self)
        ensures
            r == initial_flags(),
    {
        VisibilityFlags {
            command_palette_open: false,
            sidebar_collapsed: false,
            assistant_collapsed: false,
            terminal_visible: false,
            do_not_disturb: false,
            sound_enabled: true,
        }
    }
}

/// The whole transient state of the shell: flags, panel extents, toasts and
/// one drag session per resize handle.
pub struct ShellState {
    flags: VisibilityFlags,
    layout: PanelLayout,
    toasts: ToastQueue,
    sidebar_drag: DragSession,
    assistant_drag: DragSession,
    terminal_drag: DragSession,
}

impl ShellState {
    pub closed spec fn flags_spec(&self) -> VisibilityFlags {
        self.flags
    }

    pub closed spec fn layout_spec(&self) -> PanelLayout {
        self.layout
    }

    pub closed spec fn toasts_spec(&self) -> ToastQueue {
        self.toasts
    }

    pub closed spec fn drag_spec(&self, p: Panel) -> DragSession {
        match p {
            Panel::Sidebar => self.sidebar_drag,
            Panel::Assistant => self.assistant_drag,
            Panel::Terminal => self.terminal_drag,
        }
    }

    /// The layout and the queue are well formed, each handle drags along its
    /// panel's axis, and no hidden panel is being dragged.
    pub open spec fn wf(&self) -> bool {
        &&& self.layout_spec().wf()
        &&& self.toasts_spec().wf()
        &&& forall|p: Panel| #[trigger] self.drag_spec(p).axis_spec() == panel_axis(p)
        &&& forall|p: Panel|
            !self.flags_spec().shows(p) ==> !#[trigger] self.drag_spec(p).active_spec()
    }

    /// What `wf` says, panel by panel.
    spec fn wf_parts(&self) -> bool {
        &&& self.layout.wf()
        &&& self.toasts.wf()
        &&& self.sidebar_drag.axis_spec() == Axis::Horizontal
        &&& self.assistant_drag.axis_spec() == Axis::Horizontal
        &&& self.terminal_drag.axis_spec() == Axis::Vertical
        &&& self.flags.sidebar_collapsed ==> !self.sidebar_drag.active_spec()
        &&& self.flags.assistant_collapsed ==> !self.assistant_drag.active_spec()
        &&& !self.flags.terminal_visible ==> !self.terminal_drag.active_spec()
    }

    proof fn lemma_wf_parts(&self)
        requires
            self.wf(),
        ensures
            self.wf_parts(),
    {
        let _ = self.drag_spec(Panel::Sidebar);
        let _ = self.drag_spec(Panel::Assistant);
        let _ = self.drag_spec(Panel::Terminal);
    }

    proof fn lemma_wf_from_parts(&self)
        requires
            self.wf_parts(),
        ensures
            self.wf(),
    {
        assert forall|q: Panel| #[trigger] self.drag_spec(q).axis_spec() == panel_axis(q) by {
            match q {
                Panel::Sidebar => {},
                Panel::Assistant => {},
                Panel::Terminal => {},
            }
        }
        assert forall|q: Panel|
            !self.flags_spec().shows(q) implies !#[trigger] self.drag_spec(q).active_spec() by {
            match q {
                Panel::Sidebar => {},
                Panel::Assistant => {},
                Panel::Terminal => {},
            }
        }
    }

    /// `new` differs from `old` at most in its flags.
    pub open spec fn only_flags_changed(old: &Self, new: &Self) -> bool {
        &&& new.layout_spec() == old.layout_spec()
        &&& new.toasts_spec() == old.toasts_spec()
        &&& forall|q: Panel| #[trigger] new.drag_spec(q) == old.drag_spec(q)
    }

    /// `new` is `old` with panel `p` shown or hidden; hiding a panel ends its
    /// drag session.
    pub open spec fn panel_set(old: &Self, new: &Self, p: Panel, shown: bool) -> bool {
        &&& new.flags_spec() == flags_with(old.flags_spec(), p, shown)
        &&& new.layout_spec() == old.layout_spec()
        &&& new.toasts_spec() == old.toasts_spec()
        &&& forall|q: Panel| q != p ==> #[trigger] new.drag_spec(q) == old.drag_spec(q)
        &&& shown ==> new.drag_spec(p) == old.drag_spec(p)
        &&& !shown ==> !new.drag_spec(p).active_spec()
    }

    /// `new` is `old` with a toast of `kind` with `message` pushed, `r` being
    /// what the push returned.
    pub open spec fn toast_shown(
        old: &Self,
        new: &Self,
        kind: ToastType,
        message: Seq<char>,
        r: Option<String>,
    ) -> bool {
        &&& new.flags_spec() == old.flags_spec()
        &&& new.layout_spec() == old.layout_spec()
        &&& forall|q: Panel| #[trigger] new.drag_spec(q) == old.drag_spec(q)
        &&& push_outcome(old.toasts_spec(), new.toasts_spec(), kind, message, r)
    }

    /// The shell at startup. Each stored extent, if any, is clamped into its
    /// panel's range; a panel with none starts at its default.
    pub fn new(stored_sidebar: Option<i64>, stored_assistant: Option<i64>, stored_terminal: Option<
        i64,
    >) -> (r: Self)
        ensures
            r.wf(),
            r.flags_spec() == initial_flags(),
            r.layout_spec().value_of(Panel::Sidebar) == initial_value(
                Panel::Sidebar,
                stored_sidebar,
            ),
            r.layout_spec().value_of(Panel::Assistant) == initial_value(
                Panel::Assistant,
                stored_assistant,
            ),
            r.layout_spec().value_of(Panel::Terminal) == initial_value(
                Panel::Terminal,
                stored_terminal,
            ),
            r.toasts_spec()@.len() == 0,
            r.toasts_spec().next_id_spec() == 0,
            forall|p: Panel| !(#[trigger] r.drag_spec(p)).active_spec(),
    {
        ShellState {
            flags: VisibilityFlags::initial(),
            layout: PanelLayout::from_stored(stored_sidebar, stored_assistant, stored_terminal),
            toasts: ToastQueue::new(),
            sidebar_drag: DragSession::new(Axis::Horizontal),
            assistant_drag: DragSession::new(Axis::Horizontal),
            terminal_drag: DragSession::new(Axis::Vertical),
        }
    }

    pub fn flags(&self) -> (r: VisibilityFlags)
        ensures
            r == self.flags_spec(),
    {
        self.flags
    }

    pub fn layout(&self) -> (r: &PanelLayout)
        ensures
            *r == self.layout_spec(),
    {
        &self.layout
    }

    pub fn toasts(&self) -> (r: &ToastQueue)
        ensures
            *r == self.toasts_spec(),
    {
        &self.toasts
    }

    /// The current extent of panel `p`.
    pub fn get_value(&self, p: Panel) -> (r: u32)
        ensures
            r == self.layout_spec().value_of(p),
    {
        self.layout.get_value(p)
    }

    /// Whether the handle of panel `p` is being dragged.
    pub fn is_dragging(&self, p: Panel) -> (r: bool)
        ensures
            r == self.drag_spec(p).active_spec(),
    {
        match p {
            Panel::Sidebar => self.sidebar_drag.is_active(),
            Panel::Assistant => self.assistant_drag.is_active(),
            Panel::Terminal => self.terminal_drag.is_active(),
        }
    }

    /// Whether the toast stack is drawn: not while "do not disturb" is on.
    pub fn toasts_rendered(&self) -> (r: bool)
        ensures
            r == !self.flags_spec().do_not_disturb,
    {
        !self.flags.do_not_disturb
    }

    /// Whether a new toast plays a sound: only with sound on and "do not
    /// disturb" off.
    pub fn toast_sound(&self) -> (r: bool)
        ensures
            r == (self.flags_spec().sound_enabled && !self.flags_spec().do_not_disturb),
    {
        self.flags.sound_enabled && !self.flags.do_not_disturb
    }

    fn set_panel_shown(&mut self, p: Panel, shown: bool)
        requires
            old(self).wf(),
        ensures
            final(self).wf(),
            Self::panel_set(old(self), final(self), p, shown),
    {
        proof {
            self.lemma_wf_parts();
        }
        match p {
            Panel::Sidebar => {
                self.flags.sidebar_collapsed = !shown;
                if !shown {
                    self.sidebar_drag.pointer_up();
                }
            },
            Panel::Assistant => {
                self.flags.assistant_collapsed = !shown;
                if !shown {
                    self.assistant_drag.pointer_up();
                }
            },
            Panel::Terminal => {
                self.flags.terminal_visible = shown;
                if !shown {
                    self.terminal_drag.pointer_up();
                }
            },
        }
        proof {
            self.lemma_wf_from_parts();
        }
    }

    /// Collapses the file explorer, ending any drag of its handle.
    pub fn collapse_sidebar(&mut self)
        requires
            old(self).wf(),
        ensures
            final(self).wf(),
            Self::panel_set(old(self), final(self), Panel::Sidebar, false),
    {
        self.set_panel_shown(Panel::Sidebar, false);
    }

    /// Collapses or expands the file explorer.
    pub fn toggle_sidebar(&mut self)
        requires
            old(self).wf(),
        ensures
            final(self).wf(),
            Self::panel_set(
                old(self),
                final(self),
                Panel::Sidebar,
                !old(self).flags_spec().shows(Panel::Sidebar),
            ),
    {
        let shown = self.flags.sidebar_collapsed;
        self.set_panel_shown(Panel::Sidebar, shown);
    }

    /// Collapses the assistant panel, ending any drag of its handle.
    pub fn collapse_assistant(&mut self)
        requires
            old(self).wf(),
        ensures
            final(self).wf(),
            Self::panel_set(old(self), final(self), Panel::Assistant, false),
    {
        self.set_panel_shown(Panel::Assistant, false);
    }

    /// Shows or hides the terminal drawer.
    pub fn toggle_terminal(&mut self)
        requires
            old(self).wf(),
        ensures
            final(self).wf(),
            Self::panel_set(
                old(self),
                final(self),
                Panel::Terminal,
                !old(self).flags_spec().shows(Panel::Terminal),
            ),
    {
        let shown = !self.flags.terminal_visible;
        self.set_panel_shown(Panel::Terminal, shown);
    }

    /// Hides the terminal drawer, ending any drag of its handle.
    pub fn close_terminal(&mut self)
        requires
            old(self).wf(),
        ensures
            final(self).wf(),
            Self::panel_set(old(self), final(self), Panel::Terminal, false),
    {
        self.set_panel_shown(Panel::Terminal, false);
    }

    /// Opens the command palette (it stays open if it already was).
    pub fn open_command_palette(&mut self)
        requires
            old(self).wf(),
        ensures
            final(self).wf(),
            final(self).flags_spec() == (VisibilityFlags {
                command_palette_open: true,
                ..old(self).flags_spec()
            }),
            Self::only_flags_changed(old(self), final(self)),
    {
        proof {
            self.lemma_wf_parts();
        }
        self.flags.command_palette_open = true;
        proof {
            self.lemma_wf_from_parts();
            assert(self.drag_spec(Panel::Sidebar) == old(self).drag_spec(Panel::Sidebar));
        }
    }

    /// Closes the command palette, through its own close action.
    pub fn close_command_palette(&mut self)
        requires
            old(self).wf(),
        ensures
            final(self).wf(),
            final(self).flags_spec() == (VisibilityFlags {
                command_palette_open: false,
                ..old(self).flags_spec()
            }),
            Self::only_flags_changed(old(self), final(self)),
    {
        proof {
            self.lemma_wf_parts();
        }
        self.flags.command_palette_open = false;
        proof {
            self.lemma_wf_from_parts();
            assert(self.drag_spec(Panel::Sidebar) == old(self).drag_spec(Panel::Sidebar));
        }
    }

    pub fn toggle_do_not_disturb(&mut self)
        requires
            old(self).wf(),
        ensures
            final(self).wf(),
            final(self).flags_spec() == (VisibilityFlags {
                do_not_disturb: !old(self).flags_spec().do_not_disturb,
                ..old(self).flags_spec()
            }),
            Self::only_flags_changed(old(self), final(self)),
    {
        proof {
            self.lemma_wf_parts();
        }
        self.flags.do_not_disturb = !self.flags.do_not_disturb;
        proof {
            self.lemma_wf_from_parts();
            assert(self.drag_spec(Panel::Sidebar) == old(self).drag_spec(Panel::Sidebar));
        }
    }

    pub fn toggle_sound(&mut self)
        requires
            old(self).wf(),
        ensures
            final(self).wf(),
            final(self).flags_spec() == (VisibilityFlags {
                sound_enabled: !old(self).flags_spec().sound_enabled,
                ..old(self).flags_spec()
            }),
            Self::only_flags_changed(old(self), final(self)),
    {
        proof {
            self.lemma_wf_parts();
        }
        self.flags.sound_enabled = !self.flags.sound_enabled;
        proof {
            self.lemma_wf_from_parts();
            assert(self.drag_spec(Panel::Sidebar) == old(self).drag_spec(Panel::Sidebar));
        }
    }

    /// Records a toast of `kind` with `message` and returns its id. The toast
    /// is queued whatever the flags say; "do not disturb" only keeps it from
    /// being drawn or heard.
    pub fn show_toast(&mut self, kind: ToastType, message: String) -> (r: Option<String>)
        requires
            old(self).wf(),
        ensures
            final(self).wf(),
            Self::toast_shown(old(self), final(self), kind, message@, r),
    {
        proof {
            self.lemma_wf_parts();
        }
        let r = self.toasts.push(kind, message);
        proof {
            self.lemma_wf_from_parts();
        }
        r
    }

    /// Dismisses the toast with id `id`; an id that is not queued is ignored.
    pub fn remove_toast(&mut self, id: &String)
        requires
            old(self).wf(),
        ensures
            final(self).wf(),
            final(self).flags_spec() == old(self).flags_spec(),
            final(self).layout_spec() == old(self).layout_spec(),
            forall|q: Panel| #[trigger] final(self).drag_spec(q) == old(self).drag_spec(q),
            final(self).toasts_spec()@ == without_id(old(self).toasts_spec()@, id@),
            final(self).toasts_spec().next_id_spec() == old(self).toasts_spec().next_id_spec(),
    {
        proof {
            self.lemma_wf_parts();
        }
        self.toasts.remove(id);
        proof {
            self.lemma_wf_from_parts();
            assert(self.drag_spec(Panel::Sidebar) == old(self).drag_spec(Panel::Sidebar));
        }
    }

    /// Handles a key press with the given modifiers and key text, and
    /// returns whether it was a shortcut (whose default handling the caller
    /// then suppresses). Each shortcut performs exactly one action; any other
    /// key changes nothing.
    pub fn handle_key(&mut self, ctrl: bool, meta: bool, key: &str) -> (r: bool)
        requires
            old(self).wf(),
        ensures
            final(self).wf(),
            r == shortcut_for(ctrl, meta, key@).is_some(),
            shortcut_for(ctrl, meta, key@).is_none() ==> *final(self) == *old(self),
            shortcut_for(ctrl, meta, key@) == Some(ShortcutAction::OpenCommandPalette) ==> {
                &&& final(self).flags_spec() == (VisibilityFlags {
                    command_palette_open: true,
                    ..old(self).flags_spec()
                })
                &&& Self::only_flags_changed(old(self), final(self))
            },
            shortcut_for(ctrl, meta, key@) == Some(ShortcutAction::ToggleSidebar) ==> Self::panel_set(
                old(self),
                final(self),
                Panel::Sidebar,
                !old(self).flags_spec().shows(Panel::Sidebar),
            ),
            shortcut_for(ctrl, meta, key@) == Some(ShortcutAction::ToggleTerminal)
                ==> Self::panel_set(
                old(self),
                final(self),
                Panel::Terminal,
                !old(self).flags_spec().shows(Panel::Terminal),
            ),
            shortcut_for(ctrl, meta, key@) == Some(ShortcutAction::Save) ==> exists|
                id: Option<String>,
            |
                Self::toast_shown(old(self), final(self), ToastType::Success, saved_message(), id),
    {
        match match_shortcut(ctrl, meta, key) {
            None => false,
            Some(ShortcutAction::OpenCommandPalette) => {
                self.open_command_palette();
                true
            },
            Some(ShortcutAction::ToggleSidebar) => {
                self.toggle_sidebar();
                true
            },
            Some(ShortcutAction::ToggleTerminal) => {
                self.toggle_terminal();
                true
            },
            Some(ShortcutAction::Save) => {
                let message = String::from_str("File saved successfully");
                let id = self.show_toast(ToastType::Success, message);
                assert(Self::toast_shown(old(self), self, ToastType::Success, saved_message(), id));
                true
            },
        }
    }

    /// The pointer went down on the resize handle of panel `p` at `(x, y)`.
    /// A hidden panel has no handle, so the event is then ignored.
    pub fn pointer_down(&mut self, p: Panel, x: i32, y: i32)
        requires
            old(self).wf(),
        ensures
            final(self).wf(),
            !old(self).flags_spec().shows(p) ==> *final(self) == *old(self),
            old(self).flags_spec().shows(p) ==> {
                &&& final(self).drag_spec(p).active_spec()
                &&& final(self).drag_spec(p).anchor_spec() == coordinate(
                    panel_axis(p),
                    x as int,
                    y as int,
                )
                &&& final(self).flags_spec() == old(self).flags_spec()
                &&& final(self).layout_spec() == old(self).layout_spec()
                &&& final(self).toasts_spec() == old(self).toasts_spec()
                &&& forall|q: Panel| q != p ==> #[trigger] final(self).drag_spec(q) == old(
                    self,
                ).drag_spec(q)
            },
    {
        proof {
            self.lemma_wf_parts();
        }
        if !self.flags.shows_panel(p) {
            return;
        }
        match p {
            Panel::Sidebar => self.sidebar_drag.pointer_down(x, y),
            Panel::Assistant => self.assistant_drag.pointer_down(x, y),
            Panel::Terminal => self.terminal_drag.pointer_down(x, y),
        }
        proof {
            self.lemma_wf_from_parts();
        }
    }
    /// The extent of panel `p` after the pointer moves to `(x, y)` in state
    /// `old`: a dragged panel is resized by the distance from its anchor, any
    /// other keeps its extent.
    pub open spec fn moved_value(old: &Self, p: Panel, x: int, y: int) -> int {
        if old.drag_spec(p).active_spec() {
            resized_value(
                p,
                old.layout_spec().value_of(p),
                coordinate(panel_axis(p), x, y) - old.drag_spec(p).anchor_spec(),
            )
        } else {
            old.layout_spec().value_of(p)
        }
    }

    /// The pointer moved to `(x, y)` anywhere in the document. Every handle
    /// that is being dragged resizes its panel by the distance from its
    /// anchor and re-anchors at the pointer; idle handles ignore the move.
    pub fn pointer_move(&mut self, x: i32, y: i32)
        requires
            old(self).wf(),
        ensures
            final(self).wf(),
            forall|p: Panel| #[trigger]
                final(self).layout_spec().value_of(p) == Self::moved_value(
                    old(self),
                    p,
                    x as int,
                    y as int,
                ),
            forall|p: Panel| #[trigger]
                final(self).drag_spec(p).active_spec() == old(self).drag_spec(p).active_spec(),
            forall|p: Panel|
                old(self).drag_spec(p).active_spec() ==> #[trigger] final(self).drag_spec(
                    p,
                ).anchor_spec() == coordinate(panel_axis(p), x as int, y as int),
            final(self).flags_spec() == old(self).flags_spec(),
            final(self).toasts_spec() == old(self).toasts_spec(),
    {
        proof {
            self.lemma_wf_parts();
        }
        if let Some(d) = self.sidebar_drag.pointer_move(x, y) {
            self.layout.apply_delta(Panel::Sidebar, d);
        }
        if let Some(d) = self.assistant_drag.pointer_move(x, y) {
            self.layout.apply_delta(Panel::Assistant, d);
        }
        if let Some(d) = self.terminal_drag.pointer_move(x, y) {
            self.layout.apply_delta(Panel::Terminal, d);
        }
        proof {
            self.lemma_wf_from_parts();
            assert forall|p: Panel| #[trigger]
                self.layout_spec().value_of(p) == Self::moved_value(
                    old(self),
                    p,
                    x as int,
                    y as int,
                ) by {
                match p {
                    Panel::Sidebar => {},
                    Panel::Assistant => {},
                    Panel::Terminal => {},
                }
            }
            assert forall|p: Panel| #[trigger]
                self.drag_spec(p).active_spec() == old(self).drag_spec(p).active_spec() by {
                match p {
                    Panel::Sidebar => {},
                    Panel::Assistant => {},
                    Panel::Terminal => {},
                }
            }
            assert forall|p: Panel|
                old(self).drag_spec(p).active_spec() implies #[trigger] self.drag_spec(
                    p,
                ).anchor_spec() == coordinate(panel_axis(p), x as int, y as int) by {
                match p {
                    Panel::Sidebar => {},
                    Panel::Assistant => {},
                    Panel::Terminal => {},
                }
            }
        }
    }

    /// The pointer was released anywhere: every drag session ends.
    pub fn pointer_up(&mut self)
        requires
            old(self).wf(),
        ensures
            final(self).wf(),
            forall|p: Panel| !(#[trigger] final(self).drag_spec(p)).active_spec(),
            final(self).flags_spec() == old(self).flags_spec(),
            final(self).layout_spec() == old(self).layout_spec(),
            final(self).toasts_spec() == old(self).toasts_spec(),
    {
        proof {
            self.lemma_wf_parts();
        }
        self.sidebar_drag.pointer_up();
        self.assistant_drag.pointer_up();
        self.terminal_drag.pointer_up();
        proof {
            self.lemma_wf_from_parts();
            assert forall|p: Panel| !(#[trigger] self.drag_spec(p)).active_spec() by {
                match p {
                    Panel::Sidebar => {},
                    Panel::Assistant => {},
                    Panel::Terminal => {},
                }
            }
        }
    }
}

} // verus!
