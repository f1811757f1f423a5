use vstd::prelude::*;
use crate::dimension::{clamp, signed_delta, Dimension};
use crate::drag::Axis;

verus! {

pub const SIDEBAR_MIN_WIDTH: u32 = 200;
pub const SIDEBAR_MAX_WIDTH: u32 = 600;
pub const SIDEBAR_DEFAULT_WIDTH: u32 = 320;
pub const ASSISTANT_MIN_WIDTH: u32 = 300;
pub const ASSISTANT_MAX_WIDTH: u32 = 800;
pub const ASSISTANT_DEFAULT_WIDTH: u32 = 480;
pub const TERMINAL_MIN_HEIGHT: u32 = 100;
pub const TERMINAL_MAX_HEIGHT: u32 = 500;
pub const TERMINAL_DEFAULT_HEIGHT: u32 = 200;

/// A resizable panel of the shell.
#[derive(Clone, Copy, Debug, PartialEq, Eq, Structural)]
pub enum Panel {
    /// The file explorer on the left; its width grows with a positive delta.
    Sidebar,
    /// The assistant on the right, anchored to the opposite edge; its width
    /// grows with a negative delta.
    Assistant,
    /// The terminal drawer at the bottom; its height grows with a positive delta.
    Terminal,
}

pub open spec fn panel_min(p: Panel) -> int {
    match p {
        Panel::Sidebar => SIDEBAR_MIN_WIDTH as int,
        Panel::Assistant => ASSISTANT_MIN_WIDTH as int,
        Panel::Terminal => TERMINAL_MIN_HEIGHT as int,
    }
}

pub open spec fn panel_max(p: Panel) -> int {
    match p {
        Panel::Sidebar => SIDEBAR_MAX_WIDTH as int,
        Panel::Assistant => ASSISTANT_MAX_WIDTH as int,
        Panel::Terminal => TERMINAL_MAX_HEIGHT as int,
    }
}

pub open spec fn panel_default(p: Panel) -> int {
    match p {
        Panel::Sidebar => SIDEBAR_DEFAULT_WIDTH as int,
        Panel::Assistant => ASSISTANT_DEFAULT_WIDTH as int,
        Panel::Terminal => TERMINAL_DEFAULT_HEIGHT as int,
    }
}

pub open spec fn panel_grows_with_positive(p: Panel) -> bool {
    p != Panel::Assistant
}

pub open spec fn panel_axis(p: Panel) -> Axis {
    match p {
        Panel::Terminal => Axis::Vertical,
        _ => Axis::Horizontal,
    }
}

/// The starting extent of `p`: the stored value clamped into range, or the
/// default when nothing usable was stored.
pub open spec fn initial_value(p: Panel, stored: Option<i64>) -> int {
    match stored {
        Some(v) => clamp(v as int, panel_min(p), panel_max(p)),
        None => panel_default(p),
    }
}

/// The extent of `p` after a drag of `delta`, from `value`.
pub open spec fn resized_value(p: Panel, value: int, delta: int) -> int {
    clamp(value + signed_delta(delta, panel_grows_with_positive(p)), panel_min(p), panel_max(p))
}

/// The extent of `p` after a drag that starts from `value`, anchored at
/// `anchor`, and moves the pointer through `positions` (coordinates along the
/// handle's axis): each move resizes by the distance from the previous
/// position and is clamped on its own.
pub open spec fn drag_value(p: Panel, value: int, anchor: int, positions: Seq<int>) -> int
    decreases positions.len(),
{
    if positions.len() == 0 {
        value
    } else {
        let prev = if positions.len() == 1 {
            anchor
        } else {
            positions[positions.len() - 2]
        };
        resized_value(p, drag_value(p, value, anchor, positions.drop_last()), positions.last() - prev)
    }
}

/// A drag ends at the clamped value of its whole distance, however its moves
/// were chunked or coalesced, as long as no move before the last one carried
/// the panel past a bound.
pub proof fn lemma_drag_chunking(p: Panel, value: int, anchor: int, positions: Seq<int>)
    requires
        panel_min(p) <= value <= panel_max(p),
        positions.len() > 0,
        forall|i: int|
            0 <= i < positions.len() - 1 ==> panel_min(p) <= value + signed_delta(
                #[trigger] positions[i] - anchor,
                panel_grows_with_positive(p),
            ) <= panel_max(p),
    ensures
        drag_value(p, value, anchor, positions) == resized_value(
            p,
            value,
            positions.last() - anchor,
        ),
    decreases positions.len(),
{
    let n = positions.len();
    if n > 1 {
        let prefix = positions.drop_last();
        assert forall|i: int| 0 <= i < prefix.len() - 1 implies panel_min(p) <= value
            + signed_delta(#[trigger] prefix[i] - anchor, panel_grows_with_positive(p))
            <= panel_max(p) by {
            assert(prefix[i] == positions[i]);
        }
        lemma_drag_chunking(p, value, anchor, prefix);
        assert(prefix.last() == positions[n - 2]);
        let g = panel_grows_with_positive(p);
        let mid = value + signed_delta(positions[n - 2] - anchor, g);
        assert(panel_min(p) <= mid <= panel_max(p));
        assert(drag_value(p, value, anchor, prefix) == mid);
        assert(mid + signed_delta(positions.last() - positions[n - 2], g) == value + signed_delta(
            positions.last() - anchor,
            g,
        ));
    } else {
        assert(positions.drop_last().len() == 0);
        assert(drag_value(p, value, anchor, positions.drop_last()) == value);
    }
}

/// The signed offset of pointer position `pos` from `anchor`, for panel `p`.
pub open spec fn offset(p: Panel, anchor: int, pos: int) -> int {
    signed_delta(pos - anchor, panel_grows_with_positive(p))
}

/// A drag whose every move goes the same way (all growing, or all shrinking)
/// ends at the clamped value of its whole distance, however its moves were
/// chunked or coalesced, bounds reached on the way included.
pub proof fn lemma_drag_one_way(
    p: Panel,
    value: int,
    anchor: int,
    positions: Seq<int>,
    growing: bool,
)
    requires
        panel_min(p) <= value <= panel_max(p),
        positions.len() > 0,
        growing ==> 0 <= offset(p, anchor, positions[0]),
        !growing ==> offset(p, anchor, positions[0]) <= 0,
        forall|i: int|
            0 <= i < positions.len() - 1 ==> (if growing {
                offset(p, anchor, #[trigger] positions[i]) <= offset(p, anchor, positions[i + 1])
            } else {
                offset(p, anchor, positions[i + 1]) <= offset(p, anchor, positions[i])
            }),
    ensures
        drag_value(p, value, anchor, positions) == resized_value(
            p,
            value,
            positions.last() - anchor,
        ),
    decreases positions.len(),
{
    let n = positions.len();
    let g = panel_grows_with_positive(p);
    if n > 1 {
        let prefix = positions.drop_last();
        assert forall|i: int| 0 <= i < prefix.len() - 1 implies (if growing {
            offset(p, anchor, #[trigger] prefix[i]) <= offset(p, anchor, prefix[i + 1])
        } else {
            offset(p, anchor, prefix[i + 1]) <= offset(p, anchor, prefix[i])
        }) by {
            assert(prefix[i] == positions[i]);
            assert(prefix[i + 1] == positions[i + 1]);
        }
        assert(prefix[0] == positions[0]);
        lemma_drag_one_way(p, value, anchor, prefix, growing);
        assert(prefix.last() == positions[n - 2]);
        let before = offset(p, anchor, positions[n - 2]);
        let after = offset(p, anchor, positions[n - 1]);
        if growing {
            assert(before <= after);
            if n > 2 {
                lemma_offsets_one_way(p, anchor, positions, growing, n - 2);
            }
        } else {
            assert(after <= before);
            if n > 2 {
                lemma_offsets_one_way(p, anchor, positions, growing, n - 2);
            }
        }
        assert(before + signed_delta(positions.last() - positions[n - 2], g) == after);
    } else {
        assert(positions.drop_last().len() == 0);
        assert(drag_value(p, value, anchor, positions.drop_last()) == value);
    }
}

proof fn lemma_offsets_one_way(p: Panel, anchor: int, positions: Seq<int>, growing: bool, k: int)
    requires
        0 <= k < positions.len(),
        growing ==> 0 <= offset(p, anchor, positions[0]),
        !growing ==> offset(p, anchor, positions[0]) <= 0,
        forall|i: int|
            0 <= i < positions.len() - 1 ==> (if growing {
                offset(p, anchor, #[trigger] positions[i]) <= offset(p, anchor, positions[i + 1])
            } else {
                offset(p, anchor, positions[i + 1]) <= offset(p, anchor, positions[i])
            }),
    ensures
        growing ==> 0 <= offset(p, anchor, positions[k]),
        !growing ==> offset(p, anchor, positions[k]) <= 0,
    decreases k,
{
    if k > 0 {
        lemma_offsets_one_way(p, anchor, positions, growing, k - 1);
        assert(positions[k - 1] == positions[k - 1]);
    }
}

impl Panel {
    pub fn min_value(&self) -> (r: u32)
        ensures
            r == panel_min(*self),
    {
        match self {
            Panel::Sidebar => SIDEBAR_MIN_WIDTH,
            Panel::Assistant => ASSISTANT_MIN_WIDTH,
            Panel::Terminal => TERMINAL_MIN_HEIGHT,
        }
    }

    pub fn max_value(&self) -> (r: u32)
        ensures
            r == panel_max(*self),
    {
        match self {
            Panel::Sidebar => SIDEBAR_MAX_WIDTH,
            Panel::Assistant => ASSISTANT_MAX_WIDTH,
            Panel::Terminal => TERMINAL_MAX_HEIGHT,
        }
    }

    pub fn default_value(&self) -> (r: u32)
        ensures
            r == panel_default(*self),
    {
        match self {
            Panel::Sidebar => SIDEBAR_DEFAULT_WIDTH,
            Panel::Assistant => ASSISTANT_DEFAULT_WIDTH,
            Panel::Terminal => TERMINAL_DEFAULT_HEIGHT,
        }
    }

    pub fn grows_with_positive(&self) -> (r: bool)
        ensures
            r == panel_grows_with_positive(*self),
    {
        match self {
            Panel::Assistant => false,
            _ => true,
        }
    }

    pub fn axis(&self) -> (r: Axis)
        ensures
            r == panel_axis(*self),
    {
        match self {
            Panel::Terminal => Axis::Vertical,
            _ => Axis::Horizontal,
        }
    }

    /// The key under which the panel's extent is kept in the browser's storage.
    pub fn storage_key(&self) -> (r: &'static str)
        ensures
            *self == Panel::Sidebar ==> r@ == "bloop-sidebar-width"@,
            *self == Panel::Assistant ==> r@ == "bloop-assistant-width"@,
            *self == Panel::Terminal ==> r@ == "bloop-terminal-height"@,
    {
        match self {
            Panel::Sidebar => "bloop-sidebar-width",
            Panel::Assistant => "bloop-assistant-width",
            Panel::Terminal => "bloop-terminal-height",
        }
    }
}

/// The extents of the three resizable panels, each kept within its range.
pub struct PanelLayout {
    sidebar: Dimension,
    assistant: Dimension,
    terminal: Dimension,
}

impl PanelLayout {
    pub closed spec fn value_of(&self, p: Panel) -> int {
        match p {
            Panel::Sidebar => self.sidebar.value_spec(),
            Panel::Assistant => self.assistant.value_spec(),
            Panel::Terminal => self.terminal.value_spec(),
        }
    }

    /// Each dimension is well formed and has its panel's bounds.
    pub closed spec fn bounds_ok(&self) -> bool {
        &&& self.sidebar.wf()
        &&& self.assistant.wf()
        &&& self.terminal.wf()
        &&& self.sidebar.min_spec() == panel_min(Panel::Sidebar)
        &&& self.sidebar.max_spec() == panel_max(Panel::Sidebar)
        &&& self.assistant.min_spec() == panel_min(Panel::Assistant)
        &&& self.assistant.max_spec() == panel_max(Panel::Assistant)
        &&& self.terminal.min_spec() == panel_min(Panel::Terminal)
        &&& self.terminal.max_spec() == panel_max(Panel::Terminal)
    }

    pub open spec fn wf(&self) -> bool {
        &&& self.bounds_ok()
        &&& forall|p: Panel| panel_min(p) <= #[trigger] self.value_of(p) <= panel_max(p)
    }

    fn dimension_for(p: Panel, stored: Option<i64>) -> (r: Dimension)
        ensures
            r.wf(),
            r.min_spec() == panel_min(p),
            r.max_spec() == panel_max(p),
            r.value_spec() == initial_value(p, stored),
    {
        Dimension::new(
            match stored {
                Some(v) => v,
                None => p.default_value() as i64,
            },
            p.min_value(),
            p.max_value(),
        )
    }

    /// The layout at startup, from the values that storage held (if any).
    /// Stored values outside a panel's range are clamped, not trusted.
    pub fn from_stored(sidebar: Option<i64>, assistant: Option<i64>, terminal: Option<i64>) -> (r:
        Self)
        ensures
            r.wf(),
            r.value_of(Panel::Sidebar) == initial_value(Panel::Sidebar, sidebar),
            r.value_of(Panel::Assistant) == initial_value(Panel::Assistant, assistant),
            r.value_of(Panel::Terminal) == initial_value(Panel::Terminal, terminal),
    {
        PanelLayout {
            sidebar: Self::dimension_for(Panel::Sidebar, sidebar),
            assistant: Self::dimension_for(Panel::Assistant, assistant),
            terminal: Self::dimension_for(Panel::Terminal, terminal),
        }
    }

    /// The current extent of `p`.
    pub fn get_value(&self, p: Panel) -> (r: u32)
        ensures
            r == self.value_of(p),
    {
        match p {
            Panel::Sidebar => self.sidebar.value(),
            Panel::Assistant => self.assistant.value(),
            Panel::Terminal => self.terminal.value(),
        }
    }

    /// Resizes `p` by a drag of `delta` and returns its new extent; the other
    /// panels keep theirs.
    pub fn apply_delta(&mut self, p: Panel, delta: i64) -> (r: u32)
        requires
            old(self).wf(),
        ensures
            final(self).wf(),
            r == final(self).value_of(p),
            r == resized_value(p, old(self).value_of(p), delta as int),
            forall|q: Panel| q != p ==> final(self).value_of(q) == old(self).value_of(q),
    {
        let grows = p.grows_with_positive();
        let r = match p {
            Panel::Sidebar => self.sidebar.apply_delta(delta, grows),
            Panel::Assistant => self.assistant.apply_delta(delta, grows),
            Panel::Terminal => self.terminal.apply_delta(delta, grows),
        };
        assert forall|q: Panel| panel_min(q) <= #[trigger] self.value_of(q) <= panel_max(q) by {
            match q {
                Panel::Sidebar => {},
                Panel::Assistant => {},
                Panel::Terminal => {},
            }
        }
        r
    }
}

} // verus!
