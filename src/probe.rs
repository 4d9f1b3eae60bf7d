use vstd::prelude::*;

use crate::header::ProbeHeader;
use crate::layout::ProbeLayout;
use crate::store::NodeStore;

verus! {

/// How the variants of a tagged union are offered for selection.
#[derive(Clone, Copy, Debug, PartialEq, Eq, Structural)]
pub enum VariantsStyle {
    /// Every variant name is shown, the active one marked.
    Inlined,
    /// One selector shows the active variant's name and lists all of them when opened.
    ComboBox,
}

/// Options that callers pass to every value they draw.
#[derive(Clone, Copy, Debug, PartialEq, Eq, Structural)]
pub struct Style {
    pub variants: VariantsStyle,
}

impl Style {
    pub fn new() -> (r: Style)
        ensures
            r.variants == VariantsStyle::Inlined,
    {
        Style { variants: VariantsStyle::Inlined }
    }
}

impl Default for Style {
    fn default() -> (r: Style)
        ensures
            r.variants == VariantsStyle::Inlined,
    {
        Style::new()
    }
}

/// What a frame of the top-level widget draws.
pub enum ProbeFrame {
    /// A value without children is drawn inline, with no header and no stored state.
    Inline,
    /// A value with children gets a header; while its body is not fully closed it also gets
    /// the label column of its table.
    Tree { header: ProbeHeader, layout: Option<ProbeLayout> },
}

/// The top-level widget for one labelled value.
pub struct Probe {
    /// Identifier of the value's node, derived from the label by the caller.
    pub id_source: u64,
    pub label: String,
    pub style: Style,
}

impl Probe {
    pub fn new(label: String, id_source: u64) -> (r: Probe)
        ensures
            r.id_source == id_source,
            r.label@ == label@,
            r.style.variants == VariantsStyle::Inlined,
    {
        Probe { id_source, label, style: Style::new() }
    }

    /// Starts a frame. `has_inner` tells whether the value has children, and `openness` is what
    /// the animation gives the header this frame.
    pub fn show(&self, has_inner: bool, openness: u64, store: &NodeStore) -> (r: ProbeFrame)
        ensures
            !has_inner ==> r is Inline,
            has_inner ==> (r matches ProbeFrame::Tree { header, layout } && header
                == ProbeHeader::load_spec(store, self.id_source, openness) && (if header.openness
                > 0 {
                layout == Some(ProbeLayout::load_spec(store, self.id_source))
            } else {
                layout is None
            })),
    {
        if !has_inner {
            return ProbeFrame::Inline;
        }
        let header = ProbeHeader::load(store, self.id_source, openness);
        let layout = if header.body_visible() {
            Some(ProbeLayout::load(store, self.id_source))
        } else {
            None
        };
        ProbeFrame::Tree { header, layout }
    }
}

/// Whether a variant shows nested rows: one that is not drawn through its single field and
/// has at least one field.
pub fn variant_has_inner(transparent: bool, field_count: usize) -> (r: bool)
    ensures
        r == (!transparent && field_count > 0),
{
    !transparent && field_count > 0
}

/// The variant to switch to when the entry `clicked` of the selector is chosen while `active`
/// is the current one: none where it already is.
pub fn pick_variant(active: usize, clicked: usize) -> (r: Option<usize>)
    ensures
        r == if clicked == active {
            None::<usize>
        } else {
            Some(clicked)
        },
{
    if clicked == active {
        None
    } else {
        Some(clicked)
    }
}

} // verus!
