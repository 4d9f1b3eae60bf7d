use vstd::prelude::*;

use crate::store::NodeStore;

verus! {

/// What is kept of a table's label column between frames.
#[derive(Clone, Copy, Debug, PartialEq, Eq, Structural)]
pub struct LayoutState {
    /// Width reserved for the labels, in milli-points.
    pub labels_width: u64,
}

impl LayoutState {
    pub open spec fn initial() -> LayoutState {
        LayoutState { labels_width: 0 }
    }

    pub fn new() -> (r: LayoutState)
        ensures
            r == LayoutState::initial(),
    {
        LayoutState { labels_width: 0 }
    }
}

/// One frame's view of a label column: the width committed earlier, which this frame's labels
/// occupy, and the widest label measured so far in this frame.
pub struct ProbeLayout {
    pub id: u64,
    pub state: LayoutState,
    pub min_labels_width: u64,
}

/// The width a column commits at the end of a frame.
pub open spec fn committed_width(state: LayoutState, widest: u64) -> u64 {
    if widest > state.labels_width {
        widest
    } else {
        state.labels_width
    }
}

impl ProbeLayout {
    pub open spec fn load_spec(store: &NodeStore, id: u64) -> ProbeLayout {
        ProbeLayout { id, state: store.layout_at(id), min_labels_width: 0 }
    }

    /// Starts a frame for the label column `id`; no label has been measured yet.
    pub fn load(store: &NodeStore, id: u64) -> (r: ProbeLayout)
        ensures
            r == Self::load_spec(store, id),
    {
        let state = store.load_layout(id);
        ProbeLayout { id, state, min_labels_width: 0 }
    }

    /// Ends the frame: the column grows to the widest label of this frame where that label is
    /// wider than the width the store holds now, and never shrinks.
    pub fn store(self, store: &mut NodeStore)
        ensures
            final(store).layout_at(self.id).labels_width == committed_width(
                old(store).layout_at(self.id),
                self.min_labels_width,
            ),
            self.min_labels_width > old(store).layout_at(self.id).labels_width
                ==> old(store).layout_written(
                *final(store),
                self.id,
                (LayoutState { labels_width: self.min_labels_width }),
            ),
            self.min_labels_width <= old(store).layout_at(self.id).labels_width
                ==> old(store).same_as(*final(store)),
    {
        let current = store.load_layout(self.id);
        if self.min_labels_width > current.labels_width {
            store.store_layout(self.id, LayoutState { labels_width: self.min_labels_width });
        }
    }

    /// Records the measured width of one label.
    pub fn bump_labels_width(&mut self, width: u64)
        ensures
            final(self).id == old(self).id,
            final(self).state == old(self).state,
            final(self).min_labels_width == if width > old(self).min_labels_width {
                width
            } else {
                old(self).min_labels_width
            },
    {
        if self.min_labels_width < width {
            self.min_labels_width = width;
        }
    }
}

impl ProbeLayout {
    /// The width a label may draw into: the committed column width, or less where the row
    /// offers less.
    pub fn label_width_limit(&self, available: u64) -> (r: u64)
        ensures
            r == if available < self.state.labels_width {
                available
            } else {
                self.state.labels_width
            },
    {
        if available < self.state.labels_width {
            available
        } else {
            self.state.labels_width
        }
    }

    /// Finishes a label that measured `measured` wide: records the width and returns the width
    /// the row advances by, which is the committed column width whatever the label measured,
    /// so that the columns of all rows line up.
    pub fn inner_label_ui(&mut self, measured: u64) -> (r: u64)
        ensures
            r == old(self).state.labels_width,
            final(self).id == old(self).id,
            final(self).state == old(self).state,
            final(self).min_labels_width == if measured > old(self).min_labels_width {
                measured
            } else {
                old(self).min_labels_width
            },
    {
        self.bump_labels_width(measured);
        self.state.labels_width
    }
}

} // verus!
