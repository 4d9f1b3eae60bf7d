use std::collections::HashMap;

use vstd::prelude::*;

use crate::header::HeaderState;
use crate::layout::LayoutState;

verus! {

broadcast use vstd::std_specs::hash::group_hash_axioms;

/// The state that outlives a frame, keyed by node identifier.
///
/// Entries are never evicted; every write asks for one more frame to be drawn.
pub struct NodeStore {
    headers: HashMap<u64, HeaderState>,
    layouts: HashMap<u64, LayoutState>,
    repaint: bool,
}

impl NodeStore {
    pub closed spec fn headers(&self) -> Map<u64, HeaderState> {
        self.headers@
    }

    pub closed spec fn layouts(&self) -> Map<u64, LayoutState> {
        self.layouts@
    }

    pub closed spec fn repaint_requested(&self) -> bool {
        self.repaint
    }

    /// The header state of `id`, or the initial one where none was stored.
    pub open spec fn header_at(&self, id: u64) -> HeaderState {
        if self.headers().contains_key(id) {
            self.headers()[id]
        } else {
            HeaderState::initial()
        }
    }

    pub open spec fn layout_at(&self, id: u64) -> LayoutState {
        if self.layouts().contains_key(id) {
            self.layouts()[id]
        } else {
            LayoutState::initial()
        }
    }

    /// `next` is this store after writing `state` for the header `id`.
    pub open spec fn header_written(self, next: NodeStore, id: u64, state: HeaderState) -> bool {
        &&& next.headers() == self.headers().insert(id, state)
        &&& next.layouts() == self.layouts()
        &&& next.repaint_requested()
    }

    /// `next` is this store after writing `state` for the label column `id`.
    pub open spec fn layout_written(self, next: NodeStore, id: u64, state: LayoutState) -> bool {
        &&& next.headers() == self.headers()
        &&& next.layouts() == self.layouts().insert(id, state)
        &&& next.repaint_requested()
    }

    /// `next` holds what this store holds.
    pub open spec fn same_as(self, next: NodeStore) -> bool {
        &&& next.headers() == self.headers()
        &&& next.layouts() == self.layouts()
        &&& next.repaint_requested() == self.repaint_requested()
    }

    pub fn new() -> (r: NodeStore)
        ensures
            r.headers() == Map::<u64, HeaderState>::empty(),
            r.layouts() == Map::<u64, LayoutState>::empty(),
            !r.repaint_requested(),
    {
        NodeStore { headers: HashMap::new(), layouts: HashMap::new(), repaint: false }
    }

    pub fn load_header(&self, id: u64) -> (r: HeaderState)
        ensures
            r == self.header_at(id),
    {
        match self.headers.get(&id) {
            Some(s) => *s,
            None => HeaderState::new(),
        }
    }

    pub fn load_layout(&self, id: u64) -> (r: LayoutState)
        ensures
            r == self.layout_at(id),
    {
        match self.layouts.get(&id) {
            Some(s) => *s,
            None => LayoutState::new(),
        }
    }

    pub fn store_header(&mut self, id: u64, state: HeaderState)
        ensures
            old(self).header_written(*final(self), id, state),
    {
        self.headers.insert(id, state);
        self.repaint = true;
    }

    pub fn store_layout(&mut self, id: u64, state: LayoutState)
        ensures
            old(self).layout_written(*final(self), id, state),
    {
        self.layouts.insert(id, state);
        self.repaint = true;
    }

    /// Whether a write since the last call asks for another frame; clears the request.
    pub fn take_repaint(&mut self) -> (r: bool)
        ensures
            r == old(self).repaint_requested(),
            final(self).headers() == old(self).headers(),
            final(self).layouts() == old(self).layouts(),
            !final(self).repaint_requested(),
    {
        let r = self.repaint;
        self.repaint = false;
        r
    }
}

} // verus!
