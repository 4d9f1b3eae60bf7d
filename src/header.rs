use vstd::prelude::*;

use crate::store::NodeStore;
use crate::{HEIGHT_EPSILON, OPENNESS_FULL};

verus! {

/// What is kept of a collapsible header between frames.
#[derive(Clone, Copy, Debug, PartialEq, Eq, Structural)]
pub struct HeaderState {
    pub open: bool,
    /// Last measured height of the body, in milli-points.
    pub body_height: u64,
}

impl HeaderState {
    /// A header seen for the first time is open and has an empty body.
    pub open spec fn initial() -> HeaderState {
        HeaderState { open: true, body_height: 0 }
    }

    pub fn new() -> (r: HeaderState)
        ensures
            r == HeaderState::initial(),
    {
        HeaderState { open: true, body_height: 0 }
    }
}

pub open spec fn abs_diff(a: u64, b: u64) -> nat {
    if a >= b {
        (a - b) as nat
    } else {
        (b - a) as nat
    }
}

/// How far a body of height `height` is moved up when its openness is `openness`: all of it
/// when closed, none of it when fully open.
pub open spec fn shift_of(openness: u64, height: u64) -> nat {
    if openness >= OPENNESS_FULL {
        0
    } else {
        (((OPENNESS_FULL - openness) * height) / (OPENNESS_FULL as int)) as nat
    }
}

/// One frame's view of a collapsible header: the persisted state, the openness the animation
/// reported for this frame, and whether the state has to be written back.
pub struct ProbeHeader {
    pub id: u64,
    pub state: HeaderState,
    pub dirty: bool,
    pub openness: u64,
}

impl ProbeHeader {
    pub open spec fn wf(&self) -> bool {
        self.openness <= OPENNESS_FULL
    }

    /// The state after a toggle.
    pub open spec fn toggled(s: HeaderState) -> HeaderState {
        HeaderState { open: !s.open, ..s }
    }

    /// This header after recording a measured body height of `height`.
    pub open spec fn with_body_height(self, height: u64) -> ProbeHeader {
        if abs_diff(self.state.body_height, height) > HEIGHT_EPSILON {
            ProbeHeader { state: HeaderState { body_height: height, ..self.state }, dirty: true, ..self }
        } else {
            self
        }
    }

    pub open spec fn load_spec(store: &NodeStore, id: u64, openness: u64) -> ProbeHeader {
        ProbeHeader {
            id,
            state: store.header_at(id),
            dirty: false,
            openness: if openness > OPENNESS_FULL {
                OPENNESS_FULL
            } else {
                openness
            },
        }
    }

    /// Starts a frame for the header `id`: its state comes from `store` (or is the initial
    /// one), and `openness` is what the animation gave for that state, clamped to the range.
    pub fn load(store: &NodeStore, id: u64, openness: u64) -> (r: ProbeHeader)
        ensures
            r.wf(),
            r == Self::load_spec(store, id, openness),
    {
        let state = store.load_header(id);
        let openness = if openness > OPENNESS_FULL { OPENNESS_FULL } else { openness };
        ProbeHeader { id, state, dirty: false, openness }
    }

    /// Ends the frame: writes the state back only when it changed.
    pub fn store(self, store: &mut NodeStore)
        ensures
            self.dirty ==> old(store).header_written(*final(store), self.id, self.state),
            !self.dirty ==> old(store).same_as(*final(store)),
    {
        if self.dirty {
            store.store_header(self.id, self.state);
        }
    }

    /// Flips between open and closed.
    pub fn toggle(&mut self)
        ensures
            final(self).state == Self::toggled(old(self).state),
            final(self).dirty,
            final(self).id == old(self).id,
            final(self).openness == old(self).openness,
    {
        self.state.open = !self.state.open;
        self.dirty = true;
    }

    pub fn is_open(&self) -> (r: bool)
        ensures
            r == self.state.open,
    {
        self.state.open
    }

    /// Records the measured body height, ignoring changes no larger than `HEIGHT_EPSILON`.
    pub fn set_body_height(&mut self, height: u64)
        ensures
            *final(self) == old(self).with_body_height(height),
    {
        let diff = if self.state.body_height >= height {
            self.state.body_height - height
        } else {
            height - self.state.body_height
        };
        if diff > HEIGHT_EPSILON {
            self.state.body_height = height;
            self.dirty = true;
        }
    }

    /// How far the body is moved up so that it slides under the header while collapsing.
    pub fn body_shift(&self) -> (r: u64)
        ensures
            r == shift_of(self.openness, self.state.body_height),
            r <= self.state.body_height,
    {
        if self.openness >= OPENNESS_FULL {
            return 0;
        }
        let closed = (OPENNESS_FULL - self.openness) as u128;
        let h = self.state.body_height as u128;
        proof {
            assert(closed * h <= OPENNESS_FULL * h) by (nonlinear_arith)
                requires closed <= OPENNESS_FULL;
            assert((closed * h) / 1000 <= h) by (nonlinear_arith)
                requires closed * h <= 1000 * h;
        }
        ((closed * h) / (OPENNESS_FULL as u128)) as u64
    }

    /// Whether the body is drawn at all this frame.
    pub fn body_visible(&self) -> (r: bool)
        ensures
            r == (self.openness > 0),
    {
        self.openness > 0
    }

    /// Handles the collapse affordance: a click toggles the header.
    pub fn collapse_button(&mut self, clicked: bool)
        ensures
            clicked ==> final(self).state == Self::toggled(old(self).state) && final(self).dirty,
            !clicked ==> *final(self) == *old(self),
            final(self).id == old(self).id,
            final(self).openness == old(self).openness,
    {
        if clicked {
            self.toggle();
        }
    }
}

} // verus!
