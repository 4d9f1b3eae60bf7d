use vstd::prelude::*;

use crate::header::ProbeHeader;

verus! {

/// What is seen of a nested body drawn `shift` above its natural place: the part that reaches
/// below the header row it belongs to.
pub open spec fn visible_height(content: u64, shift: u64) -> nat {
    if content > shift {
        (content - shift) as nat
    } else {
        0
    }
}

/// `a + b`, or `u64::MAX` where the sum does not fit.
pub open spec fn sat_add(a: u64, b: nat) -> u64 {
    if a + b > u64::MAX {
        u64::MAX
    } else {
        (a + b) as u64
    }
}

/// Running height of the rows of one table, from the first row down.
pub struct TableCursor {
    pub height: u64,
}

impl TableCursor {
    pub fn new() -> (r: TableCursor)
        ensures
            r.height == 0,
    {
        TableCursor { height: 0 }
    }

    /// A header row of height `row_height` below the rows so far.
    /// Heights saturate at `u64::MAX`.
    pub fn add_row(&mut self, row_height: u64)
        ensures
            final(self).height == sat_add(old(self).height, row_height as nat),
    {
        self.height = self.height.saturating_add(row_height);
    }

    /// A nested body of measured height `content`, drawn `shift` higher than its natural place.
    pub fn add_body(&mut self, content: u64, shift: u64)
        ensures
            final(self).height == sat_add(old(self).height, visible_height(content, shift)),
    {
        if content > shift {
            self.height = self.height.saturating_add(content - shift);
        }
    }

    /// The table is complete: its height becomes the body height of the header that owns it.
    pub fn finish(self, header: &mut ProbeHeader)
        ensures
            *final(header) == old(header).with_body_height(self.height),
    {
        header.set_body_height(self.height);
    }
}

} // verus!
