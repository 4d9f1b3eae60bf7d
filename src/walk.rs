use vstd::prelude::*;

use crate::header::{HeaderState, ProbeHeader};
use crate::layout::ProbeLayout;
use crate::store::NodeStore;
use crate::table::{sat_add, visible_height, TableCursor};
use crate::OPENNESS_FULL;

verus! {

/// What one frame measures of a row of a table, and of the rows nested under it.
pub struct ProbeRow {
    /// Identifier of the row's node, stable across frames.
    pub id: u64,
    /// Measured width of the row's label.
    pub label_width: u64,
    /// Height of the row itself.
    pub row_height: u64,
    /// Openness that the animation gives this frame to the row's header, if it has one.
    pub openness: u64,
    /// The nested rows; `None` for a value without children, which gets no header.
    pub children: Option<Vec<ProbeRow>>,
}

/// What the walk carries from row to row: the stored header states, the widest label seen in
/// the frame so far, and the height of the table so far.
pub type WalkState = (Map<u64, HeaderState>, u64, u64);

pub open spec fn clamp_openness(o: u64) -> u64 {
    if o > OPENNESS_FULL {
        OPENNESS_FULL
    } else {
        o
    }
}

pub open spec fn header_in(headers: Map<u64, HeaderState>, id: u64) -> HeaderState {
    if headers.contains_key(id) {
        headers[id]
    } else {
        HeaderState::initial()
    }
}

/// Effect of drawing the rows `rows` of one table, first to last.
pub open spec fn walk_rows(rows: Seq<ProbeRow>, st: WalkState) -> WalkState
    decreases rows,
{
    if rows.len() == 0 {
        st
    } else {
        walk_row(rows.last(), walk_rows(rows.drop_last(), st))
    }
}

/// Effect of drawing one row: its label widens the column, its height adds to the table, and
/// where it has children and is not fully closed, its nested table is drawn, measured and
/// recorded in its header.
pub open spec fn walk_row(row: ProbeRow, st: WalkState) -> WalkState
    decreases row,
{
    let widest = if row.label_width > st.1 {
        row.label_width
    } else {
        st.1
    };
    let height = sat_add(st.2, row.row_height as nat);
    match row.children {
        None => (st.0, widest, height),
        Some(children) => {
            let h = ProbeHeader {
                id: row.id,
                state: header_in(st.0, row.id),
                dirty: false,
                openness: clamp_openness(row.openness),
            };
            if h.openness > 0 {
                let shift = crate::header::shift_of(h.openness, h.state.body_height);
                let inner = walk_rows(children@, (st.0, widest, 0));
                let h2 = h.with_body_height(inner.2);
                let headers = if h2.dirty {
                    inner.0.insert(row.id, h2.state)
                } else {
                    inner.0
                };
                (headers, inner.1, sat_add(height, visible_height(inner.2, shift as u64)))
            } else {
                (st.0, widest, height)
            }
        },
    }
}

/// Draws the header row of `row`: its label widens the column, and a row with children gets
/// its header, loaded from `store`.
pub fn show_header(row: &ProbeRow, layout: &mut ProbeLayout, store: &NodeStore) -> (r: Option<
    ProbeHeader,
>)
    ensures
        final(layout).id == old(layout).id,
        final(layout).state == old(layout).state,
        final(layout).min_labels_width == if row.label_width > old(layout).min_labels_width {
            row.label_width
        } else {
            old(layout).min_labels_width
        },
        r is None <==> row.children is None,
        r matches Some(h) ==> h == (ProbeHeader {
            id: row.id,
            state: store.header_at(row.id),
            dirty: false,
            openness: clamp_openness(row.openness),
        }),
{
    let header = match &row.children {
        Some(_) => Some(ProbeHeader::load(store, row.id, row.openness)),
        None => None,
    };
    layout.bump_labels_width(row.label_width);
    header
}

/// Draws the rows of one table in order, nesting the tables of the rows that are not fully
/// closed, and records the table's height as the body height of `header`, which it returns.
pub fn show_table(
    rows: &Vec<ProbeRow>,
    header: &mut ProbeHeader,
    layout: &mut ProbeLayout,
    store: &mut NodeStore,
) -> (height: u64)
    ensures
        ({
            let r = walk_rows(rows@, (old(store).headers(), old(layout).min_labels_width, 0));
            &&& final(store).headers() == r.0
            &&& final(layout).min_labels_width == r.1
            &&& height == r.2
        }),
        final(store).layouts() == old(store).layouts(),
        final(layout).id == old(layout).id,
        final(layout).state == old(layout).state,
        *final(header) == old(header).with_body_height(height),
    decreases rows@,
{
    let ghost start: WalkState = (store.headers(), layout.min_labels_width, 0);
    let ghost layouts = store.layouts();
    let mut cursor = TableCursor::new();
    let mut i: usize = 0;
    while i < rows.len()
        invariant
            i <= rows.len(),
            walk_rows(rows@.subrange(0, i as int), start) == (
                store.headers(),
                layout.min_labels_width,
                cursor.height,
            ),
            store.layouts() == layouts,
            layout.id == old(layout).id,
            layout.state == old(layout).state,
        decreases rows.len() - i,
    {
        let row = &rows[i];
        let ghost before: WalkState = (store.headers(), layout.min_labels_width, cursor.height);
        let child = show_header(row, layout, store);
        cursor.add_row(row.row_height);
        match child {
            Some(mut h) => {
                if h.body_visible() {
                    let shift = h.body_shift();
                    match &row.children {
                        Some(children) => {
                            assert(decreases_to!(rows@ => children@));
                            let content = show_table(children, &mut h, layout, store);
                            cursor.add_body(content, shift);
                        },
                        None => {},
                    }
                }
                h.store(store);
            },
            None => {},
        }
        assert(walk_row(*row, before) == (store.headers(), layout.min_labels_width, cursor.height));
        proof {
            assert(rows@.subrange(0, i + 1).drop_last() =~= rows@.subrange(0, i as int));
            assert(rows@.subrange(0, i + 1).last() == row);
        }
        i = i + 1;
    }
    proof {
        assert(rows@.subrange(0, rows.len() as int) =~= rows@);
    }
    let height = cursor.height;
    cursor.finish(header);
    height
}

} // verus!
