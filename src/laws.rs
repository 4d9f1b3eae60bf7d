//! Properties of the header, the label column and the table walk over any number of frames.
use vstd::prelude::*;

use crate::header::{HeaderState, ProbeHeader, abs_diff};
use crate::layout::{LayoutState, committed_width};
use crate::store::NodeStore;
use crate::table::sat_add;
use crate::walk::{ProbeRow, WalkState, clamp_openness, header_in, walk_row, walk_rows};
use crate::{HEIGHT_EPSILON, OPENNESS_FULL};

verus! {

proof fn widest_of_rows_ignores_headers(rows: Seq<ProbeRow>, a: WalkState, b: WalkState)
    requires
        a.1 == b.1,
    ensures
        walk_rows(rows, a).1 == walk_rows(rows, b).1,
    decreases rows,
{
    if rows.len() > 0 {
        widest_of_rows_ignores_headers(rows.drop_last(), a, b);
        widest_of_row_ignores_headers(rows.last(), walk_rows(rows.drop_last(), a), walk_rows(rows.drop_last(), b));
    }
}

proof fn widest_of_row_ignores_headers(row: ProbeRow, a: WalkState, b: WalkState)
    requires
        a.1 == b.1,
    ensures
        walk_row(row, a).1 == walk_row(row, b).1,
    decreases row,
{
    let widest = if row.label_width > a.1 {
        row.label_width
    } else {
        a.1
    };
    match row.children {
        None => {},
        Some(children) => {
            widest_of_rows_ignores_headers(children@, (a.0, widest, 0), (b.0, widest, 0));
        },
    }
}

/// The label column settles after one frame: once a frame over a tree of rows has committed
/// its width, every later frame over the same rows commits that same width again, whatever the
/// headers stored in between.
pub proof fn label_column_settles(
    rows: Seq<ProbeRow>,
    prev: LayoutState,
    first: Map<u64, HeaderState>,
    later: Map<u64, HeaderState>,
)
    ensures
        ({
            let w = committed_width(prev, walk_rows(rows, (first, 0, 0)).1);
            committed_width((LayoutState { labels_width: w }), walk_rows(rows, (later, 0, 0)).1)
                == w
        }),
{
    widest_of_rows_ignores_headers(rows, (first, 0, 0), (later, 0, 0));
}

/// A frame never narrows the label column.
pub proof fn label_column_never_shrinks(rows: Seq<ProbeRow>, prev: LayoutState, headers: Map<u64, HeaderState>)
    ensures
        committed_width(prev, walk_rows(rows, (headers, 0, 0)).1) >= prev.labels_width,
{
}

/// Toggling a header twice gives back the state it had.
pub proof fn toggle_twice_restores(s: HeaderState)
    ensures
        ProbeHeader::toggled(ProbeHeader::toggled(s)) == s,
        ProbeHeader::toggled(ProbeHeader::toggled(s)).open == s.open,
{
}

/// Whatever openness the animation reports, a loaded header holds one between fully closed and
/// fully open.
pub proof fn openness_stays_in_range(store: &NodeStore, id: u64, openness: u64)
    ensures
        ProbeHeader::load_spec(store, id, openness).openness <= OPENNESS_FULL,
        openness <= OPENNESS_FULL ==> ProbeHeader::load_spec(store, id, openness).openness
            == openness,
{
}

/// A value without children never gets a header: drawing it leaves the stored headers as
/// they were and only widens the column and the table.
pub proof fn leaf_row_keeps_store(row: ProbeRow, st: WalkState)
    requires
        row.children is None,
    ensures
        walk_row(row, st).0 == st.0,
{
}

/// Rows that are not mid-animation: each row has no children, or is fully closed, or is fully
/// open with rows below it that are not mid-animation either.
pub open spec fn settled_rows(rows: Seq<ProbeRow>) -> bool
    decreases rows,
{
    if rows.len() == 0 {
        true
    } else {
        settled_rows(rows.drop_last()) && settled_row(rows.last())
    }
}

pub open spec fn settled_row(row: ProbeRow) -> bool
    decreases row,
{
    match row.children {
        None => true,
        Some(children) => clamp_openness(row.openness) == 0 || (clamp_openness(row.openness)
            == OPENNESS_FULL && settled_rows(children@)),
    }
}

/// Height of settled rows stacked: each row's own height, and below a fully open row the
/// height of its nested rows.
pub open spec fn rows_height(rows: Seq<ProbeRow>) -> nat
    decreases rows,
{
    if rows.len() == 0 {
        0
    } else {
        rows_height(rows.drop_last()) + row_total(rows.last())
    }
}

pub open spec fn row_total(row: ProbeRow) -> nat
    decreases row,
{
    match row.children {
        Some(children) => if clamp_openness(row.openness) == OPENNESS_FULL {
            row.row_height as nat + rows_height(children@)
        } else {
            row.row_height as nat
        },
        None => row.row_height as nat,
    }
}

proof fn walk_rows_height(rows: Seq<ProbeRow>, st: WalkState)
    requires
        settled_rows(rows),
        st.2 + rows_height(rows) <= u64::MAX,
    ensures
        walk_rows(rows, st).2 == st.2 + rows_height(rows),
    decreases rows,
{
    if rows.len() > 0 {
        walk_rows_height(rows.drop_last(), st);
        walk_row_height(rows.last(), walk_rows(rows.drop_last(), st));
    }
}

proof fn walk_row_height(row: ProbeRow, st: WalkState)
    requires
        settled_row(row),
        st.2 + row_total(row) <= u64::MAX,
    ensures
        walk_row(row, st).2 == st.2 + row_total(row),
    decreases row,
{
    let widest = if row.label_width > st.1 {
        row.label_width
    } else {
        st.1
    };
    assert(sat_add(st.2, row.row_height as nat) == st.2 + row.row_height);
    match row.children {
        None => {
            assert(walk_row(row, st).2 == sat_add(st.2, row.row_height as nat));
        },
        Some(children) => {
            if clamp_openness(row.openness) == OPENNESS_FULL {
                walk_rows_height(children@, (st.0, widest, 0));
                assert(crate::header::shift_of(OPENNESS_FULL, header_in(st.0, row.id).body_height)
                    == 0);
            }
        },
    }
}

/// Body-height aggregation: once no row is mid-animation, a table is exactly as tall as its
/// rows stacked, each fully open row counting with its nested rows, whatever the headers
/// stored; and that height becomes the owner's body height up to `HEIGHT_EPSILON`.
pub proof fn body_height_aggregates(
    rows: Seq<ProbeRow>,
    headers: Map<u64, HeaderState>,
    widest: u64,
    owner: ProbeHeader,
)
    requires
        settled_rows(rows),
        rows_height(rows) <= u64::MAX,
    ensures
        walk_rows(rows, (headers, widest, 0)).2 == rows_height(rows),
        abs_diff(
            owner.with_body_height(walk_rows(rows, (headers, widest, 0)).2).state.body_height,
            rows_height(rows) as u64,
        ) <= HEIGHT_EPSILON,
{
    walk_rows_height(rows, (headers, widest, 0));
}

/// Whether a row among `rows`, at any depth the walk reaches, has a header under `id`.
pub open spec fn header_rows_use(rows: Seq<ProbeRow>, id: u64) -> bool
    decreases rows,
{
    if rows.len() == 0 {
        false
    } else {
        header_rows_use(rows.drop_last(), id) || header_row_uses(rows.last(), id)
    }
}

pub open spec fn header_row_uses(row: ProbeRow, id: u64) -> bool
    decreases row,
{
    match row.children {
        None => false,
        Some(children) => row.id == id || header_rows_use(children@, id),
    }
}

proof fn rows_keep_unused_header(rows: Seq<ProbeRow>, st: WalkState, id: u64)
    requires
        !header_rows_use(rows, id),
    ensures
        walk_rows(rows, st).0.contains_key(id) == st.0.contains_key(id),
        st.0.contains_key(id) ==> walk_rows(rows, st).0[id] == st.0[id],
    decreases rows,
{
    if rows.len() > 0 {
        rows_keep_unused_header(rows.drop_last(), st, id);
        row_keeps_unused_header(rows.last(), walk_rows(rows.drop_last(), st), id);
    }
}

proof fn row_keeps_unused_header(row: ProbeRow, st: WalkState, id: u64)
    requires
        !header_row_uses(row, id),
    ensures
        walk_row(row, st).0.contains_key(id) == st.0.contains_key(id),
        st.0.contains_key(id) ==> walk_row(row, st).0[id] == st.0[id],
    decreases row,
{
    let widest = if row.label_width > st.1 {
        row.label_width
    } else {
        st.1
    };
    match row.children {
        None => {},
        Some(children) => {
            rows_keep_unused_header(children@, (st.0, widest, 0), id);
        },
    }
}

/// A value without children never gets a header: where no row that has children carries the
/// identifier `id`, drawing a table, nested tables included, leaves the header stored under
/// `id` as it was.
pub proof fn leaf_rows_keep_store(rows: Seq<ProbeRow>, st: WalkState, id: u64)
    requires
        !header_rows_use(rows, id),
    ensures
        walk_rows(rows, st).0.contains_key(id) == st.0.contains_key(id),
        st.0.contains_key(id) ==> walk_rows(rows, st).0[id] == st.0[id],
{
    rows_keep_unused_header(rows, st, id);
}

} // verus!
