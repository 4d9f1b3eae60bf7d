use egui_probe::header::{HeaderState, ProbeHeader};
use egui_probe::layout::{LayoutState, ProbeLayout};
use egui_probe::probe::{pick_variant, variant_has_inner, Probe, ProbeFrame, Style, VariantsStyle};
use egui_probe::store::NodeStore;
use egui_probe::table::TableCursor;
use egui_probe::walk::{show_header, show_table, ProbeRow};
use egui_probe::{HEIGHT_EPSILON, OPENNESS_FULL};

fn leaf(id: u64, label_width: u64, row_height: u64) -> ProbeRow {
    ProbeRow { id, label_width, row_height, openness: 0, children: None }
}

fn node(id: u64, label_width: u64, row_height: u64, openness: u64, children: Vec<ProbeRow>) -> ProbeRow {
    ProbeRow { id, label_width, row_height, openness, children: Some(children) }
}

/// Draws one frame of the widget `probe` over `rows`; returns the table height, if drawn.
fn frame(probe: &Probe, rows: &Vec<ProbeRow>, openness: u64, store: &mut NodeStore) -> Option<u64> {
    match probe.show(true, openness, store) {
        ProbeFrame::Inline => panic!("a value with children is drawn inline"),
        ProbeFrame::Tree { mut header, layout } => {
            let mut height = None;
            if let Some(mut layout) = layout {
                height = Some(show_table(rows, &mut header, &mut layout, store));
                layout.store(store);
            }
            header.store(store);
            height
        }
    }
}

#[test]
fn record_rows_share_widest_label() {
    let probe = Probe::new("person".to_string(), 7);
    let rows = vec![leaf(71, 28_000, 18_000), leaf(72, 21_000, 18_000)];
    let mut store = NodeStore::new();
    for _ in 0..4 {
        let height = frame(&probe, &rows, OPENNESS_FULL, &mut store);
        assert_eq!(height, Some(36_000));
        assert_eq!(store.load_layout(7).labels_width, 28_000);
    }
    // neither field gets a header of its own
    let mut layout = ProbeLayout::load(&store, 7);
    assert!(show_header(&rows[0], &mut layout, &store).is_none());
    assert!(show_header(&rows[1], &mut layout, &store).is_none());
    assert_eq!(store.load_header(71), HeaderState::new());
    assert_eq!(store.load_header(72), HeaderState::new());
}

#[test]
fn tagged_union_combo_box_selects_one_variant() {
    let style = Style { variants: VariantsStyle::ComboBox };
    assert_eq!(style.variants, VariantsStyle::ComboBox);
    assert_eq!(pick_variant(1, 1), None);
    assert_eq!(pick_variant(1, 2), Some(2));
    assert_eq!(pick_variant(1, 0), Some(0));
    assert!(variant_has_inner(false, 2));
    assert!(!variant_has_inner(false, 0));
    assert!(!variant_has_inner(true, 1));
}

#[test]
fn label_column_constant_after_first_frame() {
    let probe = Probe::new("tree".to_string(), 1);
    let rows = vec![
        leaf(10, 5_000, 10_000),
        node(11, 9_000, 10_000, OPENNESS_FULL, vec![leaf(20, 30_000, 10_000), leaf(21, 4_000, 10_000)]),
        node(12, 8_000, 10_000, 0, vec![leaf(22, 90_000, 10_000)]),
    ];
    let mut store = NodeStore::new();
    let mut widths = Vec::new();
    for _ in 0..5 {
        frame(&probe, &rows, OPENNESS_FULL, &mut store);
        widths.push(store.load_layout(1).labels_width);
    }
    // the closed row's nested label is never measured
    assert_eq!(widths, vec![30_000; 5]);
}

#[test]
fn label_column_never_shrinks() {
    let probe = Probe::new("tree".to_string(), 2);
    let mut store = NodeStore::new();
    frame(&probe, &vec![leaf(1, 40_000, 10_000)], OPENNESS_FULL, &mut store);
    assert_eq!(store.load_layout(2).labels_width, 40_000);
    frame(&probe, &vec![leaf(1, 10_000, 10_000)], OPENNESS_FULL, &mut store);
    assert_eq!(store.load_layout(2).labels_width, 40_000);
    frame(&probe, &vec![leaf(1, 50_000, 10_000)], OPENNESS_FULL, &mut store);
    assert_eq!(store.load_layout(2).labels_width, 50_000);
}

#[test]
fn toggle_twice_restores_open() {
    let store = NodeStore::new();
    let mut header = ProbeHeader::load(&store, 3, OPENNESS_FULL);
    assert!(header.is_open());
    header.toggle();
    assert!(!header.is_open());
    assert!(header.dirty);
    header.toggle();
    assert!(header.is_open());
    assert_eq!(header.state, HeaderState::new());
}

#[test]
fn collapse_button_toggles_on_click_only() {
    let store = NodeStore::new();
    let mut header = ProbeHeader::load(&store, 3, 500);
    header.collapse_button(false);
    assert!(header.is_open());
    assert!(!header.dirty);
    header.collapse_button(true);
    assert!(!header.is_open());
    let mut store = NodeStore::new();
    header.store(&mut store);
    assert!(!store.load_header(3).open);
    assert!(store.take_repaint());
    assert!(!store.take_repaint());
}

#[test]
fn openness_is_clamped() {
    let store = NodeStore::new();
    assert_eq!(ProbeHeader::load(&store, 1, 5_000).openness, OPENNESS_FULL);
    assert_eq!(ProbeHeader::load(&store, 1, 0).openness, 0);
    assert_eq!(ProbeHeader::load(&store, 1, 250).openness, 250);
}

#[test]
fn body_height_is_sum_of_row_heights() {
    let store0 = NodeStore::new();
    let mut store = NodeStore::new();
    let mut owner = ProbeHeader::load(&store0, 100, OPENNESS_FULL);
    let mut layout = ProbeLayout::load(&store0, 100);
    let rows = vec![
        leaf(1, 1_000, 12_000),
        node(2, 1_000, 15_000, 0, vec![leaf(3, 1_000, 40_000)]),
        leaf(4, 1_000, 9_000),
    ];
    let h = show_table(&rows, &mut owner, &mut layout, &mut store);
    assert_eq!(h, 36_000);
    assert_eq!(owner.state.body_height, 36_000);
    assert!(owner.dirty);
    assert_eq!(layout.min_labels_width, 1_000);
}

#[test]
fn expanded_child_adds_its_visible_body() {
    let mut store = NodeStore::new();
    // the child was measured 40 high in an earlier frame and is half open now
    store.store_header(2, HeaderState { open: true, body_height: 40_000 });
    let mut owner = ProbeHeader::load(&store, 100, OPENNESS_FULL);
    let mut layout = ProbeLayout::load(&store, 100);
    let rows = vec![
        leaf(1, 1_000, 12_000),
        node(2, 1_000, 15_000, 500, vec![leaf(3, 1_000, 30_000), leaf(5, 1_000, 10_000)]),
    ];
    let h = show_table(&rows, &mut owner, &mut layout, &mut store);
    // 12 + 15 + (40 - 20)
    assert_eq!(h, 47_000);
    assert_eq!(store.load_header(2).body_height, 40_000);
}

#[test]
fn nested_height_recorded_in_child_header() {
    let mut store = NodeStore::new();
    let mut owner = ProbeHeader::load(&store, 100, OPENNESS_FULL);
    let mut layout = ProbeLayout::load(&store, 100);
    let rows = vec![node(2, 3_000, 15_000, OPENNESS_FULL, vec![leaf(3, 7_000, 30_000)])];
    let h = show_table(&rows, &mut owner, &mut layout, &mut store);
    assert_eq!(h, 45_000);
    assert_eq!(store.load_header(2), HeaderState { open: true, body_height: 30_000 });
    assert_eq!(layout.min_labels_width, 7_000);
}

#[test]
fn empty_table_has_no_height() {
    let mut store = NodeStore::new();
    let mut owner = ProbeHeader::load(&store, 100, OPENNESS_FULL);
    let mut layout = ProbeLayout::load(&store, 100);
    let h = show_table(&Vec::new(), &mut owner, &mut layout, &mut store);
    assert_eq!(h, 0);
    assert_eq!(owner.state.body_height, 0);
    assert!(!owner.dirty);
}

#[test]
fn leaf_value_is_drawn_inline_without_state() {
    let probe = Probe::new("count".to_string(), 9);
    let mut store = NodeStore::new();
    assert!(matches!(probe.show(false, OPENNESS_FULL, &store), ProbeFrame::Inline));
    assert!(matches!(probe.show(false, 0, &store), ProbeFrame::Inline));
    assert!(!store.take_repaint());
    assert_eq!(store.load_header(9), HeaderState::new());
    assert_eq!(store.load_layout(9), LayoutState::new());
}

#[test]
fn closed_header_gets_no_table() {
    let probe = Probe::new("tree".to_string(), 4);
    let store = NodeStore::new();
    match probe.show(true, 0, &store) {
        ProbeFrame::Tree { header, layout } => {
            assert_eq!(header.openness, 0);
            assert!(layout.is_none());
        }
        ProbeFrame::Inline => panic!("expected a header"),
    }
}

#[test]
fn small_height_changes_are_ignored() {
    let store = NodeStore::new();
    let mut header = ProbeHeader::load(&store, 1, OPENNESS_FULL);
    header.set_body_height(HEIGHT_EPSILON);
    assert_eq!(header.state.body_height, 0);
    assert!(!header.dirty);
    header.set_body_height(HEIGHT_EPSILON + 1);
    assert_eq!(header.state.body_height, HEIGHT_EPSILON + 1);
    assert!(header.dirty);
}

#[test]
fn body_shift_follows_openness() {
    let mut store = NodeStore::new();
    store.store_header(1, HeaderState { open: false, body_height: 80_000 });
    assert_eq!(ProbeHeader::load(&store, 1, 0).body_shift(), 80_000);
    assert_eq!(ProbeHeader::load(&store, 1, 250).body_shift(), 60_000);
    assert_eq!(ProbeHeader::load(&store, 1, OPENNESS_FULL).body_shift(), 0);
    assert!(!ProbeHeader::load(&store, 1, 0).body_visible());
}

#[test]
fn label_slot_uses_committed_width() {
    let mut store = NodeStore::new();
    store.store_layout(5, LayoutState { labels_width: 30_000 });
    let mut layout = ProbeLayout::load(&store, 5);
    assert_eq!(layout.label_width_limit(20_000), 20_000);
    assert_eq!(layout.label_width_limit(50_000), 30_000);
    assert_eq!(layout.inner_label_ui(42_000), 30_000);
    assert_eq!(layout.min_labels_width, 42_000);
    layout.store(&mut store);
    assert_eq!(store.load_layout(5).labels_width, 42_000);
}

#[test]
fn table_cursor_saturates() {
    let mut cursor = TableCursor::new();
    cursor.add_row(u64::MAX - 1);
    cursor.add_row(5);
    assert_eq!(cursor.height, u64::MAX);
    let mut cursor = TableCursor::new();
    cursor.add_body(10, 25);
    assert_eq!(cursor.height, 0);
    cursor.add_body(25, 10);
    assert_eq!(cursor.height, 15);
}

#[test]
fn style_defaults_to_inlined() {
    assert_eq!(Style::default().variants, VariantsStyle::Inlined);
    assert_eq!(LayoutState::new().labels_width, 0);
}

#[test]
fn stale_layout_does_not_narrow_stored_column() {
    let mut store = NodeStore::new();
    let mut stale = ProbeLayout::load(&store, 6);
    let mut wider = ProbeLayout::load(&store, 6);
    store.store_layout(6, LayoutState { labels_width: 50_000 });
    assert!(store.take_repaint());
    stale.bump_labels_width(10_000);
    stale.store(&mut store);
    assert_eq!(store.load_layout(6).labels_width, 50_000);
    assert!(!store.take_repaint());
    wider.bump_labels_width(70_000);
    wider.store(&mut store);
    assert_eq!(store.load_layout(6).labels_width, 70_000);
    assert!(store.take_repaint());
}
