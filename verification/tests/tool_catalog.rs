use kicad_gateway::tool_catalog::{compare_text, contains_text, tool_catalog_drift, TextOrder};

fn names(list: &[&str]) -> Vec<String> {
    list.iter().map(|s| s.to_string()).collect()
}

#[test]
fn drift_lists_are_sorted_differences_each_name_once() {
    let live = names(&["sch_get_symbols", "pcb_get_board", "zeta_tool", "alpha_tool", "alpha_tool"]);
    let snapshot = names(&["pcb_get_board", "retired_tool", "sch_get_symbols", "old_tool"]);
    let drift = tool_catalog_drift(&live, &snapshot);
    assert_eq!(drift.live_not_in_snapshot, names(&["alpha_tool", "zeta_tool"]));
    assert_eq!(drift.snapshot_not_live, names(&["old_tool", "retired_tool"]));
}

#[test]
fn identical_catalogs_have_no_drift() {
    let live = names(&["b", "a"]);
    let drift = tool_catalog_drift(&live, &names(&["a", "b"]));
    assert!(drift.live_not_in_snapshot.is_empty());
    assert!(drift.snapshot_not_live.is_empty());
}

#[test]
fn texts_compare_as_strings_sort() {
    let mut sorted = names(&["b", "ab", "a", "B", "é", "aa"]);
    sorted.sort();
    let drift = tool_catalog_drift(&names(&["b", "ab", "a", "B", "é", "aa"]), &Vec::new());
    assert_eq!(drift.live_not_in_snapshot, sorted);
    assert_eq!(compare_text("a", "ab"), TextOrder::Before);
    assert_eq!(compare_text("b", "ab"), TextOrder::After);
    assert_eq!(compare_text("tool", "tool"), TextOrder::Same);
    assert!(contains_text(&names(&["x", "y"]), "y"));
    assert!(!contains_text(&names(&["x", "y"]), "z"));
}
