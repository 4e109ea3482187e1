use typio_host::panel::{
    candidate_number_label, grow_only_extent, pipeline_cache_path, plan_grow_only_size,
    viewport_mapping_changed, PanelStyle,
};

#[test]
fn candidate_number_label_matches_selection_keys() {
    let labels: Vec<_> = (0..10)
        .map(|i| String::from_utf8_lossy(&candidate_number_label(i)).into_owned())
        .collect::<Vec<_>>();
    assert_eq!(labels, ["1", "2", "3", "4", "5", "6", "7", "8", "9", "0"]);
    assert_eq!(String::from_utf8_lossy(&candidate_number_label(10)), "11");
}

#[test]
fn viewport_mapping_changes_when_scale_changes_but_logical_size_does_not() {
    assert!(viewport_mapping_changed(100, 40, 100, 40, 200, 80, 100, 40));
}

#[test]
fn viewport_mapping_is_stable_when_source_and_destination_match() {
    assert!(!viewport_mapping_changed(
        200, 80, 100, 40, 200, 80, 100, 40
    ));
}

#[test]
fn candidate_number_labels_beyond_ten_are_one_based() {
    assert_eq!(candidate_number_label(0), b"1".to_vec());
    assert_eq!(candidate_number_label(9), b"0".to_vec());
    assert_eq!(candidate_number_label(99), b"100".to_vec());
}

#[test]
fn grow_only_extent_never_shrinks_and_rounds_to_quantum() {
    assert_eq!(grow_only_extent(512, 100, 64), 512);
    assert_eq!(grow_only_extent(512, 513, 64), 576);
    assert_eq!(grow_only_extent(0, 1, 64), 64);
}

#[test]
fn grow_only_size_plan_reports_growth() {
    let plan = plan_grow_only_size(512, 128, 600, 100);
    assert_eq!(plan.width, 640);
    assert_eq!(plan.height, 128);
    assert!(plan.resized);
    let same = plan_grow_only_size(512, 128, 500, 100);
    assert_eq!((same.width, same.height, same.resized), (512, 128, false));
}

#[test]
fn default_panel_style_is_classic() {
    assert_eq!(PanelStyle::default(), PanelStyle::Classic);
}

#[test]
fn pipeline_cache_path_prefers_cache_home_then_home() {
    assert_eq!(
        pipeline_cache_path(Some("/c"), Some("/h")).as_deref(),
        Some("/c/typio/pipeline.bin")
    );
    assert_eq!(
        pipeline_cache_path(Some(""), Some("/h/")).as_deref(),
        Some("/h/.cache/typio/pipeline.bin")
    );
    assert_eq!(pipeline_cache_path(None, None), None);
    assert_eq!(pipeline_cache_path(Some(""), Some("")), None);
}
