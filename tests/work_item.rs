use ddh_remover::{Args, Duplicates, WorkItem};

fn photos() -> Duplicates {
    let test_json = r#"
        {
            "file_length" : 1318934,
            "file_paths" : [
                "/data/Photos/ny/00097.jpg",
                "/data/Photos/concerts/00097.jpg"
            ],
            "full_hash" : 306482972711412640985380379178329462852,
            "partial_hash" : 119482817874600850350240560092010233366
        }"#;
    let value: serde_json::Value = serde_json::from_str(test_json).unwrap();
    let paths: Vec<String> = value["file_paths"]
        .as_array()
        .unwrap()
        .iter()
        .map(|p| p.as_str().unwrap().to_owned())
        .collect();
    Duplicates::new(
        value["file_length"].as_u64().unwrap(),
        paths,
        Some(306482972711412640985380379178329462852),
        Some(119482817874600850350240560092010233366),
    )
}

fn group(paths: &[&str]) -> Duplicates {
    Duplicates::new(10, paths.iter().map(|p| p.to_string()).collect(), Some(1), None)
}

#[test]
fn test_json_dups() {
    // Kept: the first path in ascending order; removed: the rest.
    let expected = vec!["/data/Photos/ny/00097.jpg"];
    let deserialized = photos();
    let args = Args::new(1, None, false, None);
    let wi = WorkItem::new(&deserialized, args);
    assert_eq!(*wi.files_remove(), expected);
}

#[test]
fn test_json_dups_keep() {
    let expected = vec!["/data/Photos/ny/00097.jpg"];
    let deserialized = photos();
    let args = Args::new(1, None, false, Some("concerts".to_owned()));
    let wi = WorkItem::new(&deserialized, args);
    assert_eq!(*wi.files_remove(), expected);
}

#[test]
fn test_json_more_dups() {
    let expected: Vec<String> = Vec::new();
    let deserialized = photos();
    let args = Args::new(2, None, false, None);
    let wi = WorkItem::new(&deserialized, args);
    assert_eq!(*wi.files_remove(), expected);
}

#[test]
fn test_wrong_json() {
    let test_json = r#"
        {
            "field1" : "test",
            "field2" : "/data/Photos/ny/00097.jpg",
            "field3" : 3,
        }"#;
    assert!(serde_json::from_str::<String>(&test_json).is_err());
}

#[test]
fn count_keeps_first_in_ascending_order() {
    let g = group(&["ny/a.jpg", "concerts/a.jpg"]);
    let wi = WorkItem::new(&g, Args::new(1, None, false, None));
    assert_eq!(*wi.files_remove(), vec!["ny/a.jpg"]);
}

#[test]
fn preferred_substring_spares_matches() {
    let g = group(&["ny/a.jpg", "concerts/a.jpg"]);
    let wi = WorkItem::new(&g, Args::new(1, None, false, Some("concerts".to_owned())));
    assert_eq!(*wi.files_remove(), vec!["ny/a.jpg"]);
}

#[test]
fn count_as_large_as_group_removes_nothing() {
    let g = group(&["ny/a.jpg", "concerts/a.jpg"]);
    let wi = WorkItem::new(&g, Args::new(2, None, false, None));
    assert!(wi.files_remove().is_empty());
    let wi = WorkItem::new(&g, Args::new(7, None, false, None));
    assert!(wi.files_remove().is_empty());
}

#[test]
fn count_sorts_before_removing() {
    let g = group(&["c", "a", "d", "b"]);
    let wi = WorkItem::new(&g, Args::new(2, None, false, None));
    assert_eq!(*wi.files_remove(), vec!["c", "d"]);
    // The group itself keeps its order.
    assert_eq!(wi.dups().files(), vec!["c", "a", "d", "b"]);
}

#[test]
fn count_orders_by_code_point() {
    let g = group(&["\u{e9}t\u{e9}", "zoo", "Zoo"]);
    let wi = WorkItem::new(&g, Args::new(1, None, false, None));
    assert_eq!(*wi.files_remove(), vec!["zoo", "\u{e9}t\u{e9}"]);
}

#[test]
fn count_zero_removes_all() {
    let g = group(&["b", "a"]);
    let wi = WorkItem::new(&g, Args::new(0, None, false, None));
    assert_eq!(*wi.files_remove(), vec!["a", "b"]);
}

#[test]
fn preference_with_zero_count_removes_nothing() {
    let g = group(&["x/a", "y/a", "keep/a"]);
    let wi = WorkItem::new(&g, Args::new(0, None, false, Some("keep".to_owned())));
    assert!(wi.files_remove().is_empty());
}

#[test]
fn preference_caps_in_original_order() {
    let g = group(&["z/a", "keep/a", "b/a", "m/a"]);
    let wi = WorkItem::new(&g, Args::new(2, None, false, Some("keep".to_owned())));
    assert_eq!(*wi.files_remove(), vec!["z/a", "b/a"]);
}

#[test]
fn preference_matching_nothing_still_caps() {
    let g = group(&["z/a", "b/a", "m/a"]);
    let wi = WorkItem::new(&g, Args::new(1, None, false, Some("none".to_owned())));
    assert_eq!(*wi.files_remove(), vec!["z/a"]);
}

#[test]
fn single_path_group_is_skipped() {
    let g = group(&["only/a.jpg"]);
    assert!(WorkItem::for_group(&g, Args::new(1, None, false, None)).is_none());
    assert!(WorkItem::for_group(&g, Args::new(0, Some("/out".to_owned()), false, Some("x".to_owned()))).is_none());
}

#[test]
fn group_without_hash_is_skipped() {
    let g = Duplicates::new(3, vec!["a".to_owned(), "b".to_owned()], None, None);
    assert!(!g.is_eligible());
    assert!(WorkItem::for_group(&g, Args::new(1, None, false, None)).is_none());
    let g = Duplicates::new(3, vec!["a".to_owned(), "b".to_owned()], None, Some(5));
    let wi = WorkItem::for_group(&g, Args::new(1, None, false, None)).unwrap();
    assert_eq!(*wi.files_remove(), vec!["b"]);
}

#[test]
fn group_getters() {
    let g = photos();
    assert_eq!(g.file_length(), 1318934);
    assert_eq!(g.files(), vec!["/data/Photos/ny/00097.jpg", "/data/Photos/concerts/00097.jpg"]);
    assert_eq!(g.full_hashes(), Some(306482972711412640985380379178329462852));
    assert_eq!(g.partial_hashes(), Some(119482817874600850350240560092010233366));
    assert!(g.is_eligible());
}
