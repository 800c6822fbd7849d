use annoy::{
    check_error, check_path, fill_segment1_dim4, truncate_results, AnnoyAngular, AnnoyError,
    NativeStatus, Operation, PointWrite, SegmentWrites,
};

#[test]
fn check_error_success_ignores_message() {
    let s = NativeStatus { success: true, message: Some("stale".to_string()) };
    assert_eq!(check_error(Operation::Save, s), Ok(()));
}

#[test]
fn check_error_keeps_native_message() {
    let s = NativeStatus { success: false, message: Some("disk full".to_string()) };
    let e = check_error(Operation::Save, s).unwrap_err();
    assert_eq!(e, AnnoyError::Native { operation: Operation::Save, message: "disk full".to_string() });
    assert_eq!(e.describe(), "save failed: disk full");
}

#[test]
fn check_error_without_message_is_unknown() {
    let s = NativeStatus { success: false, message: None };
    assert_eq!(check_error(Operation::Build, s), Err(AnnoyError::NativeUnknown { operation: Operation::Build }));
}

#[test]
fn describe_names_the_operation() {
    let e = AnnoyError::DimensionMismatch { operation: Operation::AddItem, expected: 3, actual: 2 };
    assert!(e.describe().starts_with("add_item failed: "));
    let e = AnnoyError::ItemOutOfRange { operation: Operation::Distance, item: 4, n_items: 2 };
    assert!(e.describe().starts_with("get_distance failed: "));
    let e = AnnoyError::InvalidItem { item: 0x8000_0000 };
    assert_eq!(e.operation(), Operation::AddItem);
    assert!(!e.describe().is_empty());
}

#[test]
fn operation_names() {
    assert_eq!(Operation::NearestByVector.name(), "get_nearest_by_vector");
    assert_eq!(Operation::OnDiskBuild.name(), "on_disk_build");
    assert_eq!(Operation::ItemCount.name(), "get_n_items");
}

#[test]
fn results_are_cut_to_the_returned_count() {
    let ids = [7u32, 3, 9, 0, 0];
    assert_eq!(truncate_results(Operation::NearestByItem, &ids, 3), Ok(vec![7, 3, 9]));
    let dists = [0.1f32, 0.2, 0.3, 0.0, 0.0];
    assert_eq!(truncate_results(Operation::NearestByItem, &dists, 3), Ok(vec![0.1f32, 0.2, 0.3]));
}

#[test]
fn results_full_and_empty() {
    let ids = [1u32, 2];
    assert_eq!(truncate_results(Operation::NearestByVector, &ids, 2), Ok(vec![1, 2]));
    assert_eq!(truncate_results(Operation::NearestByVector, &ids, 0), Ok(vec![]));
    let none: [u32; 0] = [];
    assert_eq!(truncate_results(Operation::NearestByVector, &none, 0), Ok(vec![]));
}

#[test]
fn more_results_than_capacity_is_refused() {
    let ids = [1u32, 2];
    assert_eq!(
        truncate_results(Operation::NearestByVector, &ids, 3),
        Err(AnnoyError::TooManyResults { operation: Operation::NearestByVector, capacity: 2, returned: 3 })
    );
}

#[test]
fn three_axes_query_returns_exactly_three() {
    // Dimension 3, the three unit axes as items 0, 1, 2, built with the
    // default tree count; a query asking for 100 results gets buffers of 100
    // slots, the engine reports 3, and exactly those 3 come back, the slots
    // past them never exposed.
    let ok = || NativeStatus { success: true, message: None };
    let mut a = AnnoyAngular::new(3);
    a.add_item(0, &[1.0f32, 0.0, 0.0], ok()).unwrap();
    a.add_item(1, &[0.0f32, 1.0, 0.0], ok()).unwrap();
    a.add_item(2, &[0.0f32, 0.0, 1.0], ok()).unwrap();
    a.build(ok()).unwrap();
    assert_eq!(a.prepare_nearest_by_vector(&[1.0f32, 0.5, 0.5]), Ok(()));
    let mut scratch_ids = vec![u32::MAX; 100];
    let mut scratch_dists = vec![-1.0f32; 100];
    scratch_ids[..3].copy_from_slice(&[0, 1, 2]);
    scratch_dists[..3].copy_from_slice(&[0.5, 1.1, 1.1]);
    let ids = truncate_results(Operation::NearestByVector, &scratch_ids, 3).unwrap();
    let dists = truncate_results(Operation::NearestByVector, &scratch_dists, 3).unwrap();
    assert_eq!(ids, vec![0, 1, 2]);
    assert_eq!(dists, vec![0.5f32, 1.1, 1.1]);
    assert!(!ids.contains(&u32::MAX));
}

#[test]
fn fewer_items_than_asked_gives_that_many() {
    // Five items, ten asked for: the engine reports five, five come back.
    let mut scratch = vec![0u32; 10];
    scratch[..5].copy_from_slice(&[4, 2, 0, 1, 3]);
    let ids = truncate_results(Operation::NearestByItem, &scratch, 5).unwrap();
    assert_eq!(ids, vec![4, 2, 0, 1, 3]);
}

#[test]
fn engine_order_is_kept() {
    // Distances as the engine wrote them, nearest first, stay in that order.
    let scratch = [0.1f32, 0.2, 0.2, 0.7, 9.0, 9.0];
    let d = truncate_results(Operation::NearestByVector, &scratch, 4).unwrap();
    assert_eq!(d, vec![0.1f32, 0.2, 0.2, 0.7]);
    assert!(d.windows(2).all(|w| w[0] <= w[1]));
}

#[test]
fn check_error_keeps_an_empty_message() {
    let s = NativeStatus { success: false, message: Some(String::new()) };
    let e = check_error(Operation::AddItem, s).unwrap_err();
    assert_eq!(e, AnnoyError::Native { operation: Operation::AddItem, message: String::new() });
    assert_eq!(e.describe(), "add_item failed: ");
}

#[test]
fn paths() {
    assert_eq!(check_path(Operation::Save, "/tmp/a.ann"), Ok(()));
    assert_eq!(check_path(Operation::Save, ""), Ok(()));
    assert_eq!(
        check_path(Operation::OnDiskBuild, "a\0b"),
        Err(AnnoyError::InvalidPath { operation: Operation::OnDiskBuild })
    );
}

#[test]
fn segment_fixture_writes() {
    let mut s = SegmentWrites::new();
    fill_segment1_dim4(&mut s);
    assert_eq!(s.writes.len(), 10);
    match &s.writes[0] {
        PointWrite::Upsert { op_num, point_id, vector } => {
            assert_eq!((*op_num, *point_id), (1, 1));
            assert_eq!(vector, &vec![1, 0, 1, 1]);
        }
        _ => panic!("expected an upsert"),
    }
    match &s.writes[4] {
        PointWrite::Upsert { op_num, point_id, vector } => {
            assert_eq!((*op_num, *point_id), (5, 5));
            assert_eq!(vector, &vec![1, 0, 0, 0]);
        }
        _ => panic!("expected an upsert"),
    }
    match &s.writes[8] {
        PointWrite::SetPayload { op_num, point_id, key, values } => {
            assert_eq!((*op_num, *point_id), (6, 4));
            assert_eq!(key, "color");
            assert_eq!(values, &vec!["red".to_string(), "blue".to_string()]);
        }
        _ => panic!("expected a payload"),
    }
    match &s.writes[7] {
        PointWrite::SetPayload { point_id, values, .. } => {
            assert_eq!(*point_id, 3);
            assert_eq!(values, &vec!["blue".to_string()]);
        }
        _ => panic!("expected a payload"),
    }
}

#[test]
fn segment_fixture_appends() {
    let mut s = SegmentWrites::new();
    s.push(PointWrite::Upsert { op_num: 0, point_id: 0, vector: vec![] });
    fill_segment1_dim4(&mut s);
    assert_eq!(s.writes.len(), 11);
}
