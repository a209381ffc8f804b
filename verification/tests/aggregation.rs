use driver_images::aws::{
    deregister_image, describe_image_by_id, describe_snapshots, get_valid_snapshot_ids,
    mapping_status, BlockDeviceMapping, EbsBlockDevice, Error, Image, MappingStatus, QueryError,
    SnapshotRecord,
};
use driver_images::driverimage::{
    build_driver_image, build_driver_image_by_id, build_driver_images,
    build_driver_images_by_lang_and_platform, complete, display_snapshots, DriverImage,
    ResolvedImage, Snapshot,
};

fn mapping(snapshot_id: Option<&str>) -> BlockDeviceMapping {
    BlockDeviceMapping { ebs: Some(EbsBlockDevice { snapshot_id: snapshot_id.map(|s| s.to_string()) }) }
}

fn unbacked() -> BlockDeviceMapping {
    BlockDeviceMapping { ebs: None }
}

fn image(id: &str, mappings: Vec<BlockDeviceMapping>) -> Image {
    Image {
        image_id: id.to_string(),
        name: format!("java-driver-jammy-64-{}", id),
        creation_date: "2024-05-01T10:00:00.000Z".to_string(),
        block_device_mappings: mappings,
    }
}

fn record(snapshot_id: Option<&str>, volume_id: Option<&str>) -> SnapshotRecord {
    SnapshotRecord {
        snapshot_id: snapshot_id.map(|s| s.to_string()),
        volume_id: volume_id.map(|s| s.to_string()),
    }
}

fn snapshot(snapshot_id: &str, volume_id: &str) -> Snapshot {
    Snapshot { snapshot_id: snapshot_id.to_string(), volume_id: volume_id.to_string() }
}

fn failure(message: &str) -> QueryError {
    QueryError { message: message.to_string() }
}

fn driver_image(id: &str, snapshots: Vec<Snapshot>) -> DriverImage {
    DriverImage {
        name: format!("java-driver-jammy-64-{}", id),
        image_id: id.to_string(),
        creation_date: "2024-05-01T10:00:00.000Z".to_string(),
        snapshots,
    }
}

#[test]
fn valid_snapshot_ids_keep_the_mapping_order() {
    let subject = image(
        "ami-1",
        vec![mapping(Some("snap-b")), unbacked(), mapping(None), mapping(Some("snap-a")), mapping(Some(""))],
    );
    assert_eq!(get_valid_snapshot_ids(&subject), vec!["snap-b".to_string(), "snap-a".to_string()]);
}

#[test]
fn valid_snapshot_ids_may_repeat() {
    let subject = image("ami-1", vec![mapping(Some("snap-a")), mapping(Some("snap-a"))]);
    assert_eq!(get_valid_snapshot_ids(&subject), vec!["snap-a".to_string(), "snap-a".to_string()]);
}

#[test]
fn image_without_mappings_has_no_snapshot_ids() {
    assert_eq!(get_valid_snapshot_ids(&image("ami-1", vec![])), Vec::<String>::new());
}

#[test]
fn mapping_status_tells_what_is_missing() {
    assert_eq!(mapping_status(&unbacked()), MappingStatus::MissingEbs);
    assert_eq!(mapping_status(&mapping(None)), MappingStatus::MissingSnapshotId);
    assert_eq!(mapping_status(&mapping(Some(""))), MappingStatus::MissingSnapshotId);
    assert_eq!(mapping_status(&mapping(Some("snap-1"))), MappingStatus::Valid);
}

#[test]
fn search_by_id_returns_the_first_image() {
    let found = describe_image_by_id("ami-1", Ok(vec![image("ami-1", vec![]), image("ami-2", vec![])]));
    assert_eq!(found, Ok(image("ami-1", vec![])));
}

#[test]
fn search_by_id_without_match_is_not_found() {
    let found = describe_image_by_id("ami-404", Ok(vec![]));
    assert_eq!(found, Err(Error::NotFound { image_id: "ami-404".to_string() }));
}

#[test]
fn failed_search_by_id_is_a_query_error() {
    let found = describe_image_by_id("ami-1", Err(failure("access denied")));
    assert_eq!(found, Err(Error::QueryError { message: "access denied".to_string() }));
}

#[test]
fn error_texts() {
    assert_eq!(Error::NotFound { image_id: "ami-404".to_string() }.to_string(), "No image found for ID ami-404");
    assert_eq!(Error::QueryError { message: "access denied".to_string() }.to_string(), "access denied");
}

#[test]
fn lookup_records_are_those_returned() {
    let records = vec![record(Some("snap-1"), Some("vol-1")), record(None, Some("vol-2"))];
    assert_eq!(describe_snapshots(Ok(records.clone())), records);
}

#[test]
fn failed_lookup_has_no_records() {
    assert_eq!(describe_snapshots(Err(failure("throttled"))), Vec::<SnapshotRecord>::new());
}

#[test]
fn deregistration_passes_the_answer_on() {
    assert_eq!(deregister_image(Ok(true)), Ok(true));
    assert_eq!(deregister_image(Ok(false)), Ok(false));
}

#[test]
fn failed_deregistration_says_what_failed() {
    assert_eq!(
        deregister_image(Err(failure("no such image"))),
        Err(Error::QueryError { message: "Error deregistering image: no such image".to_string() })
    );
}

#[test]
fn complete_record_is_a_snapshot() {
    assert_eq!(complete(&record(Some("snap-1"), Some("vol-1"))), Some(snapshot("snap-1", "vol-1")));
    assert_eq!(complete(&record(None, Some("vol-1"))), None);
    assert_eq!(complete(&record(Some("snap-1"), None)), None);
    assert_eq!(complete(&record(None, None)), None);
}

#[test]
fn driver_image_takes_fields_and_complete_records() {
    let subject = image("ami-1", vec![mapping(Some("snap-1")), mapping(Some("snap-2"))]);
    let lookup = Ok(vec![
        record(Some("snap-2"), Some("vol-2")),
        record(Some("snap-x"), None),
        record(None, Some("vol-y")),
        record(Some("snap-1"), Some("vol-1")),
    ]);
    assert_eq!(
        build_driver_image(subject, lookup),
        driver_image("ami-1", vec![snapshot("snap-2", "vol-2"), snapshot("snap-1", "vol-1")])
    );
}

#[test]
fn driver_image_of_failed_lookup_has_no_snapshots() {
    let subject = image("ami-1", vec![mapping(Some("snap-1"))]);
    assert_eq!(build_driver_image(subject, Err(failure("throttled"))), driver_image("ami-1", vec![]));
}

#[test]
fn driver_image_without_backing_store_has_no_snapshots() {
    let subject = image("ami-1", vec![unbacked(), unbacked()]);
    let lookup = Ok(vec![record(Some("snap-9"), Some("vol-9"))]);
    assert_eq!(build_driver_image(subject, lookup), driver_image("ami-1", vec![]));
    let bare = image("ami-2", vec![]);
    assert_eq!(build_driver_image(bare, Ok(vec![])), driver_image("ami-2", vec![]));
}

#[test]
fn aggregation_keeps_count_and_order() {
    let ids = ["ami-3", "ami-1", "ami-2", "ami-1"];
    let resolved: Vec<ResolvedImage> = ids
        .iter()
        .map(|id| ResolvedImage {
            image: image(id, vec![mapping(Some("snap-1"))]),
            lookup: Ok(vec![record(Some("snap-1"), Some(id))]),
        })
        .collect();
    let expected: Vec<DriverImage> =
        ids.iter().map(|id| driver_image(id, vec![snapshot("snap-1", id)])).collect();
    assert_eq!(build_driver_images(resolved), expected);
}

#[test]
fn aggregation_of_nothing_is_empty() {
    assert_eq!(build_driver_images(vec![]), Vec::<DriverImage>::new());
    assert_eq!(build_driver_images_by_lang_and_platform(Ok(vec![])), Ok(vec![]));
}

#[test]
fn one_failed_lookup_leaves_the_others_alone() {
    let resolved = vec![
        ResolvedImage {
            image: image("ami-1", vec![mapping(Some("snap-1"))]),
            lookup: Ok(vec![record(Some("snap-1"), Some("vol-1"))]),
        },
        ResolvedImage { image: image("ami-2", vec![mapping(Some("snap-2"))]), lookup: Err(failure("throttled")) },
        ResolvedImage {
            image: image("ami-3", vec![mapping(Some("snap-3"))]),
            lookup: Ok(vec![record(Some("snap-3"), Some("vol-3"))]),
        },
    ];
    assert_eq!(
        build_driver_images_by_lang_and_platform(Ok(resolved)),
        Ok(vec![
            driver_image("ami-1", vec![snapshot("snap-1", "vol-1")]),
            driver_image("ami-2", vec![]),
            driver_image("ami-3", vec![snapshot("snap-3", "vol-3")]),
        ])
    );
}

#[test]
fn failed_search_fails_the_aggregation() {
    assert_eq!(
        build_driver_images_by_lang_and_platform(Err(failure("access denied"))),
        Err(Error::QueryError { message: "access denied".to_string() })
    );
}

#[test]
fn aggregation_by_id_builds_the_found_image() {
    let found = ResolvedImage {
        image: image("ami-1", vec![mapping(Some("snap-1"))]),
        lookup: Ok(vec![record(Some("snap-1"), Some("vol-1"))]),
    };
    assert_eq!(
        build_driver_image_by_id(Ok(found)),
        Ok(driver_image("ami-1", vec![snapshot("snap-1", "vol-1")]))
    );
}

#[test]
fn aggregation_by_id_against_no_match_is_not_found() {
    let outcome = match describe_image_by_id("ami-404", Ok(vec![])) {
        Ok(found) => build_driver_image_by_id(Ok(ResolvedImage { image: found, lookup: Ok(vec![]) })),
        Err(e) => build_driver_image_by_id(Err(e)),
    };
    assert_eq!(outcome, Err(Error::NotFound { image_id: "ami-404".to_string() }));
}

#[test]
fn snapshot_is_displayed_with_its_volume() {
    assert_eq!(snapshot("snap-1", "vol-1").to_string(), "snap-1 (volume: vol-1)");
}

#[test]
fn snapshots_are_displayed_with_commas() {
    assert_eq!(display_snapshots(&vec![]), "");
    assert_eq!(display_snapshots(&vec![snapshot("snap-1", "vol-1")]), "snap-1 (volume: vol-1)");
    assert_eq!(
        display_snapshots(&vec![snapshot("snap-1", "vol-1"), snapshot("snap-2", "vol-2")]),
        "snap-1 (volume: vol-1),snap-2 (volume: vol-2)"
    );
}
