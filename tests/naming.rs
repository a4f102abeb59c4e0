use pasha_log::capture::plan_capture;
use pasha_log::error::{PathRejection, Policy, ReportError};
use pasha_log::naming::{artifact_file_name, date_dir_name, first_free_slot, stem_name, LocalStamp};
use pasha_log::paths::PathProbe;

fn stamp() -> LocalStamp {
    LocalStamp { year: 2024, month: 3, day: 5, hour: 7, minute: 8, second: 9 }
}

#[test]
fn date_and_stem_are_zero_padded() {
    assert_eq!(date_dir_name(&stamp()), "2024-03-05");
    assert_eq!(stem_name(&stamp()), "20240305_070809");
    let late = LocalStamp { year: 1999, month: 12, day: 31, hour: 23, minute: 59, second: 58 };
    assert_eq!(date_dir_name(&late), "1999-12-31");
    assert_eq!(stem_name(&late), "19991231_235958");
    let early = LocalStamp { year: 7, month: 1, day: 1, hour: 0, minute: 0, second: 0 };
    assert_eq!(date_dir_name(&early), "0007-01-01");
}

#[test]
fn artifact_names() {
    assert_eq!(artifact_file_name("20240305_070809", 1), "20240305_070809_001.jpg");
    assert_eq!(artifact_file_name("20240305_070809", 42), "20240305_070809_042.jpg");
    assert_eq!(artifact_file_name("20240305_070809", 999), "20240305_070809_999.jpg");
}

#[test]
fn first_slot_in_empty_directory() {
    assert_eq!(first_free_slot("20240305_070809", &Vec::new()).unwrap(), 1);
}

#[test]
fn lowest_free_slot_is_taken() {
    let existing = vec![
        "20240305_070809_001.jpg".to_string(),
        "20240305_070809_003.jpg".to_string(),
        "20240305_070808_002.jpg".to_string(),
        "20240305_070809_001.json".to_string(),
    ];
    assert_eq!(first_free_slot("20240305_070809", &existing).unwrap(), 2);
}

#[test]
fn all_slots_taken_is_exhausted() {
    let stem = "20240305_070809";
    let existing: Vec<String> = (1..=999).map(|n| artifact_file_name(stem, n)).collect();
    assert!(matches!(first_free_slot(stem, &existing), Err(ReportError::SequenceExhausted)));
    let almost: Vec<String> = (1..=998).map(|n| artifact_file_name(stem, n)).collect();
    assert_eq!(first_free_slot(stem, &almost).unwrap(), 999);
}

#[test]
fn two_captures_in_one_second() {
    let roots = vec!["/tmp".to_string()];
    let pictures = Some("/home/u/Pictures".to_string());
    let first = plan_capture(PathProbe::Resolved("/tmp/a.png".to_string()), &roots, pictures.clone(), &stamp()).unwrap();
    assert_eq!(first.source(), "/tmp/a.png");
    assert_eq!(first.output_dir(), "/home/u/Pictures/auto-daily-report");
    assert_eq!(first.date_dir(), "/home/u/Pictures/auto-daily-report/2024-03-05");
    let mut existing: Vec<String> = Vec::new();
    let p1 = first.artifact_path(&existing).unwrap();
    assert_eq!(p1, "/home/u/Pictures/auto-daily-report/2024-03-05/20240305_070809_001.jpg");
    existing.push("20240305_070809_001.jpg".to_string());
    let second = plan_capture(PathProbe::Resolved("/tmp/b.png".to_string()), &roots, pictures, &stamp()).unwrap();
    let p2 = second.artifact_path(&existing).unwrap();
    assert_eq!(p2, "/home/u/Pictures/auto-daily-report/2024-03-05/20240305_070809_002.jpg");
}

#[test]
fn plan_refuses_source_outside_allow_list() {
    let roots = vec!["/tmp".to_string()];
    let r = plan_capture(
        PathProbe::Resolved("/home/u/secret.png".to_string()),
        &roots,
        Some("/home/u/Pictures".to_string()),
        &stamp(),
    );
    assert!(matches!(
        r,
        Err(ReportError::PathRejected(Policy::TempAndCache, PathRejection::OutsidePolicy(_)))
    ));
}

#[test]
fn plan_needs_pictures_directory() {
    let roots = vec!["/tmp".to_string()];
    let r = plan_capture(PathProbe::Resolved("/tmp/a.png".to_string()), &roots, None, &stamp());
    assert!(matches!(r, Err(ReportError::PicturesDirUnknown)));
}
