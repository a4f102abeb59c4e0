use std::io::Cursor;

use image::{DynamicImage, ImageFormat, RgbImage};
use pasha_log::error::{CodecStep, IoStep, PathRejection, Policy, ReportError};
use pasha_log::naming::{artifact_file_name, LocalStamp};
use pasha_log::paths::PathProbe;
use pasha_log::pipeline::{begin_capture, CaptureAction, CaptureSession, CaptureStage, StepOutcome};

const DAY: &str = "/home/u/Pictures/auto-daily-report/2024-03-05";

fn stamp() -> LocalStamp {
    LocalStamp { year: 2024, month: 3, day: 5, hour: 7, minute: 8, second: 9 }
}

fn png_bytes(width: u32, height: u32) -> Vec<u8> {
    let img = DynamicImage::ImageRgb8(RgbImage::from_pixel(width, height, image::Rgb([10, 200, 30])));
    let mut out = Cursor::new(Vec::new());
    img.write_to(&mut out, ImageFormat::Png).unwrap();
    out.into_inner()
}

fn begin(source: &str) -> (CaptureSession, CaptureAction) {
    begin_capture(
        PathProbe::Resolved(source.to_string()),
        &vec!["/tmp".to_string()],
        Some("/home/u/Pictures".to_string()),
        &stamp(),
    )
}

/// Runs a capture up to the read of its source.
fn up_to_read(existing: Vec<String>) -> CaptureSession {
    let (mut s, a) = begin("/tmp/shot.png");
    assert!(matches!(a, CaptureAction::CreateDir(ref d) if d == "/home/u/Pictures/auto-daily-report"));
    let a = s.step(StepOutcome::Done);
    assert!(matches!(a, CaptureAction::CreateDir(ref d) if d == DAY));
    let a = s.step(StepOutcome::Done);
    assert!(matches!(a, CaptureAction::ListDir(ref d) if d == DAY));
    let a = s.step(StepOutcome::Listed(existing));
    assert!(matches!(a, CaptureAction::ReadFile(ref p) if p == "/tmp/shot.png"));
    assert_eq!(s.stage(), CaptureStage::Reading);
    s
}

#[test]
fn capture_runs_to_artifact() {
    let mut s = up_to_read(vec!["20240305_070809_001.jpg".to_string()]);
    let dest = match s.step(StepOutcome::Read(png_bytes(2400, 100))) {
        CaptureAction::WriteFile(path, bytes) => {
            let back = image::load_from_memory(&bytes).unwrap();
            assert_eq!((back.width(), back.height()), (1920, 80));
            path
        }
        other => panic!("unexpected {:?}", other),
    };
    assert_eq!(dest, format!("{}/20240305_070809_002.jpg", DAY));
    let a = s.step(StepOutcome::Done);
    assert!(matches!(a, CaptureAction::RemoveFile(ref p) if p == "/tmp/shot.png"));
    match s.step(StepOutcome::Done) {
        CaptureAction::Finish(Ok(p)) => assert_eq!(p, dest),
        other => panic!("unexpected {:?}", other),
    }
    assert_eq!(s.stage(), CaptureStage::Finished);
    assert!(!s.accepts(&StepOutcome::Done));
}

#[test]
fn failed_cleanup_still_succeeds() {
    let mut s = up_to_read(Vec::new());
    assert!(matches!(s.step(StepOutcome::Read(png_bytes(8, 8))), CaptureAction::WriteFile(_, _)));
    assert!(matches!(s.step(StepOutcome::Done), CaptureAction::RemoveFile(_)));
    match s.step(StepOutcome::Failed("busy".to_string())) {
        CaptureAction::Finish(Ok(p)) => assert_eq!(p, format!("{}/20240305_070809_001.jpg", DAY)),
        other => panic!("unexpected {:?}", other),
    }
}

#[test]
fn refused_source_touches_nothing() {
    let (s, a) = begin("/home/u/secret.png");
    assert!(matches!(
        a,
        CaptureAction::Finish(Err(ReportError::PathRejected(
            Policy::TempAndCache,
            PathRejection::OutsidePolicy(_)
        )))
    ));
    assert_eq!(s.stage(), CaptureStage::Finished);
    assert!(!s.accepts(&StepOutcome::Done));
    assert!(!s.accepts(&StepOutcome::Failed("x".to_string())));
    let (_, a) = begin_capture(PathProbe::Missing, &vec!["/tmp".to_string()], None, &stamp());
    assert!(matches!(
        a,
        CaptureAction::Finish(Err(ReportError::PathRejected(Policy::TempAndCache, PathRejection::NotFound)))
    ));
}

#[test]
fn unknown_pictures_directory_ends_capture() {
    let (s, a) = begin_capture(
        PathProbe::Resolved("/tmp/a.png".to_string()),
        &vec!["/tmp".to_string()],
        None,
        &stamp(),
    );
    assert!(matches!(a, CaptureAction::Finish(Err(ReportError::PicturesDirUnknown))));
    assert_eq!(s.stage(), CaptureStage::Finished);
}

#[test]
fn directory_failures_end_capture() {
    let (mut s, _) = begin("/tmp/a.png");
    match s.step(StepOutcome::Failed("denied".to_string())) {
        CaptureAction::Finish(Err(e)) => {
            assert!(matches!(e, ReportError::Io(IoStep::CreateOutputDir, _)));
            assert_eq!(e.message(), "フォルダ作成エラー: denied");
        }
        other => panic!("unexpected {:?}", other),
    }
    let (mut s, _) = begin("/tmp/a.png");
    s.step(StepOutcome::Done);
    assert!(matches!(
        s.step(StepOutcome::Failed("d".to_string())),
        CaptureAction::Finish(Err(ReportError::Io(IoStep::CreateDateDir, _)))
    ));
    let (mut s, _) = begin("/tmp/a.png");
    s.step(StepOutcome::Done);
    s.step(StepOutcome::Done);
    assert!(!s.accepts(&StepOutcome::Done));
    assert!(matches!(
        s.step(StepOutcome::Failed("d".to_string())),
        CaptureAction::Finish(Err(ReportError::Io(IoStep::ListDateDir, _)))
    ));
}

#[test]
fn full_second_ends_capture() {
    let (mut s, _) = begin("/tmp/a.png");
    s.step(StepOutcome::Done);
    s.step(StepOutcome::Done);
    let names = (1..=999).map(|n| artifact_file_name("20240305_070809", n)).collect();
    assert!(matches!(
        s.step(StepOutcome::Listed(names)),
        CaptureAction::Finish(Err(ReportError::SequenceExhausted))
    ));
}

#[test]
fn unreadable_or_undecodable_source_ends_capture() {
    let mut s = up_to_read(Vec::new());
    assert!(matches!(
        s.step(StepOutcome::Read(vec![0, 1, 2])),
        CaptureAction::Finish(Err(ReportError::Codec(CodecStep::Decode, _)))
    ));
    let mut s = up_to_read(Vec::new());
    assert!(matches!(
        s.step(StepOutcome::Failed("gone".to_string())),
        CaptureAction::Finish(Err(ReportError::Codec(CodecStep::Decode, _)))
    ));
}

#[test]
fn failed_write_ends_capture() {
    let mut s = up_to_read(Vec::new());
    assert!(matches!(s.step(StepOutcome::Read(png_bytes(4, 4))), CaptureAction::WriteFile(_, _)));
    match s.step(StepOutcome::Failed("disk full".to_string())) {
        CaptureAction::Finish(Err(e)) => assert_eq!(e.message(), "ファイル作成エラー: disk full"),
        other => panic!("unexpected {:?}", other),
    }
}

#[test]
fn unencodable_capture_ends_without_write() {
    let mut s = up_to_read(Vec::new());
    assert!(matches!(
        s.step(StepOutcome::Read(png_bytes(1, 70_000))),
        CaptureAction::Finish(Err(ReportError::Codec(CodecStep::Encode, _)))
    ));
    assert_eq!(s.stage(), CaptureStage::Finished);
}
