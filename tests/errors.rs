use pasha_log::error::{
    classify_status, CodecStep, HttpClass, IoStep, NetworkStep, PathRejection, Policy,
    ReportError, SerializationStep,
};

fn msg(e: ReportError) -> String {
    e.message()
}

#[test]
fn path_messages() {
    assert_eq!(msg(ReportError::PathRejected(Policy::TempAndCache, PathRejection::NotFound)), "ソースファイルが存在しません");
    assert_eq!(
        msg(ReportError::PathRejected(Policy::TempAndCache, PathRejection::OutsidePolicy("/etc/x".to_string()))),
        "許可されていないパスです: /etc/x"
    );
    assert_eq!(
        msg(ReportError::PathRejected(Policy::ArtifactRoot, PathRejection::Unresolvable("loop".to_string()))),
        "パスの正規化に失敗: loop"
    );
    assert_eq!(msg(ReportError::PicturesDirUnknown), "Picturesフォルダが見つかりません");
    assert_eq!(msg(ReportError::PathNotUtf8), "パスの変換に失敗しました");
}

#[test]
fn io_and_codec_messages() {
    assert_eq!(msg(ReportError::Io(IoStep::CreateOutputDir, "denied".to_string())), "フォルダ作成エラー: denied");
    assert_eq!(msg(ReportError::Io(IoStep::CreateDateDir, "d".to_string())), "日付フォルダ作成エラー: d");
    assert_eq!(msg(ReportError::Io(IoStep::CreateArtifact, "d".to_string())), "ファイル作成エラー: d");
    assert_eq!(msg(ReportError::Io(IoStep::ReadImage, "d".to_string())), "ファイル読み込みエラー: d");
    assert_eq!(msg(ReportError::Io(IoStep::WriteSidecar, "d".to_string())), "JSON保存エラー: d");
    assert_eq!(msg(ReportError::SequenceExhausted), "連番の上限に達しました");
    assert_eq!(msg(ReportError::Codec(CodecStep::Decode, "d".to_string())), "画像読み込みエラー: d");
    assert_eq!(msg(ReportError::Codec(CodecStep::Encode, "d".to_string())), "JPEG保存エラー: d");
    assert_eq!(msg(ReportError::Task("d".to_string())), "タスク実行エラー: d");
}

#[test]
fn remote_messages() {
    assert_eq!(msg(ReportError::Network(NetworkStep::Send, "t".to_string())), "API呼び出しエラー: t");
    assert_eq!(msg(ReportError::Network(NetworkStep::ReadBody, "t".to_string())), "レスポンス読み取りエラー: t");
    assert_eq!(msg(ReportError::Serialization(SerializationStep::ParseReply, "t".to_string())), "JSONパースエラー: t");
    assert_eq!(msg(ReportError::Serialization(SerializationStep::EncodeSidecar, "t".to_string())), "JSONシリアライズエラー: t");
    assert_eq!(msg(ReportError::EmptyCompletion), "AIからテキストが返されませんでした");
    assert_eq!(msg(ReportError::Http(65535)), "API エラー (65535): APIリクエストに失敗しました");
    assert_eq!(msg(ReportError::Http(0)), "API エラー (0): APIリクエストに失敗しました");
}

#[test]
fn status_classification() {
    assert_eq!(classify_status(401), HttpClass::Unauthorized);
    assert_eq!(classify_status(403), HttpClass::Forbidden);
    assert_eq!(classify_status(429), HttpClass::RateLimited);
    assert_eq!(classify_status(500), HttpClass::ServerError);
    assert_eq!(classify_status(599), HttpClass::ServerError);
    assert_eq!(classify_status(499), HttpClass::Other);
    assert_eq!(classify_status(600), HttpClass::Other);
}
