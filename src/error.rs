//! The failures of the capture and analysis operations, and their messages.
use vstd::prelude::*;
use crate::text::{decimal, push_decimal};

verus! {

/// The allow-list that a path was checked against.
#[derive(Clone, Copy, Debug, PartialEq, Eq, Structural)]
pub enum Policy {
    /// Sources about to be consumed: the temporary directory and the
    /// application's cache and data directories.
    TempAndCache,
    /// Images about to be sent for analysis: the application's own output tree.
    ArtifactRoot,
}

/// Why a path was refused.
#[derive(Clone, Debug)]
pub enum PathRejection {
    /// Nothing exists at the path.
    NotFound,
    /// The path could not be resolved to a canonical form.
    Unresolvable(String),
    /// The canonical path lies under none of the allowed roots.
    OutsidePolicy(String),
}

/// The file-system step that failed.
#[derive(Clone, Copy, Debug, PartialEq, Eq, Structural)]
pub enum IoStep {
    CreateOutputDir,
    CreateDateDir,
    ListDateDir,
    CreateArtifact,
    ReadImage,
    WriteSidecar,
}

/// The image-codec step that failed.
#[derive(Clone, Copy, Debug, PartialEq, Eq, Structural)]
pub enum CodecStep {
    Decode,
    Encode,
}

/// The transport step that failed before a usable response was had.
#[derive(Clone, Copy, Debug, PartialEq, Eq, Structural)]
pub enum NetworkStep {
    Send,
    ReadBody,
}

/// The encoding step that failed.
#[derive(Clone, Copy, Debug, PartialEq, Eq, Structural)]
pub enum SerializationStep {
    ParseReply,
    EncodeSidecar,
}

/// The class of an unsuccessful HTTP status.
#[derive(Clone, Copy, Debug, PartialEq, Eq, Structural)]
pub enum HttpClass {
    Unauthorized,
    Forbidden,
    RateLimited,
    ServerError,
    Other,
}

/// A failure of a capture or analysis operation. Every one ends the
/// operation that produced it.
#[derive(Clone, Debug)]
pub enum ReportError {
    PathRejected(Policy, PathRejection),
    PicturesDirUnknown,
    PathNotUtf8,
    Io(IoStep, String),
    SequenceExhausted,
    Codec(CodecStep, String),
    Task(String),
    CredentialMissing,
    CredentialStore(String),
    Network(NetworkStep, String),
    /// A response whose status is not a success; its body is never kept.
    Http(u16),
    /// A successful response whose envelope reports an error.
    Provider(String),
    EmptyCompletion,
    Serialization(SerializationStep, String),
}

/// The class of an HTTP status code.
pub open spec fn http_class(status: u16) -> HttpClass {
    if status == 401 {
        HttpClass::Unauthorized
    } else if status == 403 {
        HttpClass::Forbidden
    } else if status == 429 {
        HttpClass::RateLimited
    } else if 500 <= status <= 599 {
        HttpClass::ServerError
    } else {
        HttpClass::Other
    }
}

/// Classifies an HTTP status code.
pub fn classify_status(status: u16) -> (r: HttpClass)
    ensures
        r == http_class(status),
{
    if status == 401 {
        HttpClass::Unauthorized
    } else if status == 403 {
        HttpClass::Forbidden
    } else if status == 429 {
        HttpClass::RateLimited
    } else if 500 <= status && status <= 599 {
        HttpClass::ServerError
    } else {
        HttpClass::Other
    }
}

/// The fixed hint shown for each class of unsuccessful status.
pub open spec fn http_hint(c: HttpClass) -> Seq<char> {
    match c {
        HttpClass::Unauthorized => "認証エラー。APIキーを確認してください"@,
        HttpClass::Forbidden => "アクセス拒否。APIキーの権限を確認してください"@,
        HttpClass::RateLimited => "レート制限。しばらく待ってから再試行してください"@,
        HttpClass::ServerError => "サーバーエラー。しばらく待ってから再試行してください"@,
        HttpClass::Other => "APIリクエストに失敗しました"@,
    }
}

fn hint_text(c: HttpClass) -> (r: &'static str)
    ensures
        r@ == http_hint(c),
{
    match c {
        HttpClass::Unauthorized => "認証エラー。APIキーを確認してください",
        HttpClass::Forbidden => "アクセス拒否。APIキーの権限を確認してください",
        HttpClass::RateLimited => "レート制限。しばらく待ってから再試行してください",
        HttpClass::ServerError => "サーバーエラー。しばらく待ってから再試行してください",
        HttpClass::Other => "APIリクエストに失敗しました",
    }
}

/// The message of an unsuccessful HTTP status: the status and its class's
/// hint, and nothing of the response.
pub open spec fn http_text(status: u16) -> Seq<char> {
    "API エラー ("@ + decimal(status as nat) + "): "@ + http_hint(http_class(status))
}

/// The message of each path refusal.
pub open spec fn rejection_text(p: Policy, r: PathRejection) -> Seq<char> {
    match r {
        PathRejection::NotFound => match p {
            Policy::TempAndCache => "ソースファイルが存在しません"@,
            Policy::ArtifactRoot => "画像ファイルが存在しません"@,
        },
        PathRejection::Unresolvable(detail) => "パスの正規化に失敗: "@ + detail@,
        PathRejection::OutsidePolicy(path) => match p {
            Policy::TempAndCache => "許可されていないパスです: "@ + path@,
            Policy::ArtifactRoot => "許可されていない画像パスです"@,
        },
    }
}

/// The prefix of the message of each failed file-system step.
pub open spec fn io_prefix(s: IoStep) -> Seq<char> {
    match s {
        IoStep::CreateOutputDir => "フォルダ作成エラー: "@,
        IoStep::CreateDateDir => "日付フォルダ作成エラー: "@,
        IoStep::ListDateDir => "日付フォルダ読み込みエラー: "@,
        IoStep::CreateArtifact => "ファイル作成エラー: "@,
        IoStep::ReadImage => "ファイル読み込みエラー: "@,
        IoStep::WriteSidecar => "JSON保存エラー: "@,
    }
}

/// The short, human-readable message of each failure.
pub open spec fn error_text(e: ReportError) -> Seq<char> {
    match e {
        ReportError::PathRejected(p, r) => rejection_text(p, r),
        ReportError::PicturesDirUnknown => "Picturesフォルダが見つかりません"@,
        ReportError::PathNotUtf8 => "パスの変換に失敗しました"@,
        ReportError::Io(s, detail) => io_prefix(s) + detail@,
        ReportError::SequenceExhausted => "連番の上限に達しました"@,
        ReportError::Codec(CodecStep::Decode, detail) => "画像読み込みエラー: "@ + detail@,
        ReportError::Codec(CodecStep::Encode, detail) => "JPEG保存エラー: "@ + detail@,
        ReportError::Task(detail) => "タスク実行エラー: "@ + detail@,
        ReportError::CredentialMissing => "APIキーが設定されていません"@,
        ReportError::CredentialStore(detail) => detail@,
        ReportError::Network(NetworkStep::Send, detail) => "API呼び出しエラー: "@ + detail@,
        ReportError::Network(NetworkStep::ReadBody, detail) => "レスポンス読み取りエラー: "@ + detail@,
        ReportError::Http(status) => http_text(status),
        ReportError::Provider(detail) => "API エラー: "@ + detail@,
        ReportError::EmptyCompletion => "AIからテキストが返されませんでした"@,
        ReportError::Serialization(SerializationStep::ParseReply, detail) => "JSONパースエラー: "@
            + detail@,
        ReportError::Serialization(SerializationStep::EncodeSidecar, detail) =>
            "JSONシリアライズエラー: "@ + detail@,
    }
}

fn io_prefix_text(s: IoStep) -> (r: &'static str)
    ensures
        r@ == io_prefix(s),
{
    match s {
        IoStep::CreateOutputDir => "フォルダ作成エラー: ",
        IoStep::CreateDateDir => "日付フォルダ作成エラー: ",
        IoStep::ListDateDir => "日付フォルダ読み込みエラー: ",
        IoStep::CreateArtifact => "ファイル作成エラー: ",
        IoStep::ReadImage => "ファイル読み込みエラー: ",
        IoStep::WriteSidecar => "JSON保存エラー: ",
    }
}

fn joined(prefix: &str, detail: &String) -> (r: String)
    ensures
        r@ == prefix@ + detail@,
{
    let mut s = String::from_str(prefix);
    s.append(detail.as_str());
    s
}

impl ReportError {
    /// The message shown to the user.
    pub fn message(&self) -> (r: String)
        ensures
            r@ == error_text(*self),
    {
        match self {
            ReportError::PathRejected(p, r) => match r {
                PathRejection::NotFound => match p {
                    Policy::TempAndCache => String::from_str("ソースファイルが存在しません"),
                    Policy::ArtifactRoot => String::from_str("画像ファイルが存在しません"),
                },
                PathRejection::Unresolvable(detail) => joined("パスの正規化に失敗: ", detail),
                PathRejection::OutsidePolicy(path) => match p {
                    Policy::TempAndCache => joined("許可されていないパスです: ", path),
                    Policy::ArtifactRoot => String::from_str("許可されていない画像パスです"),
                },
            },
            ReportError::PicturesDirUnknown => String::from_str("Picturesフォルダが見つかりません"),
            ReportError::PathNotUtf8 => String::from_str("パスの変換に失敗しました"),
            ReportError::Io(s, detail) => joined(io_prefix_text(*s), detail),
            ReportError::SequenceExhausted => String::from_str("連番の上限に達しました"),
            ReportError::Codec(CodecStep::Decode, detail) => joined("画像読み込みエラー: ", detail),
            ReportError::Codec(CodecStep::Encode, detail) => joined("JPEG保存エラー: ", detail),
            ReportError::Task(detail) => joined("タスク実行エラー: ", detail),
            ReportError::CredentialMissing => String::from_str("APIキーが設定されていません"),
            ReportError::CredentialStore(detail) => detail.clone(),
            ReportError::Network(NetworkStep::Send, detail) => joined("API呼び出しエラー: ", detail),
            ReportError::Network(NetworkStep::ReadBody, detail) => joined(
                "レスポンス読み取りエラー: ",
                detail,
            ),
            ReportError::Http(status) => {
                let mut s = String::from_str("API エラー (");
                push_decimal(&mut s, *status as u64);
                s.append("): ");
                s.append(hint_text(classify_status(*status)));
                s
            },
            ReportError::Provider(detail) => joined("API エラー: ", detail),
            ReportError::EmptyCompletion => String::from_str("AIからテキストが返されませんでした"),
            ReportError::Serialization(SerializationStep::ParseReply, detail) => joined(
                "JSONパースエラー: ",
                detail,
            ),
            ReportError::Serialization(SerializationStep::EncodeSidecar, detail) => joined(
                "JSONシリアライズエラー: ",
                detail,
            ),
        }
    }
}

} // verus!
