use pasha_log::analysis::ProviderReply;
use pasha_log::context::{ContextInfo, LocationInfo};
use pasha_log::credentials::SecretLookup;
use pasha_log::error::{IoStep, NetworkStep, PathRejection, Policy, ReportError, SerializationStep};
use pasha_log::exchange::{begin_analysis, AnalysisAction, AnalysisOutcome, AnalysisSession, AnalysisStage};
use pasha_log::paths::PathProbe;

const ROOT: &str = "/home/u/Pictures/auto-daily-report";
const IMAGE: &str = "/home/u/Pictures/auto-daily-report/2024-03-05/20240305_070809_001.jpg";

fn begin(path: &str) -> (AnalysisSession, AnalysisAction) {
    begin_analysis(
        PathProbe::Resolved(path.to_string()),
        Some(ROOT.to_string()),
        "openai/gpt-4o".to_string(),
        "要約して".to_string(),
    )
}

fn finished(a: AnalysisAction) -> Result<String, ReportError> {
    match a {
        AnalysisAction::Finish(r) => r,
        _ => panic!("the analysis did not finish"),
    }
}

/// Runs an analysis up to the response of the endpoint.
fn up_to_send() -> AnalysisSession {
    let (mut s, a) = begin(IMAGE);
    assert!(matches!(a, AnalysisAction::LookUpSecret));
    assert!(matches!(
        s.step(AnalysisOutcome::Secret(SecretLookup::Found("key-1".to_string()))),
        AnalysisAction::CollectContext
    ));
    match s.step(AnalysisOutcome::Context(ContextInfo { wifi_ssid: None, location: None })) {
        AnalysisAction::ReadFile(p) => assert_eq!(p, IMAGE),
        _ => panic!("expected a read"),
    }
    match s.step(AnalysisOutcome::Read(vec![1, 2, 3])) {
        AnalysisAction::Send(req) => {
            assert_eq!(req.url(), "https://ai-gateway.vercel.sh/v1/chat/completions");
            assert_eq!(req.authorization(), "Bearer key-1");
            let body: serde_json::Value = serde_json::from_str(req.body()).unwrap();
            assert_eq!(body["model"], "openai/gpt-4o");
            assert_eq!(body["messages"][0]["content"][0]["text"], "要約して");
            assert_eq!(body["messages"][0]["content"][1]["image_url"]["url"], "data:image/jpeg;base64,AQID");
        }
        _ => panic!("expected a request"),
    }
    assert_eq!(s.stage(), AnalysisStage::Sending);
    s
}

#[test]
fn analysis_runs_to_stored_result() {
    let mut s = up_to_send();
    let body = "{\"choices\":[{\"message\":{\"content\":\"作業中\"}}]}".to_string();
    match s.step(AnalysisOutcome::Response(200, body.clone())) {
        AnalysisAction::ParseReply(b) => assert_eq!(b, body),
        _ => panic!("expected a parse"),
    }
    let reply = ProviderReply { error: None, choices: Some(vec![Some("作業中".to_string())]) };
    match s.step(AnalysisOutcome::Parsed(reply)) {
        AnalysisAction::StoreResult { path, model, context, analysis } => {
            assert_eq!(path, "/home/u/Pictures/auto-daily-report/2024-03-05/20240305_070809_001.json");
            assert_eq!(model, "openai/gpt-4o");
            assert!(context.wifi_ssid.is_none() && context.location.is_none());
            assert_eq!(analysis, "作業中");
        }
        _ => panic!("expected a store"),
    }
    assert_eq!(finished(s.step(AnalysisOutcome::Stored)).unwrap(), "作業中");
    assert!(!s.accepts(&AnalysisOutcome::Stored));
}

#[test]
fn foreign_image_is_never_sent() {
    let (s, a) = begin("/home/u/.ssh/id_rsa");
    let e = finished(a).err().unwrap();
    assert!(matches!(e, ReportError::PathRejected(Policy::ArtifactRoot, PathRejection::OutsidePolicy(_))));
    assert_eq!(s.stage(), AnalysisStage::Finished);
    assert!(!s.accepts(&AnalysisOutcome::Secret(SecretLookup::Found("k".to_string()))));
    assert!(!s.accepts(&AnalysisOutcome::Read(vec![1])));
}

#[test]
fn missing_credential_ends_analysis() {
    let (mut s, _) = begin(IMAGE);
    let e = finished(s.step(AnalysisOutcome::Secret(SecretLookup::Missing))).err().unwrap();
    assert!(matches!(e, ReportError::CredentialMissing));
    let (mut s, _) = begin(IMAGE);
    let e = finished(s.step(AnalysisOutcome::Secret(SecretLookup::Failed("locked".to_string())))).err().unwrap();
    assert!(matches!(e, ReportError::CredentialStore(_)));
}

#[test]
fn unreadable_image_ends_analysis() {
    let (mut s, _) = begin(IMAGE);
    s.step(AnalysisOutcome::Secret(SecretLookup::Found("k".to_string())));
    s.step(AnalysisOutcome::Context(ContextInfo { wifi_ssid: None, location: None }));
    let e = finished(s.step(AnalysisOutcome::ReadFailed("gone".to_string()))).err().unwrap();
    assert!(matches!(e, ReportError::Io(IoStep::ReadImage, _)));
}

#[test]
fn rate_limited_response_ends_without_body() {
    let mut s = up_to_send();
    let e = finished(s.step(AnalysisOutcome::Response(429, "secret provider detail".to_string())))
        .err()
        .unwrap();
    assert!(matches!(e, ReportError::Http(429)));
    let m = e.message();
    assert_eq!(m, "API エラー (429): レート制限。しばらく待ってから再試行してください");
    assert!(!m.contains("secret provider detail"));
}

#[test]
fn transport_failures_end_analysis() {
    let mut s = up_to_send();
    let e = finished(s.step(AnalysisOutcome::NetworkFailed(NetworkStep::Send, "timeout".to_string()))).err().unwrap();
    assert_eq!(e.message(), "API呼び出しエラー: timeout");
    let mut s = up_to_send();
    let e = finished(s.step(AnalysisOutcome::NetworkFailed(NetworkStep::ReadBody, "reset".to_string()))).err().unwrap();
    assert_eq!(e.message(), "レスポンス読み取りエラー: reset");
}

#[test]
fn bad_envelopes_end_analysis() {
    let mut s = up_to_send();
    s.step(AnalysisOutcome::Response(200, "not json".to_string()));
    let e = finished(s.step(AnalysisOutcome::ParseFailed("expected value".to_string()))).err().unwrap();
    assert!(matches!(e, ReportError::Serialization(SerializationStep::ParseReply, _)));
    let mut s = up_to_send();
    s.step(AnalysisOutcome::Response(200, "{}".to_string()));
    let reply = ProviderReply { error: Some("model not found".to_string()), choices: None };
    let e = finished(s.step(AnalysisOutcome::Parsed(reply))).err().unwrap();
    assert_eq!(e.message(), "API エラー: model not found");
    let mut s = up_to_send();
    s.step(AnalysisOutcome::Response(200, "{}".to_string()));
    let reply = ProviderReply { error: None, choices: None };
    assert!(matches!(finished(s.step(AnalysisOutcome::Parsed(reply))), Err(ReportError::EmptyCompletion)));
}

#[test]
fn unsaved_result_fails_analysis() {
    let mut s = up_to_send();
    s.step(AnalysisOutcome::Response(200, "{}".to_string()));
    let reply = ProviderReply { error: None, choices: Some(vec![Some("text".to_string())]) };
    assert!(matches!(s.step(AnalysisOutcome::Parsed(reply)), AnalysisAction::StoreResult { .. }));
    let e = finished(s.step(AnalysisOutcome::WriteFailed("read-only".to_string()))).err().unwrap();
    assert!(matches!(e, ReportError::Io(IoStep::WriteSidecar, _)));
    assert_eq!(e.message(), "JSON保存エラー: read-only");
}

#[test]
fn unencodable_result_fails_analysis() {
    let mut s = up_to_send();
    s.step(AnalysisOutcome::Response(200, "{}".to_string()));
    let reply = ProviderReply { error: None, choices: Some(vec![Some("text".to_string())]) };
    s.step(AnalysisOutcome::Parsed(reply));
    let e = finished(s.step(AnalysisOutcome::EncodeFailed("bad".to_string()))).err().unwrap();
    assert!(matches!(e, ReportError::Serialization(SerializationStep::EncodeSidecar, _)));
}

#[test]
fn supplied_context_reaches_prompt_and_sidecar() {
    let (mut s, _) = begin(IMAGE);
    s.step(AnalysisOutcome::Secret(SecretLookup::Found("k".to_string())));
    let info = ContextInfo {
        wifi_ssid: Some("office".to_string()),
        location: Some(LocationInfo { latitude_micro: 35_681_236, longitude_micro: 139_767_125 }),
    };
    assert!(matches!(s.step(AnalysisOutcome::Context(info)), AnalysisAction::ReadFile(_)));
    match s.step(AnalysisOutcome::Read(vec![9])) {
        AnalysisAction::Send(req) => {
            let body: serde_json::Value = serde_json::from_str(req.body()).unwrap();
            assert_eq!(
                body["messages"][0]["content"][0]["text"],
                "要約して\n\n【追加コンテキスト】\n接続WiFi: office\n位置: 緯度35.681236, 経度139.767125"
            );
        }
        _ => panic!("expected a request"),
    }
    s.step(AnalysisOutcome::Response(200, "{}".to_string()));
    let reply = ProviderReply { error: None, choices: Some(vec![Some("t".to_string())]) };
    match s.step(AnalysisOutcome::Parsed(reply)) {
        AnalysisAction::StoreResult { context, .. } => {
            assert_eq!(context.wifi_ssid, Some("office".to_string()));
            assert_eq!(
                context.location,
                Some(LocationInfo { latitude_micro: 35_681_236, longitude_micro: 139_767_125 })
            );
        }
        _ => panic!("expected a store"),
    }
}
