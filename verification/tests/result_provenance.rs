use rimap_server::json::{parse_json, Json};
use rimap_server::mcp::result_provenance::{result_provenance, ResultSummary};
use rimap_server::tool::ToolName;

fn json(text: &str) -> Json {
    parse_json(text).expect("test input is JSON")
}

#[test]
fn export_complete_records_path_sha_bytes_and_partition() {
    let sha = "ab".repeat(32);
    let value = json(&format!(
        r#"{{"meta":{{"folder":"INBOX","complete":true,"path":"/srv/dl/messages-abc.mbox","sha256":"{sha}","message_count":2,"total_bytes":4096,"uid_validity":42,"succeeded":[{{"uid":7,"size_bytes":100}},{{"uid":9,"size_bytes":200}}],"failed":[]}}}}"#
    ));
    let summary = result_provenance(ToolName::ExportMessages, &value);
    assert_eq!(summary.artifact_path.as_deref(), Some("/srv/dl/messages-abc.mbox"));
    assert_eq!(summary.artifact_sha256, Some(sha));
    assert_eq!(summary.artifact_bytes, Some(4096));
    assert_eq!(summary.uids_exported, vec![7, 9]);
    assert!(summary.uids_failed.is_empty());
}

#[test]
fn export_partial_uses_partial_path_and_records_failed_partition() {
    let sha = "cd".repeat(32);
    let value = json(&format!(
        r#"{{"meta":{{"folder":"INBOX","complete":false,"partial_path":"/srv/dl/messages-abc.partial.mbox","sha256":"{sha}","message_count":1,"total_bytes":50,"uid_validity":42,"succeeded":[{{"uid":7,"size_bytes":50}}],"failed":[{{"uid":8,"reason":"not_found"}}]}}}}"#
    ));
    let summary = result_provenance(ToolName::ExportMessages, &value);
    assert_eq!(
        summary.artifact_path.as_deref(),
        Some("/srv/dl/messages-abc.partial.mbox")
    );
    assert_eq!(summary.uids_exported, vec![7]);
    assert_eq!(summary.uids_failed, vec![8]);
}

#[test]
fn export_zero_success_records_failed_partition_without_path() {
    let sha = "ef".repeat(32);
    let value = json(&format!(
        r#"{{"meta":{{"folder":"INBOX","complete":false,"sha256":"{sha}","message_count":0,"total_bytes":0,"uid_validity":42,"succeeded":[],"failed":[{{"uid":10,"reason":"not_found"}},{{"uid":20,"reason":"oversize"}}]}}}}"#
    ));
    let summary = result_provenance(ToolName::ExportMessages, &value);
    assert!(summary.artifact_path.is_none());
    assert!(summary.uids_exported.is_empty());
    assert_eq!(summary.uids_failed, vec![10, 20]);
}

#[test]
fn download_records_path_sha_and_size() {
    let sha = "11".repeat(32);
    let value = json(&format!(
        r#"{{"meta":{{"folder":"INBOX","uid":5,"part_id":"2","path":"/srv/dl/doc.pdf","size_bytes":1234,"sha256":"{sha}","mime_declared":"application/pdf","mime_sniffed":"application/pdf"}}}}"#
    ));
    let summary = result_provenance(ToolName::DownloadAttachment, &value);
    assert_eq!(summary.artifact_path.as_deref(), Some("/srv/dl/doc.pdf"));
    assert_eq!(summary.artifact_sha256, Some(sha));
    assert_eq!(summary.artifact_bytes, Some(1234));
    assert!(summary.uids_exported.is_empty());
}

fn is_default(summary: &ResultSummary) -> bool {
    summary.artifact_path.is_none()
        && summary.artifact_sha256.is_none()
        && summary.artifact_bytes.is_none()
        && summary.uids_exported.is_empty()
        && summary.uids_failed.is_empty()
}

#[test]
fn non_artifact_tool_records_default_summary() {
    let value = json(r#"{"meta":{"results":[]}}"#);
    assert!(is_default(&result_provenance(ToolName::Search, &value)));
}

#[test]
fn malformed_fields_are_left_out() {
    let value = json(
        r#"{"meta":{"path":7,"sha256":null,"total_bytes":-1,"succeeded":[{"uid":4294967296},{"uid":3},5],"failed":"x"}}"#,
    );
    let summary = result_provenance(ToolName::ExportMessages, &value);
    assert!(summary.artifact_path.is_none());
    assert!(summary.artifact_sha256.is_none());
    assert!(summary.artifact_bytes.is_none());
    assert_eq!(summary.uids_exported, vec![3]);
    assert!(summary.uids_failed.is_empty());
    assert!(is_default(&result_provenance(ToolName::ExportMessages, &json("{}"))));
}
