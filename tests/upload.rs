use report_vault::error::{decimal_text, Rejection, UploadError};
use report_vault::index::{ReportIndex, StoredArtifact};
use report_vault::ingest::{field_role, validate, FieldRole, Ingest, UploadForm, UploadRequest};
use report_vault::reply::{
    complete_upload, finish_upload, reject, reject_malformed, reports_reply, UploadReply,
};
use report_vault::storage::{content_id_from_member, is_success, resolve_content_id, StoreOutcome};

fn s(x: &str) -> String {
    x.to_string()
}

fn answered(status: u16, body: &[u8]) -> StoreOutcome {
    StoreOutcome::Answered { status, body: body.to_vec() }
}

fn ingest_fields(fields: &[(&str, Option<&str>, &[&[u8]])]) -> Result<UploadRequest, Rejection> {
    let mut ingest = Ingest::new();
    for (name, file_name, chunks) in fields {
        ingest.begin_field(&s(name), file_name.map(s));
        for chunk in chunks.iter() {
            ingest.push_chunk(chunk);
        }
    }
    ingest.finish()
}

fn request(owner: &str, file_name: &str, content: &[u8]) -> UploadRequest {
    UploadRequest { owner: s(owner), file_name: s(file_name), content: content.to_vec() }
}

fn listing(index: &ReportIndex, owner: &str) -> Vec<(String, String)> {
    reports_reply(index, &s(owner))
        .reports
        .into_iter()
        .map(|a| (a.content_id, a.file_name))
        .collect()
}

fn pair(cid: &str, name: &str) -> (String, String) {
    (s(cid), s(name))
}

#[test]
fn upload_then_listing_scenario() {
    let mut index = ReportIndex::new();
    let req = ingest_fields(&[
        ("targetWalletAddress", None, &[b"Wallet1"]),
        ("file", Some("a.pdf"), &[b"%PDF-1.4 body"]),
    ])
    .ok()
    .unwrap();
    let reply = finish_upload(&mut index, req, answered(200, br#"{"Hash":"Qm123"}"#));
    assert_eq!(reply.status, 200);
    assert!(reply.body.success);
    assert_eq!(reply.body.cid, Some(s("Qm123")));
    assert_eq!(reply.body.file_name, Some(s("a.pdf")));
    assert_eq!(reply.body.message, "File uploaded to IPFS and recorded (simulated)");
    let list = reports_reply(&index, &s("Wallet1"));
    assert!(list.success);
    assert_eq!(list.message, None);
    assert_eq!(listing(&index, "Wallet1"), vec![pair("Qm123", "a.pdf")]);
}

#[test]
fn listing_ends_with_latest_upload() {
    let mut index = ReportIndex::new();
    finish_upload(&mut index, request("W", "one.txt", b"1"), answered(200, br#"{"Hash":"QmA"}"#));
    finish_upload(&mut index, request("W", "two.txt", b"2"), answered(201, br#"{"Name":"two.txt","Hash":"QmB","Size":"1"}"#));
    let list = listing(&index, "W");
    assert_eq!(list.len(), 2);
    assert_eq!(list.last().unwrap(), &pair("QmB", "two.txt"));
}

#[test]
fn unknown_owner_lists_nothing_with_message() {
    let index = ReportIndex::new();
    let list = reports_reply(&index, &s("Nobody"));
    assert!(list.success);
    assert!(list.reports.is_empty());
    assert_eq!(list.message, Some(s("No reports found for this wallet")));
}

#[test]
fn other_owner_lists_nothing() {
    let mut index = ReportIndex::new();
    index.record(&s("A"), StoredArtifact::new(s("Qm1"), s("f")));
    assert!(listing(&index, "B").is_empty());
    assert_eq!(listing(&index, "A"), vec![pair("Qm1", "f")]);
}

#[test]
fn missing_file_field_rejected_with_owner() {
    let rej = ingest_fields(&[("targetWalletAddress", None, &[b"W"])]).err().unwrap();
    assert!(matches!(rej.error, UploadError::MissingFileName));
    let reply = reject(rej);
    assert_eq!(reply.status, 400);
    assert!(!reply.body.success);
    assert_eq!(reply.body.message, "File name is missing.");
    assert_eq!(reply.body.file_name, None);
    assert_eq!(reply.body.cid, None);
}

#[test]
fn missing_file_field_rejected_without_owner() {
    let rej = ingest_fields(&[]).err().unwrap();
    assert!(matches!(rej.error, UploadError::MissingFileName));
    assert_eq!(reject(rej).status, 400);
}

#[test]
fn file_field_without_file_name_rejected() {
    let rej = ingest_fields(&[
        ("targetWalletAddress", None, &[b"W"]),
        ("file", None, &[b"data"]),
    ])
    .err()
    .unwrap();
    assert!(matches!(rej.error, UploadError::MissingFileName));
}

#[test]
fn missing_file_data_rejected() {
    let form = UploadForm { owner: Some(s("W")), file_name: Some(s("a.pdf")), content: None };
    let rej = validate(form).err().unwrap();
    assert!(matches!(rej.error, UploadError::MissingFileData));
    assert_eq!(rej.file_name, Some(s("a.pdf")));
    let reply = reject(rej);
    assert_eq!(reply.status, 400);
    assert_eq!(reply.body.message, "File data is missing.");
}

#[test]
fn missing_owner_rejected() {
    let rej = ingest_fields(&[("file", Some("a.pdf"), &[b"data"])]).err().unwrap();
    assert!(matches!(rej.error, UploadError::MissingOwner));
    let reply = reject(rej);
    assert_eq!(reply.status, 400);
    assert_eq!(reply.body.message, "Target wallet address is required.");
    assert_eq!(reply.body.file_name, Some(s("a.pdf")));
}

#[test]
fn empty_owner_field_counts_as_missing() {
    let rej = ingest_fields(&[
        ("targetWalletAddress", None, &[]),
        ("file", Some("a.pdf"), &[b"data"]),
    ])
    .err()
    .unwrap();
    assert!(matches!(rej.error, UploadError::MissingOwner));
}

#[test]
fn fields_in_any_order_and_chunks_joined() {
    let req = ingest_fields(&[
        ("note", None, &[b"ignored"]),
        ("file", Some("r.bin"), &[b"ab", b"", b"cd"]),
        ("targetWalletAddress", None, &[b"Wal", b"let9"]),
    ])
    .ok()
    .unwrap();
    assert_eq!(req.owner, "Wallet9");
    assert_eq!(req.file_name, "r.bin");
    assert_eq!(req.content, b"abcd".to_vec());
}

#[test]
fn repeated_owner_keeps_last() {
    let req = ingest_fields(&[
        ("targetWalletAddress", None, &[b"First"]),
        ("file", Some("a"), &[b"x"]),
        ("targetWalletAddress", None, &[b"Second"]),
    ])
    .ok()
    .unwrap();
    assert_eq!(req.owner, "Second");
}

#[test]
fn empty_file_rejected_as_missing_data() {
    let rej = ingest_fields(&[
        ("targetWalletAddress", None, &[b"W"]),
        ("file", Some("empty.txt"), &[]),
    ])
    .err()
    .unwrap();
    assert!(matches!(rej.error, UploadError::MissingFileData));
    assert_eq!(rej.file_name, Some(s("empty.txt")));
    let reply = reject(rej);
    assert_eq!(reply.status, 400);
    assert_eq!(reply.body.message, "File data is missing.");
    assert_eq!(reply.body.file_name, Some(s("empty.txt")));
}

#[test]
fn empty_owner_value_rejected() {
    let form = UploadForm { owner: Some(s("")), file_name: Some(s("a.pdf")), content: Some(b"x".to_vec()) };
    let rej = validate(form).err().unwrap();
    assert!(matches!(rej.error, UploadError::MissingOwner));
    assert_eq!(rej.file_name, Some(s("a.pdf")));
}

#[test]
fn decimal_rendering() {
    assert_eq!(decimal_text(0), "0");
    assert_eq!(decimal_text(7), "7");
    assert_eq!(decimal_text(10), "10");
    assert_eq!(decimal_text(500), "500");
    assert_eq!(decimal_text(65535), "65535");
}

#[test]
fn invalid_utf8_owner_is_decoded_lossily() {
    let req = ingest_fields(&[
        ("targetWalletAddress", None, &[b"W\xffX"]),
        ("file", Some("a"), &[b"x"]),
    ])
    .ok()
    .unwrap();
    assert_eq!(req.owner, "W\u{FFFD}X");
}

#[test]
fn field_roles() {
    assert_eq!(field_role(&s("targetWalletAddress")), FieldRole::Owner);
    assert_eq!(field_role(&s("file")), FieldRole::File);
    assert_eq!(field_role(&s("File")), FieldRole::Other);
    assert_eq!(field_role(&s("")), FieldRole::Other);
}

#[test]
fn two_uploads_same_owner_both_kept() {
    let mut index = ReportIndex::new();
    let r1 = finish_upload(&mut index, request("W", "a", b"1"), answered(200, br#"{"Hash":"Qm1"}"#));
    let r2 = finish_upload(&mut index, request("W", "b", b"2"), answered(200, br#"{"Hash":"Qm2"}"#));
    assert!(r1.body.success && r2.body.success);
    assert_eq!(listing(&index, "W"), vec![pair("Qm1", "a"), pair("Qm2", "b")]);
}

#[test]
fn duplicate_uploads_are_kept() {
    let mut index = ReportIndex::new();
    for _ in 0..2 {
        finish_upload(&mut index, request("W", "a", b"1"), answered(200, br#"{"Hash":"Qm1"}"#));
    }
    assert_eq!(listing(&index, "W"), vec![pair("Qm1", "a"), pair("Qm1", "a")]);
}

fn assert_failed_and_unchanged(outcome: StoreOutcome, message: &str) {
    let mut index = ReportIndex::new();
    index.record(&s("W"), StoredArtifact::new(s("Qm0"), s("old")));
    let reply: UploadReply = finish_upload(&mut index, request("W", "a.pdf", b"x"), outcome);
    assert_eq!(reply.status, 500);
    assert!(!reply.body.success);
    assert_eq!(reply.body.message, message);
    assert_eq!(reply.body.cid, None);
    assert_eq!(reply.body.file_name, Some(s("a.pdf")));
    assert_eq!(listing(&index, "W"), vec![pair("Qm0", "old")]);
}

#[test]
fn backend_500_leaves_index_unchanged() {
    assert_failed_and_unchanged(
        answered(500, b"internal error"),
        "IPFS upload failed with status: 500, body: internal error",
    );
}

#[test]
fn backend_without_hash_leaves_index_unchanged() {
    assert_failed_and_unchanged(answered(200, br#"{"Name":"a.pdf"}"#), "Failed to get CID from IPFS response.");
}

#[test]
fn backend_empty_hash_fails() {
    assert_failed_and_unchanged(answered(200, br#"{"Hash":""}"#), "Failed to get CID from IPFS response.");
}

#[test]
fn backend_non_string_hash_fails() {
    assert_failed_and_unchanged(answered(200, br#"{"Hash":42}"#), "Failed to get CID from IPFS response.");
}

#[test]
fn backend_invalid_json_fails() {
    assert_failed_and_unchanged(answered(200, b"not json"), "Failed to get CID from IPFS response.");
}

#[test]
fn backend_unreachable_fails() {
    assert_failed_and_unchanged(
        StoreOutcome::Unreachable { detail: s("connection refused") },
        "Failed to upload to IPFS: connection refused",
    );
}

#[test]
fn malformed_body_rejected() {
    let reply = reject_malformed(s("Incomplete"));
    assert_eq!(reply.status, 400);
    assert!(!reply.body.success);
    assert_eq!(reply.body.message, "Error parsing field: Incomplete");
    assert_eq!(reply.body.file_name, None);
}

#[test]
fn success_statuses() {
    assert!(!is_success(199));
    assert!(is_success(200));
    assert!(is_success(299));
    assert!(!is_success(300));
    assert!(!is_success(500));
}

#[test]
fn content_id_read_from_json() {
    match resolve_content_id(answered(200, br#"{"Hash":"QmZ"}"#)) {
        Ok(id) => assert_eq!(id, "QmZ"),
        Err(_) => panic!("expected a content id"),
    }
    assert!(matches!(content_id_from_member(None), Err(UploadError::UpstreamMalformed)));
    assert!(matches!(content_id_from_member(Some(s("Qm"))), Ok(ref x) if x == "Qm"));
}

#[test]
fn complete_upload_with_error_keeps_index() {
    let mut index = ReportIndex::new();
    let reply = complete_upload(&mut index, request("W", "a", b"x"), Err(UploadError::UpstreamMalformed));
    assert_eq!(reply.status, 500);
    assert!(listing(&index, "W").is_empty());
}

#[test]
fn error_status_codes() {
    assert_eq!(UploadError::Malformed { detail: s("x") }.status_code(), 400);
    assert_eq!(UploadError::MissingOwner.status_code(), 400);
    assert_eq!(UploadError::UpstreamRejected { status: 404, body: b"no".to_vec() }.status_code(), 500);
}
