use vstd::prelude::*;

use crate::error::{decimal, lemma_decimal_500, Rejection, UploadError};
use crate::index::{recorded, reports_in, ArtifactView, ReportIndex, StoredArtifact};
use crate::ingest::{opt_view, utf8_lossy, UploadRequest};
use crate::storage::{
    content_id_key, json_string_member, resolve_content_id, spec_content_id, spec_is_success,
    StoreOutcome,
};

verus! {

/// The answer to an upload: whether it was stored, a message, and what is known
/// of the content id and the file name.
pub struct UploadResponse {
    pub success: bool,
    pub message: String,
    pub cid: Option<String>,
    pub file_name: Option<String>,
}

/// An upload answer together with its HTTP status.
pub struct UploadReply {
    pub status: u16,
    pub body: UploadResponse,
}

/// The answer to a listing: always a success, with the owner's artifacts.
pub struct GetReportsResponse {
    pub success: bool,
    pub reports: Vec<StoredArtifact>,
    pub message: Option<String>,
}

pub open spec fn stored_message() -> Seq<char> {
    "File uploaded to IPFS and recorded (simulated)"@
}

pub open spec fn no_reports_message() -> Seq<char> {
    "No reports found for this wallet"@
}

/// The reply that turns an upload down.
pub open spec fn is_rejection_reply(r: UploadReply, error: UploadError, file_name: Option<
    Seq<char>,
>) -> bool {
    &&& r.status == error.spec_status_code()
    &&& !r.body.success
    &&& r.body.message@ == error.spec_message()
    &&& r.body.cid is None
    &&& opt_view(r.body.file_name) == file_name
}

/// The reply that confirms a stored upload.
pub open spec fn is_stored_reply(r: UploadReply, cid: Seq<char>, file_name: Seq<char>) -> bool {
    &&& r.status == 200
    &&& r.body.success
    &&& r.body.message@ == stored_message()
    &&& opt_view(r.body.cid) == Some(cid)
    &&& opt_view(r.body.file_name) == Some(file_name)
}

/// The index after an upload whose store ended in `outcome`: the artifact is
/// recorded only when the backend confirmed a content id.
pub open spec fn upload_effect(
    m: Map<Seq<char>, Seq<ArtifactView>>,
    owner: Seq<char>,
    file_name: Seq<char>,
    outcome: StoreOutcome,
) -> Map<Seq<char>, Seq<ArtifactView>> {
    match spec_content_id(outcome) {
        Ok(cid) => recorded(m, owner, (cid, file_name)),
        Err(_) => m,
    }
}

/// After a successful upload, the owner's listing ends with the content id
/// that the backend returned and the uploaded file name.
pub proof fn lemma_listing_ends_with_upload(
    m: Map<Seq<char>, Seq<ArtifactView>>,
    owner: Seq<char>,
    file_name: Seq<char>,
    outcome: StoreOutcome,
)
    requires
        spec_content_id(outcome) is Ok,
    ensures
        reports_in(upload_effect(m, owner, file_name, outcome), owner).last() == (
            spec_content_id(outcome)->Ok_0,
            file_name,
        ),
        reports_in(upload_effect(m, owner, file_name, outcome), owner).len() == reports_in(
            m,
            owner,
        ).len() + 1,
{
    crate::index::lemma_record_appends(m, owner, (spec_content_id(outcome)->Ok_0, file_name));
}

/// When the backend answers with a status outside the success class, such as
/// 500, the upload fails with 500, the message gives the backend's status in
/// decimal and its body, and the index is unchanged.
pub proof fn lemma_rejected_store_records_nothing(
    m: Map<Seq<char>, Seq<ArtifactView>>,
    owner: Seq<char>,
    file_name: Seq<char>,
    status: u16,
    body: Vec<u8>,
)
    requires
        !spec_is_success(status),
    ensures
        spec_content_id(StoreOutcome::Answered { status, body }) == Err::<Seq<char>, UploadError>(
            UploadError::UpstreamRejected { status, body },
        ),
        (UploadError::UpstreamRejected { status, body }).spec_status_code() == 500,
        (UploadError::UpstreamRejected { status, body }).spec_message() == "IPFS upload failed with status: "@
            + decimal(status as nat) + ", body: "@ + utf8_lossy(body@),
        status == 500 ==> (UploadError::UpstreamRejected { status, body }).spec_message().subrange(
            32,
            35,
        ) == seq!['5', '0', '0'],
        upload_effect(m, owner, file_name, StoreOutcome::Answered { status, body }) == m,
{
    if status == 500 {
        lemma_decimal_500();
        reveal_strlit("IPFS upload failed with status: ");
        let msg = (UploadError::UpstreamRejected { status, body }).spec_message();
        assert(msg.subrange(32, 35) =~= seq!['5', '0', '0']);
    }
}

/// When the backend answers with success but its body has no non-empty `Hash`
/// string, the upload fails with 500 and the index is unchanged.
pub proof fn lemma_store_without_content_id_records_nothing(
    m: Map<Seq<char>, Seq<ArtifactView>>,
    owner: Seq<char>,
    file_name: Seq<char>,
    outcome: StoreOutcome,
)
    requires
        outcome matches StoreOutcome::Answered { status, body, .. } && spec_is_success(status)
            && !(json_string_member(body@, content_id_key()) matches Some(id) && id.len() > 0),
    ensures
        spec_content_id(outcome) == Err::<Seq<char>, UploadError>(UploadError::UpstreamMalformed),
        UploadError::UpstreamMalformed.spec_status_code() == 500,
        upload_effect(m, owner, file_name, outcome) == m,
{
}

/// Answers a turned-down upload.
pub fn reject(rejection: Rejection) -> (r: UploadReply)
    ensures
        is_rejection_reply(r, rejection.error, opt_view(rejection.file_name)),
{
    let status = rejection.error.status_code();
    let message = rejection.error.message();
    UploadReply {
        status,
        body: UploadResponse { success: false, message, cid: None, file_name: rejection.file_name },
    }
}

/// Answers an upload whose multipart body could not be decoded.
pub fn reject_malformed(detail: String) -> (r: UploadReply)
    ensures
        is_rejection_reply(r, UploadError::Malformed { detail }, None),
{
    reject(Rejection { error: UploadError::Malformed { detail }, file_name: None })
}

/// Records a confirmed store in the index, or leaves the index as it was when
/// the store failed, and answers the upload.
pub fn complete_upload(
    index: &mut ReportIndex,
    request: UploadRequest,
    stored: Result<String, UploadError>,
) -> (r: UploadReply)
    requires
        old(index).wf(),
    ensures
        final(index).wf(),
        match stored {
            Ok(cid) => final(index)@ == recorded(
                old(index)@,
                request.owner@,
                (cid@, request.file_name@),
            ) && is_stored_reply(r, cid@, request.file_name@),
            Err(e) => final(index)@ == old(index)@ && is_rejection_reply(
                r,
                e,
                Some(request.file_name@),
            ),
        },
{
    match stored {
        Ok(cid) => {
            let artifact = StoredArtifact::new(cid.clone(), request.file_name.clone());
            index.record(&request.owner, artifact);
            UploadReply {
                status: 200,
                body: UploadResponse {
                    success: true,
                    message: String::from_str("File uploaded to IPFS and recorded (simulated)"),
                    cid: Some(cid),
                    file_name: Some(request.file_name),
                },
            }
        },
        Err(e) => reject(Rejection { error: e, file_name: Some(request.file_name) }),
    }
}

/// Interprets the storage backend's answer and completes the upload with it.
pub fn finish_upload(index: &mut ReportIndex, request: UploadRequest, outcome: StoreOutcome) -> (r:
    UploadReply)
    requires
        old(index).wf(),
    ensures
        final(index).wf(),
        final(index)@ == upload_effect(old(index)@, request.owner@, request.file_name@, outcome),
        match spec_content_id(outcome) {
            Ok(cid) => final(index)@ == recorded(
                old(index)@,
                request.owner@,
                (cid, request.file_name@),
            ) && is_stored_reply(r, cid, request.file_name@),
            Err(e) => final(index)@ == old(index)@ && is_rejection_reply(
                r,
                e,
                Some(request.file_name@),
            ),
        },
{
    let stored = resolve_content_id(outcome);
    complete_upload(index, request, stored)
}

/// Lists what was recorded for `owner`; an owner with nothing recorded gets an
/// empty list with an explanatory message, never an error.
pub fn reports_reply(index: &ReportIndex, owner: &String) -> (r: GetReportsResponse)
    requires
        index.wf(),
    ensures
        r.success,
        r.reports@.len() == reports_in(index@, owner@).len(),
        r.reports@.map_values(|a: StoredArtifact| a@) == reports_in(index@, owner@),
        opt_view(r.message) == if index@.contains_key(owner@) {
            None::<Seq<char>>
        } else {
            Some(no_reports_message())
        },
{
    proof {
        index.lemma_known_owner_has_reports(owner@);
    }
    let reports = index.lookup(owner);
    let message = if reports.len() == 0 {
        Some(String::from_str("No reports found for this wallet"))
    } else {
        None
    };
    GetReportsResponse { success: true, reports, message }
}

} // verus!
