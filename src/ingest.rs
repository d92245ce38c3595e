use vstd::prelude::*;
use vstd::utf8::{decode_utf8, valid_utf8};

use crate::error::{Rejection, UploadError};

verus! {

/// What lossy UTF-8 decoding makes of a byte sequence.
pub uninterp spec fn utf8_lossy(bytes: Seq<u8>) -> Seq<char>;

/// Relies on `String::from_utf8_lossy`: valid UTF-8 decodes to its characters, and
/// each invalid sequence becomes U+FFFD instead of failing.
#[verifier::external_body]
pub(crate) fn decode_lossy(bytes: &[u8]) -> (r: String)
    ensures
        r@ == utf8_lossy(bytes@),
        valid_utf8(bytes@) ==> r@ == decode_utf8(bytes@),
{
    String::from_utf8_lossy(bytes).into_owned()
}

/// Name of the form field that carries the owner identifier.
pub open spec fn owner_field_name() -> Seq<char> {
    "targetWalletAddress"@
}

/// Name of the form field that carries the file.
pub open spec fn file_field_name() -> Seq<char> {
    "file"@
}

/// How a form field is treated.
#[derive(PartialEq, Eq, Structural, Clone, Copy, Debug)]
pub enum FieldRole {
    Owner,
    File,
    Other,
}

pub open spec fn spec_field_role(name: Seq<char>) -> FieldRole {
    if name == owner_field_name() {
        FieldRole::Owner
    } else if name == file_field_name() {
        FieldRole::File
    } else {
        FieldRole::Other
    }
}

/// Recognises the owner and file fields by name; every other name is skipped.
pub fn field_role(name: &String) -> (r: FieldRole)
    ensures
        r == spec_field_role(name@),
{
    let owner_name = String::from_str("targetWalletAddress");
    let file_name = String::from_str("file");
    if *name == owner_name {
        FieldRole::Owner
    } else if *name == file_name {
        FieldRole::File
    } else {
        FieldRole::Other
    }
}

/// The three slots of an upload, each filled by some form field or still empty.
pub struct UploadForm {
    pub owner: Option<String>,
    pub file_name: Option<String>,
    pub content: Option<Vec<u8>>,
}

/// A form seen as (owner, file name, content).
pub type FormView = (Option<Seq<char>>, Option<Seq<char>>, Option<Seq<u8>>);

impl View for UploadForm {
    type V = FormView;

    open spec fn view(&self) -> FormView {
        (
            match self.owner {
                Some(o) => Some(o@),
                None => None,
            },
            match self.file_name {
                Some(n) => Some(n@),
                None => None,
            },
            match self.content {
                Some(c) => Some(c@),
                None => None,
            },
        )
    }
}

/// A complete upload: who owns it, the client's file name, and the file's bytes.
pub struct UploadRequest {
    pub owner: String,
    pub file_name: String,
    pub content: Vec<u8>,
}

/// A request seen as (owner, file name, content).
pub type RequestView = (Seq<char>, Seq<char>, Seq<u8>);

impl View for UploadRequest {
    type V = RequestView;

    open spec fn view(&self) -> RequestView {
        (self.owner@, self.file_name@, self.content@)
    }
}

/// The check of a drained form: a file name, then some file bytes, then a
/// non-empty owner must be there.
pub open spec fn spec_validate(form: FormView) -> Result<RequestView, UploadError> {
    match form.1 {
        None => Err(UploadError::MissingFileName),
        Some(name) => match form.2 {
            None => Err(UploadError::MissingFileData),
            Some(content) => if content.len() == 0 {
                Err(UploadError::MissingFileData)
            } else {
                match form.0 {
                    None => Err(UploadError::MissingOwner),
                    Some(owner) => if owner.len() == 0 {
                        Err(UploadError::MissingOwner)
                    } else {
                        Ok((owner, name, content))
                    },
                }
            },
        },
    }
}

/// The file name that a rejection of `form` echoes back.
pub open spec fn echoed_file_name(form: FormView, error: UploadError) -> Option<Seq<char>> {
    match error {
        UploadError::MissingFileName => None,
        _ => form.1,
    }
}

pub open spec fn opt_view(s: Option<String>) -> Option<Seq<char>> {
    match s {
        Some(x) => Some(x@),
        None => None,
    }
}

/// Checks a drained form, field by field in a fixed order.
pub fn validate(form: UploadForm) -> (r: Result<UploadRequest, Rejection>)
    ensures
        match r {
            Ok(req) => spec_validate(form@) == Ok::<RequestView, UploadError>(req@),
            Err(rej) => spec_validate(form@) == Err::<RequestView, UploadError>(rej.error)
                && opt_view(rej.file_name) == echoed_file_name(form@, rej.error),
        },
{
    let UploadForm { owner, file_name, content } = form;
    match file_name {
        None => Err(Rejection { error: UploadError::MissingFileName, file_name: None }),
        Some(name) => match content {
            None => Err(Rejection { error: UploadError::MissingFileData, file_name: Some(name) }),
            Some(bytes) => if bytes.len() == 0 {
                Err(Rejection { error: UploadError::MissingFileData, file_name: Some(name) })
            } else {
                match owner {
                    None => Err(
                        Rejection { error: UploadError::MissingOwner, file_name: Some(name) },
                    ),
                    Some(o) => if o.as_str().unicode_len() == 0 {
                        Err(Rejection { error: UploadError::MissingOwner, file_name: Some(name) })
                    } else {
                        Ok(UploadRequest { owner: o, file_name: name, content: bytes })
                    },
                }
            },
        },
    }
}

/// An upload without a file field is turned down with 400 as missing its file
/// name, whether or not the owner field came.
pub proof fn lemma_missing_file_rejected(form: FormView)
    requires
        form.1 is None,
        form.2 is None,
    ensures
        spec_validate(form) == Err::<RequestView, UploadError>(UploadError::MissingFileName),
        UploadError::MissingFileName.spec_status_code() == 400,
        UploadError::MissingFileName.spec_message() == "File name is missing."@,
{
}

/// A file field with a name but no bytes is turned down with 400 as missing
/// its data.
pub proof fn lemma_empty_file_rejected(form: FormView)
    requires
        form.1 is Some,
        form.2 matches Some(content) && content.len() == 0,
    ensures
        spec_validate(form) == Err::<RequestView, UploadError>(UploadError::MissingFileData),
        UploadError::MissingFileData.spec_status_code() == 400,
        UploadError::MissingFileData.spec_message() == "File data is missing."@,
{
}

/// An upload without an owner, or with an empty one, is turned down with 400,
/// even when the file name and the file's bytes came.
pub proof fn lemma_missing_owner_rejected(form: FormView)
    requires
        form.0 matches Some(owner) ==> owner.len() == 0,
        form.1 is Some,
        form.2 matches Some(content) && content.len() > 0,
    ensures
        spec_validate(form) == Err::<RequestView, UploadError>(UploadError::MissingOwner),
        UploadError::MissingOwner.spec_status_code() == 400,
{
}

/// The form field being read at the moment.
pub enum OpenField {
    /// No field has been opened yet.
    Idle,
    /// The owner field, with the bytes read from it so far.
    Owner { bytes: Vec<u8> },
    /// The file field, with its declared file name and the bytes read so far.
    File { file_name: Option<String>, bytes: Vec<u8> },
    /// A field whose contents are not needed.
    Skipped,
}

/// A form after the field `open` has been read to its end. An owner field
/// with no bytes leaves the owner slot as it was; a file field replaces both
/// the file name (even by none) and the content.
pub open spec fn committed(form: FormView, open: OpenField) -> FormView {
    match open {
        OpenField::Owner { bytes } => if bytes@.len() > 0 {
            (Some(utf8_lossy(bytes@)), form.1, form.2)
        } else {
            form
        },
        OpenField::File { file_name, bytes } => (form.0, opt_view(file_name), Some(bytes@)),
        _ => form,
    }
}

/// Bytes collected by the open field, where it collects any.
pub open spec fn open_bytes(open: OpenField) -> Option<Seq<u8>> {
    match open {
        OpenField::Owner { bytes } => Some(bytes@),
        OpenField::File { bytes, .. } => Some(bytes@),
        _ => None,
    }
}

/// Two states of the open field that differ in their collected bytes at most.
pub open spec fn same_field(a: OpenField, b: OpenField) -> bool {
    match (a, b) {
        (OpenField::Idle, OpenField::Idle) => true,
        (OpenField::Skipped, OpenField::Skipped) => true,
        (OpenField::Owner { .. }, OpenField::Owner { .. }) => true,
        (OpenField::File { file_name: n1, .. }, OpenField::File { file_name: n2, .. }) => opt_view(
            n1,
        ) == opt_view(n2),
        _ => false,
    }
}

/// Reads a multipart upload field by field, in whatever order the fields come.
pub struct Ingest {
    pub form: UploadForm,
    pub open: OpenField,
}

/// Appends `chunk` to `buf`.
fn append_bytes(buf: &mut Vec<u8>, chunk: &[u8])
    ensures
        final(buf)@ == old(buf)@ + chunk@,
{
    let mut i: usize = 0;
    while i < chunk.len()
        invariant
            i <= chunk@.len(),
            buf@ == old(buf)@ + chunk@.subrange(0, i as int),
        decreases chunk@.len() - i,
    {
        proof {
            assert(chunk@.subrange(0, i + 1) =~= chunk@.subrange(0, i as int).push(chunk@[i as int]));
        }
        buf.push(chunk[i]);
        i = i + 1;
    }
    assert(chunk@.subrange(0, chunk@.len() as int) =~= chunk@);
}

impl Ingest {
    /// The form that the fields read so far, the open one included, amount to.
    pub open spec fn spec_form(&self) -> FormView {
        committed(self.form@, self.open)
    }

    pub fn new() -> (r: Ingest)
        ensures
            r.form@ == (None::<Seq<char>>, None::<Seq<char>>, None::<Seq<u8>>),
            r.open is Idle,
    {
        Ingest {
            form: UploadForm { owner: None, file_name: None, content: None },
            open: OpenField::Idle,
        }
    }

    /// Closes the open field, folding what it collected into the form.
    fn close_field(&mut self)
        ensures
            final(self).form@ == committed(old(self).form@, old(self).open),
            final(self).open is Idle,
    {
        let mut open = OpenField::Idle;
        std::mem::swap(&mut open, &mut self.open);
        match open {
            OpenField::Owner { bytes } => {
                if bytes.len() > 0 {
                    self.form.owner = Some(decode_lossy(bytes.as_slice()));
                }
            },
            OpenField::File { file_name, bytes } => {
                self.form.file_name = file_name;
                self.form.content = Some(bytes);
            },
            _ => {},
        }
    }

    /// Starts a new field with the given name and declared file name; the
    /// previous field is read to its end first.
    pub fn begin_field(&mut self, name: &String, file_name: Option<String>)
        ensures
            final(self).form@ == old(self).spec_form(),
            match spec_field_role(name@) {
                FieldRole::Owner => final(self).open matches OpenField::Owner { bytes }
                    && bytes@.len() == 0,
                FieldRole::File => final(self).open matches OpenField::File { file_name: n, bytes }
                    && bytes@.len() == 0 && opt_view(n) == opt_view(file_name),
                FieldRole::Other => final(self).open is Skipped,
            },
    {
        self.close_field();
        match field_role(name) {
            FieldRole::Owner => {
                self.open = OpenField::Owner { bytes: Vec::new() };
            },
            FieldRole::File => {
                self.open = OpenField::File { file_name, bytes: Vec::new() };
            },
            FieldRole::Other => {
                self.open = OpenField::Skipped;
            },
        }
    }

    /// Takes the next chunk of the open field: kept for the owner and file
    /// fields, dropped for any other.
    pub fn push_chunk(&mut self, chunk: &[u8])
        ensures
            final(self).form@ == old(self).form@,
            same_field(old(self).open, final(self).open),
            open_bytes(final(self).open) == match open_bytes(old(self).open) {
                Some(b) => Some(b + chunk@),
                None => None::<Seq<u8>>,
            },
    {
        match &mut self.open {
            OpenField::Owner { bytes } => append_bytes(bytes, chunk),
            OpenField::File { bytes, .. } => append_bytes(bytes, chunk),
            _ => {},
        }
    }

    /// Ends the stream: the open field is read to its end and the form is checked.
    pub fn finish(self) -> (r: Result<UploadRequest, Rejection>)
        ensures
            match r {
                Ok(req) => spec_validate(self.spec_form()) == Ok::<RequestView, UploadError>(
                    req@,
                ),
                Err(rej) => spec_validate(self.spec_form()) == Err::<RequestView, UploadError>(
                    rej.error,
                ) && opt_view(rej.file_name) == echoed_file_name(self.spec_form(), rej.error),
            },
    {
        let mut this = self;
        this.close_field();
        validate(this.form)
    }
}

} // verus!
