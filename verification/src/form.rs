//! Draining a multipart submission, field by field and chunk by chunk.
//!
//! The transport hands over the name of each field as it starts and then its
//! bytes in chunks; the reader keeps what the pipeline needs and caps the
//! size of the upload.

use vstd::prelude::*;
use vstd::string::StringExecFns;
use vstd::utf8::{decode_utf8, valid_utf8};
use crate::error::{AppError, ErrorKind};
use crate::ident::{parse_uuid, uuid_parse};
use crate::models::Board;
use crate::text::{same_text, utf8_text};

verus! {

/// Upload cap in bytes where the board's settings name none: 8 MiB.
pub const DEFAULT_MAX_FILE_SIZE: u64 = 8_388_608;

/// What `serde_json` reads as the unsigned number under `key` in the JSON
/// object `text`: `None` where the text is no JSON, holds no such member,
/// or the member is no unsigned 64-bit number.
pub uninterp spec fn json_u64_member(text: Seq<char>, key: Seq<char>) -> Option<u64>;

/// `serde_json::from_str` into a `Value`, then `Value::get` and
/// `Value::as_u64`: the unsigned number under the key, if there is one.
#[verifier::external_body]
fn json_member_u64(text: &str, key: &str) -> (n: Option<u64>)
    ensures
        n == json_u64_member(text@, key@),
{
    match serde_json::from_str::<serde_json::Value>(text) {
        Ok(value) => match value.get(key) {
            Some(member) => member.as_u64(),
            None => None,
        },
        Err(_) => None,
    }
}

/// The upload cap that a board's settings give: their `max_file_size`, or
/// 8 MiB where they name none.
pub open spec fn board_limit(settings: Seq<char>) -> u64 {
    match json_u64_member(settings, "max_file_size"@) {
        Some(n) => n,
        None => DEFAULT_MAX_FILE_SIZE,
    }
}

/// What a form field is for.
#[derive(Debug, Clone, Copy, PartialEq, Eq, Structural)]
pub enum FieldKind {
    /// `content`: the post's text.
    Content,
    /// `thread_id`: the thread to reply to.
    ThreadId,
    /// `file`: the upload.
    File,
    /// Any other field; ignored.
    Other,
}

/// The fields of a submission, once drained.
#[derive(Debug)]
pub struct Submission {
    /// The raw text of the post.
    pub content: String,
    /// The thread to reply to, where the form named one that parses.
    pub thread_id: Option<u128>,
    /// The uploaded bytes, where a non-empty file was sent.
    pub file: Option<Vec<u8>>,
    /// The content type declared for the last file field.
    pub content_type: String,
}

/// The mathematical value of a [`Submission`].
pub struct SubmissionView {
    pub content: Seq<char>,
    pub thread_id: Option<u128>,
    pub file: Option<Seq<u8>>,
    pub content_type: Seq<char>,
}

/// The view of optional bytes.
pub open spec fn opt_bytes(b: Option<Vec<u8>>) -> Option<Seq<u8>> {
    match b {
        Some(v) => Some(v@),
        None => None,
    }
}

impl View for Submission {
    type V = SubmissionView;

    open spec fn view(&self) -> SubmissionView {
        SubmissionView {
            content: self.content@,
            thread_id: self.thread_id,
            file: opt_bytes(self.file),
            content_type: self.content_type@,
        }
    }
}

/// The state of a reader: what was kept so far and the field being read.
pub struct FormReaderView {
    pub form: SubmissionView,
    pub current: FieldKind,
    /// The bytes of the file field being read.
    pub pending: Seq<u8>,
    pub limit: u64,
}

/// The empty submission.
pub open spec fn empty_form() -> SubmissionView {
    SubmissionView {
        content: Seq::empty(),
        thread_id: None,
        file: None,
        content_type: Seq::empty(),
    }
}

/// What a field of the given name is for.
pub open spec fn field_kind_of(name: Seq<char>) -> FieldKind {
    if name == "content"@ {
        FieldKind::Content
    } else if name == "thread_id"@ {
        FieldKind::ThreadId
    } else if name == "file"@ {
        FieldKind::File
    } else {
        FieldKind::Other
    }
}

/// The text of a chunk: its decoding where it is valid UTF-8, nothing
/// otherwise.
pub open spec fn chunk_text(bytes: Seq<u8>) -> Seq<char> {
    if valid_utf8(bytes) {
        decode_utf8(bytes)
    } else {
        Seq::empty()
    }
}

/// The reader after the current field has ended: a file field that brought
/// bytes becomes the upload.
pub open spec fn after_end(r: FormReaderView) -> FormReaderView {
    FormReaderView {
        form: if r.current == FieldKind::File && r.pending.len() > 0 {
            SubmissionView { file: Some(r.pending), ..r.form }
        } else {
            r.form
        },
        current: FieldKind::Other,
        pending: Seq::empty(),
        limit: r.limit,
    }
}

/// The reader after a field of the given name has begun. The field before
/// it, if any, has ended; a file field records its declared content type.
pub open spec fn after_begin(
    r: FormReaderView,
    name: Seq<char>,
    content_type: Seq<char>,
) -> FormReaderView {
    let closed = after_end(r);
    let kind = field_kind_of(name);
    FormReaderView {
        form: if kind == FieldKind::File {
            SubmissionView { content_type: content_type, ..closed.form }
        } else {
            closed.form
        },
        current: kind,
        pending: Seq::empty(),
        limit: r.limit,
    }
}

/// Whether a chunk can be taken: a file's bytes stay within the limit.
pub open spec fn chunk_fits(r: FormReaderView, bytes: Seq<u8>) -> bool {
    r.current != FieldKind::File || r.pending.len() + bytes.len() <= r.limit
}

/// The reader after a chunk of the current field has been taken.
pub open spec fn after_chunk(r: FormReaderView, bytes: Seq<u8>) -> FormReaderView {
    match r.current {
        FieldKind::Content => FormReaderView {
            form: SubmissionView { content: r.form.content + chunk_text(bytes), ..r.form },
            ..r
        },
        FieldKind::ThreadId => match uuid_parse(chunk_text(bytes)) {
            Some(id) => FormReaderView {
                form: SubmissionView { thread_id: Some(id), ..r.form },
                ..r
            },
            None => r,
        },
        FieldKind::File => FormReaderView { pending: r.pending + bytes, ..r },
        FieldKind::Other => r,
    }
}

/// The upload cap for a board: what its settings name, or 8 MiB.
pub fn upload_limit(configured: Option<u64>) -> (limit: u64)
    ensures
        limit == match configured {
            Some(n) => n,
            None => DEFAULT_MAX_FILE_SIZE,
        },
{
    match configured {
        Some(n) => n,
        None => DEFAULT_MAX_FILE_SIZE,
    }
}

/// The upload cap of a board, from its settings.
pub fn board_upload_limit(board: &Board) -> (limit: u64)
    ensures
        limit == board_limit(board.settings@),
{
    upload_limit(json_member_u64(board.settings.as_str(), "max_file_size"))
}

/// Tells what a field of the given name is for.
pub fn field_kind(name: &str) -> (kind: FieldKind)
    ensures
        kind == field_kind_of(name@),
{
    if same_text(name, "content") {
        FieldKind::Content
    } else if same_text(name, "thread_id") {
        FieldKind::ThreadId
    } else if same_text(name, "file") {
        FieldKind::File
    } else {
        FieldKind::Other
    }
}

/// Reads a submission as its fields arrive.
pub struct FormReader {
    form: Submission,
    current: FieldKind,
    pending: Vec<u8>,
    limit: u64,
}

impl View for FormReader {
    type V = FormReaderView;

    closed spec fn view(&self) -> FormReaderView {
        FormReaderView {
            form: self.form@,
            current: self.current,
            pending: self.pending@,
            limit: self.limit,
        }
    }
}

impl FormReader {
    /// A reader that has seen nothing and caps the upload at `limit` bytes.
    pub fn new(limit: u64) -> (reader: Self)
        ensures
            reader@ == (FormReaderView {
                form: empty_form(),
                current: FieldKind::Other,
                pending: Seq::empty(),
                limit: limit,
            }),
    {
        FormReader {
            form: Submission {
                content: String::new(),
                thread_id: None,
                file: None,
                content_type: String::new(),
            },
            current: FieldKind::Other,
            pending: Vec::new(),
            limit,
        }
    }

    /// Ends the field that is being read.
    pub fn end_field(&mut self)
        ensures
            final(self)@ == after_end(old(self)@),
    {
        if self.current == FieldKind::File && self.pending.len() > 0 {
            let mut bytes: Vec<u8> = Vec::new();
            bytes.append(&mut self.pending);
            self.form.file = Some(bytes);
        }
        self.current = FieldKind::Other;
        self.pending = Vec::new();
    }

    /// Begins a field; the one before it ends.
    pub fn begin_field(&mut self, name: &str, content_type: &str)
        ensures
            final(self)@ == after_begin(old(self)@, name@, content_type@),
    {
        self.end_field();
        let kind = field_kind(name);
        if kind == FieldKind::File {
            self.form.content_type = String::from_str(content_type);
        }
        self.current = kind;
    }

    /// Takes a chunk of the current field. A file that would grow beyond the
    /// limit is refused, and the reader stays as it was.
    pub fn chunk(&mut self, bytes: &[u8]) -> (r: Result<(), AppError>)
        ensures
            chunk_fits(old(self)@, bytes@) ==> r is Ok && final(self)@ == after_chunk(
                old(self)@,
                bytes@,
            ),
            !chunk_fits(old(self)@, bytes@) ==> r is Err && r->Err_0@.kind
                == ErrorKind::ValidationError && final(self)@ == old(self)@,
    {
        match self.current {
            FieldKind::Content => {
                let text = match utf8_text(bytes) {
                    Some(t) => t,
                    None => String::new(),
                };
                self.form.content.append(text.as_str());
            },
            FieldKind::ThreadId => {
                let text = match utf8_text(bytes) {
                    Some(t) => t,
                    None => String::new(),
                };
                match parse_uuid(text.as_str()) {
                    Some(id) => {
                        self.form.thread_id = Some(id);
                    },
                    None => {},
                }
            },
            FieldKind::File => {
                let room: u64 = if self.pending.len() as u64 <= self.limit {
                    self.limit - self.pending.len() as u64
                } else {
                    0
                };
                if self.pending.len() as u64 > self.limit || bytes.len() as u64 > room {
                    return Err(
                        AppError::ValidationError(
                            String::from_str("file exceeds the maximum upload size"),
                        ),
                    );
                }
                self.pending.extend_from_slice(bytes);
                assert(self.pending@ =~= old(self).pending@ + bytes@);
            },
            FieldKind::Other => {},
        }
        Ok(())
    }

    /// Ends reading and hands over the submission.
    pub fn finish(self) -> (form: Submission)
        ensures
            form@ == after_end(self@).form,
    {
        let mut reader = self;
        reader.end_field();
        reader.form
    }
}

} // verus!
