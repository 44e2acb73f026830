//! Saving an upload to the local store, step by step.
//!
//! The store never writes a blob at its final path: the bytes go to a
//! temporary sibling first and are renamed into place. A blob that is
//! already there is not written again. A new blob gets a thumbnail; where
//! that fails the blob is taken away again, so that what is found at a final
//! path is always complete. The job decides; its caller touches the disk and
//! reports back.

use vstd::prelude::*;
use vstd::string::StringExecFns;
use crate::ident::{format_uuid, fresh_uuid_v7, uuid_text};
use crate::media::{
    media_id, media_id_of, original_at, shard_dir, thumbnail_at, LocalMediaStore,
};
use crate::thumbnail::{MediaCause, MediaError};

verus! {

/// What the job waits for.
#[derive(Debug, Clone, Copy, PartialEq, Eq, Structural)]
pub enum SaveStage {
    /// The shard directory is being created.
    Dir,
    /// The final path is being probed.
    Probe,
    /// The bytes are being written to the temporary file.
    Write,
    /// The final path is being probed once more, after the write.
    Recheck,
    /// The temporary file is being renamed into place.
    Rename,
    /// The thumbnail is being derived.
    Derive,
    /// The thumbnail is being written.
    Thumbnail,
    /// The thumbnail file is being removed; `retried` after one failure.
    DropThumbnail { retried: bool },
    /// The blob is being removed again.
    DropOriginal,
    /// The temporary file is being removed.
    DropTemp,
    /// The job has ended.
    Finished,
}

/// What the caller is asked to do.
#[derive(Debug)]
pub enum SaveAction {
    /// Create the directory and its parents.
    CreateDir { path: String },
    /// Tell whether a file exists.
    Probe { path: String },
    /// Write the upload's bytes to the file.
    WriteUpload { path: String },
    /// Rename a file, replacing the target.
    Rename { from: String, to: String },
    /// Derive the thumbnail of the upload's bytes.
    DeriveThumbnail,
    /// Write the thumbnail's bytes to the file.
    WriteThumbnail { path: String, bytes: Vec<u8> },
    /// Remove a file.
    Remove { path: String },
    /// Answer the save with the identifier or the failure.
    Finish { result: Result<String, MediaError> },
    /// Nothing; the job has ended.
    Idle,
}

/// What the caller reports.
#[derive(Debug)]
pub enum SaveEvent {
    /// The action succeeded.
    Done,
    /// The action failed.
    Failed,
    /// The probed file exists.
    Found,
    /// The probed file does not exist.
    Missing,
    /// The thumbnail was derived, or could not be.
    Thumbnail(Result<Vec<u8>, MediaError>),
}

/// The mathematical value of a [`SaveAction`].
pub enum SaveActionView {
    CreateDir { path: Seq<char> },
    Probe { path: Seq<char> },
    WriteUpload { path: Seq<char> },
    Rename { from: Seq<char>, to: Seq<char> },
    DeriveThumbnail,
    WriteThumbnail { path: Seq<char>, bytes: Seq<u8> },
    Remove { path: Seq<char> },
    Finish { result: Result<Seq<char>, MediaCause> },
    Idle,
}

impl View for SaveAction {
    type V = SaveActionView;

    open spec fn view(&self) -> SaveActionView {
        match self {
            SaveAction::CreateDir { path } => SaveActionView::CreateDir { path: path@ },
            SaveAction::Probe { path } => SaveActionView::Probe { path: path@ },
            SaveAction::WriteUpload { path } => SaveActionView::WriteUpload { path: path@ },
            SaveAction::Rename { from, to } => SaveActionView::Rename { from: from@, to: to@ },
            SaveAction::DeriveThumbnail => SaveActionView::DeriveThumbnail,
            SaveAction::WriteThumbnail { path, bytes } => SaveActionView::WriteThumbnail {
                path: path@,
                bytes: bytes@,
            },
            SaveAction::Remove { path } => SaveActionView::Remove { path: path@ },
            SaveAction::Finish { result } => SaveActionView::Finish {
                result: match result {
                    Ok(id) => Ok(id@),
                    Err(e) => Err(e.cause),
                },
            },
            SaveAction::Idle => SaveActionView::Idle,
        }
    }
}

/// What the caller reported, as the job reads it.
pub enum Report {
    Done,
    Failed,
    Found,
    Missing,
    Thumbnail(Result<Seq<u8>, MediaCause>),
}

impl View for SaveEvent {
    type V = Report;

    open spec fn view(&self) -> Report {
        match self {
            SaveEvent::Done => Report::Done,
            SaveEvent::Failed => Report::Failed,
            SaveEvent::Found => Report::Found,
            SaveEvent::Missing => Report::Missing,
            SaveEvent::Thumbnail(r) => Report::Thumbnail(
                match r {
                    Ok(bytes) => Ok(bytes@),
                    Err(e) => Err(e.cause),
                },
            ),
        }
    }
}

/// The state of a save.
pub struct SaveView {
    pub stage: SaveStage,
    /// The cause to report once the clean-up is done; `None` for success.
    pub cause: Option<MediaCause>,
    /// The blob's identifier.
    pub id: Seq<char>,
    /// The shard directory.
    pub dir: Seq<char>,
    /// The final path of the blob.
    pub original: Seq<char>,
    /// The temporary sibling that is written first.
    pub temp: Seq<char>,
    /// The path of the thumbnail.
    pub thumbnail: Seq<char>,
    /// The upload's bytes.
    pub data: Seq<u8>,
}

/// The temporary sibling of a blob below `base`, made unique by `nonce`.
pub open spec fn temp_at(base: Seq<char>, id: Seq<char>, nonce: u128) -> Seq<char> {
    shard_dir(base, id) + "/tmp_"@ + uuid_text(nonce) + "_"@ + id
}

/// The state in which a save of `data` below `root` begins.
pub open spec fn save_begin(root: Seq<char>, data: Seq<u8>, nonce: u128) -> SaveView {
    let id = media_id_of(data);
    SaveView {
        stage: SaveStage::Dir,
        cause: None,
        id: id,
        dir: shard_dir(root, id),
        original: original_at(root, id),
        temp: temp_at(root, id, nonce),
        thumbnail: thumbnail_at(root, id),
        data: data,
    }
}

/// The end of a save: the identifier, or the cause of the failure.
pub open spec fn save_end(s: SaveView, cause: Option<MediaCause>) -> (SaveView, SaveActionView) {
    (
        SaveView { stage: SaveStage::Finished, cause: cause, ..s },
        SaveActionView::Finish {
            result: match cause {
                None => Ok(s.id),
                Some(c) => Err(c),
            },
        },
    )
}

/// A clean-up step: the job moves to `stage`, remembers `cause` and asks
/// for `path` to be removed.
pub open spec fn save_drop(
    s: SaveView,
    stage: SaveStage,
    cause: Option<MediaCause>,
    path: Seq<char>,
) -> (SaveView, SaveActionView) {
    (SaveView { stage: stage, cause: cause, ..s }, SaveActionView::Remove { path: path })
}

/// A step forward: the job moves to `stage` and asks for `action`.
pub open spec fn save_go(s: SaveView, stage: SaveStage, action: SaveActionView) -> (
    SaveView,
    SaveActionView,
) {
    (SaveView { stage: stage, ..s }, action)
}

/// The state and action that follow a report.
///
/// * A blob found at its final path is not written again.
/// * A blob is written to the temporary file and renamed into place; where
///   another writer got there first, the temporary file is removed and the
///   save succeeds.
/// * After the rename the thumbnail is derived and written. Where either
///   fails, the thumbnail file (if one was begun, with one more try after a
///   failure) and the blob are removed, and the save fails with the cause.
pub open spec fn save_next(s: SaveView, report: Report) -> (SaveView, SaveActionView) {
    match s.stage {
        SaveStage::Dir => match report {
            Report::Done => save_go(s, SaveStage::Probe, SaveActionView::Probe { path: s.original }),
            _ => save_end(s, Some(MediaCause::Io)),
        },
        SaveStage::Probe => match report {
            Report::Found => save_end(s, None),
            Report::Missing => save_go(
                s,
                SaveStage::Write,
                SaveActionView::WriteUpload { path: s.temp },
            ),
            _ => save_end(s, Some(MediaCause::Io)),
        },
        SaveStage::Write => match report {
            Report::Done => save_go(
                s,
                SaveStage::Recheck,
                SaveActionView::Probe { path: s.original },
            ),
            _ => save_drop(s, SaveStage::DropTemp, Some(MediaCause::Io), s.temp),
        },
        SaveStage::Recheck => match report {
            Report::Found => save_drop(s, SaveStage::DropTemp, None, s.temp),
            Report::Missing => save_go(
                s,
                SaveStage::Rename,
                SaveActionView::Rename { from: s.temp, to: s.original },
            ),
            _ => save_drop(s, SaveStage::DropTemp, Some(MediaCause::Io), s.temp),
        },
        SaveStage::Rename => match report {
            Report::Done => save_go(s, SaveStage::Derive, SaveActionView::DeriveThumbnail),
            _ => save_drop(s, SaveStage::DropTemp, Some(MediaCause::Io), s.temp),
        },
        SaveStage::Derive => match report {
            Report::Thumbnail(Ok(bytes)) => save_go(
                s,
                SaveStage::Thumbnail,
                SaveActionView::WriteThumbnail { path: s.thumbnail, bytes: bytes },
            ),
            Report::Thumbnail(Err(cause)) => save_drop(
                s,
                SaveStage::DropOriginal,
                Some(cause),
                s.original,
            ),
            _ => save_drop(s, SaveStage::DropOriginal, Some(MediaCause::Io), s.original),
        },
        SaveStage::Thumbnail => match report {
            Report::Done => save_end(s, None),
            _ => save_drop(
                s,
                SaveStage::DropThumbnail { retried: false },
                Some(MediaCause::Io),
                s.thumbnail,
            ),
        },
        SaveStage::DropThumbnail { retried } => match report {
            Report::Done => save_drop(s, SaveStage::DropOriginal, s.cause, s.original),
            _ => if retried {
                save_drop(s, SaveStage::DropOriginal, s.cause, s.original)
            } else {
                save_drop(s, SaveStage::DropThumbnail { retried: true }, s.cause, s.thumbnail)
            },
        },
        SaveStage::DropOriginal => save_end(s, s.cause),
        SaveStage::DropTemp => save_end(s, s.cause),
        SaveStage::Finished => (s, SaveActionView::Idle),
    }
}

/// The temporary file is neither the blob's final path nor its
/// thumbnail's.
pub proof fn lemma_temp_is_aside(root: Seq<char>, data: Seq<u8>, nonce: u128)
    ensures
        save_begin(root, data, nonce).temp != save_begin(root, data, nonce).original,
        save_begin(root, data, nonce).temp != save_begin(root, data, nonce).thumbnail,
{
    reveal_strlit("/");
    reveal_strlit("/tmp_");
    reveal_strlit("_");
    reveal_strlit("thumb_");
    reveal_strlit(".webp");
    let s = save_begin(root, data, nonce);
    let dir = shard_dir(root, s.id);
    assert(s.temp.len() == dir.len() + s.id.len() + 42);
    assert(s.original.len() == dir.len() + s.id.len() + 1) by {
        assert(s.original =~= dir + "/"@ + s.id);
    }
    assert(s.thumbnail.len() == dir.len() + s.id.len() + 12) by {
        assert(s.thumbnail =~= dir + "/"@ + ("thumb_"@ + s.id + ".webp"@));
    }
}

/// Writing aside: the upload's bytes are only ever written to the
/// temporary file; a save that ends well ends with the blob's identifier;
/// and the job never changes what it saves or where.
pub proof fn lemma_save_writes_aside(s: SaveView, report: Report)
    ensures
        save_next(s, report).1 matches SaveActionView::WriteUpload { path } ==> path == s.temp,
        save_next(s, report).1 matches SaveActionView::Finish { result: Ok(id) } ==> id == s.id,
        save_next(s, report).0 == (SaveView {
            stage: save_next(s, report).0.stage,
            cause: save_next(s, report).0.cause,
            ..s
        }),
        s.stage == SaveStage::Probe && report is Found ==> save_next(s, report).1 == (
        SaveActionView::Finish { result: Ok(s.id) }),
{
}

/// The text that goes with a cause.
pub open spec fn cause_text(cause: MediaCause) -> Seq<char> {
    match cause {
        MediaCause::Decode => "the upload is not a well-formed image"@,
        MediaCause::UnsupportedFormat => "the image format is not supported"@,
        MediaCause::Io => "the media store could not write"@,
        MediaCause::Encode => "the thumbnail could not be encoded"@,
    }
}

/// The failure that is reported for a cause.
pub fn media_error(cause: MediaCause) -> (e: MediaError)
    ensures
        e.cause == cause,
        e.detail@ == cause_text(cause),
{
    let detail = match cause {
        MediaCause::Decode => "the upload is not a well-formed image",
        MediaCause::UnsupportedFormat => "the image format is not supported",
        MediaCause::Io => "the media store could not write",
        MediaCause::Encode => "the thumbnail could not be encoded",
    };
    MediaError { cause, detail: String::from_str(detail) }
}

/// One save of one upload.
pub struct SaveJob {
    stage: SaveStage,
    cause: Option<MediaCause>,
    id: String,
    dir: String,
    original: String,
    temp: String,
    thumbnail: String,
    data: Vec<u8>,
}

impl View for SaveJob {
    type V = SaveView;

    closed spec fn view(&self) -> SaveView {
        SaveView {
            stage: self.stage,
            cause: self.cause,
            id: self.id@,
            dir: self.dir@,
            original: self.original@,
            temp: self.temp@,
            thumbnail: self.thumbnail@,
            data: self.data@,
        }
    }
}

impl SaveJob {
    /// Begins the save of `data` in `store`, with `nonce` to tell this
    /// job's temporary file from those of others. The first action is to
    /// create the shard directory.
    pub fn begin_with(store: &LocalMediaStore, data: Vec<u8>, nonce: u128) -> (started: (
        SaveJob,
        SaveAction,
    ))
        ensures
            started.0@ == save_begin(store.root(), data@, nonce),
            started.1@ == (SaveActionView::CreateDir { path: started.0@.dir }),
    {
        let id = media_id(data.as_slice());
        let dir = store.get_shard_dir(id.as_str());
        let original = store.get_sharded_path(id.as_str());
        let thumbnail = store.get_thumbnail_path(id.as_str());
        let temp = dir.clone().concat("/tmp_").concat(format_uuid(nonce).as_str()).concat(
            "_",
        ).concat(id.as_str());
        let action = SaveAction::CreateDir { path: dir.clone() };
        (
            SaveJob {
                stage: SaveStage::Dir,
                cause: None,
                id,
                dir,
                original,
                temp,
                thumbnail,
                data,
            },
            action,
        )
    }

    /// Begins the save of `data` in `store`. The temporary file's name is
    /// drawn fresh; all else is as in [`SaveJob::begin_with`].
    pub fn begin(store: &LocalMediaStore, data: Vec<u8>) -> (started: (SaveJob, SaveAction))
        ensures
            exists|nonce: u128| started.0@ == #[trigger] save_begin(store.root(), data@, nonce),
            started.0@.id == media_id_of(data@),
            started.1@ == (SaveActionView::CreateDir { path: started.0@.dir }),
    {
        let nonce = fresh_uuid_v7();
        let started = SaveJob::begin_with(store, data, nonce);
        assert(started.0@ == save_begin(store.root(), data@, nonce));
        started
    }

    /// The upload's bytes, for the caller to write.
    pub fn data(&self) -> (bytes: &Vec<u8>)
        ensures
            bytes@ == self@.data,
    {
        &self.data
    }

    /// The blob's identifier.
    pub fn id(&self) -> (id: &String)
        ensures
            id@ == self@.id,
    {
        &self.id
    }

    /// What the job waits for.
    pub fn stage(&self) -> (stage: SaveStage)
        ensures
            stage == self@.stage,
    {
        self.stage
    }

    /// Ends the job.
    fn end(&mut self, cause: Option<MediaCause>) -> (action: SaveAction)
        ensures
            (final(self)@, action@) == save_end(old(self)@, cause),
    {
        self.stage = SaveStage::Finished;
        self.cause = cause;
        let result = match cause {
            None => Ok(self.id.clone()),
            Some(c) => Err(media_error(c)),
        };
        SaveAction::Finish { result }
    }

    /// Takes the caller's report and tells what to do next.
    pub fn advance(&mut self, event: SaveEvent) -> (action: SaveAction)
        ensures
            (final(self)@, action@) == save_next(old(self)@, event@),
    {
        match self.stage {
            SaveStage::Dir => match event {
                SaveEvent::Done => {
                    self.stage = SaveStage::Probe;
                    SaveAction::Probe { path: self.original.clone() }
                },
                _ => self.end(Some(MediaCause::Io)),
            },
            SaveStage::Probe => match event {
                SaveEvent::Found => self.end(None),
                SaveEvent::Missing => {
                    self.stage = SaveStage::Write;
                    SaveAction::WriteUpload { path: self.temp.clone() }
                },
                _ => self.end(Some(MediaCause::Io)),
            },
            SaveStage::Write => match event {
                SaveEvent::Done => {
                    self.stage = SaveStage::Recheck;
                    SaveAction::Probe { path: self.original.clone() }
                },
                _ => {
                    self.stage = SaveStage::DropTemp;
                    self.cause = Some(MediaCause::Io);
                    SaveAction::Remove { path: self.temp.clone() }
                },
            },
            SaveStage::Recheck => match event {
                SaveEvent::Found => {
                    self.stage = SaveStage::DropTemp;
                    self.cause = None;
                    SaveAction::Remove { path: self.temp.clone() }
                },
                SaveEvent::Missing => {
                    self.stage = SaveStage::Rename;
                    SaveAction::Rename { from: self.temp.clone(), to: self.original.clone() }
                },
                _ => {
                    self.stage = SaveStage::DropTemp;
                    self.cause = Some(MediaCause::Io);
                    SaveAction::Remove { path: self.temp.clone() }
                },
            },
            SaveStage::Rename => match event {
                SaveEvent::Done => {
                    self.stage = SaveStage::Derive;
                    SaveAction::DeriveThumbnail
                },
                _ => {
                    self.stage = SaveStage::DropTemp;
                    self.cause = Some(MediaCause::Io);
                    SaveAction::Remove { path: self.temp.clone() }
                },
            },
            SaveStage::Derive => match event {
                SaveEvent::Thumbnail(Ok(bytes)) => {
                    self.stage = SaveStage::Thumbnail;
                    SaveAction::WriteThumbnail { path: self.thumbnail.clone(), bytes }
                },
                SaveEvent::Thumbnail(Err(e)) => {
                    self.stage = SaveStage::DropOriginal;
                    self.cause = Some(e.cause);
                    SaveAction::Remove { path: self.original.clone() }
                },
                _ => {
                    self.stage = SaveStage::DropOriginal;
                    self.cause = Some(MediaCause::Io);
                    SaveAction::Remove { path: self.original.clone() }
                },
            },
            SaveStage::Thumbnail => match event {
                SaveEvent::Done => self.end(None),
                _ => {
                    self.stage = SaveStage::DropThumbnail { retried: false };
                    self.cause = Some(MediaCause::Io);
                    SaveAction::Remove { path: self.thumbnail.clone() }
                },
            },
            SaveStage::DropThumbnail { retried } => {
                let again = match event {
                    SaveEvent::Done => false,
                    _ => !retried,
                };
                if again {
                    self.stage = SaveStage::DropThumbnail { retried: true };
                    SaveAction::Remove { path: self.thumbnail.clone() }
                } else {
                    self.stage = SaveStage::DropOriginal;
                    SaveAction::Remove { path: self.original.clone() }
                }
            },
            SaveStage::DropOriginal => {
                let cause = self.cause;
                self.end(cause)
            },
            SaveStage::DropTemp => {
                let cause = self.cause;
                self.end(cause)
            },
            SaveStage::Finished => SaveAction::Idle,
        }
    }
}

} // verus!
