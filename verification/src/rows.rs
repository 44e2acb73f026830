//! Rows as the relational store hands them back, and the entities they
//! stand for.
//!
//! Identifiers are stored as 16-byte blobs, timestamps as microseconds and
//! JSON as text; several columns may be null. A column that is missing or
//! malformed is read as its default: the nil identifier, `false`, the JSON
//! `null`, the poster `Anonymous`, the time of reading.

use vstd::prelude::*;
use vstd::string::StringExecFns;
use crate::models::{opt_text, Board, BoardView, Post, PostView, Thread, ThreadView};

verus! {

/// What `String::from_utf8_lossy` makes of bytes: their text, with every
/// invalid sequence replaced by U+FFFD.
pub uninterp spec fn utf8_lossy(bytes: Seq<u8>) -> Seq<char>;

/// Whether `text` is JSON, as `serde_json::from_str` decides it.
pub uninterp spec fn is_json(text: Seq<char>) -> bool;

/// The number that bytes denote, the first byte the most significant.
pub open spec fn be_value(bytes: Seq<u8>) -> int
    decreases bytes.len(),
{
    if bytes.len() == 0 {
        0
    } else {
        256 * be_value(bytes.drop_last()) + bytes.last() as int
    }
}

/// The identifier that a blob of sixteen bytes stands for.
pub open spec fn blob_id(bytes: Seq<u8>) -> Option<u128> {
    if bytes.len() == 16 {
        Some(be_value(bytes) as u128)
    } else {
        None
    }
}

/// The identifier in a column: a blob of another length, or none, reads as
/// the nil identifier.
pub open spec fn id_or_nil(column: Option<Seq<u8>>) -> u128 {
    match column {
        Some(bytes) => match blob_id(bytes) {
            Some(id) => id,
            None => 0,
        },
        None => 0,
    }
}

/// The JSON text in a column: text that is no JSON, or none, reads as
/// `null`.
pub open spec fn json_or_null(column: Option<Seq<char>>) -> Seq<char> {
    match column {
        Some(text) => if is_json(text) {
            text
        } else {
            "null"@
        },
        None => "null"@,
    }
}

/// The media identifier in a column: empty text, or none, reads as no
/// media.
pub open spec fn media_or_none(column: Option<Seq<u8>>) -> Option<Seq<char>> {
    match column {
        Some(bytes) => if utf8_lossy(bytes).len() == 0 {
            None
        } else {
            Some(utf8_lossy(bytes))
        },
        None => None,
    }
}

/// The views of optional bytes.
pub open spec fn opt_blob(column: Option<Vec<u8>>) -> Option<Seq<u8>> {
    match column {
        Some(bytes) => Some(bytes@),
        None => None,
    }
}

/// `Uuid::from_slice`: the identifier whose sixteen bytes these are, the
/// first the most significant; `None` for any other length.
#[verifier::external_body]
fn uuid_from_slice(bytes: &[u8]) -> (id: Option<u128>)
    ensures
        id == blob_id(bytes@),
{
    match uuid::Uuid::from_slice(bytes) {
        Ok(u) => Some(u.as_u128()),
        Err(_) => None,
    }
}

/// `String::from_utf8_lossy`, as an owned string.
#[verifier::external_body]
fn lossy_text(bytes: &[u8]) -> (text: String)
    ensures
        text@ == utf8_lossy(bytes@),
{
    String::from_utf8_lossy(bytes).to_string()
}

/// `serde_json::from_str` into a `Value`: tells whether the text parses.
#[verifier::external_body]
fn json_parses(text: &str) -> (ok: bool)
    ensures
        ok == is_json(text@),
{
    serde_json::from_str::<serde_json::Value>(text).is_ok()
}

/// A row of `boards`.
#[derive(Debug)]
pub struct BoardRow {
    pub id: Option<Vec<u8>>,
    pub slug: String,
    pub title: String,
    pub description: Option<String>,
    pub settings: Option<String>,
    pub created_at: Option<i64>,
}

/// A row of `threads`.
#[derive(Debug)]
pub struct ThreadRow {
    pub id: Option<Vec<u8>>,
    pub board_id: Vec<u8>,
    pub last_bump: i64,
    pub is_sticky: Option<bool>,
    pub is_locked: Option<bool>,
    pub metadata: Option<String>,
}

/// A row of `posts`.
#[derive(Debug)]
pub struct PostRow {
    pub id: Option<Vec<u8>>,
    pub thread_id: Vec<u8>,
    pub user_id_in_thread: Option<String>,
    pub content: String,
    pub media_id: Option<Vec<u8>>,
    pub is_op: Option<bool>,
    pub created_at: Option<i64>,
    pub metadata: Option<String>,
}

/// The board that a row stands for, read at time `now`.
pub open spec fn board_of(row: BoardRow, now: i64) -> BoardView {
    BoardView {
        id: id_or_nil(opt_blob(row.id)),
        slug: row.slug@,
        title: row.title@,
        description: opt_text(row.description),
        settings: json_or_null(opt_text(row.settings)),
        created_at: match row.created_at {
            Some(t) => t,
            None => now,
        },
    }
}

/// The thread that a row stands for.
pub open spec fn thread_of(row: ThreadRow) -> ThreadView {
    ThreadView {
        id: id_or_nil(opt_blob(row.id)),
        board_id: id_or_nil(Some(row.board_id@)),
        last_bump: row.last_bump,
        is_sticky: row.is_sticky == Some(true),
        is_locked: row.is_locked == Some(true),
        metadata: json_or_null(opt_text(row.metadata)),
    }
}

/// The post that a row stands for, read at time `now`.
pub open spec fn post_of(row: PostRow, now: i64) -> PostView {
    PostView {
        id: id_or_nil(opt_blob(row.id)),
        thread_id: id_or_nil(Some(row.thread_id@)),
        user_id_in_thread: match row.user_id_in_thread {
            Some(name) => name@,
            None => "Anonymous"@,
        },
        content: row.content@,
        media_id: media_or_none(opt_blob(row.media_id)),
        is_op: row.is_op == Some(true),
        created_at: match row.created_at {
            Some(t) => t,
            None => now,
        },
        metadata: json_or_null(opt_text(row.metadata)),
    }
}

/// Reads the identifier in a blob.
pub fn read_id(bytes: &[u8]) -> (id: u128)
    ensures
        id == id_or_nil(Some(bytes@)),
{
    match uuid_from_slice(bytes) {
        Some(id) => id,
        None => 0,
    }
}

/// Reads the identifier in a column that may be null.
pub fn read_opt_id(column: &Option<Vec<u8>>) -> (id: u128)
    ensures
        id == id_or_nil(opt_blob(*column)),
{
    match column {
        Some(bytes) => read_id(bytes.as_slice()),
        None => 0,
    }
}

/// Reads the JSON text in a column that may be null.
pub fn read_json(column: Option<String>) -> (text: String)
    ensures
        text@ == json_or_null(opt_text(column)),
{
    match column {
        Some(text) => {
            if json_parses(text.as_str()) {
                text
            } else {
                String::from_str("null")
            }
        },
        None => String::from_str("null"),
    }
}

/// Reads the media identifier in a column that may be null.
pub fn read_media_id(column: &Option<Vec<u8>>) -> (id: Option<String>)
    ensures
        opt_text(id) == media_or_none(opt_blob(*column)),
{
    match column {
        Some(bytes) => {
            let text = lossy_text(bytes.as_slice());
            if text.as_str().is_empty() {
                None
            } else {
                Some(text)
            }
        },
        None => None,
    }
}

/// Turns a row of `boards` into a board; `now` stands in for a missing
/// creation time.
pub fn board_from_row(row: BoardRow, now: i64) -> (board: Board)
    ensures
        board@ == board_of(row, now),
{
    Board {
        id: read_opt_id(&row.id),
        slug: row.slug,
        title: row.title,
        description: row.description,
        settings: read_json(row.settings),
        created_at: match row.created_at {
            Some(t) => t,
            None => now,
        },
    }
}

/// Turns a row of `threads` into a thread.
pub fn thread_from_row(row: ThreadRow) -> (thread: Thread)
    ensures
        thread@ == thread_of(row),
{
    Thread {
        id: read_opt_id(&row.id),
        board_id: read_id(row.board_id.as_slice()),
        last_bump: row.last_bump,
        is_sticky: match row.is_sticky {
            Some(flag) => flag,
            None => false,
        },
        is_locked: match row.is_locked {
            Some(flag) => flag,
            None => false,
        },
        metadata: read_json(row.metadata),
    }
}

/// Turns a row of `posts` into a post; `now` stands in for a missing
/// creation time.
pub fn post_from_row(row: PostRow, now: i64) -> (post: Post)
    ensures
        post@ == post_of(row, now),
{
    Post {
        id: read_opt_id(&row.id),
        thread_id: read_id(row.thread_id.as_slice()),
        user_id_in_thread: match row.user_id_in_thread {
            Some(name) => name,
            None => String::from_str("Anonymous"),
        },
        content: row.content,
        media_id: read_media_id(&row.media_id),
        is_op: match row.is_op {
            Some(flag) => flag,
            None => false,
        },
        created_at: match row.created_at {
            Some(t) => t,
            None => now,
        },
        metadata: read_json(row.metadata),
    }
}

} // verus!
