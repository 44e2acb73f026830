//! The read pages: what each page shows, and when there is no page to show.
//!
//! A page is made from what the repository answered. A board that is not
//! found, for whatever reason, means "not found"; so does a thread that is
//! not found.

use vstd::prelude::*;
use vstd::string::StringExecFns;
use crate::error::{AppError, ErrorKind, ErrorView};
use crate::ident::{format_uuid, uuid_text};
use crate::models::{Board, BoardView, Post, PostView, Thread, ThreadView};
use crate::repo::{pair_views, post_views};

verus! {

/// The index of a board: its threads, each with its opening post.
#[derive(Debug)]
pub struct IndexPage {
    pub title: String,
    pub board: Board,
    pub threads: Vec<(Thread, Post)>,
}

/// The catalog of a board.
#[derive(Debug)]
pub struct CatalogPage {
    pub title: String,
    pub board: Board,
    pub threads: Vec<(Thread, Post)>,
}

/// A thread with its posts.
#[derive(Debug)]
pub struct ThreadPage {
    pub title: String,
    pub board: Board,
    pub thread: Thread,
    pub posts: Vec<Post>,
}

/// The title of a board's index page: `/ <slug> / - <title>`.
pub open spec fn index_title_of(slug: Seq<char>, title: Seq<char>) -> Seq<char> {
    "/ "@ + slug + " / - "@ + title
}

/// The title of a board's catalog page: `/<slug>/ - Catalog`.
pub open spec fn catalog_title_of(slug: Seq<char>) -> Seq<char> {
    "/"@ + slug + "/ - Catalog"@
}

/// The title of a thread's page: `Thread #<id> - / <slug> /`.
pub open spec fn thread_title_of(thread: u128, slug: Seq<char>) -> Seq<char> {
    "Thread #"@ + uuid_text(thread) + " - / "@ + slug + " /"@
}

/// The error for something that is not there.
pub open spec fn not_found(entity: Seq<char>, key: Seq<char>) -> ErrorView {
    ErrorView { kind: ErrorKind::NotFound, entity: entity, detail: key }
}

/// The board that a lookup came back with, if it came back with one.
pub open spec fn board_in(found: Result<Option<Board>, AppError>) -> Option<BoardView> {
    match found {
        Ok(Some(board)) => Some(board@),
        _ => None,
    }
}

/// The thread and posts that a lookup came back with, if it came back with
/// any.
pub open spec fn thread_in(found: Result<Option<(Thread, Vec<Post>)>, AppError>) -> Option<
    (ThreadView, Seq<PostView>),
> {
    match found {
        Ok(Some((thread, posts))) => Some((thread@, post_views(posts@))),
        _ => None,
    }
}

/// The rows that a listing came back with; none where it failed.
pub open spec fn rows_in(listed: Result<Vec<(Thread, Post)>, AppError>) -> Seq<
    (ThreadView, PostView),
> {
    match listed {
        Ok(rows) => pair_views(rows@),
        Err(_) => Seq::empty(),
    }
}

/// The title of the index page of `board`.
pub fn index_title(board: &Board) -> (title: String)
    ensures
        title@ == index_title_of(board.slug@, board.title@),
{
    String::from_str("/ ").concat(board.slug.as_str()).concat(" / - ").concat(
        board.title.as_str(),
    )
}

/// The title of the catalog page of the board with the given slug.
pub fn catalog_title(slug: &str) -> (title: String)
    ensures
        title@ == catalog_title_of(slug@),
{
    String::from_str("/").concat(slug).concat("/ - Catalog")
}

/// The title of the page of `thread` on `board`.
pub fn thread_title(thread: &Thread, board: &Board) -> (title: String)
    ensures
        title@ == thread_title_of(thread.id, board.slug@),
{
    String::from_str("Thread #").concat(format_uuid(thread.id).as_str()).concat(" - / ").concat(
        board.slug.as_str(),
    ).concat(" /")
}

/// The board of a page: the one that the lookup found, or "not found"
/// where it found none or failed.
pub fn resolve_board(found: Result<Option<Board>, AppError>, slug: &str) -> (r: Result<
    Board,
    AppError,
>)
    ensures
        match board_in(found) {
            Some(board) => r matches Ok(b) && b@ == board,
            None => r matches Err(e) && e@ == not_found("board"@, slug@),
        },
{
    match found {
        Ok(Some(board)) => Ok(board),
        _ => Err(AppError::NotFound(String::from_str("board"), String::from_str(slug))),
    }
}

/// The index page of `board`. A listing that failed shows as an empty
/// board.
pub fn index_page(board: Board, listed: Result<Vec<(Thread, Post)>, AppError>) -> (page: IndexPage)
    ensures
        page.board@ == board@,
        page.title@ == index_title_of(board.slug@, board.title@),
        pair_views(page.threads@) == rows_in(listed),
{
    let title = index_title(&board);
    let threads = match listed {
        Ok(rows) => rows,
        Err(_) => {
            let none: Vec<(Thread, Post)> = Vec::new();
            assert(pair_views(none@) =~= Seq::empty());
            none
        },
    };
    IndexPage { title, board, threads }
}

/// The catalog page of `board`. A listing that failed is the page's
/// failure.
pub fn catalog_page(board: Board, listed: Result<Vec<(Thread, Post)>, AppError>) -> (r: Result<
    CatalogPage,
    AppError,
>)
    ensures
        match listed {
            Ok(rows) => r matches Ok(page) && page.board@ == board@ && page.title@
                == catalog_title_of(board.slug@) && pair_views(page.threads@) == pair_views(rows@),
            Err(e) => r matches Err(f) && f@ == e@,
        },
{
    match listed {
        Ok(threads) => {
            let title = catalog_title(board.slug.as_str());
            Ok(CatalogPage { title, board, threads })
        },
        Err(e) => Err(e),
    }
}

/// The page of a thread on `board`: the thread that the lookup found, or
/// "not found" where it found none or failed.
pub fn thread_page(
    board: Board,
    found: Result<Option<(Thread, Vec<Post>)>, AppError>,
    thread_id: u128,
) -> (r: Result<ThreadPage, AppError>)
    ensures
        match thread_in(found) {
            Some((thread, posts)) => r matches Ok(page) && page.board@ == board@ && page.thread@
                == thread && post_views(page.posts@) == posts && page.title@ == thread_title_of(
                thread.id,
                board.slug@,
            ),
            None => r matches Err(e) && e@ == not_found("thread"@, uuid_text(thread_id)),
        },
{
    match found {
        Ok(Some((thread, posts))) => {
            let title = thread_title(&thread, &board);
            Ok(ThreadPage { title, board, thread, posts })
        },
        _ => Err(AppError::NotFound(String::from_str("thread"), format_uuid(thread_id))),
    }
}

/// The text of the welcome page.
pub fn welcome() -> (text: String)
    ensures
        text@ == "Welcome to Rusty-Board! Try going to /b/"@,
{
    String::from_str("Welcome to Rusty-Board! Try going to /b/")
}

} // verus!
