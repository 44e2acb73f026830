//! The board as one service: the three backends bound together, and the
//! operations that the outside reaches it through.

use vstd::prelude::*;
use crate::auth::AuthProvider;
use crate::error::AppError;
use crate::form::Submission;
use crate::ingest::{accepted_afresh, banned_error, ingest, media_after, refused_afresh};
use crate::media::MediaStore;
use crate::pages::{
    catalog_page, index_page, index_title_of, not_found, resolve_board, thread_page, welcome,
    CatalogPage, IndexPage, ThreadPage,
};
use crate::repo::{pair_views, BoardRepo};

verus! {

/// The backends that the service works with.
pub struct AppState<R: BoardRepo, M: MediaStore, A: AuthProvider> {
    pub repo: R,
    pub store: M,
    pub auth: A,
}

/// Takes a submission from `client_addr` to the board `board_slug` and
/// answers with the path of the thread that it went to.
///
/// A submission that fails leaves the repository as it was and answers
/// with the reason; a client that is turned away as banned has changed
/// nothing at all; a submission that succeeds has stored its one post, and
/// its upload if it had one.
pub fn create_post<R: BoardRepo, M: MediaStore, A: AuthProvider>(
    state: &mut AppState<R, M, A>,
    client_addr: &str,
    board_slug: &str,
    form: Submission,
) -> (r: Result<String, AppError>)
    requires
        old(state).repo.state().wf(),
    ensures
        final(state).repo.state().wf(),
        r is Err ==> final(state).repo.state() == old(state).repo.state(),
        r matches Err(e) ==> refused_afresh(
            old(state).repo.state(),
            e@,
            client_addr@,
            board_slug@,
            form@,
            &old(state).auth,
        ),
        r matches Err(e) ==> (e@ == banned_error() ==> final(state).store.blobs() == old(
            state,
        ).store.blobs()),
        r is Err ==> final(state).store.blobs() == old(state).store.blobs()
            || final(state).store.blobs() == media_after(old(state).store.blobs(), form@),
        r is Ok ==> final(state).store.blobs() == media_after(old(state).store.blobs(), form@),
        r matches Ok(location) ==> accepted_afresh(
            old(state).repo.state(),
            final(state).repo.state(),
            location@,
            client_addr@,
            board_slug@,
            form@,
            &old(state).auth,
        ),
        final(state).auth == old(state).auth,
{
    ingest(&mut state.repo, &mut state.store, &state.auth, client_addr, board_slug, form)
}

/// The index of a board: 404 where the board is unknown.
pub fn board_index<R: BoardRepo, M: MediaStore, A: AuthProvider>(
    state: &AppState<R, M, A>,
    board_slug: &str,
) -> (r: Result<IndexPage, AppError>)
    requires
        state.repo.state().wf(),
    ensures
        state.repo.state().board_by_slug(board_slug@) is None ==> r is Err,
        r matches Err(e) ==> e@ == not_found("board"@, board_slug@),
        r matches Ok(page) ==> {
            &&& state.repo.state().board_by_slug(board_slug@) == Some(page.board@)
            &&& page.title@ == index_title_of(page.board.slug@, page.board.title@)
            &&& (pair_views(page.threads@) == state.repo.state().threads_with_op(page.board.id)
                || page.threads@.len() == 0)
        },
{
    let found = state.repo.get_board(board_slug);
    let board = match resolve_board(found, board_slug) {
        Ok(board) => board,
        Err(e) => {
            return Err(e);
        },
    };
    let listed = state.repo.get_threads_by_board(board.id);
    let page = index_page(board, listed);
    assert(pair_views(page.threads@).len() == page.threads@.len());
    Ok(page)
}

/// The catalog of a board: 404 where the board is unknown.
pub fn get_catalog<R: BoardRepo, M: MediaStore, A: AuthProvider>(
    state: &AppState<R, M, A>,
    board_slug: &str,
) -> (r: Result<CatalogPage, AppError>)
    requires
        state.repo.state().wf(),
    ensures
        state.repo.state().board_by_slug(board_slug@) is None ==> (r matches Err(e) && e@
            == not_found("board"@, board_slug@)),
        r matches Ok(page) ==> {
            &&& state.repo.state().board_by_slug(board_slug@) == Some(page.board@)
            &&& pair_views(page.threads@) == state.repo.state().threads_with_op(page.board.id)
        },
{
    let found = state.repo.get_board(board_slug);
    let board = match resolve_board(found, board_slug) {
        Ok(board) => board,
        Err(e) => {
            return Err(e);
        },
    };
    let listed = state.repo.get_threads_by_board(board.id);
    catalog_page(board, listed)
}

/// A thread with its posts in reading order: 404 where the board or the
/// thread is unknown.
pub fn view_thread<R: BoardRepo, M: MediaStore, A: AuthProvider>(
    state: &AppState<R, M, A>,
    board_slug: &str,
    thread_id: u128,
) -> (r: Result<ThreadPage, AppError>)
    requires
        state.repo.state().wf(),
    ensures
        state.repo.state().board_by_slug(board_slug@) is None || state.repo.state().thread_by_id(
            thread_id,
        ) is None ==> r is Err,
        r matches Err(e) ==> e@.kind == crate::error::ErrorKind::NotFound,
        r matches Ok(page) ==> {
            &&& state.repo.state().board_by_slug(board_slug@) == Some(page.board@)
            &&& state.repo.state().thread_by_id(thread_id) == Some(page.thread@)
            &&& crate::repo::post_views(page.posts@) == state.repo.state().posts_of(thread_id)
        },
{
    let found = state.repo.get_board(board_slug);
    let board = match resolve_board(found, board_slug) {
        Ok(board) => board,
        Err(e) => {
            return Err(e);
        },
    };
    let thread = state.repo.get_thread(thread_id);
    thread_page(board, thread, thread_id)
}

/// The welcome page.
pub fn index<R: BoardRepo, M: MediaStore, A: AuthProvider>(state: &AppState<R, M, A>) -> (text:
    String)
    ensures
        text@ == "Welcome to Rusty-Board! Try going to /b/"@,
{
    welcome()
}

} // verus!
