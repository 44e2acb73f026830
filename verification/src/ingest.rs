//! The pipeline run against synchronous backends.
//!
//! The state machine of [`crate::pipeline`] decides every step; this module
//! does the outside work through the identity, media and repository interfaces
//! and states what a whole submission amounts to.

use vstd::prelude::*;
use crate::auth::AuthProvider;
use crate::error::{AppError, ErrorKind, ErrorView};
use crate::form::{Submission, SubmissionView};
use crate::ident::{fresh_uuid_v7, now_micros};
use crate::media::{media_id_of, save_result, MediaStore};
use crate::pages::not_found;
use crate::pipeline::{
    draft_post, draft_thread, plain_error, redirect_target, Action, Fresh, Ingestion,
    IngestionView, Stage,
};
use crate::repo::{BoardRepo, RepoView};

verus! {

/// The error that turns a banned client away.
pub open spec fn banned_error() -> ErrorView {
    plain_error(ErrorKind::Unauthorized, "You are banned."@)
}

/// The identifier under which the upload of a form is stored, if it has
/// one.
pub open spec fn upload_id(form: SubmissionView) -> Option<Seq<char>> {
    match form.file {
        Some(data) => Some(media_id_of(data)),
        None => None,
    }
}

/// The state of a submission when its post is composed.
pub open spec fn composing(
    client_addr: Seq<char>,
    board_slug: Seq<char>,
    form: SubmissionView,
) -> IngestionView {
    IngestionView {
        stage: Stage::MediaPersisted,
        client_addr: client_addr,
        board_slug: board_slug,
        form: SubmissionView { file: None, ..form },
        media_id: upload_id(form),
        board_id: None,
        target: None,
    }
}

/// Whether the form names a thread that stands on the board of the
/// submission.
pub open spec fn names_thread_on_board(
    before: RepoView,
    board_slug: Seq<char>,
    form: SubmissionView,
) -> bool {
    &&& form.thread_id is Some
    &&& before.board_by_slug(board_slug) is Some
    &&& before.thread_by_id(form.thread_id->0) is Some
    &&& before.thread_by_id(form.thread_id->0)->0.board_id == before.board_by_slug(
        board_slug,
    )->0.id
}

/// Whether the identity provider lets the client pass: at some time it
/// holds the client not banned.
pub open spec fn lets_in<A: AuthProvider>(auth: &A, client_addr: Seq<char>) -> bool {
    exists|now: i64| !#[trigger] auth.spec_banned(client_addr, now)
}

/// Whether the identity provider turns the client away: at some time it
/// holds the client banned.
pub open spec fn turns_away<A: AuthProvider>(auth: &A, client_addr: Seq<char>) -> bool {
    exists|now: i64| #[trigger] auth.spec_banned(client_addr, now)
}

/// What a successful submission has done: the board exists; the post,
/// composed from the sanitised text, the client's pseudonym in the thread
/// and the upload's identifier, is stored as a reply where `reply` holds,
/// else as the opening post of a new thread; and the client is sent to that
/// thread.
pub open spec fn ingested<A: AuthProvider>(
    before: RepoView,
    after: RepoView,
    location: Seq<char>,
    client_addr: Seq<char>,
    board_slug: Seq<char>,
    form: SubmissionView,
    auth: &A,
    fresh: Fresh,
    reply: bool,
) -> bool {
    let v = composing(client_addr, board_slug, form);
    &&& before.board_by_slug(board_slug) is Some
    &&& if reply {
        &&& after == before.with_reply(draft_post(v, auth, form.thread_id->0, false, fresh))
        &&& location == redirect_target(board_slug, form.thread_id->0)
    } else {
        &&& after == before.with_thread(
            draft_thread(before.board_by_slug(board_slug)->0.id, fresh),
            draft_post(v, auth, fresh.thread_id, true, fresh),
        )
        &&& location == redirect_target(board_slug, fresh.thread_id)
    }
}

/// What a successful submission has done: the provider let the client
/// pass, and the post went to the thread that the form names, where that
/// thread stands on the board, and to a new thread otherwise.
pub open spec fn accepted<A: AuthProvider>(
    before: RepoView,
    after: RepoView,
    location: Seq<char>,
    client_addr: Seq<char>,
    board_slug: Seq<char>,
    form: SubmissionView,
    auth: &A,
    fresh: Fresh,
) -> bool {
    &&& lets_in(auth, client_addr)
    &&& ingested(
        before,
        after,
        location,
        client_addr,
        board_slug,
        form,
        auth,
        fresh,
        names_thread_on_board(before, board_slug, form),
    )
}

/// What a successful submission has done, for some identifiers and time
/// drawn at the moment.
pub open spec fn accepted_afresh<A: AuthProvider>(
    before: RepoView,
    after: RepoView,
    location: Seq<char>,
    client_addr: Seq<char>,
    board_slug: Seq<char>,
    form: SubmissionView,
    auth: &A,
) -> bool {
    exists|fresh: Fresh| #[trigger]
        accepted(before, after, location, client_addr, board_slug, form, auth, fresh)
}

/// Why a submission was refused, step by step: the provider holds the
/// client banned; or a backend failed (the ban query, the save of the
/// upload, a lookup, or a write that had no fault); or the board is not in
/// the repository; or the repository found a fault in the new thread, or in
/// the reply, that was composed.
pub open spec fn refused<A: AuthProvider>(
    before: RepoView,
    error: ErrorView,
    client_addr: Seq<char>,
    board_slug: Seq<char>,
    form: SubmissionView,
    auth: &A,
    fresh: Fresh,
) -> bool {
    let v = composing(client_addr, board_slug, form);
    ||| error == banned_error() && turns_away(auth, client_addr)
    ||| error.kind == ErrorKind::Internal
    ||| error == not_found("board"@, board_slug) && before.board_by_slug(board_slug) is None
    ||| {
        &&& lets_in(auth, client_addr)
        &&& before.board_by_slug(board_slug) is Some
        &&& !names_thread_on_board(before, board_slug, form)
        &&& before.thread_fault(
            draft_thread(before.board_by_slug(board_slug)->0.id, fresh),
            draft_post(v, auth, fresh.thread_id, true, fresh),
        ) == Some(error.kind)
    }
    ||| {
        &&& lets_in(auth, client_addr)
        &&& names_thread_on_board(before, board_slug, form)
        &&& before.reply_fault(draft_post(v, auth, form.thread_id->0, false, fresh)) == Some(
            error.kind,
        )
    }
}

/// Why a submission was refused, for some identifiers and time drawn at
/// the moment.
pub open spec fn refused_afresh<A: AuthProvider>(
    before: RepoView,
    error: ErrorView,
    client_addr: Seq<char>,
    board_slug: Seq<char>,
    form: SubmissionView,
    auth: &A,
) -> bool {
    exists|fresh: Fresh| #[trigger]
        refused(before, error, client_addr, board_slug, form, auth, fresh)
}

/// The blobs held once the upload of a form is saved.
pub open spec fn media_after(held: Map<Seq<char>, Seq<u8>>, form: SubmissionView) -> Map<
    Seq<char>,
    Seq<u8>,
> {
    match form.file {
        Some(data) => save_result(held, data, true),
        None => held,
    }
}

/// Runs one submission with the outside values given.
///
/// * The ban check comes first: a client that is turned away as banned has
///   caused no change to the media store or the repository.
/// * The upload, if there is one, is the only thing handed to the media
///   store, and it is handed over before the board is looked up.
/// * A submission that fails leaves the repository as it was and answers
///   with the reason, as [`refused`] says. Nothing is caught and passed
///   over: a ban query, a save or a lookup that fails ends the submission.
/// * A submission that succeeds has stored exactly one post, as
///   [`ingested`] says, and answers with the path of its thread.
pub fn ingest_with<R: BoardRepo, M: MediaStore, A: AuthProvider>(
    repo: &mut R,
    store: &mut M,
    auth: &A,
    client_addr: &str,
    board_slug: &str,
    form: Submission,
    fresh: Fresh,
) -> (r: Result<String, AppError>)
    requires
        old(repo).state().wf(),
    ensures
        final(repo).state().wf(),
        r is Err ==> final(repo).state() == old(repo).state(),
        r matches Err(e) ==> refused(
            old(repo).state(),
            e@,
            client_addr@,
            board_slug@,
            form@,
            auth,
            fresh,
        ),
        r matches Err(e) ==> (e@ == banned_error() ==> final(store).blobs() == old(store).blobs()),
        r is Err ==> final(store).blobs() == old(store).blobs() || final(store).blobs()
            == media_after(old(store).blobs(), form@),
        r is Ok ==> final(store).blobs() == media_after(old(store).blobs(), form@),
        r matches Ok(location) ==> accepted(
            old(repo).state(),
            final(repo).state(),
            location@,
            client_addr@,
            board_slug@,
            form@,
            auth,
            fresh,
        ),
{
    let ghost before = repo.state();
    let ghost form_view = form@;
    let ghost held = store.blobs();
    let mut ingestion = Ingestion::new(client_addr, board_slug);
    let first = ingestion.submit(form);
    let verdict = match first {
        Action::CheckBan { client_addr } => auth.check_ban(client_addr.as_str()),
        _ => {
            assert(false);
            Ok(false)
        },
    };
    let second = ingestion.ban_verdict(verdict);
    let third = match second {
        Action::Reject { error } => {
            return Err(error);
        },
        Action::SaveMedia { data, content_type } => {
            let saved = store.save_upload(data, content_type.as_str());
            ingestion.media_saved(saved)
        },
        other => other,
    };
    let slug = match third {
        Action::Reject { error } => {
            return Err(error);
        },
        Action::FindBoard { slug } => slug,
        _ => {
            assert(false);
            return Err(AppError::Internal(String::new()));
        },
    };
    assert(ingestion@ == (IngestionView { board_slug: board_slug@, ..composing(
        client_addr@,
        board_slug@,
        form_view,
    ) }));
    let found = repo.get_board(slug.as_str());
    let fourth = ingestion.board_found(found, auth, fresh);
    let fifth = match fourth {
        Action::Reject { error } => {
            return Err(error);
        },
        Action::FindThread { id } => {
            let looked_up = match repo.get_thread(id) {
                Ok(Some((thread, _))) => Ok(Some(thread)),
                Ok(None) => Ok(None),
                Err(e) => Err(e),
            };
            ingestion.thread_found(looked_up, auth, fresh)
        },
        other => other,
    };
    let ghost reply = fifth@ is CreatePost;
    let stored = match fifth {
        Action::Reject { error } => {
            return Err(error);
        },
        Action::CreateThread { thread, post } => {
            assert(!names_thread_on_board(before, board_slug@, form_view));
            repo.create_thread(thread, post)
        },
        Action::CreatePost { post } => {
            assert(names_thread_on_board(before, board_slug@, form_view));
            repo.create_post(post)
        },
        _ => {
            assert(false);
            return Err(AppError::Internal(String::new()));
        },
    };
    let ghost after = repo.state();
    let last = ingestion.stored(stored);
    match last {
        Action::Redirect { location } => {
            assert(ingested(
                before,
                after,
                location@,
                client_addr@,
                board_slug@,
                form_view,
                auth,
                fresh,
                reply,
            ));
            Ok(location)
        },
        Action::Reject { error } => Err(error),
        _ => {
            assert(false);
            Err(AppError::Internal(String::new()))
        },
    }
}

/// Runs one submission. Identifiers and the time are drawn fresh; all else
/// is as in [`ingest_with`].
pub fn ingest<R: BoardRepo, M: MediaStore, A: AuthProvider>(
    repo: &mut R,
    store: &mut M,
    auth: &A,
    client_addr: &str,
    board_slug: &str,
    form: Submission,
) -> (r: Result<String, AppError>)
    requires
        old(repo).state().wf(),
    ensures
        final(repo).state().wf(),
        r is Err ==> final(repo).state() == old(repo).state(),
        r matches Err(e) ==> refused_afresh(
            old(repo).state(),
            e@,
            client_addr@,
            board_slug@,
            form@,
            auth,
        ),
        r matches Err(e) ==> (e@ == banned_error() ==> final(store).blobs() == old(store).blobs()),
        r is Err ==> final(store).blobs() == old(store).blobs() || final(store).blobs()
            == media_after(old(store).blobs(), form@),
        r is Ok ==> final(store).blobs() == media_after(old(store).blobs(), form@),
        r matches Ok(location) ==> accepted_afresh(
            old(repo).state(),
            final(repo).state(),
            location@,
            client_addr@,
            board_slug@,
            form@,
            auth,
        ),
{
    let fresh = Fresh { thread_id: fresh_uuid_v7(), post_id: fresh_uuid_v7(), now: now_micros() };
    let ghost before = repo.state();
    let ghost form_view = form@;
    let r = ingest_with(repo, store, auth, client_addr, board_slug, form, fresh);
    proof {
        if r is Ok {
            assert(accepted(
                before,
                repo.state(),
                r->Ok_0@,
                client_addr@,
                board_slug@,
                form_view,
                auth,
                fresh,
            ));
        } else {
            assert(refused(
                before,
                r->Err_0@,
                client_addr@,
                board_slug@,
                form_view,
                auth,
                fresh,
            ));
        }
    }
    r
}

} // verus!
