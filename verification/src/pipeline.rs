//! The post ingestion pipeline as a state machine.
//!
//! A submission moves through the stages
//! `Received → ContentRead → BanChecked → MediaPersisted → BoardResolved →
//! Persisted → Redirected`; any step may end it in `Rejected`. The machine
//! decides; its caller does the outside work that an [`Action`] asks for and
//! reports the result as the next event.

use vstd::prelude::*;
use vstd::string::StringExecFns;
use crate::auth::AuthProvider;
use crate::error::{AppError, ErrorKind, ErrorView};
use crate::form::{Submission, SubmissionView};
use crate::ident::{format_uuid, fresh_uuid_v7, now_micros, uuid_text};
use crate::models::{clone_opt_text, opt_text, Board, Post, PostView, Thread, ThreadView};
use crate::sanitize::{sanitize, sanitize_content};
use crate::thumbnail::MediaError;

verus! {

/// How far a submission has come.
#[derive(Debug, Clone, Copy, PartialEq, Eq, Structural)]
pub enum Stage {
    /// The request is known; its form has not been handed in.
    Received,
    /// The form is drained; the ban verdict is awaited.
    ContentRead,
    /// The client is not banned; the media store is saving the upload.
    BanChecked,
    /// The upload is stored, or there was none; the board is being looked up.
    MediaPersisted,
    /// The board is known; the thread is being looked up or the rows are
    /// being stored.
    BoardResolved,
    /// The rows are stored; the redirect is on its way.
    Persisted,
    /// The client was sent to the thread. The end.
    Redirected,
    /// The submission failed. The end.
    Rejected,
}

/// Values drawn from outside for one submission: identifiers and the time.
#[derive(Debug, Clone, Copy)]
pub struct Fresh {
    /// The identifier of the thread, should a new one be started.
    pub thread_id: u128,
    /// The identifier of the post.
    pub post_id: u128,
    /// The time of the submission.
    pub now: i64,
}

/// What the caller is asked to do next.
#[derive(Debug)]
pub enum Action {
    /// Ask the identity provider whether the client is banned.
    CheckBan { client_addr: String },
    /// Hand the upload to the media store.
    SaveMedia { data: Vec<u8>, content_type: String },
    /// Look the board up by its slug.
    FindBoard { slug: String },
    /// Look the thread up by its identifier.
    FindThread { id: u128 },
    /// Store a new thread with its opening post, atomically.
    CreateThread { thread: Thread, post: Post },
    /// Store a reply.
    CreatePost { post: Post },
    /// Answer with a redirect to the thread.
    Redirect { location: String },
    /// Answer with the error.
    Reject { error: AppError },
    /// Nothing is left to do.
    Done,
}

/// The mathematical value of an [`Action`].
pub enum ActionView {
    CheckBan { client_addr: Seq<char> },
    SaveMedia { data: Seq<u8>, content_type: Seq<char> },
    FindBoard { slug: Seq<char> },
    FindThread { id: u128 },
    CreateThread { thread: ThreadView, post: PostView },
    CreatePost { post: PostView },
    Redirect { location: Seq<char> },
    Reject { error: ErrorView },
    Done,
}

impl View for Action {
    type V = ActionView;

    open spec fn view(&self) -> ActionView {
        match self {
            Action::CheckBan { client_addr } => ActionView::CheckBan { client_addr: client_addr@ },
            Action::SaveMedia { data, content_type } => ActionView::SaveMedia {
                data: data@,
                content_type: content_type@,
            },
            Action::FindBoard { slug } => ActionView::FindBoard { slug: slug@ },
            Action::FindThread { id } => ActionView::FindThread { id: *id },
            Action::CreateThread { thread, post } => ActionView::CreateThread {
                thread: thread@,
                post: post@,
            },
            Action::CreatePost { post } => ActionView::CreatePost { post: post@ },
            Action::Redirect { location } => ActionView::Redirect { location: location@ },
            Action::Reject { error } => ActionView::Reject { error: error@ },
            Action::Done => ActionView::Done,
        }
    }
}

/// What happened outside since the last action.
#[derive(Debug)]
pub enum Event {
    /// The form was drained.
    Submitted(Submission),
    /// The identity provider answered the ban query.
    BanVerdict(Result<bool, AppError>),
    /// The media store answered with the media identifier.
    MediaSaved(Result<String, MediaError>),
    /// The repository answered the board lookup.
    BoardFound(Result<Option<Board>, AppError>),
    /// The repository answered the thread lookup.
    ThreadFound(Result<Option<Thread>, AppError>),
    /// The repository answered the insert.
    Stored(Result<(), AppError>),
    /// The redirect was sent.
    Answered,
}

/// The state of one submission.
pub struct IngestionView {
    pub stage: Stage,
    pub client_addr: Seq<char>,
    pub board_slug: Seq<char>,
    pub form: SubmissionView,
    /// The identifier of the stored upload.
    pub media_id: Option<Seq<char>>,
    /// The board, once resolved.
    pub board_id: Option<u128>,
    /// The thread that the post goes to, once selected.
    pub target: Option<u128>,
}

/// Whether nothing can follow a stage.
pub open spec fn is_final(stage: Stage) -> bool {
    stage == Stage::Redirected || stage == Stage::Rejected
}

/// The position of a stage on the way from `Received` to `Redirected`.
pub open spec fn stage_rank(stage: Stage) -> int {
    match stage {
        Stage::Received => 0,
        Stage::ContentRead => 1,
        Stage::BanChecked => 2,
        Stage::MediaPersisted => 3,
        Stage::BoardResolved => 4,
        Stage::Persisted => 5,
        Stage::Redirected => 6,
        Stage::Rejected => 7,
    }
}

/// An error of the given kind with a reason.
pub open spec fn plain_error(kind: ErrorKind, detail: Seq<char>) -> ErrorView {
    ErrorView { kind, entity: Seq::empty(), detail }
}

/// The state and action of a submission that has just failed.
pub open spec fn rejected(v: IngestionView, error: ErrorView) -> (IngestionView, ActionView) {
    (IngestionView { stage: Stage::Rejected, ..v }, ActionView::Reject { error })
}

/// What an event does where the stage does not await it: a finished
/// submission stays finished, a running one fails.
pub open spec fn unexpected(v: IngestionView) -> (IngestionView, ActionView) {
    if is_final(v.stage) {
        (v, ActionView::Done)
    } else {
        rejected(v, plain_error(ErrorKind::Internal, "unexpected event"@))
    }
}

/// The path that a successful submission redirects to.
pub open spec fn redirect_target(slug: Seq<char>, thread: u128) -> Seq<char> {
    "/"@ + slug + "/thread/"@ + uuid_text(thread)
}

/// The post of a submission that goes to thread `target`.
pub open spec fn draft_post<A: AuthProvider>(
    v: IngestionView,
    auth: &A,
    target: u128,
    is_op: bool,
    fresh: Fresh,
) -> PostView {
    PostView {
        id: fresh.post_id,
        thread_id: target,
        user_id_in_thread: auth.spec_thread_id(v.client_addr, uuid_text(target)),
        content: sanitize(v.form.content),
        media_id: v.media_id,
        is_op: is_op,
        created_at: fresh.now,
        metadata: "{}"@,
    }
}

/// The thread that a submission starts on `board`.
pub open spec fn draft_thread(board: u128, fresh: Fresh) -> ThreadView {
    ThreadView {
        id: fresh.thread_id,
        board_id: board,
        last_bump: fresh.now,
        is_sticky: false,
        is_locked: false,
        metadata: "{}"@,
    }
}

/// The state and action of a submission that starts a new thread on `board`.
pub open spec fn start_thread<A: AuthProvider>(
    v: IngestionView,
    auth: &A,
    board: u128,
    fresh: Fresh,
) -> (IngestionView, ActionView) {
    let next = IngestionView {
        stage: Stage::BoardResolved,
        board_id: Some(board),
        target: Some(fresh.thread_id),
        ..v
    };
    (
        next,
        ActionView::CreateThread {
            thread: draft_thread(board, fresh),
            post: draft_post(v, auth, fresh.thread_id, true, fresh),
        },
    )
}

/// The state and action of a submission that replies to `thread` on `board`.
pub open spec fn reply_to<A: AuthProvider>(
    v: IngestionView,
    auth: &A,
    board: u128,
    thread: u128,
    fresh: Fresh,
) -> (IngestionView, ActionView) {
    let next = IngestionView {
        stage: Stage::BoardResolved,
        board_id: Some(board),
        target: Some(thread),
        ..v
    };
    (next, ActionView::CreatePost { post: draft_post(v, auth, thread, false, fresh) })
}

/// The form is handed in: the ban check comes first.
pub open spec fn on_submitted(v: IngestionView, form: SubmissionView) -> (
    IngestionView,
    ActionView,
) {
    if v.stage == Stage::Received {
        (
            IngestionView { stage: Stage::ContentRead, form: form, ..v },
            ActionView::CheckBan { client_addr: v.client_addr },
        )
    } else {
        unexpected(v)
    }
}

/// The ban verdict is in. A banned client is turned away, and so is every
/// client while the ban list cannot be asked, before anything is stored.
/// Only the answer "not banned" lets the submission go on: the upload is
/// saved, or the board looked up where there is no upload.
pub open spec fn on_ban_verdict(v: IngestionView, verdict: Option<bool>) -> (
    IngestionView,
    ActionView,
) {
    if v.stage == Stage::ContentRead {
        match verdict {
            Some(true) => rejected(v, plain_error(ErrorKind::Unauthorized, "You are banned."@)),
            None => rejected(v, plain_error(ErrorKind::Internal, "Failed to check the ban list"@)),
            Some(false) => match v.form.file {
                Some(data) => (
                    IngestionView {
                        stage: Stage::BanChecked,
                        form: SubmissionView { file: None, ..v.form },
                        ..v
                    },
                    ActionView::SaveMedia { data: data, content_type: v.form.content_type },
                ),
                None => (
                    IngestionView { stage: Stage::MediaPersisted, ..v },
                    ActionView::FindBoard { slug: v.board_slug },
                ),
            },
        }
    } else {
        unexpected(v)
    }
}

/// The media store has answered: its failure ends the submission as an
/// internal error; its identifier is kept and the board looked up.
pub open spec fn on_media_saved(v: IngestionView, saved: Option<Seq<char>>) -> (
    IngestionView,
    ActionView,
) {
    if v.stage == Stage::BanChecked {
        match saved {
            Some(id) => (
                IngestionView { stage: Stage::MediaPersisted, media_id: Some(id), ..v },
                ActionView::FindBoard { slug: v.board_slug },
            ),
            None => rejected(v, plain_error(ErrorKind::Internal, "Failed to save media"@)),
        }
    } else {
        unexpected(v)
    }
}

/// The board lookup has answered: without a board the submission ends as
/// not found; with a thread named in the form that thread is looked up;
/// otherwise a new thread is started. A lookup that failed ends the
/// submission with the repository's error.
pub open spec fn on_board_found<A: AuthProvider>(
    v: IngestionView,
    board: Result<Option<u128>, ErrorView>,
    auth: &A,
    fresh: Fresh,
) -> (IngestionView, ActionView) {
    if v.stage == Stage::MediaPersisted {
        match board {
            Err(e) => rejected(v, e),
            Ok(None) => rejected(
                v,
                ErrorView { kind: ErrorKind::NotFound, entity: "board"@, detail: v.board_slug },
            ),
            Ok(Some(b)) => match v.form.thread_id {
                Some(t) => (
                    IngestionView { stage: Stage::BoardResolved, board_id: Some(b), ..v },
                    ActionView::FindThread { id: t },
                ),
                None => start_thread(v, auth, b, fresh),
            },
        }
    } else {
        unexpected(v)
    }
}

/// Whether the thread lookup is awaited.
pub open spec fn awaits_thread(v: IngestionView) -> bool {
    v.stage == Stage::BoardResolved && v.target is None && v.board_id is Some && v.form.thread_id
        is Some
}

/// The thread lookup has answered with the board of the thread it found, if
/// any: a thread on this board is replied to; where there is no such thread
/// a new thread is started. A lookup that failed ends the submission with
/// the repository's error.
pub open spec fn on_thread_found<A: AuthProvider>(
    v: IngestionView,
    thread_board: Result<Option<u128>, ErrorView>,
    auth: &A,
    fresh: Fresh,
) -> (IngestionView, ActionView) {
    if awaits_thread(v) {
        match thread_board {
            Err(e) => rejected(v, e),
            Ok(found) => if found == v.board_id {
                reply_to(v, auth, v.board_id->0, v.form.thread_id->0, fresh)
            } else {
                start_thread(v, auth, v.board_id->0, fresh)
            },
        }
    } else {
        unexpected(v)
    }
}

/// Whether the result of the insert is awaited.
pub open spec fn awaits_store(v: IngestionView) -> bool {
    v.stage == Stage::BoardResolved && v.target is Some
}

/// The insert has answered: its error ends the submission; its success
/// sends the client to the thread.
pub open spec fn on_stored(v: IngestionView, failure: Option<ErrorView>) -> (
    IngestionView,
    ActionView,
) {
    if awaits_store(v) {
        match failure {
            None => (
                IngestionView { stage: Stage::Persisted, ..v },
                ActionView::Redirect { location: redirect_target(v.board_slug, v.target->0) },
            ),
            Some(e) => rejected(v, e),
        }
    } else {
        unexpected(v)
    }
}

/// The redirect is out.
pub open spec fn on_answered(v: IngestionView) -> (IngestionView, ActionView) {
    if v.stage == Stage::Persisted {
        (IngestionView { stage: Stage::Redirected, ..v }, ActionView::Done)
    } else {
        unexpected(v)
    }
}

/// What the identity provider answered: banned or not, or nothing where
/// the query failed.
pub open spec fn verdict_of(verdict: Result<bool, AppError>) -> Option<bool> {
    match verdict {
        Ok(banned) => Some(banned),
        Err(_) => None,
    }
}

/// The board that a lookup found, if any, or the error it failed with.
pub open spec fn found_board(found: Result<Option<Board>, AppError>) -> Result<
    Option<u128>,
    ErrorView,
> {
    match found {
        Ok(Some(b)) => Ok(Some(b.id)),
        Ok(None) => Ok(None),
        Err(e) => Err(e@),
    }
}

/// The board of the thread that a lookup for `wanted` found, if any, or the
/// error it failed with.
pub open spec fn found_thread_board(
    found: Result<Option<Thread>, AppError>,
    wanted: Option<u128>,
) -> Result<Option<u128>, ErrorView> {
    match found {
        Ok(Some(t)) => if Some(t.id) == wanted {
            Ok(Some(t.board_id))
        } else {
            Ok(None)
        },
        Ok(None) => Ok(None),
        Err(e) => Err(e@),
    }
}

/// The identifier that the media store answered with, if any.
pub open spec fn saved_media(saved: Result<String, MediaError>) -> Option<Seq<char>> {
    match saved {
        Ok(id) => Some(id@),
        Err(_) => None,
    }
}

/// The error that an insert answered with, if any.
pub open spec fn store_failure(result: Result<(), AppError>) -> Option<ErrorView> {
    match result {
        Ok(_) => None,
        Err(e) => Some(e@),
    }
}

/// The state and action that follow `event` in state `v`.
pub open spec fn transition<A: AuthProvider>(
    v: IngestionView,
    event: Event,
    auth: &A,
    fresh: Fresh,
) -> (IngestionView, ActionView) {
    match event {
        Event::Submitted(form) => on_submitted(v, form@),
        Event::BanVerdict(verdict) => on_ban_verdict(v, verdict_of(verdict)),
        Event::MediaSaved(saved) => on_media_saved(v, saved_media(saved)),
        Event::BoardFound(found) => on_board_found(v, found_board(found), auth, fresh),
        Event::ThreadFound(found) => on_thread_found(
            v,
            found_thread_board(found, v.form.thread_id),
            auth,
            fresh,
        ),
        Event::Stored(result) => on_stored(v, store_failure(result)),
        Event::Answered => on_answered(v),
    }
}

/// Whether a stage lies behind the ban check: the client was found not to
/// be banned.
pub open spec fn past_ban_check(stage: Stage) -> bool {
    stage == Stage::BanChecked || stage == Stage::MediaPersisted || stage == Stage::BoardResolved
        || stage == Stage::Persisted || stage == Stage::Redirected
}

/// Whether an action touches the media store or the repository, or sends
/// the client on.
pub open spec fn has_effect(action: ActionView) -> bool {
    action is SaveMedia || action is FindBoard || action is FindThread || action is CreateThread
        || action is CreatePost || action is Redirect
}

/// Whether an event is the ban verdict "not banned".
pub open spec fn lets_pass(event: Event) -> bool {
    match event {
        Event::BanVerdict(verdict) => verdict == Ok::<bool, AppError>(false),
        _ => false,
    }
}

/// The ban check comes first. A submission never moves back; nothing is
/// asked of the media store or the repository before the submission is
/// past the ban check; and the only way past it is the verdict "not
/// banned".
pub proof fn lemma_ban_check_comes_first<A: AuthProvider>(
    v: IngestionView,
    event: Event,
    auth: &A,
    fresh: Fresh,
)
    ensures
        stage_rank(transition(v, event, auth, fresh).0.stage) >= stage_rank(v.stage),
        has_effect(transition(v, event, auth, fresh).1) ==> past_ban_check(
            transition(v, event, auth, fresh).0.stage,
        ),
        past_ban_check(transition(v, event, auth, fresh).0.stage) ==> past_ban_check(v.stage)
            || (v.stage == Stage::ContentRead && lets_pass(event)),
        is_final(v.stage) ==> transition(v, event, auth, fresh) == (v, ActionView::Done),
{
}

/// One submission on its way through the pipeline.
pub struct Ingestion {
    stage: Stage,
    client_addr: String,
    board_slug: String,
    form: Submission,
    media_id: Option<String>,
    board_id: Option<u128>,
    target: Option<u128>,
}

impl View for Ingestion {
    type V = IngestionView;

    closed spec fn view(&self) -> IngestionView {
        IngestionView {
            stage: self.stage,
            client_addr: self.client_addr@,
            board_slug: self.board_slug@,
            form: self.form@,
            media_id: opt_text(self.media_id),
            board_id: self.board_id,
            target: self.target,
        }
    }
}

impl Ingestion {
    /// A submission of which only the request is known: who sends it, and to
    /// which board.
    pub fn new(client_addr: &str, board_slug: &str) -> (ingestion: Self)
        ensures
            ingestion@ == (IngestionView {
                stage: Stage::Received,
                client_addr: client_addr@,
                board_slug: board_slug@,
                form: crate::form::empty_form(),
                media_id: None,
                board_id: None,
                target: None,
            }),
    {
        Ingestion {
            stage: Stage::Received,
            client_addr: String::from_str(client_addr),
            board_slug: String::from_str(board_slug),
            form: Submission {
                content: String::new(),
                thread_id: None,
                file: None,
                content_type: String::new(),
            },
            media_id: None,
            board_id: None,
            target: None,
        }
    }

    /// The stage that the submission is in.
    pub fn stage(&self) -> (stage: Stage)
        ensures
            stage == self@.stage,
    {
        self.stage
    }

    /// Ends the submission with `error`.
    fn reject(&mut self, error: AppError) -> (action: Action)
        ensures
            (final(self)@, action@) == rejected(old(self)@, error@),
    {
        self.stage = Stage::Rejected;
        Action::Reject { error }
    }

    /// Answers an event that the stage does not await.
    fn stray(&mut self) -> (action: Action)
        ensures
            (final(self)@, action@) == unexpected(old(self)@),
    {
        if self.stage == Stage::Redirected || self.stage == Stage::Rejected {
            Action::Done
        } else {
            self.reject(AppError::Internal(String::from_str("unexpected event")))
        }
    }

    /// Builds the post for thread `target`.
    fn build_post<A: AuthProvider>(&self, auth: &A, target: u128, is_op: bool, fresh: Fresh) -> (post:
        Post)
        ensures
            post@ == draft_post(self@, auth, target, is_op, fresh),
    {
        let thread_text = format_uuid(target);
        Post {
            id: fresh.post_id,
            thread_id: target,
            user_id_in_thread: auth.generate_thread_id(
                self.client_addr.as_str(),
                thread_text.as_str(),
            ),
            content: sanitize_content(self.form.content.as_str()),
            media_id: clone_opt_text(&self.media_id),
            is_op,
            created_at: fresh.now,
            metadata: String::from_str("{}"),
        }
    }

    /// Starts a new thread on `board`.
    fn begin_thread<A: AuthProvider>(&mut self, auth: &A, board: u128, fresh: Fresh) -> (action:
        Action)
        ensures
            (final(self)@, action@) == start_thread(old(self)@, auth, board, fresh),
    {
        let post = self.build_post(auth, fresh.thread_id, true, fresh);
        let thread = Thread {
            id: fresh.thread_id,
            board_id: board,
            last_bump: fresh.now,
            is_sticky: false,
            is_locked: false,
            metadata: String::from_str("{}"),
        };
        self.stage = Stage::BoardResolved;
        self.board_id = Some(board);
        self.target = Some(fresh.thread_id);
        Action::CreateThread { thread, post }
    }

    /// Takes the drained form.
    pub fn submit(&mut self, form: Submission) -> (action: Action)
        ensures
            (final(self)@, action@) == on_submitted(old(self)@, form@),
    {
        if self.stage != Stage::Received {
            return self.stray();
        }
        self.form = form;
        self.stage = Stage::ContentRead;
        Action::CheckBan { client_addr: self.client_addr.clone() }
    }

    /// Takes the ban verdict. Only the answer "not banned" lets the client
    /// pass; a query that failed ends the submission as an internal error.
    pub fn ban_verdict(&mut self, verdict: Result<bool, AppError>) -> (action: Action)
        ensures
            (final(self)@, action@) == on_ban_verdict(old(self)@, verdict_of(verdict)),
    {
        if self.stage != Stage::ContentRead {
            return self.stray();
        }
        match verdict {
            Ok(false) => {},
            Ok(true) => {
                return self.reject(AppError::Unauthorized(String::from_str("You are banned.")));
            },
            Err(_) => {
                return self.reject(
                    AppError::Internal(String::from_str("Failed to check the ban list")),
                );
            },
        }
        match self.form.file.take() {
            Some(data) => {
                self.stage = Stage::BanChecked;
                Action::SaveMedia { data, content_type: self.form.content_type.clone() }
            },
            None => {
                self.stage = Stage::MediaPersisted;
                Action::FindBoard { slug: self.board_slug.clone() }
            },
        }
    }

    /// Takes the media store's answer.
    pub fn media_saved(&mut self, saved: Result<String, MediaError>) -> (action: Action)
        ensures
            (final(self)@, action@) == on_media_saved(old(self)@, saved_media(saved)),
    {
        if self.stage != Stage::BanChecked {
            return self.stray();
        }
        match saved {
            Ok(id) => {
                self.media_id = Some(id);
                self.stage = Stage::MediaPersisted;
                Action::FindBoard { slug: self.board_slug.clone() }
            },
            Err(_) => self.reject(AppError::Internal(String::from_str("Failed to save media"))),
        }
    }

    /// Takes the answer of the board lookup. A board that is not there is
    /// "not found"; a lookup that failed is the repository's error.
    pub fn board_found<A: AuthProvider>(
        &mut self,
        found: Result<Option<Board>, AppError>,
        auth: &A,
        fresh: Fresh,
    ) -> (action: Action)
        ensures
            (final(self)@, action@) == on_board_found(old(self)@, found_board(found), auth, fresh),
    {
        if self.stage != Stage::MediaPersisted {
            return self.stray();
        }
        let board = match found {
            Ok(Some(b)) => Some(b.id),
            Ok(None) => None,
            Err(e) => {
                return self.reject(e);
            },
        };
        match board {
            None => {
                let slug = self.board_slug.clone();
                self.reject(AppError::NotFound(String::from_str("board"), slug))
            },
            Some(b) => match self.form.thread_id {
                Some(t) => {
                    self.stage = Stage::BoardResolved;
                    self.board_id = Some(b);
                    Action::FindThread { id: t }
                },
                None => self.begin_thread(auth, b, fresh),
            },
        }
    }

    /// Takes the answer of the thread lookup. Only a thread that exists on
    /// the resolved board is replied to; a lookup that failed is the
    /// repository's error.
    pub fn thread_found<A: AuthProvider>(
        &mut self,
        found: Result<Option<Thread>, AppError>,
        auth: &A,
        fresh: Fresh,
    ) -> (action: Action)
        ensures
            (final(self)@, action@) == on_thread_found(
                old(self)@,
                found_thread_board(found, old(self)@.form.thread_id),
                auth,
                fresh,
            ),
    {
        let (board, wanted) = match (self.stage, self.target, self.board_id, self.form.thread_id) {
            (Stage::BoardResolved, None, Some(b), Some(t)) => (b, t),
            _ => {
                return self.stray();
            },
        };
        let on_board = match found {
            Ok(Some(t)) => t.id == wanted && t.board_id == board,
            Ok(None) => false,
            Err(e) => {
                return self.reject(e);
            },
        };
        if on_board {
            let post = self.build_post(auth, wanted, false, fresh);
            self.target = Some(wanted);
            Action::CreatePost { post }
        } else {
            self.begin_thread(auth, board, fresh)
        }
    }

    /// Takes the answer of the insert.
    pub fn stored(&mut self, result: Result<(), AppError>) -> (action: Action)
        ensures
            (final(self)@, action@) == on_stored(old(self)@, store_failure(result)),
    {
        let target = match (self.stage, self.target) {
            (Stage::BoardResolved, Some(t)) => t,
            _ => {
                return self.stray();
            },
        };
        match result {
            Ok(_) => {
                self.stage = Stage::Persisted;
                let location = String::from_str("/").concat(self.board_slug.as_str()).concat(
                    "/thread/",
                ).concat(format_uuid(target).as_str());
                Action::Redirect { location }
            },
            Err(e) => self.reject(e),
        }
    }

    /// Notes that the redirect was sent.
    pub fn answered(&mut self) -> (action: Action)
        ensures
            (final(self)@, action@) == on_answered(old(self)@),
    {
        if self.stage != Stage::Persisted {
            return self.stray();
        }
        self.stage = Stage::Redirected;
        Action::Done
    }

    /// Takes one event, with the outside values given.
    pub fn step_with<A: AuthProvider>(&mut self, event: Event, auth: &A, fresh: Fresh) -> (action:
        Action)
        ensures
            (final(self)@, action@) == transition(old(self)@, event, auth, fresh),
    {
        match event {
            Event::Submitted(form) => self.submit(form),
            Event::BanVerdict(verdict) => self.ban_verdict(verdict),
            Event::MediaSaved(saved) => self.media_saved(saved),
            Event::BoardFound(found) => self.board_found(found, auth, fresh),
            Event::ThreadFound(found) => self.thread_found(found, auth, fresh),
            Event::Stored(result) => self.stored(result),
            Event::Answered => self.answered(),
        }
    }

    /// Takes one event. Identifiers and the time are drawn fresh, so the
    /// outcome is that of [`Ingestion::step_with`] for some such values.
    pub fn step<A: AuthProvider>(&mut self, event: Event, auth: &A) -> (action: Action)
        ensures
            exists|fresh: Fresh|
                (final(self)@, action@) == #[trigger] transition(old(self)@, event, auth, fresh),
    {
        let fresh = Fresh {
            thread_id: fresh_uuid_v7(),
            post_id: fresh_uuid_v7(),
            now: now_micros(),
        };
        let ghost before = self@;
        let action = self.step_with(event, auth, fresh);
        assert((self@, action@) == transition(before, event, auth, fresh));
        action
    }
}

} // verus!
