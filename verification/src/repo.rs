//! The persistence interface and its contract.
//!
//! The state of a repository is its rows: boards in the order they were
//! added, threads in listing order (sticky first, then latest bump first,
//! then by identifier), posts in reading order (earliest first, then by
//! identifier). Every operation is stated over that state; a failed write
//! leaves it untouched.

use vstd::prelude::*;
use vstd::string::StringExecFns;
use crate::error::{AppError, ErrorKind};
use crate::ident::format_uuid;
use crate::models::{Board, BoardView, Post, PostView, Thread, ThreadView};
use crate::order::{
    distinct_tags, has_tag, insert_in_order, key_is_new, key_lt, lemma_insert_contains,
    lemma_insert_distinct, lemma_insert_in_order, lemma_insert_tags, lemma_remove_contains,
    lemma_filter_keeps_order, lemma_pages_concat, lemma_remove_keeps_order, lemma_remove_tags,
    lemma_tag_index, page, slot, sorted_by_key, tag_index, Key,
};

verus! {

/// The rank of a thread in a listing: sticky threads first, then the most
/// recently bumped, then the lower identifier.
pub open spec fn thread_key(t: ThreadView) -> Key {
    (
        if t.is_sticky {
            0int
        } else {
            1int
        },
        -(t.last_bump as int),
        t.id as int,
    )
}

/// The rank of a post in its thread: the earliest first, then the lower
/// identifier.
pub open spec fn post_key(p: PostView) -> Key {
    (0int, p.created_at as int, p.id as int)
}

/// Ranking of threads, as a function value.
pub open spec fn by_thread_key() -> spec_fn(ThreadView) -> Key {
    |t: ThreadView| thread_key(t)
}

/// Ranking of posts, as a function value.
pub open spec fn by_post_key() -> spec_fn(PostView) -> Key {
    |p: PostView| post_key(p)
}

/// The views of a list of boards.
pub open spec fn board_views(s: Seq<Board>) -> Seq<BoardView> {
    s.map_values(|b: Board| b@)
}

/// The views of a list of threads.
pub open spec fn thread_views(s: Seq<Thread>) -> Seq<ThreadView> {
    s.map_values(|t: Thread| t@)
}

/// The views of a list of posts.
pub open spec fn post_views(s: Seq<Post>) -> Seq<PostView> {
    s.map_values(|p: Post| p@)
}

/// The view of an optional board.
pub open spec fn opt_board(b: Option<Board>) -> Option<BoardView> {
    match b {
        Some(b) => Some(b@),
        None => None,
    }
}

/// The view of an optional thread with its posts.
pub open spec fn opt_thread(t: Option<(Thread, Vec<Post>)>) -> Option<(ThreadView, Seq<PostView>)> {
    match t {
        Some((t, posts)) => Some((t@, post_views(posts@))),
        None => None,
    }
}

/// The views of threads paired with their opening posts.
pub open spec fn pair_views(s: Seq<(Thread, Post)>) -> Seq<(ThreadView, PostView)> {
    s.map_values(|row: (Thread, Post)| (row.0@, row.1@))
}

/// The rows of a repository.
#[verifier::ext_equal]
pub struct RepoView {
    /// Boards, in the order they were added.
    pub boards: Seq<BoardView>,
    /// Threads, in listing order.
    pub threads: Seq<ThreadView>,
    /// Posts, in reading order.
    pub posts: Seq<PostView>,
}

/// The identifier of a board, as a tag.
pub open spec fn board_id_tag() -> spec_fn(BoardView) -> Option<u128> {
    |b: BoardView| Some(b.id)
}

/// The slug of a board, as a tag.
pub open spec fn board_slug_tag() -> spec_fn(BoardView) -> Option<Seq<char>> {
    |b: BoardView| Some(b.slug)
}

/// The identifier of a thread, as a tag.
pub open spec fn thread_id_tag() -> spec_fn(ThreadView) -> Option<u128> {
    |t: ThreadView| Some(t.id)
}

/// The identifier of a post, as a tag.
pub open spec fn post_id_tag() -> spec_fn(PostView) -> Option<u128> {
    |p: PostView| Some(p.id)
}

/// The thread that a post opens, as a tag; replies carry none.
pub open spec fn op_tag() -> spec_fn(PostView) -> Option<u128> {
    |p: PostView|
        if p.is_op {
            Some(p.thread_id)
        } else {
            None
        }
}

impl RepoView {
    /// Whether a board with this identifier exists.
    pub open spec fn has_board(self, id: u128) -> bool {
        has_tag(self.boards, board_id_tag(), id)
    }

    /// Whether a board with this slug exists.
    pub open spec fn has_slug(self, slug: Seq<char>) -> bool {
        has_tag(self.boards, board_slug_tag(), slug)
    }

    /// Whether a thread with this identifier exists.
    pub open spec fn has_thread(self, id: u128) -> bool {
        has_tag(self.threads, thread_id_tag(), id)
    }

    /// Whether a post with this identifier exists.
    pub open spec fn has_post(self, id: u128) -> bool {
        has_tag(self.posts, post_id_tag(), id)
    }

    /// Whether the thread with this identifier has an opening post.
    pub open spec fn has_op(self, thread: u128) -> bool {
        has_tag(self.posts, op_tag(), thread)
    }

    /// The position of the thread with this identifier.
    pub open spec fn thread_index(self, id: u128) -> int {
        tag_index(self.threads, thread_id_tag(), id)
    }

    /// The board with this slug, if there is one.
    pub open spec fn board_by_slug(self, slug: Seq<char>) -> Option<BoardView> {
        if self.has_slug(slug) {
            Some(self.boards[tag_index(self.boards, board_slug_tag(), slug)])
        } else {
            None
        }
    }

    /// The thread with this identifier, if there is one.
    pub open spec fn thread_by_id(self, id: u128) -> Option<ThreadView> {
        if self.has_thread(id) {
            Some(self.threads[self.thread_index(id)])
        } else {
            None
        }
    }

    /// The posts of a thread, in reading order.
    pub open spec fn posts_of(self, thread: u128) -> Seq<PostView> {
        self.posts.filter(|p: PostView| p.thread_id == thread)
    }

    /// The threads of a board, in listing order.
    pub open spec fn threads_of(self, board: u128) -> Seq<ThreadView> {
        self.threads.filter(|t: ThreadView| t.board_id == board)
    }

    /// The opening post of a thread.
    pub open spec fn op_of(self, thread: u128) -> PostView {
        self.posts[tag_index(self.posts, op_tag(), thread)]
    }

    /// The threads of a board in listing order, each with its opening post.
    pub open spec fn threads_with_op(self, board: u128) -> Seq<(ThreadView, PostView)> {
        self.threads_of(board).map_values(|t: ThreadView| (t, self.op_of(t.id)))
    }

    /// The opening-post invariant: every thread has an opening post, no
    /// thread has two, and every post belongs to a thread.
    pub open spec fn op_exists(self) -> bool {
        &&& forall|t: ThreadView| #[trigger] self.threads.contains(t) ==> self.has_op(t.id)
        &&& distinct_tags(self.posts, op_tag())
        &&& forall|p: PostView| #[trigger] self.posts.contains(p) ==> self.has_thread(p.thread_id)
    }

    /// Whether the opening post of every thread is read before every other
    /// post of the thread: it is the earliest, and the lower identifier
    /// where two posts carry the same time.
    pub open spec fn op_is_first(self) -> bool {
        forall|p: PostView, q: PostView|
            #[trigger] self.posts.contains(p) && #[trigger] self.posts.contains(q) && p.is_op
                && p.thread_id == q.thread_id && p != q ==> key_lt(post_key(p), post_key(q))
    }

    /// Well-formedness: keys are unique, rows stand in their order, foreign
    /// keys resolve, every thread has exactly one opening post, and that
    /// post is the first of its thread.
    pub open spec fn wf(self) -> bool {
        &&& distinct_tags(self.boards, board_id_tag())
        &&& distinct_tags(self.boards, board_slug_tag())
        &&& distinct_tags(self.threads, thread_id_tag())
        &&& distinct_tags(self.posts, post_id_tag())
        &&& sorted_by_key(self.threads, by_thread_key())
        &&& sorted_by_key(self.posts, by_post_key())
        &&& forall|t: ThreadView| #[trigger] self.threads.contains(t) ==> self.has_board(t.board_id)
        &&& self.op_exists()
        &&& self.op_is_first()
    }

    /// The repository with a new thread and its opening post.
    pub open spec fn with_thread(self, thread: ThreadView, post: PostView) -> RepoView {
        RepoView {
            boards: self.boards,
            threads: insert_in_order(self.threads, by_thread_key(), thread),
            posts: insert_in_order(self.posts, by_post_key(), post),
        }
    }

    /// The thread of a reply after the bump: its time is the reply's.
    pub open spec fn bumped(self, post: PostView) -> ThreadView {
        ThreadView {
            last_bump: post.created_at,
            ..self.threads[self.thread_index(post.thread_id)]
        }
    }

    /// The repository with a reply: the post is added and its thread is
    /// bumped to the post's time.
    pub open spec fn with_reply(self, post: PostView) -> RepoView {
        RepoView {
            boards: self.boards,
            threads: insert_in_order(
                self.threads.remove(self.thread_index(post.thread_id)),
                by_thread_key(),
                self.bumped(post),
            ),
            posts: insert_in_order(self.posts, by_post_key(), post),
        }
    }

    /// Why a thread cannot be created, if it cannot: the opening post does
    /// not fit the thread, the board is missing, or a key is taken.
    pub open spec fn thread_fault(self, thread: ThreadView, post: PostView) -> Option<ErrorKind> {
        thread_fault_from(
            opens(thread, post),
            self.has_board(thread.board_id),
            self.has_thread(thread.id),
            self.has_post(post.id),
        )
    }

    /// Whether a reply would be read after the opening post of its thread.
    pub open spec fn follows_op(self, post: PostView) -> bool {
        key_lt(post_key(self.op_of(post.thread_id)), post_key(post))
    }

    /// Why a reply cannot be added, if it cannot: it claims to open a
    /// thread, its thread is missing, it would be read before the opening
    /// post, its thread is locked, or its key is taken.
    pub open spec fn reply_fault(self, post: PostView) -> Option<ErrorKind> {
        reply_fault_from(
            post.is_op,
            if self.has_thread(post.thread_id) {
                Some(
                    (
                        self.threads[self.thread_index(post.thread_id)].is_locked,
                        self.follows_op(post),
                    ),
                )
            } else {
                None
            },
            self.has_post(post.id),
        )
    }
}

/// Whether an opening post fits its thread: it names the thread and says
/// that it opens it.
pub open spec fn opens(thread: ThreadView, post: PostView) -> bool {
    post.thread_id == thread.id && post.is_op
}

/// The fault of a new thread, from what was looked up: whether the opening
/// post fits, whether the board is there, whether the thread's and the
/// post's keys are taken. The first that applies counts.
pub open spec fn thread_fault_from(
    opens: bool,
    has_board: bool,
    has_thread: bool,
    has_post: bool,
) -> Option<ErrorKind> {
    if !opens {
        Some(ErrorKind::ValidationError)
    } else if !has_board {
        Some(ErrorKind::NotFound)
    } else if has_thread || has_post {
        Some(ErrorKind::Conflict)
    } else {
        None
    }
}

/// The fault of a reply, from what was looked up: whether it claims to open
/// a thread; of its thread, if that is there, whether it is locked and
/// whether the reply would be read after the opening post; whether the
/// post's key is taken. The first that applies counts.
pub open spec fn reply_fault_from(
    is_op: bool,
    thread: Option<(bool, bool)>,
    has_post: bool,
) -> Option<ErrorKind> {
    if is_op {
        Some(ErrorKind::ValidationError)
    } else {
        match thread {
            None => Some(ErrorKind::NotFound),
            Some((locked, follows)) => if !follows {
                Some(ErrorKind::ValidationError)
            } else if locked || has_post {
                Some(ErrorKind::Conflict)
            } else {
                None
            },
        }
    }
}

/// What was looked up for a reply, as the fault is told from it.
pub open spec fn reply_facts(post: PostView, found: Option<(&Thread, &Post)>) -> Option<
    (bool, bool),
> {
    match found {
        Some((thread, opening)) => Some(
            (thread.is_locked, key_lt(post_key(opening@), post_key(post))),
        ),
        None => None,
    }
}

/// Tells whether post `a` is read before post `b`.
pub fn reads_before(a: &Post, b: &Post) -> (before: bool)
    ensures
        before == key_lt(post_key(a@), post_key(b@)),
{
    a.created_at < b.created_at || (a.created_at == b.created_at && a.id < b.id)
}

/// Checks a new thread against what was looked up, before anything is
/// stored, and names the fault.
pub fn check_new_thread(
    thread: &Thread,
    post: &Post,
    board_found: bool,
    thread_taken: bool,
    post_taken: bool,
) -> (r: Result<(), AppError>)
    ensures
        match thread_fault_from(opens(thread@, post@), board_found, thread_taken, post_taken) {
            Some(kind) => r is Err && r->Err_0@.kind == kind,
            None => r is Ok,
        },
{
    if post.thread_id != thread.id || !post.is_op {
        Err(AppError::ValidationError(String::from_str("the first post must open its own thread")))
    } else if !board_found {
        Err(AppError::NotFound(String::from_str("board"), format_uuid(thread.board_id)))
    } else if thread_taken {
        Err(AppError::Conflict(String::from_str("thread exists")))
    } else if post_taken {
        Err(AppError::Conflict(String::from_str("post exists")))
    } else {
        Ok(())
    }
}

/// Checks a reply against what was looked up (its thread with the
/// thread's opening post, if the thread is there), before anything is
/// stored, and names the fault.
pub fn check_new_reply(post: &Post, found: Option<(&Thread, &Post)>, post_taken: bool) -> (r: Result<
    (),
    AppError,
>)
    ensures
        match reply_fault_from(post.is_op, reply_facts(post@, found), post_taken) {
            Some(kind) => r is Err && r->Err_0@.kind == kind,
            None => r is Ok,
        },
{
    if post.is_op {
        return Err(AppError::ValidationError(String::from_str("a reply cannot open a thread")));
    }
    match found {
        None => Err(AppError::NotFound(String::from_str("thread"), format_uuid(post.thread_id))),
        Some((thread, opening)) => {
            if !reads_before(opening, post) {
                Err(
                    AppError::ValidationError(
                        String::from_str("a reply cannot come before the opening post"),
                    ),
                )
            } else if thread.is_locked {
                Err(AppError::Conflict(String::from_str("thread is locked")))
            } else if post_taken {
                Err(AppError::Conflict(String::from_str("post exists")))
            } else {
                Ok(())
            }
        },
    }
}

/// Whether a read answered as the contract asks: with the expected value,
/// or with an internal error.
pub open spec fn read_answer<T, V>(r: Result<T, AppError>, expected: V, view: spec_fn(T) -> V) -> bool {
    match r {
        Ok(value) => view(value) == expected,
        Err(e) => e@.kind == ErrorKind::Internal,
    }
}

/// Whether a write answered as the contract asks. With a fault in the
/// request the write fails with that fault's kind; without one it succeeds
/// and the state is `after`, or it fails with an internal error. Every
/// failure leaves the state as it was.
pub open spec fn write_answer(
    r: Result<(), AppError>,
    fault: Option<ErrorKind>,
    before: RepoView,
    after: RepoView,
    now: RepoView,
) -> bool {
    match r {
        Ok(_) => fault is None && now == after,
        Err(e) => now == before && match fault {
            Some(kind) => e@.kind == kind,
            None => e@.kind == ErrorKind::Internal,
        },
    }
}

/// The persistence interface for boards, threads and posts.
pub trait BoardRepo {
    /// The rows that the repository holds.
    spec fn state(&self) -> RepoView;

    /// The board with the given slug.
    fn get_board(&self, slug: &str) -> (r: Result<Option<Board>, AppError>)
        requires
            self.state().wf(),
        ensures
            read_answer(r, self.state().board_by_slug(slug@), |b: Option<Board>| opt_board(b)),
    ;

    /// All boards.
    fn list_boards(&self) -> (r: Result<Vec<Board>, AppError>)
        requires
            self.state().wf(),
        ensures
            read_answer(r, self.state().boards, |list: Vec<Board>| board_views(list@)),
    ;

    /// Stores a thread together with its opening post: both or neither.
    fn create_thread(&mut self, thread: Thread, initial_post: Post) -> (r: Result<(), AppError>)
        requires
            old(self).state().wf(),
        ensures
            final(self).state().wf(),
            write_answer(
                r,
                old(self).state().thread_fault(thread@, initial_post@),
                old(self).state(),
                old(self).state().with_thread(thread@, initial_post@),
                final(self).state(),
            ),
    ;

    /// The thread with the given identifier and its posts in reading order.
    fn get_thread(&self, id: u128) -> (r: Result<Option<(Thread, Vec<Post>)>, AppError>)
        requires
            self.state().wf(),
        ensures
            read_answer(
                r,
                match self.state().thread_by_id(id) {
                    Some(t) => Some((t, self.state().posts_of(id))),
                    None => None,
                },
                |found: Option<(Thread, Vec<Post>)>| opt_thread(found),
            ),
    ;

    /// A page of the board's threads in listing order: at most `limit`
    /// threads after skipping `offset`.
    fn list_threads_paginated(&self, board_id: u128, limit: i64, offset: i64) -> (r: Result<
        Vec<Thread>,
        AppError,
    >)
        requires
            self.state().wf(),
        ensures
            read_answer(
                r,
                page(self.state().threads_of(board_id), limit as int, offset as int),
                |list: Vec<Thread>| thread_views(list@),
            ),
    ;

    /// The board's threads in listing order, each with its opening post.
    fn get_threads_by_board(&self, board_id: u128) -> (r: Result<Vec<(Thread, Post)>, AppError>)
        requires
            self.state().wf(),
        ensures
            read_answer(
                r,
                self.state().threads_with_op(board_id),
                |rows: Vec<(Thread, Post)>| pair_views(rows@),
            ),
    ;

    /// Stores a reply and bumps its thread to the reply's time.
    fn create_post(&mut self, post: Post) -> (r: Result<(), AppError>)
        requires
            old(self).state().wf(),
        ensures
            final(self).state().wf(),
            write_answer(
                r,
                old(self).state().reply_fault(post@),
                old(self).state(),
                old(self).state().with_reply(post@),
                final(self).state(),
            ),
    ;
}

/// Elements whose tags are not carried in `s` rank apart from all of `s`
/// where the rank ends in the tag.
proof fn lemma_thread_key_new(s: Seq<ThreadView>, t: ThreadView)
    requires
        !has_tag(s, thread_id_tag(), t.id),
    ensures
        key_is_new(s, by_thread_key(), by_thread_key()(t)),
{
    assert forall|i: int| 0 <= i < s.len() implies #[trigger] by_thread_key()(s[i])
        != by_thread_key()(t) by {
        if s[i].id == t.id {
            assert(thread_id_tag()(s[i]) == Some(t.id));
        }
    }
}

/// A post whose identifier is new ranks apart from all posts.
proof fn lemma_post_key_new(s: Seq<PostView>, p: PostView)
    requires
        !has_tag(s, post_id_tag(), p.id),
    ensures
        key_is_new(s, by_post_key(), by_post_key()(p)),
{
    assert forall|i: int| 0 <= i < s.len() implies #[trigger] by_post_key()(s[i]) != by_post_key()(
        p,
    ) by {
        if s[i].id == p.id {
            assert(post_id_tag()(s[i]) == Some(p.id));
        }
    }
}

/// Creating a thread that has no fault keeps the repository well-formed: in
/// particular the new thread has its one opening post, and every other
/// thread keeps its own.
pub proof fn lemma_with_thread_wf(v: RepoView, thread: ThreadView, post: PostView)
    requires
        v.wf(),
        v.thread_fault(thread, post) is None,
    ensures
        v.with_thread(thread, post).wf(),
{
    let w = v.with_thread(thread, post);
    let kt = slot(v.threads, by_thread_key(), thread_key(thread));
    let kp = slot(v.posts, by_post_key(), post_key(post));
    lemma_thread_key_new(v.threads, thread);
    lemma_insert_in_order(v.threads, by_thread_key(), thread);
    lemma_post_key_new(v.posts, post);
    lemma_insert_in_order(v.posts, by_post_key(), post);
    lemma_insert_contains(v.threads, kt, thread);
    lemma_insert_contains(v.posts, kp, post);
    lemma_insert_tags(v.threads, thread_id_tag(), kt, thread);
    lemma_insert_tags(v.posts, post_id_tag(), kp, post);
    lemma_insert_tags(v.posts, op_tag(), kp, post);
    lemma_insert_distinct(v.threads, thread_id_tag(), kt, thread);
    lemma_insert_distinct(v.posts, post_id_tag(), kp, post);
    assert(!has_tag(v.posts, op_tag(), thread.id)) by {
        if has_tag(v.posts, op_tag(), thread.id) {
            let i = tag_index(v.posts, op_tag(), thread.id);
            lemma_tag_index(v.posts, op_tag(), thread.id);
            assert(v.posts.contains(v.posts[i]));
            assert(v.has_thread(v.posts[i].thread_id));
        }
    }
    lemma_insert_distinct(v.posts, op_tag(), kp, post);
    assert(op_tag()(post) == Some(thread.id));
    assert(thread_id_tag()(thread) == Some(thread.id));
    assert forall|t: ThreadView| #[trigger] w.threads.contains(t) implies w.has_op(t.id) by {
        if t != thread {
            assert(v.threads.contains(t));
            assert(v.has_op(t.id));
        }
    }
    assert forall|p: PostView| #[trigger] w.posts.contains(p) implies w.has_thread(
        p.thread_id,
    ) by {
        if p != post {
            assert(v.posts.contains(p));
            assert(v.has_thread(p.thread_id));
        }
    }
    assert forall|t: ThreadView| #[trigger] w.threads.contains(t) implies w.has_board(
        t.board_id,
    ) by {
        if t != thread {
            assert(v.threads.contains(t));
        }
    }
    assert forall|p: PostView, q: PostView|
        #[trigger] w.posts.contains(p) && #[trigger] w.posts.contains(q) && p.is_op && p.thread_id
            == q.thread_id && p != q implies key_lt(post_key(p), post_key(q)) by {
        if p != post {
            assert(v.posts.contains(p));
            assert(v.has_thread(p.thread_id));
        }
        if q != post {
            assert(v.posts.contains(q));
            assert(v.has_thread(q.thread_id));
        }
    }
}

/// Adding a reply that has no fault keeps the repository well-formed: the
/// set of threads is the same, and so is every thread's opening post.
pub proof fn lemma_with_reply_wf(v: RepoView, post: PostView)
    requires
        v.wf(),
        v.reply_fault(post) is None,
    ensures
        v.with_reply(post).wf(),
        forall|id: u128| v.with_reply(post).has_thread(id) <==> v.has_thread(id),
{
    let w = v.with_reply(post);
    let at = v.thread_index(post.thread_id);
    lemma_tag_index(v.threads, thread_id_tag(), post.thread_id);
    let old_thread = v.threads[at];
    let bumped = v.bumped(post);
    let rest = v.threads.remove(at);
    let kt = slot(rest, by_thread_key(), thread_key(bumped));
    let kp = slot(v.posts, by_post_key(), post_key(post));
    lemma_remove_keeps_order(v.threads, by_thread_key(), at);
    lemma_remove_tags(v.threads, thread_id_tag(), at);
    lemma_remove_contains(v.threads, at);
    assert(thread_id_tag()(old_thread) == Some(bumped.id));
    assert(!has_tag(rest, thread_id_tag(), bumped.id));
    lemma_thread_key_new(rest, bumped);
    lemma_insert_in_order(rest, by_thread_key(), bumped);
    lemma_insert_contains(rest, kt, bumped);
    lemma_insert_tags(rest, thread_id_tag(), kt, bumped);
    lemma_insert_distinct(rest, thread_id_tag(), kt, bumped);
    lemma_post_key_new(v.posts, post);
    lemma_insert_in_order(v.posts, by_post_key(), post);
    lemma_insert_contains(v.posts, kp, post);
    lemma_insert_tags(v.posts, post_id_tag(), kp, post);
    lemma_insert_tags(v.posts, op_tag(), kp, post);
    lemma_insert_distinct(v.posts, post_id_tag(), kp, post);
    lemma_insert_distinct(v.posts, op_tag(), kp, post);
    assert(thread_id_tag()(bumped) == Some(post.thread_id));
    assert forall|id: u128| w.has_thread(id) <==> v.has_thread(id) by {
        assert(has_tag(w.threads, thread_id_tag(), id) <==> (thread_id_tag()(bumped) == Some(id)
            || has_tag(rest, thread_id_tag(), id)));
        assert(has_tag(rest, thread_id_tag(), id) <==> (has_tag(v.threads, thread_id_tag(), id)
            && thread_id_tag()(old_thread) != Some(id)));
    }
    assert(v.threads.contains(old_thread));
    assert forall|t: ThreadView| #[trigger] w.threads.contains(t) implies w.has_op(t.id)
        && w.has_board(t.board_id) by {
        if t == bumped {
            assert(v.has_op(old_thread.id));
            assert(v.has_board(old_thread.board_id));
        } else {
            assert(rest.contains(t));
            assert(v.threads.contains(t));
            assert(v.has_op(t.id));
        }
    }
    assert forall|p: PostView| #[trigger] w.posts.contains(p) implies w.has_thread(
        p.thread_id,
    ) by {
        if p != post {
            assert(v.posts.contains(p));
            assert(v.has_thread(p.thread_id));
        }
    }
    lemma_one_op_per_thread(v, old_thread);
    assert forall|p: PostView, q: PostView|
        #[trigger] w.posts.contains(p) && #[trigger] w.posts.contains(q) && p.is_op && p.thread_id
            == q.thread_id && p != q implies key_lt(post_key(p), post_key(q)) by {
        assert(p != post);
        assert(v.posts.contains(p));
        if q != post {
            assert(v.posts.contains(q));
        }
    }
}

/// The opening-post invariant, thread by thread: in a well-formed
/// repository every thread has an opening post among the posts, and any
/// post that opens the thread is that one.
pub proof fn lemma_one_op_per_thread(v: RepoView, t: ThreadView)
    requires
        v.wf(),
        v.threads.contains(t),
    ensures
        v.posts.contains(v.op_of(t.id)),
        v.op_of(t.id).is_op,
        v.op_of(t.id).thread_id == t.id,
        forall|p: PostView|
            #[trigger] v.posts.contains(p) && p.is_op && p.thread_id == t.id ==> p == v.op_of(
                t.id,
            ),
{
    assert(v.has_op(t.id));
    lemma_op_is_unique(v, t.id);
}

/// Where a thread has an opening post, it is the only post that opens it.
pub proof fn lemma_op_is_unique(v: RepoView, thread: u128)
    requires
        v.wf(),
        v.has_op(thread),
    ensures
        v.posts.contains(v.op_of(thread)),
        v.op_of(thread).is_op,
        v.op_of(thread).thread_id == thread,
        forall|p: PostView|
            #[trigger] v.posts.contains(p) && p.is_op && p.thread_id == thread ==> p == v.op_of(
                thread,
            ),
{
    lemma_tag_index(v.posts, op_tag(), thread);
    let at = tag_index(v.posts, op_tag(), thread);
    assert(op_tag()(v.posts[at]) == Some(thread));
    assert forall|p: PostView| #[trigger]
        v.posts.contains(p) && p.is_op && p.thread_id == thread implies p == v.op_of(thread) by {
        let i = choose|i: int| 0 <= i < v.posts.len() && v.posts[i] == p;
        assert(op_tag()(v.posts[i]) == Some(thread));
    }
}

/// The opening post is the earliest: in a well-formed repository no post
/// of a thread carries an earlier time than the thread's opening post.
pub proof fn lemma_op_is_earliest(v: RepoView, p: PostView, q: PostView)
    requires
        v.wf(),
        v.posts.contains(p),
        v.posts.contains(q),
        p.is_op,
        p.thread_id == q.thread_id,
    ensures
        p.created_at <= q.created_at,
{
}

/// Listings come in order: the threads of a board by listing rank, the
/// posts of a thread by reading rank.
pub proof fn lemma_listings_in_order(v: RepoView, board: u128, thread: u128)
    requires
        v.wf(),
    ensures
        sorted_by_key(v.threads_of(board), by_thread_key()),
        sorted_by_key(v.posts_of(thread), by_post_key()),
{
    lemma_filter_keeps_order(v.threads, by_thread_key(), |t: ThreadView| t.board_id == board);
    lemma_filter_keeps_order(v.posts, by_post_key(), |p: PostView| p.thread_id == thread);
}

/// Pagination: on an unchanged repository, the first page of `n` threads
/// followed by the second page of `n` threads is the first page of `2 * n`
/// threads.
pub proof fn lemma_pagination(v: RepoView, board: u128, n: int)
    requires
        0 <= n,
    ensures
        page(v.threads_of(board), n, 0) + page(v.threads_of(board), n, n) == page(
            v.threads_of(board),
            2 * n,
            0,
        ),
{
    lemma_pages_concat(v.threads_of(board), n);
}

/// Reading a thread back: in a well-formed repository the posts of a
/// thread begin with its opening post, and no other of them opens it.
pub proof fn lemma_thread_reads_op_first(v: RepoView, thread: u128)
    requires
        v.wf(),
        v.has_thread(thread),
    ensures
        v.posts_of(thread).len() >= 1,
        v.posts_of(thread)[0] == v.op_of(thread),
        forall|i: int| 1 <= i < v.posts_of(thread).len() ==> !(#[trigger] v.posts_of(thread)[i]).is_op,
{
    let pred = |p: PostView| p.thread_id == thread;
    let f = v.posts_of(thread);
    lemma_tag_index(v.threads, thread_id_tag(), thread);
    let t = v.threads[v.thread_index(thread)];
    assert(thread_id_tag()(t) == Some(thread));
    assert(v.threads.contains(t));
    lemma_one_op_per_thread(v, t);
    let op = v.op_of(thread);
    lemma_filter_keeps_order(v.posts, by_post_key(), pred);
    let at = choose|i: int| 0 <= i < v.posts.len() && v.posts[i] == op;
    v.posts.lemma_filter_contains(pred, at);
    let k = choose|k: int| 0 <= k < f.len() && f[k] == op;
    assert forall|i: int| 0 <= i < f.len() implies v.posts.contains(#[trigger] f[i]) && f[i].thread_id
        == thread by {
        assert(f.contains(f[i]));
        v.posts.lemma_filter_contains_rev(pred, f[i]);
        v.posts.lemma_filter_pred(pred, i);
    }
    if k > 0 {
        assert(key_lt(by_post_key()(f[0]), by_post_key()(f[k])));
        assert(v.posts.contains(f[0]));
        assert(f[0] != op);
        assert(key_lt(post_key(op), post_key(f[0])));
    }
    assert forall|i: int| 1 <= i < f.len() implies !(#[trigger] f[i]).is_op by {
        assert(key_lt(by_post_key()(f[0]), by_post_key()(f[i])));
        if f[i].is_op {
            assert(v.posts.contains(f[i]));
            assert(f[i] == op);
        }
    }
}

/// Keeping the elements that satisfy a predicate, after one element is put
/// in: one more is kept where the new element satisfies it, else as many.
proof fn lemma_filter_insert_len<A>(s: Seq<A>, at: int, x: A, pred: spec_fn(A) -> bool)
    requires
        0 <= at <= s.len(),
    ensures
        s.insert(at, x).filter(pred).len() == s.filter(pred).len() + if pred(x) {
            1int
        } else {
            0int
        },
{
    let head = s.take(at);
    let tail = s.skip(at);
    assert(s.insert(at, x) =~= head.push(x) + tail);
    assert(s =~= head + tail);
    Seq::filter_distributes_over_add(head.push(x), tail, pred);
    Seq::filter_distributes_over_add(head, tail, pred);
    head.lemma_filter_push(x, pred);
}

/// A new thread reads back: after a thread is created it is found by its
/// identifier, with one post, which is its opening post.
pub proof fn lemma_new_thread_reads_back(v: RepoView, thread: ThreadView, post: PostView)
    requires
        v.wf(),
        v.thread_fault(thread, post) is None,
    ensures
        v.with_thread(thread, post).thread_by_id(thread.id) == Some(thread),
        v.with_thread(thread, post).posts_of(thread.id).len() == 1,
        v.with_thread(thread, post).posts_of(thread.id)[0] == post,
{
    let w = v.with_thread(thread, post);
    let pred = |p: PostView| p.thread_id == thread.id;
    lemma_with_thread_wf(v, thread, post);
    let kt = slot(v.threads, by_thread_key(), thread_key(thread));
    let kp = slot(v.posts, by_post_key(), post_key(post));
    lemma_thread_key_new(v.threads, thread);
    lemma_insert_in_order(v.threads, by_thread_key(), thread);
    lemma_post_key_new(v.posts, post);
    lemma_insert_in_order(v.posts, by_post_key(), post);
    assert(w.threads[kt] == thread);
    assert(thread_id_tag()(w.threads[kt]) == Some(thread.id));
    lemma_tag_index(w.threads, thread_id_tag(), thread.id);
    // no post of the old repository belongs to the new thread
    assert(v.posts.filter(pred).len() == 0) by {
        let f = v.posts.filter(pred);
        if f.len() > 0 {
            assert(f.contains(f[0]));
            v.posts.lemma_filter_contains_rev(pred, f[0]);
            v.posts.lemma_filter_pred(pred, 0);
            assert(v.has_thread(f[0].thread_id));
        }
    }
    lemma_filter_insert_len(v.posts, kp, post, pred);
    assert(w.posts[kp] == post);
    w.posts.lemma_filter_contains(pred, kp);
    let f = w.posts_of(thread.id);
    let j = choose|j: int| 0 <= j < f.len() && f[j] == post;
    assert(j == 0);
}

/// A reply reads back: after a reply is added its thread has one post
/// more, the reply among them, and still begins with the same opening
/// post.
pub proof fn lemma_reply_reads_back(v: RepoView, post: PostView)
    requires
        v.wf(),
        v.reply_fault(post) is None,
    ensures
        v.with_reply(post).has_thread(post.thread_id),
        v.with_reply(post).posts_of(post.thread_id).len() == v.posts_of(post.thread_id).len() + 1,
        v.with_reply(post).posts_of(post.thread_id).contains(post),
        v.with_reply(post).posts_of(post.thread_id)[0] == v.posts_of(post.thread_id)[0],
{
    let w = v.with_reply(post);
    let thread = post.thread_id;
    let pred = |p: PostView| p.thread_id == thread;
    lemma_with_reply_wf(v, post);
    let kp = slot(v.posts, by_post_key(), post_key(post));
    lemma_post_key_new(v.posts, post);
    lemma_insert_in_order(v.posts, by_post_key(), post);
    lemma_filter_insert_len(v.posts, kp, post, pred);
    assert(w.posts[kp] == post);
    w.posts.lemma_filter_contains(pred, kp);
    lemma_thread_reads_op_first(v, thread);
    lemma_thread_reads_op_first(w, thread);
    // the opening post is the same one
    lemma_tag_index(v.threads, thread_id_tag(), thread);
    let t = v.threads[v.thread_index(thread)];
    assert(thread_id_tag()(t) == Some(thread));
    assert(v.threads.contains(t));
    lemma_one_op_per_thread(v, t);
    lemma_tag_index(w.threads, thread_id_tag(), thread);
    let u = w.threads[w.thread_index(thread)];
    assert(thread_id_tag()(u) == Some(thread));
    assert(w.threads.contains(u));
    lemma_op_is_unique(w, thread);
    lemma_insert_contains(v.posts, kp, post);
    assert(w.posts.contains(v.op_of(thread)));
}

} // verus!
