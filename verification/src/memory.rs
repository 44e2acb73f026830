//! A repository that keeps its rows in memory.
//!
//! Rows are held in the order in which they are read back, so that a read
//! is a scan and a write is an insertion at the row's slot.

use vstd::prelude::*;
use vstd::string::StringExecFns;
use crate::error::{AppError, ErrorKind};
use crate::models::{Board, Post, Thread};
use crate::order::{key_lt, lemma_tag_index, slot, slot_from};
use crate::repo::{
    board_id_tag, board_slug_tag, board_views, by_post_key, by_thread_key, check_new_reply,
    check_new_thread, lemma_with_reply_wf, lemma_with_thread_wf, op_tag, pair_views, post_id_tag,
    post_key, post_views, reads_before, thread_id_tag, thread_key, thread_views, BoardRepo,
    RepoView,
};
use crate::text::same_text;

verus! {

/// An in-memory repository of boards, threads and posts.
pub struct MemoryBoardRepo {
    boards: Vec<Board>,
    threads: Vec<Thread>,
    posts: Vec<Post>,
}

/// Tells whether thread `a` is listed before thread `b`.
fn thread_before(a: &Thread, b: &Thread) -> (before: bool)
    ensures
        before == key_lt(thread_key(a@), thread_key(b@)),
{
    if a.is_sticky != b.is_sticky {
        a.is_sticky
    } else if a.last_bump != b.last_bump {
        a.last_bump > b.last_bump
    } else {
        a.id < b.id
    }
}

/// Finds the slot of a thread in a listing.
fn thread_slot(list: &Vec<Thread>, t: &Thread) -> (at: usize)
    ensures
        at == slot(thread_views(list@), by_thread_key(), thread_key(t@)),
        at <= list.len(),
{
    let ghost s = thread_views(list@);
    let ghost k = thread_key(t@);
    let mut i: usize = 0;
    while i < list.len() && thread_before(&list[i], t)
        invariant
            i <= list.len(),
            s == thread_views(list@),
            k == thread_key(t@),
            slot_from(s, by_thread_key(), k, 0) == slot_from(s, by_thread_key(), k, i as int),
        decreases list.len() - i,
    {
        i = i + 1;
    }
    i
}

/// Finds the slot of a post among the posts.
fn post_slot(list: &Vec<Post>, p: &Post) -> (at: usize)
    ensures
        at == slot(post_views(list@), by_post_key(), post_key(p@)),
        at <= list.len(),
{
    let ghost s = post_views(list@);
    let ghost k = post_key(p@);
    let mut i: usize = 0;
    while i < list.len() && reads_before(&list[i], p)
        invariant
            i <= list.len(),
            s == post_views(list@),
            k == post_key(p@),
            slot_from(s, by_post_key(), k, 0) == slot_from(s, by_post_key(), k, i as int),
        decreases list.len() - i,
    {
        i = i + 1;
    }
    i
}

impl MemoryBoardRepo {
    /// An empty repository.
    pub fn new() -> (repo: Self)
        ensures
            repo.state() == (RepoView {
                boards: Seq::empty(),
                threads: Seq::empty(),
                posts: Seq::empty(),
            }),
            repo.state().wf(),
    {
        let repo = MemoryBoardRepo { boards: Vec::new(), threads: Vec::new(), posts: Vec::new() };
        assert(repo.state() =~= (RepoView {
            boards: Seq::empty(),
            threads: Seq::empty(),
            posts: Seq::empty(),
        }));
        repo
    }

    /// Finds the board with the given identifier.
    fn find_board(&self, id: u128) -> (found: Option<usize>)
        ensures
            found is Some <==> self.state().has_board(id),
            found matches Some(i) ==> i < self.boards.len() && self.boards@[i as int].id == id,
    {
        let ghost s = self.state().boards;
        let mut i: usize = 0;
        while i < self.boards.len()
            invariant
                i <= self.boards.len(),
                s == self.state().boards,
                forall|j: int| 0 <= j < i ==> #[trigger] board_id_tag()(s[j]) != Some(id),
            decreases self.boards.len() - i,
        {
            if self.boards[i].id == id {
                assert(board_id_tag()(s[i as int]) == Some(id));
                return Some(i);
            }
            i = i + 1;
        }
        None
    }

    /// Finds the board with the given slug.
    fn find_slug(&self, slug: &str) -> (found: Option<usize>)
        ensures
            found is Some <==> self.state().has_slug(slug@),
            found matches Some(i) ==> i < self.boards.len() && self.boards@[i as int].slug@
                == slug@,
    {
        let ghost s = self.state().boards;
        let mut i: usize = 0;
        while i < self.boards.len()
            invariant
                i <= self.boards.len(),
                s == self.state().boards,
                forall|j: int| 0 <= j < i ==> #[trigger] board_slug_tag()(s[j]) != Some(slug@),
            decreases self.boards.len() - i,
        {
            if same_text(self.boards[i].slug.as_str(), slug) {
                assert(board_slug_tag()(s[i as int]) == Some(slug@));
                return Some(i);
            }
            i = i + 1;
        }
        None
    }

    /// Finds the thread with the given identifier.
    fn find_thread(&self, id: u128) -> (found: Option<usize>)
        ensures
            found is Some <==> self.state().has_thread(id),
            found matches Some(i) ==> i < self.threads.len() && self.threads@[i as int].id == id,
    {
        let ghost s = self.state().threads;
        let mut i: usize = 0;
        while i < self.threads.len()
            invariant
                i <= self.threads.len(),
                s == self.state().threads,
                forall|j: int| 0 <= j < i ==> #[trigger] thread_id_tag()(s[j]) != Some(id),
            decreases self.threads.len() - i,
        {
            if self.threads[i].id == id {
                assert(thread_id_tag()(s[i as int]) == Some(id));
                return Some(i);
            }
            i = i + 1;
        }
        None
    }

    /// Tells whether a post with the given identifier exists.
    fn knows_post(&self, id: u128) -> (known: bool)
        ensures
            known == self.state().has_post(id),
    {
        let ghost s = self.state().posts;
        let mut i: usize = 0;
        while i < self.posts.len()
            invariant
                i <= self.posts.len(),
                s == self.state().posts,
                forall|j: int| 0 <= j < i ==> #[trigger] post_id_tag()(s[j]) != Some(id),
            decreases self.posts.len() - i,
        {
            if self.posts[i].id == id {
                assert(post_id_tag()(s[i as int]) == Some(id));
                return true;
            }
            i = i + 1;
        }
        false
    }

    /// Finds the opening post of the given thread.
    fn find_op(&self, thread: u128) -> (found: Option<usize>)
        ensures
            found is Some <==> self.state().has_op(thread),
            found matches Some(i) ==> i < self.posts.len() && self.posts@[i as int].is_op
                && self.posts@[i as int].thread_id == thread,
    {
        let ghost s = self.state().posts;
        let mut i: usize = 0;
        while i < self.posts.len()
            invariant
                i <= self.posts.len(),
                s == self.state().posts,
                forall|j: int| 0 <= j < i ==> #[trigger] op_tag()(s[j]) != Some(thread),
            decreases self.posts.len() - i,
        {
            if self.posts[i].is_op && self.posts[i].thread_id == thread {
                assert(op_tag()(s[i as int]) == Some(thread));
                return Some(i);
            }
            i = i + 1;
        }
        None
    }

    /// Adds a board. A board whose identifier or slug is taken is refused
    /// as a conflict, and the repository stays as it was.
    pub fn add_board(&mut self, board: Board) -> (r: Result<(), AppError>)
        requires
            old(self).state().wf(),
        ensures
            final(self).state().wf(),
            r is Ok <==> !old(self).state().has_board(board.id) && !old(self).state().has_slug(
                board.slug@,
            ),
            r is Ok ==> final(self).state() == (RepoView {
                boards: old(self).state().boards.push(board@),
                ..old(self).state()
            }),
            r matches Err(e) ==> e@.kind == ErrorKind::Conflict && final(self).state() == old(
                self,
            ).state(),
    {
        if self.find_board(board.id).is_some() || self.find_slug(board.slug.as_str()).is_some() {
            return Err(AppError::Conflict(String::from_str("board exists")));
        }
        let ghost before = self.state();
        let ghost added = board@;
        self.boards.push(board);
        proof {
            let after = self.state();
            assert(after.boards =~= before.boards.push(added));
            assert(after =~= (RepoView { boards: before.boards.push(added), ..before }));
            crate::order::lemma_insert_tags(
                before.boards,
                board_id_tag(),
                before.boards.len() as int,
                added,
            );
            crate::order::lemma_insert_distinct(
                before.boards,
                board_id_tag(),
                before.boards.len() as int,
                added,
            );
            crate::order::lemma_insert_distinct(
                before.boards,
                board_slug_tag(),
                before.boards.len() as int,
                added,
            );
            assert(before.boards.insert(before.boards.len() as int, added) =~= before.boards.push(
                added,
            ));
            assert forall|t: crate::models::ThreadView| #[trigger]
                after.threads.contains(t) implies after.has_board(t.board_id) by {
                assert(before.has_board(t.board_id));
            }
        }
        Ok(())
    }
}

impl BoardRepo for MemoryBoardRepo {
    closed spec fn state(&self) -> RepoView {
        RepoView {
            boards: board_views(self.boards@),
            threads: thread_views(self.threads@),
            posts: post_views(self.posts@),
        }
    }

    fn get_board(&self, slug: &str) -> (r: Result<Option<Board>, AppError>)
        ensures
            r is Ok,
    {
        match self.find_slug(slug) {
            Some(i) => {
                proof {
                    lemma_tag_index(self.state().boards, board_slug_tag(), slug@);
                    assert(board_slug_tag()(self.state().boards[i as int]) == Some(slug@));
                }
                Ok(Some(self.boards[i].clone()))
            },
            None => Ok(None),
        }
    }

    fn list_boards(&self) -> (r: Result<Vec<Board>, AppError>)
        ensures
            r is Ok,
    {
        let mut out: Vec<Board> = Vec::new();
        let mut i: usize = 0;
        while i < self.boards.len()
            invariant
                i <= self.boards.len(),
                board_views(out@) == board_views(self.boards@).take(i as int),
            decreases self.boards.len() - i,
        {
            let ghost before = out@;
            out.push(self.boards[i].clone());
            assert(board_views(out@) =~= board_views(before).push(self.boards@[i as int]@));
            assert(board_views(self.boards@).take(i + 1) =~= board_views(self.boards@).take(
                i as int,
            ).push(self.boards@[i as int]@));
            i = i + 1;
        }
        assert(board_views(self.boards@).take(self.boards.len() as int) =~= board_views(
            self.boards@,
        ));
        Ok(out)
    }

    fn create_thread(&mut self, thread: Thread, initial_post: Post) -> (r: Result<(), AppError>)
        ensures
            r is Ok <==> old(self).state().thread_fault(thread@, initial_post@) is None,
    {
        let board_found = self.find_board(thread.board_id).is_some();
        let thread_taken = self.find_thread(thread.id).is_some();
        let post_taken = self.knows_post(initial_post.id);
        match check_new_thread(&thread, &initial_post, board_found, thread_taken, post_taken) {
            Ok(_) => {},
            Err(e) => {
                return Err(e);
            },
        }
        let ghost before = self.state();
        let ghost t = thread@;
        let ghost p = initial_post@;
        let kt = thread_slot(&self.threads, &thread);
        let kp = post_slot(&self.posts, &initial_post);
        self.threads.insert(kt, thread);
        self.posts.insert(kp, initial_post);
        proof {
            let after = self.state();
            assert(after.threads =~= before.threads.insert(kt as int, t));
            assert(after.posts =~= before.posts.insert(kp as int, p));
            assert(after =~= before.with_thread(t, p));
            lemma_with_thread_wf(before, t, p);
        }
        Ok(())
    }

    fn get_thread(&self, id: u128) -> (r: Result<Option<(Thread, Vec<Post>)>, AppError>)
        ensures
            r is Ok,
    {
        let at = match self.find_thread(id) {
            Some(at) => at,
            None => {
                return Ok(None);
            },
        };
        proof {
            lemma_tag_index(self.state().threads, thread_id_tag(), id);
            assert(thread_id_tag()(self.state().threads[at as int]) == Some(id));
        }
        let ghost all = post_views(self.posts@);
        let ghost pred = |p: crate::models::PostView| p.thread_id == id;
        let mut out: Vec<Post> = Vec::new();
        let mut i: usize = 0;
        proof {
            assert(all.take(0) =~= Seq::empty());
            reveal(Seq::filter);
        }
        while i < self.posts.len()
            invariant
                i <= self.posts.len(),
                all == post_views(self.posts@),
                pred == |p: crate::models::PostView| p.thread_id == id,
                post_views(out@) == all.take(i as int).filter(pred),
            decreases self.posts.len() - i,
        {
            let ghost before = out@;
            proof {
                assert(all.take(i + 1) =~= all.take(i as int).push(all[i as int]));
                all.take(i as int).lemma_filter_push(all[i as int], pred);
            }
            if self.posts[i].thread_id == id {
                out.push(self.posts[i].clone());
                assert(post_views(out@) =~= post_views(before).push(all[i as int]));
            }
            i = i + 1;
        }
        assert(all.take(self.posts.len() as int) =~= all);
        Ok(Some((self.threads[at].clone(), out)))
    }

    fn list_threads_paginated(&self, board_id: u128, limit: i64, offset: i64) -> (r: Result<
        Vec<Thread>,
        AppError,
    >)
        ensures
            r is Ok,
    {
        let listing = self.board_threads(board_id);
        let n = listing.len();
        let lo: usize = if offset < 0 {
            0
        } else if offset as u64 > n as u64 {
            n
        } else {
            offset as usize
        };
        let hi: usize = if limit < 0 || limit as u64 > (n - lo) as u64 {
            n
        } else {
            lo + limit as usize
        };
        let ghost all = thread_views(listing@);
        let mut out: Vec<Thread> = Vec::new();
        let mut i: usize = lo;
        while i < hi
            invariant
                lo <= i <= hi <= n,
                n == listing.len(),
                all == thread_views(listing@),
                thread_views(out@) == all.subrange(lo as int, i as int),
            decreases hi - i,
        {
            let ghost before = out@;
            out.push(listing[i].clone());
            assert(thread_views(out@) =~= thread_views(before).push(all[i as int]));
            assert(all.subrange(lo as int, i + 1) =~= all.subrange(lo as int, i as int).push(
                all[i as int],
            ));
            i = i + 1;
        }
        Ok(out)
    }

    fn get_threads_by_board(&self, board_id: u128) -> (r: Result<Vec<(Thread, Post)>, AppError>)
        ensures
            r is Ok,
    {
        let listing = self.board_threads(board_id);
        let ghost state = self.state();
        let ghost all = thread_views(listing@);
        let ghost pairing = |t: crate::models::ThreadView| (t, state.op_of(t.id));
        let mut out: Vec<(Thread, Post)> = Vec::new();
        let mut i: usize = 0;
        while i < listing.len()
            invariant
                i <= listing.len(),
                state == self.state(),
                state.wf(),
                all == thread_views(listing@),
                all == state.threads_of(board_id),
                pairing == |t: crate::models::ThreadView| (t, state.op_of(t.id)),
                pair_views(out@) == all.take(i as int).map_values(pairing),
            decreases listing.len() - i,
        {
            let ghost before = out@;
            let thread = listing[i].clone();
            proof {
                let t = all[i as int];
                assert(all.contains(t));
                state.threads.lemma_filter_contains_rev(
                    |t: crate::models::ThreadView| t.board_id == board_id,
                    t,
                );
                assert(state.has_op(t.id));
                lemma_tag_index(state.posts, op_tag(), t.id);
            }
            match self.find_op(thread.id) {
                Some(at) => {
                    assert(op_tag()(state.posts[at as int]) == Some(thread.id));
                    let post = self.posts[at].clone();
                    out.push((thread, post));
                    assert(pair_views(out@) =~= pair_views(before).push(pairing(all[i as int])));
                    assert(all.take(i + 1).map_values(pairing) =~= all.take(i as int).map_values(
                        pairing,
                    ).push(pairing(all[i as int])));
                },
                None => {
                    assert(false);
                },
            }
            i = i + 1;
        }
        assert(all.take(listing.len() as int) =~= all);
        Ok(out)
    }

    fn create_post(&mut self, post: Post) -> (r: Result<(), AppError>)
        ensures
            r is Ok <==> old(self).state().reply_fault(post@) is None,
    {
        let post_taken = self.knows_post(post.id);
        let found = self.find_thread(post.thread_id);
        let opening = self.find_op(post.thread_id);
        proof {
            let state = self.state();
            if found is Some {
                let at = found->0;
                lemma_tag_index(state.threads, thread_id_tag(), post@.thread_id);
                assert(thread_id_tag()(state.threads[at as int]) == Some(post@.thread_id));
                assert(state.threads.contains(state.threads[at as int]));
                assert(state.has_op(post@.thread_id));
                lemma_tag_index(state.posts, op_tag(), post@.thread_id);
                assert(op_tag()(state.posts[opening->0 as int]) == Some(post@.thread_id));
            }
        }
        let looked_up = match (found, opening) {
            (Some(at), Some(op)) => Some((&self.threads[at], &self.posts[op])),
            _ => None,
        };
        match check_new_reply(&post, looked_up, post_taken) {
            Ok(_) => {},
            Err(e) => {
                return Err(e);
            },
        }
        let at = match found {
            Some(at) => at,
            None => {
                assert(false);
                return Err(AppError::Internal(String::new()));
            },
        };
        let ghost before = self.state();
        let ghost p = post@;
        let mut thread = self.threads.remove(at);
        thread.last_bump = post.created_at;
        let ghost bumped = thread@;
        assert(bumped == before.bumped(p));
        assert(thread_views(self.threads@) =~= before.threads.remove(at as int));
        let kt = thread_slot(&self.threads, &thread);
        let kp = post_slot(&self.posts, &post);
        self.threads.insert(kt, thread);
        self.posts.insert(kp, post);
        proof {
            let after = self.state();
            assert(after.threads =~= before.threads.remove(at as int).insert(kt as int, bumped));
            assert(after.posts =~= before.posts.insert(kp as int, p));
            assert(after =~= before.with_reply(p));
            lemma_with_reply_wf(before, p);
        }
        Ok(())
    }
}

impl MemoryBoardRepo {
    /// Copies the threads of a board, in listing order.
    fn board_threads(&self, board_id: u128) -> (listing: Vec<Thread>)
        ensures
            thread_views(listing@) == self.state().threads_of(board_id),
    {
        let ghost all = thread_views(self.threads@);
        let ghost pred = |t: crate::models::ThreadView| t.board_id == board_id;
        let mut out: Vec<Thread> = Vec::new();
        let mut i: usize = 0;
        proof {
            assert(all.take(0) =~= Seq::empty());
            reveal(Seq::filter);
        }
        while i < self.threads.len()
            invariant
                i <= self.threads.len(),
                all == thread_views(self.threads@),
                pred == |t: crate::models::ThreadView| t.board_id == board_id,
                thread_views(out@) == all.take(i as int).filter(pred),
            decreases self.threads.len() - i,
        {
            let ghost before = out@;
            proof {
                assert(all.take(i + 1) =~= all.take(i as int).push(all[i as int]));
                all.take(i as int).lemma_filter_push(all[i as int], pred);
            }
            if self.threads[i].board_id == board_id {
                out.push(self.threads[i].clone());
                assert(thread_views(out@) =~= thread_views(before).push(all[i as int]));
            }
            i = i + 1;
        }
        assert(all.take(self.threads.len() as int) =~= all);
        out
    }
}

} // verus!
