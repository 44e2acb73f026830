//! The entities of the board: boards, threads, posts and bans.
//!
//! Identifiers are 128-bit UUID values, timestamps are microseconds since the
//! Unix epoch, and JSON columns are carried as their serialised text.

use vstd::prelude::*;

verus! {

/// A single imageboard, such as `/b/`.
#[derive(Debug)]
pub struct Board {
    pub id: u128,
    /// The URL slug (`b` for `/b/`); the stable outside key.
    pub slug: String,
    pub title: String,
    pub description: Option<String>,
    /// Board rules as a serialised JSON object.
    pub settings: String,
    pub created_at: i64,
}

/// A conversation on a board, anchored by its opening post.
#[derive(Debug)]
pub struct Thread {
    pub id: u128,
    pub board_id: u128,
    /// The time by which threads are ranked in listings.
    pub last_bump: i64,
    pub is_sticky: bool,
    pub is_locked: bool,
    pub metadata: String,
}

/// The unit of conversation.
#[derive(Debug)]
pub struct Post {
    pub id: u128,
    pub thread_id: u128,
    /// The poster's pseudonym inside this thread.
    pub user_id_in_thread: String,
    /// Sanitised HTML; never raw input.
    pub content: String,
    /// The content hash of the attached media, if any.
    pub media_id: Option<String>,
    pub is_op: bool,
    pub created_at: i64,
    pub metadata: String,
}

/// A moderation action against a client address.
#[derive(Debug)]
pub struct Ban {
    pub id: u128,
    /// An IPv4 or IPv6 address, or a network in CIDR notation.
    pub ip_address: String,
    pub reason: String,
    pub expires_at: Option<i64>,
    pub created_at: i64,
}

/// The mathematical value of a [`Board`].
pub struct BoardView {
    pub id: u128,
    pub slug: Seq<char>,
    pub title: Seq<char>,
    pub description: Option<Seq<char>>,
    pub settings: Seq<char>,
    pub created_at: i64,
}

/// The mathematical value of a [`Thread`].
pub struct ThreadView {
    pub id: u128,
    pub board_id: u128,
    pub last_bump: i64,
    pub is_sticky: bool,
    pub is_locked: bool,
    pub metadata: Seq<char>,
}

/// The mathematical value of a [`Post`].
pub struct PostView {
    pub id: u128,
    pub thread_id: u128,
    pub user_id_in_thread: Seq<char>,
    pub content: Seq<char>,
    pub media_id: Option<Seq<char>>,
    pub is_op: bool,
    pub created_at: i64,
    pub metadata: Seq<char>,
}

/// The mathematical value of a [`Ban`].
pub struct BanView {
    pub id: u128,
    pub ip_address: Seq<char>,
    pub reason: Seq<char>,
    pub expires_at: Option<i64>,
    pub created_at: i64,
}

/// The view of an optional string.
pub open spec fn opt_text(s: Option<String>) -> Option<Seq<char>> {
    match s {
        Some(t) => Some(t@),
        None => None,
    }
}

/// Copies an optional string.
pub fn clone_opt_text(s: &Option<String>) -> (r: Option<String>)
    ensures
        opt_text(r) == opt_text(*s),
{
    match s {
        Some(t) => Some(t.clone()),
        None => None,
    }
}

impl View for Board {
    type V = BoardView;

    open spec fn view(&self) -> BoardView {
        BoardView {
            id: self.id,
            slug: self.slug@,
            title: self.title@,
            description: opt_text(self.description),
            settings: self.settings@,
            created_at: self.created_at,
        }
    }
}

impl View for Thread {
    type V = ThreadView;

    open spec fn view(&self) -> ThreadView {
        ThreadView {
            id: self.id,
            board_id: self.board_id,
            last_bump: self.last_bump,
            is_sticky: self.is_sticky,
            is_locked: self.is_locked,
            metadata: self.metadata@,
        }
    }
}

impl View for Post {
    type V = PostView;

    open spec fn view(&self) -> PostView {
        PostView {
            id: self.id,
            thread_id: self.thread_id,
            user_id_in_thread: self.user_id_in_thread@,
            content: self.content@,
            media_id: opt_text(self.media_id),
            is_op: self.is_op,
            created_at: self.created_at,
            metadata: self.metadata@,
        }
    }
}

impl View for Ban {
    type V = BanView;

    open spec fn view(&self) -> BanView {
        BanView {
            id: self.id,
            ip_address: self.ip_address@,
            reason: self.reason@,
            expires_at: self.expires_at,
            created_at: self.created_at,
        }
    }
}

impl Clone for Board {
    fn clone(&self) -> (r: Self)
        ensures
            r@ == self@,
    {
        Board {
            id: self.id,
            slug: self.slug.clone(),
            title: self.title.clone(),
            description: clone_opt_text(&self.description),
            settings: self.settings.clone(),
            created_at: self.created_at,
        }
    }
}

impl Clone for Thread {
    fn clone(&self) -> (r: Self)
        ensures
            r@ == self@,
    {
        Thread {
            id: self.id,
            board_id: self.board_id,
            last_bump: self.last_bump,
            is_sticky: self.is_sticky,
            is_locked: self.is_locked,
            metadata: self.metadata.clone(),
        }
    }
}

impl Clone for Post {
    fn clone(&self) -> (r: Self)
        ensures
            r@ == self@,
    {
        Post {
            id: self.id,
            thread_id: self.thread_id,
            user_id_in_thread: self.user_id_in_thread.clone(),
            content: self.content.clone(),
            media_id: clone_opt_text(&self.media_id),
            is_op: self.is_op,
            created_at: self.created_at,
            metadata: self.metadata.clone(),
        }
    }
}

impl Clone for Ban {
    fn clone(&self) -> (r: Self)
        ensures
            r@ == self@,
    {
        Ban {
            id: self.id,
            ip_address: self.ip_address.clone(),
            reason: self.reason.clone(),
            expires_at: self.expires_at,
            created_at: self.created_at,
        }
    }
}

} // verus!
