use rusty_board::auth::{AuthProvider, SimpleAuthProvider};
use rusty_board::blobs::MemoryMediaStore;
use rusty_board::error::{AppError, ErrorKind};
use rusty_board::form::{field_kind, upload_limit, FieldKind, FormReader, Submission};
use rusty_board::ident::id_text;
use rusty_board::ingest::{ingest, ingest_with};
use rusty_board::media::media_id;
use rusty_board::memory::MemoryBoardRepo;
use rusty_board::models::{Ban, Board, Post, Thread};
use rusty_board::pipeline::{Action, Event, Fresh, Ingestion, Stage};
use rusty_board::repo::BoardRepo;
use rusty_board::thumbnail::{MediaCause, MediaError};

const BOARD: u128 = 0xb0;

fn board(id: u128, slug: &str) -> Board {
    Board {
        id,
        slug: slug.to_string(),
        title: "Random".to_string(),
        description: None,
        settings: "{}".to_string(),
        created_at: 0,
    }
}

fn repo() -> MemoryBoardRepo {
    let mut repo = MemoryBoardRepo::new();
    assert!(repo.add_board(board(BOARD, "b")).is_ok());
    assert!(repo.add_board(board(0xb1, "v")).is_ok());
    repo
}

fn form(content: &str, thread_id: Option<u128>, file: Option<Vec<u8>>) -> Submission {
    Submission {
        content: content.to_string(),
        thread_id,
        file,
        content_type: "image/png".to_string(),
    }
}

fn fresh(thread_id: u128, post_id: u128, now: i64) -> Fresh {
    Fresh { thread_id, post_id, now }
}

fn thread(id: u128, board_id: u128) -> Thread {
    Thread {
        id,
        board_id,
        last_bump: 0,
        is_sticky: false,
        is_locked: false,
        metadata: "{}".to_string(),
    }
}

fn png() -> Vec<u8> {
    let img = image::DynamicImage::ImageRgb8(image::RgbImage::from_pixel(
        2,
        2,
        image::Rgb([1, 2, 3]),
    ));
    let mut out = std::io::Cursor::new(Vec::new());
    assert!(img.write_to(&mut out, image::ImageFormat::Png).is_ok());
    out.into_inner()
}

fn banned_provider() -> SimpleAuthProvider {
    let mut auth = SimpleAuthProvider::new("salt");
    auth.add_ban(Ban {
        id: 1,
        ip_address: "1.2.3.4".to_string(),
        reason: "spam".to_string(),
        expires_at: None,
        created_at: 0,
    });
    auth
}

fn posts_of(repo: &MemoryBoardRepo, thread: u128) -> Vec<Post> {
    repo.get_thread(thread).expect("read").expect("the thread exists").1
}

fn rejected_with(action: Action) -> AppError {
    match action {
        Action::Reject { error } => error,
        other => panic!("expected a rejection, got {other:?}"),
    }
}

#[test]
fn field_names_are_recognised() {
    assert_eq!(field_kind("content"), FieldKind::Content);
    assert_eq!(field_kind("thread_id"), FieldKind::ThreadId);
    assert_eq!(field_kind("file"), FieldKind::File);
    assert_eq!(field_kind("Content"), FieldKind::Other);
    assert_eq!(field_kind(""), FieldKind::Other);
    assert_eq!(field_kind("files"), FieldKind::Other);
}

#[test]
fn upload_limit_falls_back_to_eight_mebibytes() {
    assert_eq!(upload_limit(None), 8 * 1024 * 1024);
    assert_eq!(upload_limit(Some(1024)), 1024);
    assert_eq!(upload_limit(Some(0)), 0);
}

#[test]
fn content_is_gathered_from_its_chunks() {
    let mut reader = FormReader::new(100);
    reader.begin_field("content", "");
    assert!(reader.chunk(b"Hello, ").is_ok());
    assert!(reader.chunk("wörld".as_bytes()).is_ok());
    let form = reader.finish();
    assert_eq!(form.content, "Hello, wörld");
    assert_eq!(form.thread_id, None);
    assert!(form.file.is_none());
}

#[test]
fn chunk_that_is_not_utf8_adds_nothing() {
    let mut reader = FormReader::new(100);
    reader.begin_field("content", "");
    assert!(reader.chunk(b"a").is_ok());
    assert!(reader.chunk(&[0xff, 0xfe, b'x']).is_ok());
    assert!(reader.chunk(&"é".as_bytes()[..1]).is_ok());
    assert!(reader.chunk(b"b").is_ok());
    assert_eq!(reader.finish().content, "ab");
}

#[test]
fn thread_id_is_the_last_chunk_that_parses() {
    let id = 0x0123_4567_89ab_cdef_0123_4567_89ab_cdef_u128;
    let mut reader = FormReader::new(100);
    reader.begin_field("thread_id", "");
    assert!(reader.chunk(id_text(id).as_bytes()).is_ok());
    assert!(reader.chunk(b"garbage").is_ok());
    assert_eq!(reader.finish().thread_id, Some(id));

    let mut reader = FormReader::new(100);
    reader.begin_field("thread_id", "");
    assert!(reader.chunk(b"not-a-uuid").is_ok());
    assert_eq!(reader.finish().thread_id, None);
}

#[test]
fn file_is_gathered_with_its_content_type() {
    let mut reader = FormReader::new(100);
    reader.begin_field("file", "image/png");
    assert!(reader.chunk(&[1, 2]).is_ok());
    assert!(reader.chunk(&[3]).is_ok());
    reader.begin_field("content", "text/plain");
    assert!(reader.chunk(b"hi").is_ok());
    let form = reader.finish();
    assert_eq!(form.file, Some(vec![1, 2, 3]));
    assert_eq!(form.content_type, "image/png");
    assert_eq!(form.content, "hi");
}

#[test]
fn empty_file_is_no_upload() {
    let mut reader = FormReader::new(100);
    reader.begin_field("file", "image/png");
    reader.end_field();
    let form = reader.finish();
    assert!(form.file.is_none());
    assert_eq!(form.content_type, "image/png");
}

#[test]
fn later_empty_file_does_not_displace_an_upload() {
    let mut reader = FormReader::new(100);
    reader.begin_field("file", "image/png");
    assert!(reader.chunk(&[1]).is_ok());
    reader.begin_field("file", "image/gif");
    let form = reader.finish();
    assert_eq!(form.file, Some(vec![1]));
    assert_eq!(form.content_type, "image/gif");
}

#[test]
fn unknown_fields_are_ignored() {
    let mut reader = FormReader::new(100);
    reader.begin_field("subject", "");
    assert!(reader.chunk(b"ignored").is_ok());
    assert!(reader.chunk(b"also before any field").is_ok());
    let form = reader.finish();
    assert_eq!(form.content, "");
    assert!(form.file.is_none());
}

#[test]
fn upload_beyond_the_limit_is_refused() {
    let mut reader = FormReader::new(4);
    reader.begin_field("file", "image/png");
    assert!(reader.chunk(&[1, 2, 3]).is_ok());
    let e = reader.chunk(&[4, 5]).expect_err("five bytes exceed four");
    assert_eq!(e.kind(), ErrorKind::ValidationError);
    assert_eq!(e.status_code(), 400);
    assert!(reader.chunk(&[4]).is_ok());
    assert_eq!(reader.finish().file, Some(vec![1, 2, 3, 4]));
}

#[test]
fn limit_applies_to_the_upload_only() {
    let mut reader = FormReader::new(0);
    reader.begin_field("content", "");
    assert!(reader.chunk(b"long text").is_ok());
    reader.begin_field("file", "image/png");
    assert!(reader.chunk(&[]).is_ok());
    assert!(reader.chunk(&[1]).is_err());
}

#[test]
fn machine_walks_a_new_thread_through_every_stage() {
    let auth = SimpleAuthProvider::new("salt");
    let mut machine = Ingestion::new("9.9.9.9", "b");
    assert_eq!(machine.stage(), Stage::Received);
    let a = machine.submit(form("hi", None, Some(vec![1, 2, 3])));
    assert!(matches!(&a, Action::CheckBan { client_addr } if client_addr == "9.9.9.9"));
    assert_eq!(machine.stage(), Stage::ContentRead);
    let a = machine.ban_verdict(Ok(false));
    assert!(matches!(
        &a,
        Action::SaveMedia { data, content_type } if data == &vec![1, 2, 3] && content_type == "image/png"
    ));
    assert_eq!(machine.stage(), Stage::BanChecked);
    let a = machine.media_saved(Ok("cafe".to_string()));
    assert!(matches!(&a, Action::FindBoard { slug } if slug == "b"));
    assert_eq!(machine.stage(), Stage::MediaPersisted);
    let a = machine.board_found(Ok(Some(board(BOARD, "b"))), &auth, fresh(7, 8, 9));
    assert_eq!(machine.stage(), Stage::BoardResolved);
    match a {
        Action::CreateThread { thread, post } => {
            assert_eq!((thread.id, thread.board_id, thread.last_bump), (7, BOARD, 9));
            assert!(!thread.is_sticky && !thread.is_locked);
            assert_eq!(thread.metadata, "{}");
            assert_eq!((post.id, post.thread_id, post.created_at), (8, 7, 9));
            assert!(post.is_op);
            assert_eq!(post.content, "hi");
            assert_eq!(post.media_id.as_deref(), Some("cafe"));
            assert_eq!(post.metadata, "{}");
            assert_eq!(
                post.user_id_in_thread,
                auth.generate_thread_id("9.9.9.9", &id_text(7))
            );
        }
        other => panic!("expected a new thread, got {other:?}"),
    }
    let a = machine.stored(Ok(()));
    assert!(matches!(
        &a,
        Action::Redirect { location } if location == &format!("/b/thread/{}", id_text(7))
    ));
    assert_eq!(machine.stage(), Stage::Persisted);
    assert!(matches!(machine.answered(), Action::Done));
    assert_eq!(machine.stage(), Stage::Redirected);
    assert!(matches!(machine.answered(), Action::Done));
    assert_eq!(machine.stage(), Stage::Redirected);
}

#[test]
fn machine_skips_the_media_store_without_an_upload() {
    let mut machine = Ingestion::new("9.9.9.9", "b");
    machine.submit(form("hi", None, None));
    assert!(matches!(machine.ban_verdict(Ok(false)), Action::FindBoard { .. }));
    assert_eq!(machine.stage(), Stage::MediaPersisted);
}

#[test]
fn machine_turns_a_banned_client_away_first() {
    let mut machine = Ingestion::new("1.2.3.4", "b");
    machine.submit(form("hi", None, Some(vec![1])));
    let e = rejected_with(machine.ban_verdict(Ok(true)));
    assert_eq!(e.kind(), ErrorKind::Unauthorized);
    assert_eq!(e.status_code(), 403);
    assert_eq!(e.message(), "unauthorized: You are banned.");
    assert_eq!(machine.stage(), Stage::Rejected);
    assert!(matches!(machine.media_saved(Ok("x".to_string())), Action::Done));
}

#[test]
fn machine_ends_the_submission_when_the_ban_check_fails() {
    let mut machine = Ingestion::new("1.2.3.4", "b");
    machine.submit(form("hi", None, Some(vec![1])));
    let e = rejected_with(
        machine.ban_verdict(Err(AppError::Internal("ban list unreachable".to_string()))),
    );
    assert_eq!(e.kind(), ErrorKind::Internal);
    assert_eq!(e.status_code(), 500);
    assert_eq!(e.message(), "internal service error: Failed to check the ban list");
    assert_eq!(machine.stage(), Stage::Rejected);
    assert!(matches!(machine.media_saved(Ok("x".to_string())), Action::Done));
}

#[test]
fn machine_reports_a_failed_save_as_internal() {
    let mut machine = Ingestion::new("9.9.9.9", "b");
    machine.submit(form("hi", None, Some(vec![1])));
    machine.ban_verdict(Ok(false));
    let e = rejected_with(machine.media_saved(Err(MediaError {
        cause: MediaCause::Decode,
        detail: "bad".to_string(),
    })));
    assert_eq!(e.kind(), ErrorKind::Internal);
    assert_eq!(e.status_code(), 500);
    assert_eq!(e.message(), "internal service error: Failed to save media");
}

#[test]
fn machine_reports_a_missing_board_as_not_found() {
    let auth = SimpleAuthProvider::new("salt");
    let mut machine = Ingestion::new("9.9.9.9", "nope");
    machine.submit(form("hi", None, None));
    machine.ban_verdict(Ok(false));
    let e = rejected_with(machine.board_found(Ok(None), &auth, fresh(1, 2, 3)));
    assert_eq!(e.kind(), ErrorKind::NotFound);
    assert_eq!(e.message(), "board not found with ID nope");

    let mut machine = Ingestion::new("9.9.9.9", "b");
    machine.submit(form("hi", None, None));
    machine.ban_verdict(Ok(false));
    let e = rejected_with(machine.board_found(
        Err(AppError::Internal("db".to_string())),
        &auth,
        fresh(1, 2, 3),
    ));
    assert_eq!(e.status_code(), 500);
    assert_eq!(e.message(), "internal service error: db");
    assert_eq!(machine.stage(), Stage::Rejected);
}

#[test]
fn machine_replies_only_to_a_thread_on_the_board() {
    let auth = SimpleAuthProvider::new("salt");
    let start = |thread_id: u128| {
        let mut machine = Ingestion::new("9.9.9.9", "b");
        machine.submit(form("re", Some(thread_id), None));
        machine.ban_verdict(Ok(false));
        let a = machine.board_found(Ok(Some(board(BOARD, "b"))), &auth, fresh(7, 8, 9));
        assert!(matches!(a, Action::FindThread { id } if id == thread_id));
        machine
    };
    let mut machine = start(5);
    match machine.thread_found(Ok(Some(thread(5, BOARD))), &auth, fresh(7, 8, 9)) {
        Action::CreatePost { post } => {
            assert_eq!((post.id, post.thread_id), (8, 5));
            assert!(!post.is_op);
            assert_eq!(
                post.user_id_in_thread,
                auth.generate_thread_id("9.9.9.9", &id_text(5))
            );
        }
        other => panic!("expected a reply, got {other:?}"),
    }
    assert!(matches!(
        &machine.stored(Ok(())),
        Action::Redirect { location } if location == &format!("/b/thread/{}", id_text(5))
    ));

    let mut machine = start(5);
    let a = machine.thread_found(Ok(Some(thread(5, 0xb1))), &auth, fresh(7, 8, 9));
    assert!(matches!(&a, Action::CreateThread { thread, post } if thread.id == 7 && post.is_op));

    let mut machine = start(5);
    let a = machine.thread_found(Ok(None), &auth, fresh(7, 8, 9));
    assert!(matches!(&a, Action::CreateThread { thread, .. } if thread.id == 7));

    let mut machine = start(5);
    let e = rejected_with(machine.thread_found(
        Err(AppError::Internal("db".to_string())),
        &auth,
        fresh(7, 8, 9),
    ));
    assert_eq!(e.status_code(), 500);
    assert_eq!(machine.stage(), Stage::Rejected);
    assert!(matches!(machine.stored(Ok(())), Action::Done));
}

#[test]
fn machine_passes_the_repository_error_on() {
    let auth = SimpleAuthProvider::new("salt");
    let mut machine = Ingestion::new("9.9.9.9", "b");
    machine.submit(form("hi", None, None));
    machine.ban_verdict(Ok(false));
    machine.board_found(Ok(Some(board(BOARD, "b"))), &auth, fresh(7, 8, 9));
    let e = rejected_with(machine.stored(Err(AppError::Conflict("thread is locked".to_string()))));
    assert_eq!(e.status_code(), 409);
    assert_eq!(machine.stage(), Stage::Rejected);
}

#[test]
fn machine_rejects_events_out_of_turn() {
    let mut machine = Ingestion::new("9.9.9.9", "b");
    let e = rejected_with(machine.stored(Ok(())));
    assert_eq!(e.kind(), ErrorKind::Internal);
    assert_eq!(machine.stage(), Stage::Rejected);

    let auth = SimpleAuthProvider::new("salt");
    let mut machine = Ingestion::new("9.9.9.9", "b");
    machine.submit(form("hi", None, None));
    let a = machine.step_with(Event::Stored(Ok(())), &auth, fresh(1, 2, 3));
    assert!(matches!(a, Action::Reject { .. }));
    assert!(matches!(machine.step(Event::Answered, &auth), Action::Done));
}

#[test]
fn step_dispatches_on_the_event() {
    let auth = SimpleAuthProvider::new("salt");
    let mut machine = Ingestion::new("9.9.9.9", "b");
    let f = fresh(7, 8, 9);
    assert!(matches!(
        machine.step_with(Event::Submitted(form("x", None, None)), &auth, f),
        Action::CheckBan { .. }
    ));
    assert!(matches!(
        machine.step_with(Event::BanVerdict(Ok(false)), &auth, f),
        Action::FindBoard { .. }
    ));
    assert!(matches!(
        machine.step_with(Event::BoardFound(Ok(Some(board(BOARD, "b")))), &auth, f),
        Action::CreateThread { .. }
    ));
    assert!(matches!(
        machine.step_with(Event::Stored(Ok(())), &auth, f),
        Action::Redirect { .. }
    ));
    assert!(matches!(machine.step_with(Event::Answered, &auth, f), Action::Done));
    assert_eq!(machine.stage(), Stage::Redirected);
}

#[test]
fn new_thread_without_media() {
    let mut repo = repo();
    let mut store = MemoryMediaStore::new("/static/uploads");
    let auth = SimpleAuthProvider::new("salt");
    let location = ingest_with(
        &mut repo,
        &mut store,
        &auth,
        "9.9.9.9",
        "b",
        form("Hello &lt;world&gt;", None, None),
        fresh(0x77, 0x88, 1_000),
    )
    .expect("the submission is accepted");
    assert_eq!(location, format!("/b/thread/{}", id_text(0x77)));
    let (thread, posts) = repo.get_thread(0x77).expect("read").expect("the thread exists");
    assert_eq!((thread.board_id, thread.last_bump), (BOARD, 1_000));
    assert_eq!(posts.len(), 1);
    assert!(posts[0].is_op);
    assert_eq!(posts[0].content, "Hello &amp;lt;world&amp;gt;");
    assert!(!posts[0].content.contains("greentext"));
    assert_eq!(posts[0].media_id, None);
    assert_eq!(posts[0].user_id_in_thread.len(), 8);
    assert_eq!(store.len(), 0);
}

#[test]
fn new_thread_with_image() {
    let mut repo = repo();
    let mut store = MemoryMediaStore::new("/static/uploads");
    let auth = SimpleAuthProvider::new("salt");
    let image = png();
    let hash = media_id(&image);
    let first = ingest_with(
        &mut repo,
        &mut store,
        &auth,
        "9.9.9.9",
        "b",
        form("pic", None, Some(image.clone())),
        fresh(1, 2, 10),
    );
    assert!(first.is_ok());
    assert_eq!(posts_of(&repo, 1)[0].media_id, Some(hash.clone()));
    assert_eq!(store.len(), 1);
    assert_eq!(store.find(&hash).map(|o| o.original_bytes.clone()), Some(image.clone()));

    let second = ingest_with(
        &mut repo,
        &mut store,
        &auth,
        "9.9.9.9",
        "b",
        form("pic again", None, Some(image)),
        fresh(3, 4, 20),
    );
    assert_eq!(second.ok(), Some(format!("/b/thread/{}", id_text(3))));
    assert_eq!(posts_of(&repo, 3)[0].media_id, Some(hash));
    assert_eq!(store.len(), 1);
}

#[test]
fn reply_goes_to_the_named_thread_and_bumps_it() {
    let mut repo = repo();
    let mut store = MemoryMediaStore::new("/m");
    let auth = SimpleAuthProvider::new("salt");
    for (thread_id, post_id, now) in [(1u128, 11u128, 0i64), (2, 12, 1)] {
        let r = ingest_with(
            &mut repo,
            &mut store,
            &auth,
            "9.9.9.9",
            "b",
            form("op", None, None),
            fresh(thread_id, post_id, now),
        );
        assert!(r.is_ok());
    }
    let reply = ingest_with(
        &mut repo,
        &mut store,
        &auth,
        "8.8.8.8",
        "b",
        form("reply", Some(1), None),
        fresh(99, 13, 2),
    );
    assert_eq!(reply.ok(), Some(format!("/b/thread/{}", id_text(1))));
    let listed: Vec<u128> = repo
        .list_threads_paginated(BOARD, 10, 0)
        .expect("listing")
        .iter()
        .map(|t| t.id)
        .collect();
    assert_eq!(listed, vec![1, 2]);
    let posts = posts_of(&repo, 1);
    assert_eq!(posts.iter().map(|p| (p.id, p.is_op)).collect::<Vec<_>>(), vec![(11, true), (13, false)]);
    assert_ne!(posts[0].user_id_in_thread, posts[1].user_id_in_thread);
    assert!(repo.get_thread(99).expect("read").is_none());
}

#[test]
fn reply_to_an_unknown_thread_starts_a_new_one() {
    let mut repo = repo();
    let mut store = MemoryMediaStore::new("/m");
    let auth = SimpleAuthProvider::new("salt");
    let r = ingest_with(
        &mut repo,
        &mut store,
        &auth,
        "9.9.9.9",
        "b",
        form("lost", Some(0xdead), None),
        fresh(5, 6, 7),
    );
    assert_eq!(r.ok(), Some(format!("/b/thread/{}", id_text(5))));
    assert!(posts_of(&repo, 5)[0].is_op);
    assert!(repo.get_thread(0xdead).expect("read").is_none());
}

#[test]
fn greentext_reaches_the_repository_sanitised() {
    let mut repo = repo();
    let mut store = MemoryMediaStore::new("/m");
    let auth = SimpleAuthProvider::new("salt");
    let r = ingest_with(
        &mut repo,
        &mut store,
        &auth,
        "9.9.9.9",
        "b",
        form(">be me\nnormal", None, None),
        fresh(5, 6, 7),
    );
    assert!(r.is_ok());
    assert_eq!(
        posts_of(&repo, 5)[0].content,
        "<span class=\"greentext\">&gt;be me</span><br />normal"
    );
}

#[test]
fn banned_client_changes_nothing() {
    let mut repo = repo();
    let mut store = MemoryMediaStore::new("/m");
    let auth = banned_provider();
    let e = ingest(&mut repo, &mut store, &auth, "1.2.3.4", "b", form("hi", None, Some(png())))
        .expect_err("the client is banned");
    assert_eq!(e.status_code(), 403);
    assert_eq!(store.len(), 0);
    assert!(repo.list_threads_paginated(BOARD, -1, 0).expect("listing").is_empty());
    assert!(ingest(&mut repo, &mut store, &auth, "1.2.3.5", "b", form("hi", None, None)).is_ok());
}

#[test]
fn refusals_name_their_reason() {
    let mut repo = repo();
    let mut store = MemoryMediaStore::new("/m");
    let auth = banned_provider();
    let banned = ingest_with(
        &mut repo,
        &mut store,
        &auth,
        "1.2.3.4",
        "nope",
        form("hi", None, Some(b"no image".to_vec())),
        fresh(1, 2, 3),
    )
    .expect_err("the ban check comes first");
    assert_eq!(banned.message(), "unauthorized: You are banned.");
    let media = ingest_with(
        &mut repo,
        &mut store,
        &auth,
        "9.9.9.9",
        "nope",
        form("hi", None, Some(b"no image".to_vec())),
        fresh(1, 2, 3),
    )
    .expect_err("the upload is saved before the board is looked up");
    assert_eq!(media.message(), "internal service error: Failed to save media");
    let board = ingest_with(
        &mut repo,
        &mut store,
        &auth,
        "9.9.9.9",
        "nope",
        form("hi", None, Some(png())),
        fresh(1, 2, 3),
    )
    .expect_err("no such board");
    assert_eq!(board.message(), "board not found with ID nope");
    assert_eq!(store.len(), 1);
    assert!(repo.get_thread(1).expect("read").is_none());
}

#[test]
fn unknown_board_is_not_found() {
    let mut repo = repo();
    let mut store = MemoryMediaStore::new("/m");
    let auth = SimpleAuthProvider::new("salt");
    let e = ingest(&mut repo, &mut store, &auth, "9.9.9.9", "nope", form("hi", None, None))
        .expect_err("no such board");
    assert_eq!(e.status_code(), 404);
}

#[test]
fn bad_upload_fails_before_the_repository_is_touched() {
    let mut repo = repo();
    let mut store = MemoryMediaStore::new("/m");
    let auth = SimpleAuthProvider::new("salt");
    let e = ingest(
        &mut repo,
        &mut store,
        &auth,
        "9.9.9.9",
        "b",
        form("hi", None, Some(b"no image".to_vec())),
    )
    .expect_err("the upload is no image");
    assert_eq!(e.status_code(), 500);
    assert!(repo.list_threads_paginated(BOARD, -1, 0).expect("listing").is_empty());
    assert_eq!(store.len(), 0);
}

#[test]
fn failed_insert_leaves_no_rows_and_keeps_the_media() {
    let mut repo = repo();
    let mut store = MemoryMediaStore::new("/m");
    let auth = SimpleAuthProvider::new("salt");
    assert!(ingest_with(
        &mut repo,
        &mut store,
        &auth,
        "9.9.9.9",
        "b",
        form("first", None, None),
        fresh(1, 2, 0),
    )
    .is_ok());
    // The thread row would be new; the post row collides with post 2.
    let e = ingest_with(
        &mut repo,
        &mut store,
        &auth,
        "9.9.9.9",
        "b",
        form("second", None, Some(png())),
        fresh(3, 2, 5),
    )
    .expect_err("the post's key is taken");
    assert_eq!(e.status_code(), 409);
    assert!(repo.get_thread(3).expect("read").is_none());
    assert_eq!(repo.list_threads_paginated(BOARD, -1, 0).expect("listing").len(), 1);
    assert_eq!(store.len(), 1);
}

#[test]
fn fresh_identifiers_are_drawn_for_every_submission() {
    let mut repo = repo();
    let mut store = MemoryMediaStore::new("/m");
    let auth = SimpleAuthProvider::new("salt");
    let one = ingest(&mut repo, &mut store, &auth, "9.9.9.9", "b", form("a", None, None));
    let two = ingest(&mut repo, &mut store, &auth, "9.9.9.9", "b", form("b", None, None));
    let (one, two) = (one.expect("accepted"), two.expect("accepted"));
    assert_ne!(one, two);
    assert!(one.starts_with("/b/thread/"));
    assert_eq!(repo.list_threads_paginated(BOARD, -1, 0).expect("listing").len(), 2);
}

#[test]
fn upload_cap_is_read_from_the_board_settings() {
    let with = |settings: &str| {
        let mut b = board(BOARD, "b");
        b.settings = settings.to_string();
        rusty_board::form::board_upload_limit(&b)
    };
    assert_eq!(with("{\"max_file_size\":1024}"), 1024);
    assert_eq!(with("{\"max_file_size\": 0, \"allowed_mimes\": []}"), 0);
    assert_eq!(with("{}"), 8 * 1024 * 1024);
    assert_eq!(with("null"), 8 * 1024 * 1024);
    assert_eq!(with("not json"), 8 * 1024 * 1024);
    assert_eq!(with("{\"max_file_size\":\"1024\"}"), 8 * 1024 * 1024);
    assert_eq!(with("{\"max_file_size\":-5}"), 8 * 1024 * 1024);
    assert_eq!(with("{\"max_file_size\":1.5}"), 8 * 1024 * 1024);
}
