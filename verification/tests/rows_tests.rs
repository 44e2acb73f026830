use rusty_board::pages::{catalog_title, index_title, thread_title};
use rusty_board::rows::{
    board_from_row, post_from_row, read_id, read_json, read_media_id, read_opt_id,
    thread_from_row, BoardRow, PostRow, ThreadRow,
};

fn blob(id: u128) -> Vec<u8> {
    id.to_be_bytes().to_vec()
}

#[test]
fn identifier_is_read_from_sixteen_bytes() {
    let id = 0x0102_0304_0506_0708_090a_0b0c_0d0e_0f10_u128;
    assert_eq!(read_id(&blob(id)), id);
    assert_eq!(read_id(uuid::Uuid::from_u128(id).as_bytes()), id);
    assert_eq!(read_id(&[0u8; 16]), 0);
    assert_eq!(read_id(&[0xff; 16]), u128::MAX);
}

#[test]
fn blob_of_another_length_is_the_nil_identifier() {
    assert_eq!(read_id(&[]), 0);
    assert_eq!(read_id(&[1; 15]), 0);
    assert_eq!(read_id(&[1; 17]), 0);
    assert_eq!(read_opt_id(&None), 0);
    assert_eq!(read_opt_id(&Some(vec![1, 2, 3])), 0);
    assert_eq!(read_opt_id(&Some(blob(7))), 7);
}

#[test]
fn json_column_is_kept_or_reads_as_null() {
    assert_eq!(read_json(Some("{\"max_file_size\":1024}".to_string())), "{\"max_file_size\":1024}");
    assert_eq!(read_json(Some("[1, 2]".to_string())), "[1, 2]");
    assert_eq!(read_json(Some("{broken".to_string())), "null");
    assert_eq!(read_json(Some(String::new())), "null");
    assert_eq!(read_json(None), "null");
}

#[test]
fn media_column_is_text_or_nothing() {
    assert_eq!(read_media_id(&Some(b"abcdef".to_vec())), Some("abcdef".to_string()));
    assert_eq!(read_media_id(&Some(Vec::new())), None);
    assert_eq!(read_media_id(&None), None);
    assert_eq!(read_media_id(&Some(vec![b'a', 0xff])), Some("a\u{fffd}".to_string()));
}

#[test]
fn board_row_becomes_a_board() {
    let board = board_from_row(
        BoardRow {
            id: Some(blob(9)),
            slug: "b".to_string(),
            title: "Random".to_string(),
            description: Some("anything goes".to_string()),
            settings: Some("{}".to_string()),
            created_at: Some(5),
        },
        100,
    );
    assert_eq!((board.id, board.created_at), (9, 5));
    assert_eq!(board.slug, "b");
    assert_eq!(board.title, "Random");
    assert_eq!(board.description.as_deref(), Some("anything goes"));
    assert_eq!(board.settings, "{}");

    let bare = board_from_row(
        BoardRow {
            id: None,
            slug: "v".to_string(),
            title: String::new(),
            description: None,
            settings: None,
            created_at: None,
        },
        100,
    );
    assert_eq!((bare.id, bare.created_at), (0, 100));
    assert_eq!(bare.settings, "null");
    assert!(bare.description.is_none());
}

#[test]
fn thread_row_becomes_a_thread() {
    let thread = thread_from_row(ThreadRow {
        id: Some(blob(1)),
        board_id: blob(9),
        last_bump: 77,
        is_sticky: Some(true),
        is_locked: None,
        metadata: Some("not json".to_string()),
    });
    assert_eq!((thread.id, thread.board_id, thread.last_bump), (1, 9, 77));
    assert!(thread.is_sticky);
    assert!(!thread.is_locked);
    assert_eq!(thread.metadata, "null");
}

#[test]
fn post_row_becomes_a_post() {
    let post = post_from_row(
        PostRow {
            id: Some(blob(2)),
            thread_id: blob(1),
            user_id_in_thread: None,
            content: "hi".to_string(),
            media_id: Some(Vec::new()),
            is_op: None,
            created_at: None,
            metadata: None,
        },
        42,
    );
    assert_eq!((post.id, post.thread_id, post.created_at), (2, 1, 42));
    assert_eq!(post.user_id_in_thread, "Anonymous");
    assert_eq!(post.content, "hi");
    assert_eq!(post.media_id, None);
    assert!(!post.is_op);
    assert_eq!(post.metadata, "null");

    let full = post_from_row(
        PostRow {
            id: Some(blob(3)),
            thread_id: blob(1),
            user_id_in_thread: Some("abc12345".to_string()),
            content: "op".to_string(),
            media_id: Some(b"ff00".to_vec()),
            is_op: Some(true),
            created_at: Some(7),
            metadata: Some("{\"version\":1}".to_string()),
        },
        42,
    );
    assert_eq!(full.user_id_in_thread, "abc12345");
    assert_eq!(full.media_id.as_deref(), Some("ff00"));
    assert!(full.is_op);
    assert_eq!(full.created_at, 7);
    assert_eq!(full.metadata, "{\"version\":1}");
}

#[test]
fn pages_are_titled() {
    let board = board_from_row(
        BoardRow {
            id: Some(blob(9)),
            slug: "b".to_string(),
            title: "Random".to_string(),
            description: None,
            settings: None,
            created_at: None,
        },
        0,
    );
    let thread = thread_from_row(ThreadRow {
        id: Some(blob(0x0123_4567_89ab_cdef_0123_4567_89ab_cdef)),
        board_id: blob(9),
        last_bump: 0,
        is_sticky: None,
        is_locked: None,
        metadata: None,
    });
    assert_eq!(index_title(&board), "/ b / - Random");
    assert_eq!(catalog_title("b"), "/b/ - Catalog");
    assert_eq!(
        thread_title(&thread, &board),
        "Thread #01234567-89ab-cdef-0123-456789abcdef - / b /"
    );
}
