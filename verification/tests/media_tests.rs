use rusty_board::blobs::MemoryMediaStore;
use rusty_board::media::{media_id, LocalMediaStore, MediaStore};
use rusty_board::save::{SaveAction, SaveEvent, SaveJob, SaveStage};
use rusty_board::thumbnail::{
    check_encoding, check_size, classify, derive_thumbnail, opens_as_webp, report, Failure,
    ImageFault, MediaCause, MediaError, Step,
};

const ABC: &str = "ba7816bf8f01cfea414140de5dae2223b00361a396177a9cb410ff61f20015ad";

fn store() -> LocalMediaStore {
    LocalMediaStore::new("./data/uploads".to_string(), "/static/uploads".to_string())
}

fn png(width: u32, height: u32) -> Vec<u8> {
    let img = image::DynamicImage::ImageRgb8(image::RgbImage::from_pixel(
        width,
        height,
        image::Rgb([200, 30, 30]),
    ));
    let mut out = std::io::Cursor::new(Vec::new());
    assert!(img.write_to(&mut out, image::ImageFormat::Png).is_ok());
    out.into_inner()
}

fn path_of(action: &SaveAction) -> String {
    match action {
        SaveAction::CreateDir { path }
        | SaveAction::Probe { path }
        | SaveAction::WriteUpload { path }
        | SaveAction::WriteThumbnail { path, .. }
        | SaveAction::Remove { path } => path.clone(),
        other => panic!("no path in {other:?}"),
    }
}

fn failure(cause: MediaCause) -> MediaError {
    MediaError { cause, detail: "test".to_string() }
}

#[test]
fn media_id_is_the_hex_digest() {
    assert_eq!(media_id(b"abc"), ABC);
    assert_eq!(media_id(b"abc").len(), 64);
}

#[test]
fn paths_follow_the_sharded_layout() {
    let store = store();
    assert_eq!(store.get_shard_dir(ABC), "./data/uploads/ba/78");
    assert_eq!(store.get_sharded_path(ABC), format!("./data/uploads/ba/78/{ABC}"));
    assert_eq!(
        store.get_thumbnail_path(ABC),
        format!("./data/uploads/ba/78/thumb_{ABC}.webp")
    );
}

#[test]
fn urls_follow_the_sharded_layout() {
    let store = store();
    assert_eq!(store.get_url(ABC), format!("/static/uploads/ba/78/{ABC}"));
    assert_eq!(
        store.get_thumbnail_url(ABC),
        format!("/static/uploads/ba/78/thumb_{ABC}.webp")
    );
}

#[test]
fn url_ends_in_the_shards_and_the_identifier() {
    let store = store();
    for id in [ABC, "0123456789", "abcd", "ffffeeee"] {
        let url = store.get_url(id);
        assert!(url.ends_with(&format!("/{}/{}/{}", &id[0..2], &id[2..4], id)));
        let thumb = store.get_thumbnail_url(id);
        assert!(thumb.ends_with(&format!("/{}/{}/thumb_{}.webp", &id[0..2], &id[2..4], id)));
    }
}

#[test]
fn short_identifiers_shard_as_far_as_they_go() {
    let store = store();
    assert_eq!(store.get_url("abc"), "/static/uploads/ab/c/abc");
    assert_eq!(store.get_url("a"), "/static/uploads/a//a");
    assert_eq!(store.get_url(""), "/static/uploads///");
}

#[test]
fn memory_store_urls_agree_with_the_layout() {
    let store = MemoryMediaStore::new("/static/uploads");
    assert_eq!(store.get_url(ABC), format!("/static/uploads/ba/78/{ABC}"));
    assert_eq!(
        store.get_thumbnail_url(ABC),
        format!("/static/uploads/ba/78/thumb_{ABC}.webp")
    );
}

#[test]
fn thumbnail_of_a_png_is_webp() {
    let thumb = derive_thumbnail(&png(2, 2)).expect("a PNG has a thumbnail");
    assert_eq!(&thumb.bytes[0..4], b"RIFF");
    assert_eq!(&thumb.bytes[8..12], b"WEBP");
    assert!(opens_as_webp(&thumb.bytes));
    let decoded = image::load_from_memory(&thumb.bytes).expect("the thumbnail decodes");
    assert!(decoded.width() <= 250 && decoded.height() <= 250);
    assert_eq!((decoded.width(), decoded.height()), (thumb.width, thumb.height));
}

#[test]
fn thumbnail_fits_the_bounds_and_keeps_the_shape() {
    let thumb = derive_thumbnail(&png(1000, 500)).expect("a PNG has a thumbnail");
    assert_eq!((thumb.source_width, thumb.source_height), (1000, 500));
    assert_eq!((thumb.width, thumb.height), (250, 125));
    let decoded = image::load_from_memory(&thumb.bytes).expect("the thumbnail decodes");
    assert_eq!((decoded.width(), decoded.height()), (250, 125));
    let tall = derive_thumbnail(&png(10, 1000)).expect("a PNG has a thumbnail");
    assert_eq!((tall.width, tall.height), (3, 250));
}

#[test]
fn bytes_that_are_no_image_have_no_thumbnail() {
    let err = derive_thumbnail(b"this is not an image").expect_err("text is no image");
    assert_eq!(err.cause, MediaCause::UnsupportedFormat);
    let broken = derive_thumbnail(&png(4, 4)[..20]).expect_err("a truncated PNG is no image");
    assert!(matches!(broken.cause, MediaCause::Decode | MediaCause::Io));
}

#[test]
fn sizes_are_checked_before_encoding() {
    assert!(check_size(1000, 500, 250, 125).is_ok());
    assert!(check_size(1, 1, 250, 250).is_ok());
    assert_eq!(check_size(0, 500, 1, 125).err().map(|e| e.cause), Some(MediaCause::Decode));
    assert_eq!(check_size(500, 0, 125, 1).err().map(|e| e.cause), Some(MediaCause::Decode));
    assert_eq!(check_size(1000, 500, 251, 125).err().map(|e| e.cause), Some(MediaCause::Encode));
    assert_eq!(check_size(500, 1000, 125, 251).err().map(|e| e.cause), Some(MediaCause::Encode));
    assert_eq!(check_size(0, 0, 999, 999).err().map(|e| e.cause), Some(MediaCause::Decode));
}

#[test]
fn encoder_output_is_checked() {
    assert!(check_encoding(b"RIFF1234WEBPVP8L").is_ok());
    assert_eq!(check_encoding(b"\x89PNG\r\n").err().map(|e| e.cause), Some(MediaCause::Encode));
    assert_eq!(check_encoding(b"").err().map(|e| e.cause), Some(MediaCause::Encode));
}

#[test]
fn faults_are_reported_with_their_description() {
    let e = report(
        Failure { fault: ImageFault::Limits, detail: "too large".to_string() },
        Step::Decode,
    );
    assert_eq!(e.cause, MediaCause::Decode);
    assert_eq!(e.detail, "too large");
    let e = report(
        Failure { fault: ImageFault::Unsupported, detail: "no such format".to_string() },
        Step::Encode,
    );
    assert_eq!(e.cause, MediaCause::UnsupportedFormat);
    assert_eq!(e.detail, "no such format");
}

#[test]
fn small_images_are_scaled_up_to_the_bounds() {
    let thumb = derive_thumbnail(&png(2, 1)).expect("a PNG has a thumbnail");
    assert_eq!((thumb.source_width, thumb.source_height), (2, 1));
    assert_eq!((thumb.width, thumb.height), (250, 125));
}

#[test]
fn webp_is_told_by_its_container() {
    assert!(opens_as_webp(b"RIFF\x00\x00\x00\x00WEBPVP8L"));
    assert!(opens_as_webp(b"RIFF1234WEBP"));
    assert!(!opens_as_webp(b"RIFF1234WEB"));
    assert!(!opens_as_webp(b"RIFF1234WAVE"));
    assert!(!opens_as_webp(b"riff1234WEBP"));
    assert!(!opens_as_webp(b""));
}

#[test]
fn faults_are_reported_under_their_cause() {
    assert_eq!(classify(ImageFault::Unsupported, Step::Decode), MediaCause::UnsupportedFormat);
    assert_eq!(classify(ImageFault::Unsupported, Step::Encode), MediaCause::UnsupportedFormat);
    assert_eq!(classify(ImageFault::Io, Step::Decode), MediaCause::Io);
    assert_eq!(classify(ImageFault::Decoding, Step::Decode), MediaCause::Decode);
    assert_eq!(classify(ImageFault::Limits, Step::Decode), MediaCause::Decode);
    assert_eq!(classify(ImageFault::Parameter, Step::Encode), MediaCause::Encode);
    assert_eq!(classify(ImageFault::Encoding, Step::Encode), MediaCause::Encode);
}

#[test]
fn memory_store_saves_under_the_content_hash() {
    let mut store = MemoryMediaStore::new("/m");
    let data = png(2, 2);
    let expected = media_id(&data);
    let id = store.save_upload(data.clone(), "image/png").expect("the PNG is saved");
    assert_eq!(id, expected);
    assert_eq!(store.len(), 1);
    let object = store.find(&id).expect("the blob is held");
    assert_eq!(object.hash, id);
    assert_eq!(object.original_bytes, data);
    assert_eq!(&object.thumbnail_bytes[8..12], b"WEBP");
}

#[test]
fn saving_the_same_bytes_twice_stores_them_once() {
    let mut store = MemoryMediaStore::new("/m");
    let data = png(2, 2);
    let first = store.save_upload(data.clone(), "image/png").expect("saved");
    let second = store.save_upload(data, "application/octet-stream").expect("saved again");
    assert_eq!(first, second);
    assert_eq!(store.len(), 1);
}

#[test]
fn declared_content_type_is_only_advice() {
    let mut store = MemoryMediaStore::new("/m");
    assert!(store.save_upload(png(3, 3), "text/plain").is_ok());
    assert!(store.save_upload(b"plain text".to_vec(), "image/png").is_err());
}

#[test]
fn failed_save_leaves_nothing_behind() {
    let mut store = MemoryMediaStore::new("/m");
    let data = b"no image".to_vec();
    let id = media_id(&data);
    assert!(store.save_upload(data, "image/png").is_err());
    assert_eq!(store.len(), 0);
    assert!(store.find(&id).is_none());
}

#[test]
fn save_job_of_a_new_blob_writes_renames_and_thumbnails() {
    let store = store();
    let data = b"abc".to_vec();
    let (mut job, first) = SaveJob::begin_with(&store, data.clone(), 7);
    assert_eq!(job.id().as_str(), ABC);
    assert_eq!(job.data(), &data);
    assert_eq!(path_of(&first), "./data/uploads/ba/78");
    let probe = job.advance(SaveEvent::Done);
    assert!(matches!(probe, SaveAction::Probe { .. }));
    assert_eq!(path_of(&probe), format!("./data/uploads/ba/78/{ABC}"));
    let write = job.advance(SaveEvent::Missing);
    assert!(matches!(write, SaveAction::WriteUpload { .. }));
    let temp = path_of(&write);
    assert_eq!(
        temp,
        format!("./data/uploads/ba/78/tmp_00000000-0000-0000-0000-000000000007_{ABC}")
    );
    assert!(matches!(job.advance(SaveEvent::Done), SaveAction::Probe { .. }));
    match job.advance(SaveEvent::Missing) {
        SaveAction::Rename { from, to } => {
            assert_eq!(from, temp);
            assert_eq!(to, format!("./data/uploads/ba/78/{ABC}"));
        }
        other => panic!("expected a rename, got {other:?}"),
    }
    assert!(matches!(job.advance(SaveEvent::Done), SaveAction::DeriveThumbnail));
    match job.advance(SaveEvent::Thumbnail(Ok(vec![1, 2, 3]))) {
        SaveAction::WriteThumbnail { path, bytes } => {
            assert_eq!(path, format!("./data/uploads/ba/78/thumb_{ABC}.webp"));
            assert_eq!(bytes, vec![1, 2, 3]);
        }
        other => panic!("expected a thumbnail write, got {other:?}"),
    }
    match job.advance(SaveEvent::Done) {
        SaveAction::Finish { result } => assert_eq!(result.ok(), Some(ABC.to_string())),
        other => panic!("expected the end, got {other:?}"),
    }
    assert_eq!(job.stage(), SaveStage::Finished);
    assert!(matches!(job.advance(SaveEvent::Done), SaveAction::Idle));
}

#[test]
fn save_job_does_not_write_a_blob_that_is_there() {
    let (mut job, _) = SaveJob::begin_with(&store(), b"abc".to_vec(), 1);
    job.advance(SaveEvent::Done);
    match job.advance(SaveEvent::Found) {
        SaveAction::Finish { result } => assert_eq!(result.ok(), Some(ABC.to_string())),
        other => panic!("expected the end, got {other:?}"),
    }
}

#[test]
fn save_job_yields_to_a_writer_that_was_faster() {
    let (mut job, _) = SaveJob::begin_with(&store(), b"abc".to_vec(), 1);
    job.advance(SaveEvent::Done);
    let temp = path_of(&job.advance(SaveEvent::Missing));
    job.advance(SaveEvent::Done);
    let drop = job.advance(SaveEvent::Found);
    assert!(matches!(drop, SaveAction::Remove { .. }));
    assert_eq!(path_of(&drop), temp);
    match job.advance(SaveEvent::Done) {
        SaveAction::Finish { result } => assert_eq!(result.ok(), Some(ABC.to_string())),
        other => panic!("expected the end, got {other:?}"),
    }
}

#[test]
fn save_job_rolls_the_blob_back_when_the_thumbnail_fails() {
    let (mut job, _) = SaveJob::begin_with(&store(), b"abc".to_vec(), 1);
    job.advance(SaveEvent::Done);
    job.advance(SaveEvent::Missing);
    job.advance(SaveEvent::Done);
    job.advance(SaveEvent::Missing);
    job.advance(SaveEvent::Done);
    let rollback = job.advance(SaveEvent::Thumbnail(Err(failure(MediaCause::Decode))));
    assert!(matches!(rollback, SaveAction::Remove { .. }));
    assert_eq!(path_of(&rollback), format!("./data/uploads/ba/78/{ABC}"));
    match job.advance(SaveEvent::Done) {
        SaveAction::Finish { result } => {
            assert_eq!(result.err().map(|e| e.cause), Some(MediaCause::Decode))
        }
        other => panic!("expected the end, got {other:?}"),
    }
}

#[test]
fn save_job_retries_the_thumbnail_removal_once() {
    let (mut job, _) = SaveJob::begin_with(&store(), b"abc".to_vec(), 1);
    job.advance(SaveEvent::Done);
    job.advance(SaveEvent::Missing);
    job.advance(SaveEvent::Done);
    job.advance(SaveEvent::Missing);
    job.advance(SaveEvent::Done);
    job.advance(SaveEvent::Thumbnail(Ok(vec![9])));
    let thumb = format!("./data/uploads/ba/78/thumb_{ABC}.webp");
    let first = job.advance(SaveEvent::Failed);
    assert!(matches!(first, SaveAction::Remove { .. }));
    assert_eq!(path_of(&first), thumb);
    assert_eq!(job.stage(), SaveStage::DropThumbnail { retried: false });
    let again = job.advance(SaveEvent::Failed);
    assert_eq!(path_of(&again), thumb);
    assert_eq!(job.stage(), SaveStage::DropThumbnail { retried: true });
    let blob = job.advance(SaveEvent::Failed);
    assert_eq!(path_of(&blob), format!("./data/uploads/ba/78/{ABC}"));
    match job.advance(SaveEvent::Done) {
        SaveAction::Finish { result } => {
            assert_eq!(result.err().map(|e| e.cause), Some(MediaCause::Io))
        }
        other => panic!("expected the end, got {other:?}"),
    }
}

#[test]
fn save_job_fails_when_the_directory_cannot_be_made() {
    let (mut job, _) = SaveJob::begin_with(&store(), b"abc".to_vec(), 1);
    match job.advance(SaveEvent::Failed) {
        SaveAction::Finish { result } => {
            assert_eq!(result.err().map(|e| e.cause), Some(MediaCause::Io))
        }
        other => panic!("expected the end, got {other:?}"),
    }
}

#[test]
fn save_job_removes_the_temporary_file_when_the_rename_fails() {
    let (mut job, _) = SaveJob::begin_with(&store(), b"abc".to_vec(), 1);
    job.advance(SaveEvent::Done);
    let temp = path_of(&job.advance(SaveEvent::Missing));
    job.advance(SaveEvent::Done);
    job.advance(SaveEvent::Missing);
    let drop = job.advance(SaveEvent::Failed);
    assert_eq!(path_of(&drop), temp);
    match job.advance(SaveEvent::Failed) {
        SaveAction::Finish { result } => {
            assert_eq!(result.err().map(|e| e.cause), Some(MediaCause::Io))
        }
        other => panic!("expected the end, got {other:?}"),
    }
}

#[test]
fn two_jobs_for_the_same_bytes_use_different_temporary_files() {
    let (mut one, _) = SaveJob::begin(&store(), b"abc".to_vec());
    let (mut two, _) = SaveJob::begin(&store(), b"abc".to_vec());
    assert_eq!(one.id(), two.id());
    one.advance(SaveEvent::Done);
    two.advance(SaveEvent::Done);
    assert_ne!(
        path_of(&one.advance(SaveEvent::Missing)),
        path_of(&two.advance(SaveEvent::Missing))
    );
}
