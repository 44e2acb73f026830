//! The content-addressed media store: identifiers, the sharded layout and
//! the interface that the pipeline saves uploads through.
//!
//! A blob is named by the lowercase hexadecimal SHA-256 digest of its
//! bytes. Below a base (a directory or a URL prefix) it lives two levels
//! deep, under the first two and the next two characters of its name.

use vstd::prelude::*;
use vstd::string::StringExecFns;
use crate::digest::{hex_lower, lemma_hex_lower_shape, sha256, sha256_hex, is_hex_lower_char};
use crate::thumbnail::MediaError;
use crate::text::{append_range, chars_of};

verus! {

/// Number of characters in a media identifier.
pub const MEDIA_ID_LEN: usize = 64;

/// The identifier of a blob: the lowercase hex SHA-256 digest of its bytes.
pub open spec fn media_id_of(data: Seq<u8>) -> Seq<char> {
    hex_lower(sha256(data))
}

/// The smaller of `n` and the length of `id`.
pub open spec fn upto(id: Seq<char>, n: int) -> int {
    if id.len() < n {
        id.len() as int
    } else {
        n
    }
}

/// The first shard of an identifier: its first two characters.
pub open spec fn shard_one(id: Seq<char>) -> Seq<char> {
    id.subrange(0, upto(id, 2))
}

/// The second shard of an identifier: its third and fourth characters.
pub open spec fn shard_two(id: Seq<char>) -> Seq<char> {
    id.subrange(upto(id, 2), upto(id, 4))
}

/// The file name of the thumbnail of a blob.
pub open spec fn thumbnail_name(id: Seq<char>) -> Seq<char> {
    "thumb_"@ + id + ".webp"@
}

/// The place of a blob below its base, from the first separator on:
/// `/<id[0:2]>/<id[2:4]>/<leaf>`.
pub open spec fn sharded_tail(id: Seq<char>, leaf: Seq<char>) -> Seq<char> {
    "/"@ + shard_one(id) + "/"@ + shard_two(id) + "/"@ + leaf
}

/// The shard directory of a blob below `base`.
pub open spec fn shard_dir(base: Seq<char>, id: Seq<char>) -> Seq<char> {
    base + "/"@ + shard_one(id) + "/"@ + shard_two(id)
}

/// The location of the original of a blob below `base`.
pub open spec fn original_at(base: Seq<char>, id: Seq<char>) -> Seq<char> {
    base + sharded_tail(id, id)
}

/// The location of the thumbnail of a blob below `base`.
pub open spec fn thumbnail_at(base: Seq<char>, id: Seq<char>) -> Seq<char> {
    base + sharded_tail(id, thumbnail_name(id))
}

/// Whether `s` ends in `tail`.
pub open spec fn ends_with(s: Seq<char>, tail: Seq<char>) -> bool {
    s.len() >= tail.len() && s.subrange(s.len() - tail.len(), s.len() as int) == tail
}

/// The identifier of a blob.
pub fn media_id(data: &[u8]) -> (id: String)
    ensures
        id@ == media_id_of(data@),
        id@.len() == MEDIA_ID_LEN,
        forall|i: int| 0 <= i < id@.len() ==> is_hex_lower_char(#[trigger] id@[i]),
{
    proof {
        lemma_hex_lower_shape(sha256(data@));
    }
    sha256_hex(data)
}

/// Builds `base` followed by the shard directory of `id`.
pub(crate) fn shard_dir_of(base: &str, id: &[char]) -> (path: String)
    ensures
        path@ == shard_dir(base@, id@),
{
    let n = id.len();
    let two: usize = if n < 2 {
        n
    } else {
        2
    };
    let four: usize = if n < 4 {
        n
    } else {
        4
    };
    let mut path = String::from_str(base);
    path.append("/");
    append_range(&mut path, id, 0, two);
    path.append("/");
    append_range(&mut path, id, two, four);
    path
}

/// The media storage interface.
pub trait MediaStore {
    /// The blobs that the store holds: identifier to original bytes.
    spec fn blobs(&self) -> Map<Seq<char>, Seq<u8>>;

    /// Stores the bytes and answers with their identifier. The declared
    /// content type is advisory. A blob that is already held is not stored
    /// again; a failed save leaves the store as it was.
    fn save_upload(&mut self, data: Vec<u8>, content_type: &str) -> (r: Result<String, MediaError>)
        ensures
            r matches Ok(id) ==> id@ == media_id_of(data@),
            final(self).blobs() == save_result(old(self).blobs(), data@, r is Ok),
    ;

    /// The URL path of the original: it ends in `/<id[0:2]>/<id[2:4]>/<id>`.
    fn get_url(&self, media_id: &str) -> (url: String)
        ensures
            ends_with(url@, sharded_tail(media_id@, media_id@)),
    ;

    /// The URL path of the thumbnail: it ends in
    /// `/<id[0:2]>/<id[2:4]>/thumb_<id>.webp`.
    fn get_thumbnail_url(&self, media_id: &str) -> (url: String)
        ensures
            ends_with(url@, sharded_tail(media_id@, thumbnail_name(media_id@))),
    ;
}

/// The blobs held after a save of `data`: on success the blob is held,
/// under its identifier, and what was held before stays as it was; on
/// failure nothing has changed.
pub open spec fn save_result(held: Map<Seq<char>, Seq<u8>>, data: Seq<u8>, saved: bool) -> Map<
    Seq<char>,
    Seq<u8>,
> {
    if saved && !held.dom().contains(media_id_of(data)) {
        held.insert(media_id_of(data), data)
    } else {
        held
    }
}

/// Content addressing: whatever is held, a blob is held under the hex
/// digest of its bytes after it is saved, and saving the same bytes a
/// second time changes nothing.
pub proof fn lemma_save_twice(held: Map<Seq<char>, Seq<u8>>, data: Seq<u8>)
    ensures
        save_result(held, data, true).dom().contains(media_id_of(data)),
        save_result(save_result(held, data, true), data, true) == save_result(held, data, true),
        save_result(held, data, false) == held,
{
}

/// The layout of a media store on the local file system.
pub struct LocalMediaStore {
    /// Root directory for all uploads, such as `./data/uploads`.
    root_path: String,
    /// Public URL prefix, such as `/static/uploads`.
    url_prefix: String,
}

impl LocalMediaStore {
    /// The root directory.
    pub closed spec fn root(&self) -> Seq<char> {
        self.root_path@
    }

    /// The public URL prefix.
    pub closed spec fn prefix(&self) -> Seq<char> {
        self.url_prefix@
    }

    /// A store rooted at `root` and served under `url_prefix`.
    pub fn new(root: String, url_prefix: String) -> (store: Self)
        ensures
            store.root() == root@,
            store.prefix() == url_prefix@,
    {
        LocalMediaStore { root_path: root, url_prefix }
    }

    /// The directory that holds the blob: `<root>/<h[0:2]>/<h[2:4]>`.
    pub fn get_shard_dir(&self, hash: &str) -> (path: String)
        ensures
            path@ == shard_dir(self.root(), hash@),
    {
        let id = chars_of(hash);
        shard_dir_of(self.root_path.as_str(), id.as_slice())
    }

    /// The file of the original: `<root>/<h[0:2]>/<h[2:4]>/<h>`.
    pub fn get_sharded_path(&self, hash: &str) -> (path: String)
        ensures
            path@ == original_at(self.root(), hash@),
            ends_with(path@, sharded_tail(hash@, hash@)),
    {
        let id = chars_of(hash);
        let mut path = shard_dir_of(self.root_path.as_str(), id.as_slice());
        path.append("/");
        path.append(hash);
        proof {
            lemma_tail(self.root(), sharded_tail(hash@, hash@));
            assert(path@ =~= original_at(self.root(), hash@));
        }
        path
    }

    /// The file of the thumbnail: `<root>/<h[0:2]>/<h[2:4]>/thumb_<h>.webp`.
    pub fn get_thumbnail_path(&self, hash: &str) -> (path: String)
        ensures
            path@ == thumbnail_at(self.root(), hash@),
            ends_with(path@, sharded_tail(hash@, thumbnail_name(hash@))),
    {
        let id = chars_of(hash);
        let mut path = shard_dir_of(self.root_path.as_str(), id.as_slice());
        path.append("/");
        path.append("thumb_");
        path.append(hash);
        path.append(".webp");
        proof {
            lemma_tail(self.root(), sharded_tail(hash@, thumbnail_name(hash@)));
            assert(path@ =~= thumbnail_at(self.root(), hash@));
        }
        path
    }

    /// The URL path of the original: `<prefix>/<h[0:2]>/<h[2:4]>/<h>`.
    pub fn get_url(&self, media_id: &str) -> (url: String)
        ensures
            url@ == original_at(self.prefix(), media_id@),
            ends_with(url@, sharded_tail(media_id@, media_id@)),
    {
        let id = chars_of(media_id);
        let mut url = shard_dir_of(self.url_prefix.as_str(), id.as_slice());
        url.append("/");
        url.append(media_id);
        proof {
            lemma_tail(self.prefix(), sharded_tail(media_id@, media_id@));
            assert(url@ =~= original_at(self.prefix(), media_id@));
        }
        url
    }

    /// The URL path of the thumbnail:
    /// `<prefix>/<h[0:2]>/<h[2:4]>/thumb_<h>.webp`.
    pub fn get_thumbnail_url(&self, media_id: &str) -> (url: String)
        ensures
            url@ == thumbnail_at(self.prefix(), media_id@),
            ends_with(url@, sharded_tail(media_id@, thumbnail_name(media_id@))),
    {
        let id = chars_of(media_id);
        let mut url = shard_dir_of(self.url_prefix.as_str(), id.as_slice());
        url.append("/");
        url.append("thumb_");
        url.append(media_id);
        url.append(".webp");
        proof {
            lemma_tail(self.prefix(), sharded_tail(media_id@, thumbnail_name(media_id@)));
            assert(url@ =~= thumbnail_at(self.prefix(), media_id@));
        }
        url
    }
}

/// Whatever the base, a location ends in its sharded tail.
pub proof fn lemma_tail(base: Seq<char>, tail: Seq<char>)
    ensures
        ends_with(base + tail, tail),
{
    assert((base + tail).subrange((base + tail).len() - tail.len(), (base + tail).len() as int)
        =~= tail);
}

/// Sharded URL agreement: for every identifier, the URL of the original
/// ends in `/<id[0:2]>/<id[2:4]>/<id>` and that of the thumbnail in
/// `/<id[0:2]>/<id[2:4]>/thumb_<id>.webp`, under any prefix.
pub proof fn lemma_urls_follow_layout(prefix: Seq<char>, id: Seq<char>)
    ensures
        ends_with(original_at(prefix, id), "/"@ + shard_one(id) + "/"@ + shard_two(id) + "/"@ + id),
        ends_with(
            thumbnail_at(prefix, id),
            "/"@ + shard_one(id) + "/"@ + shard_two(id) + "/"@ + thumbnail_name(id),
        ),
{
    lemma_tail(prefix, sharded_tail(id, id));
    lemma_tail(prefix, sharded_tail(id, thumbnail_name(id)));
}

} // verus!
