//! A media store that keeps its blobs in memory.

use vstd::prelude::*;
use vstd::string::StringExecFns;
use crate::media::{
    lemma_tail, media_id, media_id_of, original_at, shard_dir_of, sharded_tail, thumbnail_at,
    thumbnail_name, MediaStore,
};
use crate::text::{chars_of, same_text};
use crate::thumbnail::{derive_thumbnail, derived, MediaCause, MediaError, ThumbnailView};

verus! {

/// A stored blob: its content hash, its bytes and its thumbnail.
#[derive(Debug)]
pub struct MediaObject {
    /// The lowercase hex SHA-256 digest of the original; the blob's name.
    pub hash: String,
    pub original_bytes: Vec<u8>,
    pub thumbnail_bytes: Vec<u8>,
}

/// An in-memory media store.
pub struct MemoryMediaStore {
    url_prefix: String,
    objects: Vec<MediaObject>,
}

/// The blobs of a list of objects: identifier to original bytes.
pub open spec fn blob_map(objects: Seq<MediaObject>) -> Map<Seq<char>, Seq<u8>>
    decreases objects.len(),
{
    if objects.len() == 0 {
        Map::empty()
    } else {
        blob_map(objects.drop_last()).insert(objects.last().hash@, objects.last().original_bytes@)
    }
}

/// An identifier is held exactly when some object carries it.
pub proof fn lemma_blob_map_dom(objects: Seq<MediaObject>, id: Seq<char>)
    ensures
        blob_map(objects).dom().contains(id) <==> exists|i: int|
            0 <= i < objects.len() && (#[trigger] objects[i]).hash@ == id,
    decreases objects.len(),
{
    if objects.len() > 0 {
        let init = objects.drop_last();
        lemma_blob_map_dom(init, id);
        if blob_map(objects).dom().contains(id) {
            if objects.last().hash@ == id {
                assert(objects[objects.len() - 1].hash@ == id);
            } else {
                let i = choose|i: int| 0 <= i < init.len() && (#[trigger] init[i]).hash@ == id;
                assert(objects[i].hash@ == id);
            }
        }
        if exists|i: int| 0 <= i < objects.len() && (#[trigger] objects[i]).hash@ == id {
            let i = choose|i: int| 0 <= i < objects.len() && (#[trigger] objects[i]).hash@ == id;
            if i < init.len() {
                assert(init[i].hash@ == id);
            }
        }
    }
}

/// Whether `now` is `before` with one object added for `data`: the object
/// carries the blob's identifier, its bytes and the bytes of its derived
/// thumbnail.
pub open spec fn added(before: Seq<MediaObject>, now: Seq<MediaObject>, data: Seq<u8>) -> bool {
    &&& now.len() == before.len() + 1
    &&& now.drop_last() == before
    &&& now.last().hash@ == media_id_of(data)
    &&& now.last().original_bytes@ == data
    &&& derived(data) is Ok
    &&& now.last().thumbnail_bytes@ == derived(data)->Ok_0.bytes
}

impl MemoryMediaStore {
    /// The public URL prefix.
    pub closed spec fn prefix(&self) -> Seq<char> {
        self.url_prefix@
    }

    /// The stored objects, oldest first.
    pub closed spec fn objects(&self) -> Seq<MediaObject> {
        self.objects@
    }

    /// An empty store served under `url_prefix`.
    ///
    /// The store keeps each blob with the thumbnail that
    /// [`derive_thumbnail`] makes of it; a blob that has none is refused.
    pub fn new(url_prefix: &str) -> (store: Self)
        ensures
            store.prefix() == url_prefix@,
            store.objects() == Seq::<MediaObject>::empty(),
            store.blobs() == Map::<Seq<char>, Seq<u8>>::empty(),
    {
        MemoryMediaStore { url_prefix: String::from_str(url_prefix), objects: Vec::new() }
    }

    /// The number of blobs held.
    pub fn len(&self) -> (n: usize)
        ensures
            n == self.objects().len(),
    {
        self.objects.len()
    }

    /// Finds the object with the given identifier.
    pub fn find(&self, media_id: &str) -> (found: Option<&MediaObject>)
        ensures
            found is Some <==> self.blobs().dom().contains(media_id@),
            found matches Some(object) ==> object.hash@ == media_id@,
    {
        match self.position(media_id) {
            Some(i) => Some(&self.objects[i]),
            None => None,
        }
    }

    /// Finds the position of the object with the given identifier.
    fn position(&self, media_id: &str) -> (found: Option<usize>)
        ensures
            found is Some <==> self.blobs().dom().contains(media_id@),
            found matches Some(i) ==> i < self.objects.len() && self.objects@[i as int].hash@
                == media_id@,
    {
        let mut i: usize = 0;
        while i < self.objects.len()
            invariant
                i <= self.objects.len(),
                forall|j: int| 0 <= j < i ==> (#[trigger] self.objects@[j]).hash@ != media_id@,
            decreases self.objects.len() - i,
        {
            if same_text(self.objects[i].hash.as_str(), media_id) {
                proof {
                    lemma_blob_map_dom(self.objects@, media_id@);
                }
                return Some(i);
            }
            i = i + 1;
        }
        proof {
            lemma_blob_map_dom(self.objects@, media_id@);
        }
        None
    }
}

impl MediaStore for MemoryMediaStore {
    closed spec fn blobs(&self) -> Map<Seq<char>, Seq<u8>> {
        blob_map(self.objects@)
    }

    fn save_upload(&mut self, data: Vec<u8>, content_type: &str) -> (r: Result<String, MediaError>)
        ensures
            final(self).prefix() == old(self).prefix(),
            r is Ok <==> old(self).blobs().dom().contains(media_id_of(data@)) || derived(data@)
                is Ok,
            r matches Err(e) ==> derived(data@) == Err::<ThumbnailView, MediaCause>(e.cause),
            r is Err || old(self).blobs().dom().contains(media_id_of(data@))
                ==> final(self).objects() == old(self).objects(),
            r is Ok && !old(self).blobs().dom().contains(media_id_of(data@)) ==> added(
                old(self).objects(),
                final(self).objects(),
                data@,
            ),
    {
        let id = media_id(data.as_slice());
        if self.position(id.as_str()).is_some() {
            return Ok(id);
        }
        let thumbnail = match derive_thumbnail(data.as_slice()) {
            Ok(thumbnail) => thumbnail.bytes,
            Err(e) => {
                return Err(e);
            },
        };
        let ghost before = self.objects@;
        let object = MediaObject { hash: id.clone(), original_bytes: data, thumbnail_bytes: thumbnail };
        self.objects.push(object);
        assert(self.objects@.drop_last() =~= before);
        Ok(id)
    }

    fn get_url(&self, media_id: &str) -> (url: String)
        ensures
            url@ == original_at(self.prefix(), media_id@),
    {
        let id = chars_of(media_id);
        let mut url = shard_dir_of(self.url_prefix.as_str(), id.as_slice());
        url.append("/");
        url.append(media_id);
        proof {
            lemma_tail(self.prefix(), sharded_tail(media_id@, media_id@));
            assert(url@ =~= original_at(self.prefix(), media_id@));
        }
        url
    }

    fn get_thumbnail_url(&self, media_id: &str) -> (url: String)
        ensures
            url@ == thumbnail_at(self.prefix(), media_id@),
    {
        let id = chars_of(media_id);
        let mut url = shard_dir_of(self.url_prefix.as_str(), id.as_slice());
        url.append("/");
        url.append("thumb_");
        url.append(media_id);
        url.append(".webp");
        proof {
            lemma_tail(self.prefix(), sharded_tail(media_id@, thumbnail_name(media_id@)));
            assert(url@ =~= thumbnail_at(self.prefix(), media_id@));
        }
        url
    }
}

} // verus!
