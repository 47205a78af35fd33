//! Eviction: taking from the cache, and from disk, what is no favorite.

use crate::ids::lemma_take_next;
use crate::ids::lemma_to_set_push;
use crate::location::local_file;
use crate::media::media_file;
use crate::media::media_path;
use crate::media::MediaKind;
use crate::model::post_type_of;
use crate::model::PostType;
use crate::store::PostStore;
use crate::store::StoreView;
use std::path::PathBuf;
use vstd::prelude::*;

verus! {

/// One file that eviction takes from disk.
#[derive(Debug)]
pub struct Removal {
    /// The file.
    pub path: String,
    /// Whether the file has to be there. One that has to be is deleted
    /// without looking, so that eviction fails where it is missing; another
    /// is deleted only if it exists.
    pub must_exist: bool,
}

/// What a `Removal` holds.
pub struct RemovalView {
    pub path: Seq<char>,
    pub must_exist: bool,
}

impl View for Removal {
    type V = RemovalView;

    open spec fn view(&self) -> RemovalView {
        RemovalView { path: self.path@, must_exist: self.must_exist }
    }
}

/// What eviction takes from disk for one post, in the order in which it does.
#[derive(Debug)]
pub struct Eviction {
    /// The post.
    pub id: u32,
    /// Its files in the cache directory, the first one first.
    pub files: Vec<Removal>,
    /// The file of its video, where the post is a video whose place names a
    /// file on this machine. It goes last, and only if it exists.
    pub video: Option<PathBuf>,
}

/// What an `Eviction` holds.
pub struct EvictionView {
    pub id: u32,
    pub files: Seq<RemovalView>,
    pub video: Option<PathBuf>,
}

/// What the removals in `files` hold.
pub open spec fn removal_views(files: Seq<Removal>) -> Seq<RemovalView> {
    files.map_values(|r: Removal| r@)
}

impl View for Eviction {
    type V = EvictionView;

    open spec fn view(&self) -> EvictionView {
        EvictionView { id: self.id, files: removal_views(self.files@), video: self.video }
    }
}

/// The removal of the file of `kind` of the post `id`.
pub open spec fn media_removal(
    cache_dir: Seq<char>,
    kind: MediaKind,
    id: u32,
    must_exist: bool,
) -> RemovalView {
    RemovalView { path: media_path(cache_dir, kind, id), must_exist }
}

/// The files in the cache directory that eviction takes from disk for the
/// post `id` of kind `kind`.
///
/// The thumbnail comes first and has to be there. After it, for an image,
/// the full image and the sample, and for a GIF, the GIF: each of these only
/// if it exists.
pub open spec fn removals_for(cache_dir: Seq<char>, id: u32, kind: Option<PostType>) -> Seq<
    RemovalView,
> {
    let thumbnail = seq![media_removal(cache_dir, MediaKind::Thumbnail, id, true)];
    match kind {
        Some(PostType::Image) => thumbnail + seq![
            media_removal(cache_dir, MediaKind::Image, id, false),
            media_removal(cache_dir, MediaKind::Sample, id, false),
        ],
        Some(PostType::Gif) => thumbnail + seq![media_removal(cache_dir, MediaKind::Gif, id, false)],
        _ => thumbnail,
    }
}

/// What eviction takes from disk for the post `id` of kind `kind`, whose
/// place, if it is a video, names the file `video`.
pub open spec fn eviction_of(
    cache_dir: Seq<char>,
    id: u32,
    kind: Option<PostType>,
    video: Option<PathBuf>,
) -> EvictionView {
    EvictionView {
        id,
        files: removals_for(cache_dir, id, kind),
        video: if kind == Some(PostType::Video) {
            video
        } else {
            None
        },
    }
}

/// The posts that eviction takes: those that are no favorites.
pub open spec fn evictable<H, F>(store: StoreView<H, F>) -> Set<u32> {
    store.posts.dom().difference(store.favorites)
}

/// `store` without what it holds of the posts in `gone`: the posts
/// themselves, and what was kept of their media.
pub open spec fn without<H, F>(store: StoreView<H, F>, gone: Set<u32>) -> StoreView<H, F> {
    StoreView {
        posts: store.posts.remove_keys(gone),
        thumbnails: store.thumbnails.remove_keys(gone),
        samples: store.samples.remove_keys(gone),
        images: store.images.remove_keys(gone),
        gifs: store.gifs.remove_keys(gone),
        gif_frames: store.gif_frames.remove_keys(gone),
        videos: store.videos.remove_keys(gone),
        ..store
    }
}

/// `store` after eviction: the posts that are no favorites are gone, and
/// with them what was kept of their media. Votes, favorites, comments and
/// results stay as they are.
pub open spec fn purged<H, F>(store: StoreView<H, F>) -> StoreView<H, F> {
    without(store, evictable(store))
}

/// The kind of the post `id` of `store`.
pub open spec fn kind_in<H, F>(store: StoreView<H, F>, id: u32) -> Option<PostType> {
    post_type_of(store.posts[id].file.ext)
}

/// Whether `entry` is what eviction owes the post that it names: the post is
/// in `store`, the files are those of its kind, and a video's file is named
/// only for a video of which `store` knows the place.
pub open spec fn entry_matches<H, F>(store: StoreView<H, F>, entry: EvictionView) -> bool {
    &&& store.posts.contains_key(entry.id)
    &&& entry.files == removals_for(store.cache_dir, entry.id, kind_in(store, entry.id))
    &&& entry.video is Some ==> kind_in(store, entry.id) == Some(PostType::Video)
        && store.videos.contains_key(entry.id)
}

/// What the entries of `plan` hold.
pub open spec fn plan_views(plan: Seq<Eviction>) -> Seq<EvictionView> {
    plan.map_values(|e: Eviction| e@)
}

/// The posts that `plan` names, in its order.
pub open spec fn planned_ids(plan: Seq<EvictionView>) -> Seq<u32> {
    plan.map_values(|e: EvictionView| e.id)
}

/// Whether `plan` is what eviction takes from disk for `store`: it names
/// each post that is no favorite once, no other post, and for each the files
/// of its kind.
pub open spec fn is_plan_of<H, F>(store: StoreView<H, F>, plan: Seq<EvictionView>) -> bool {
    &&& planned_ids(plan).no_duplicates()
    &&& planned_ids(plan).to_set() == evictable(store)
    &&& forall|i: int| 0 <= i < plan.len() ==> entry_matches(store, #[trigger] plan[i])
}

/// The files in the cache directory that eviction takes from disk for the
/// post `id` of kind `kind`.
pub fn post_removals(cache_dir: &str, id: u32, kind: Option<PostType>) -> (files: Vec<Removal>)
    ensures
        removal_views(files@) == removals_for(cache_dir@, id, kind),
{
    let mut files: Vec<Removal> = Vec::new();
    files.push(
        Removal { path: media_file(cache_dir, MediaKind::Thumbnail, id), must_exist: true },
    );
    match kind {
        Some(PostType::Image) => {
            files.push(
                Removal { path: media_file(cache_dir, MediaKind::Image, id), must_exist: false },
            );
            files.push(
                Removal { path: media_file(cache_dir, MediaKind::Sample, id), must_exist: false },
            );
        },
        Some(PostType::Gif) => {
            files.push(
                Removal { path: media_file(cache_dir, MediaKind::Gif, id), must_exist: false },
            );
        },
        _ => {},
    }
    assert(removal_views(files@) =~= removals_for(cache_dir@, id, kind));
    files
}

/// What eviction takes from disk for the post `id` of kind `kind`, whose
/// place, if it is a video, names the file `video`.
pub fn post_eviction(cache_dir: &str, id: u32, kind: Option<PostType>, video: Option<PathBuf>) -> (entry:
    Eviction)
    ensures
        entry@ == eviction_of(cache_dir@, id, kind, video),
{
    let files = post_removals(cache_dir, id, kind);
    let video = match kind {
        Some(PostType::Video) => video,
        _ => None,
    };
    Eviction { id, files, video }
}

impl<H, F> PostStore<H, F> {
    /// The posts that eviction takes, each once, in the order in which the
    /// table walks them.
    pub fn evictable_ids(&self) -> (ids: Vec<u32>)
        ensures
            ids@.no_duplicates(),
            ids@.to_set() == evictable(self@),
    {
        let held = self.posts.keys();
        let mut ids: Vec<u32> = Vec::new();
        let mut i: usize = 0;
        assert(held@.take(0).to_set() =~= Set::empty());
        while i < held.len()
            invariant
                i <= held.len(),
                held@.no_duplicates(),
                held@.to_set() == self@.posts.dom(),
                ids@.no_duplicates(),
                ids@.to_set() =~= held@.take(i as int).to_set().difference(self@.favorites),
            decreases held.len() - i,
        {
            let id = held[i];
            proof {
                lemma_take_next(held@, i as int);
            }
            if !self.favorites.contains(id) {
                proof {
                    lemma_to_set_push(ids@, id);
                    assert(!ids@.contains(id)) by {
                        assert(!ids@.to_set().contains(id));
                    }
                }
                ids.push(id);
            }
            i += 1;
        }
        assert(held@.take(held.len() as int) =~= held@);
        ids
    }

    /// What eviction takes from disk: for each post that is no favorite, its
    /// files. Favorites are not named.
    ///
    /// The posts come in the order in which the table walks them. The file of
    /// a video is the one that its URL names on this machine; where the URL
    /// names none, the video has no file here.
    pub fn purge_plan(&self) -> (plan: Vec<Eviction>)
        ensures
            is_plan_of(self@, plan_views(plan@)),
    {
        let ids = self.evictable_ids();
        let mut plan: Vec<Eviction> = Vec::new();
        let mut i: usize = 0;
        while i < ids.len()
            invariant
                i <= ids.len(),
                ids@.to_set() == evictable(self@),
                planned_ids(plan_views(plan@)) =~= ids@.take(i as int),
                forall|j: int|
                    0 <= j < plan.len() ==> entry_matches(self@, #[trigger] plan_views(plan@)[j]),
            decreases ids.len() - i,
        {
            let id = ids[i];
            assert(ids@.to_set().contains(id)) by {
                assert(ids@[i as int] == id);
            }
            let found = self.posts.get(id);
            let post = found.unwrap();
            let kind = post.get_type();
            let video = match kind {
                Some(PostType::Video) => match self.videos.get(id) {
                    Some(url) => local_file(url.as_str()),
                    None => None,
                },
                _ => None,
            };
            let ghost before = plan@;
            plan.push(post_eviction(self.cache_dir.as_str(), id, kind, video));
            proof {
                assert(ids@.take(i as int + 1) =~= ids@.take(i as int).push(id));
                assert(planned_ids(plan_views(plan@)) =~= planned_ids(plan_views(before)).push(id));
                assert forall|j: int| 0 <= j < plan.len() implies entry_matches(
                    self@,
                    #[trigger] plan_views(plan@)[j],
                ) by {
                    if j < before.len() {
                        assert(plan_views(plan@)[j] == plan_views(before)[j]);
                    }
                }
            }
            i += 1;
        }
        assert(ids@.take(ids.len() as int) =~= ids@);
        plan
    }

    /// Evicts the posts that are no favorites, with what was kept of their
    /// media, and says how many posts went. Favorites stay as they are.
    pub fn purge(&mut self) -> (removed: usize)
        ensures
            final(self)@ == purged(old(self)@),
            removed == evictable(old(self)@).len(),
    {
        let ids = self.evictable_ids();
        let mut i: usize = 0;
        proof {
            ids@.unique_seq_to_set();
            assert(ids@.take(0).to_set() =~= Set::empty());
            lemma_remove_none(self@.posts);
            lemma_remove_none(self@.thumbnails);
            lemma_remove_none(self@.samples);
            lemma_remove_none(self@.images);
            lemma_remove_none(self@.gifs);
            lemma_remove_none(self@.gif_frames);
            lemma_remove_none(self@.videos);
        }
        while i < ids.len()
            invariant
                i <= ids.len(),
                self@ == without(old(self)@, ids@.take(i as int).to_set()),
            decreases ids.len() - i,
        {
            let id = ids[i];
            let ghost before = self@;
            let ghost gone = ids@.take(i as int).to_set();
            self.posts.remove(id);
            self.thumbnails.remove(id);
            self.samples.remove(id);
            self.images.remove(id);
            self.gifs.remove(id);
            self.gif_frames.remove(id);
            self.videos.remove(id);
            proof {
                assert(ids@.take(i as int + 1) =~= ids@.take(i as int).push(id));
                lemma_to_set_push(ids@.take(i as int), id);
                assert(self@.posts =~= before.posts.remove(id));
                assert(self@.gifs =~= before.gifs.remove(id));
                assert(self@.videos =~= before.videos.remove(id));
                lemma_remove_one_more(old(self)@.posts, gone, id);
                lemma_remove_one_more(old(self)@.thumbnails, gone, id);
                lemma_remove_one_more(old(self)@.samples, gone, id);
                lemma_remove_one_more(old(self)@.images, gone, id);
                lemma_remove_one_more(old(self)@.gifs, gone, id);
                lemma_remove_one_more(old(self)@.gif_frames, gone, id);
                lemma_remove_one_more(old(self)@.videos, gone, id);
            }
            i += 1;
        }
        assert(ids@.take(ids.len() as int) =~= ids@);
        ids.len()
    }
}

/// Taking no key out of a table leaves the table.
proof fn lemma_remove_none<V>(table: Map<u32, V>)
    ensures
        table.remove_keys(Set::empty()) == table,
{
    assert(table.remove_keys(Set::empty()) =~= table);
}

/// Taking one more key out of a table is taking it out with the others.
proof fn lemma_remove_one_more<V>(table: Map<u32, V>, gone: Set<u32>, id: u32)
    ensures
        table.remove_keys(gone).remove(id) == table.remove_keys(gone.insert(id)),
{
    assert(table.remove_keys(gone).remove(id) =~= table.remove_keys(gone.insert(id)));
}

/// Eviction spares favorites in the cache: a favorite keeps its post and all
/// that was kept of its media.
pub proof fn lemma_purge_spares_favorites<H, F>(store: StoreView<H, F>, id: u32)
    requires
        store.favorites.contains(id),
    ensures
        purged(store).favorites.contains(id),
        purged(store).posts.get(id) == store.posts.get(id),
        purged(store).thumbnails.get(id) == store.thumbnails.get(id),
        purged(store).samples.get(id) == store.samples.get(id),
        purged(store).images.get(id) == store.images.get(id),
        purged(store).gifs.get(id) == store.gifs.get(id),
        purged(store).gif_frames.get(id) == store.gif_frames.get(id),
        purged(store).videos.get(id) == store.videos.get(id),
{
}

/// Eviction spares favorites on disk: no file that it takes from the cache
/// directory is the thumbnail, sample, image or GIF of a favorite. (The file
/// of a video is named apart: it is the one that the video's URL names,
/// wherever that lies.)
pub proof fn lemma_plan_spares_favorites<H, F>(
    store: StoreView<H, F>,
    plan: Seq<EvictionView>,
    entry: int,
    file: int,
    favorite: u32,
    kind: MediaKind,
)
    requires
        is_plan_of(store, plan),
        0 <= entry < plan.len(),
        0 <= file < plan[entry].files.len(),
        store.favorites.contains(favorite),
    ensures
        plan[entry].files[file].path != media_path(store.cache_dir, kind, favorite),
{
    let e = plan[entry];
    assert(entry_matches(store, e));
    assert(planned_ids(plan)[entry] == e.id);
    assert(planned_ids(plan).to_set().contains(e.id));
    assert(e.id != favorite);
    let taken = e.files[file].path;
    if taken == media_path(store.cache_dir, kind, favorite) {
        let taken_kind = if file == 0 {
            MediaKind::Thumbnail
        } else if kind_in(store, e.id) == Some(PostType::Gif) {
            MediaKind::Gif
        } else if file == 1 {
            MediaKind::Image
        } else {
            MediaKind::Sample
        };
        assert(taken == media_path(store.cache_dir, taken_kind, e.id));
        crate::media::lemma_media_path_injective(
            store.cache_dir,
            taken_kind,
            e.id,
            kind,
            favorite,
        );
    }
}

/// Eviction takes every post that is no favorite from the cache, with all
/// that was kept of its media.
pub proof fn lemma_purge_takes_others<H, F>(store: StoreView<H, F>, id: u32)
    requires
        store.posts.contains_key(id),
        !store.favorites.contains(id),
    ensures
        !purged(store).posts.contains_key(id),
        !purged(store).thumbnails.contains_key(id),
        !purged(store).samples.contains_key(id),
        !purged(store).images.contains_key(id),
        !purged(store).gifs.contains_key(id),
        !purged(store).gif_frames.contains_key(id),
        !purged(store).videos.contains_key(id),
{
}

/// Eviction takes the files of every post that is no favorite from disk: the
/// plan names the post, its thumbnail first, and after it the files of its
/// kind.
pub proof fn lemma_plan_takes_others<H, F>(
    store: StoreView<H, F>,
    plan: Seq<EvictionView>,
    id: u32,
) -> (entry: int)
    requires
        is_plan_of(store, plan),
        store.posts.contains_key(id),
        !store.favorites.contains(id),
    ensures
        0 <= entry < plan.len(),
        plan[entry].id == id,
        plan[entry].files.len() >= 1,
        plan[entry].files[0] == media_removal(store.cache_dir, MediaKind::Thumbnail, id, true),
        kind_in(store, id) == Some(PostType::Image) ==> plan[entry].files == seq![
            media_removal(store.cache_dir, MediaKind::Thumbnail, id, true),
            media_removal(store.cache_dir, MediaKind::Image, id, false),
            media_removal(store.cache_dir, MediaKind::Sample, id, false),
        ],
        kind_in(store, id) == Some(PostType::Gif) ==> plan[entry].files == seq![
            media_removal(store.cache_dir, MediaKind::Thumbnail, id, true),
            media_removal(store.cache_dir, MediaKind::Gif, id, false),
        ],
{
    assert(planned_ids(plan).to_set().contains(id));
    let entry = choose|i: int| 0 <= i < planned_ids(plan).len() && planned_ids(plan)[i] == id;
    assert(entry_matches(store, plan[entry]));
    let files = removals_for(store.cache_dir, id, kind_in(store, id));
    assert(files[0] == media_removal(store.cache_dir, MediaKind::Thumbnail, id, true));
    if kind_in(store, id) == Some(PostType::Image) {
        assert(files =~= seq![
            media_removal(store.cache_dir, MediaKind::Thumbnail, id, true),
            media_removal(store.cache_dir, MediaKind::Image, id, false),
            media_removal(store.cache_dir, MediaKind::Sample, id, false),
        ]);
    }
    if kind_in(store, id) == Some(PostType::Gif) {
        assert(files =~= seq![
            media_removal(store.cache_dir, MediaKind::Thumbnail, id, true),
            media_removal(store.cache_dir, MediaKind::Gif, id, false),
        ]);
    }
    entry
}

} // verus!
