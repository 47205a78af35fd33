//! What is written to disk of the cache, and how a cache comes back from it.

use crate::ids::IdMap;
use crate::ids::IdSet;
use crate::location::normalize;
use crate::location::url_normal_form;
use crate::media::media_file;
use crate::media::media_path;
use crate::media::MediaKind;
use crate::model::is_upvote;
use crate::model::vote_of;
use crate::model::Post;
use crate::model::PostView;
use crate::model::Vote;
use crate::results::empty_results;
use crate::store::PostStore;
use crate::store::StoreView;
use vstd::prelude::*;

verus! {

/// What is written to disk of a cache: the posts, votes and favorites
/// themselves, and of the media only where each lies.
pub struct PostStoreData {
    /// The posts, by id.
    pub posts: IdMap<Post>,
    /// The files of the thumbnails that the cache held.
    pub thumbnails: IdMap<String>,
    /// The files of the sample images that the cache held.
    pub samples: IdMap<String>,
    /// The files of the full images that the cache held.
    pub images: IdMap<String>,
    /// The files of the GIFs that the cache held.
    pub gifs: IdMap<String>,
    /// The URLs of the videos that the cache held.
    pub videos: IdMap<String>,
    /// The votes: `true` for an upvote, `false` for a downvote. A post
    /// without an entry has no vote.
    pub votes: IdMap<bool>,
    /// The ids of the posts that are favorites.
    pub favorites: IdSet,
}

/// What a `PostStoreData` holds.
pub struct SnapshotView {
    pub posts: Map<u32, PostView>,
    pub thumbnails: Map<u32, Seq<char>>,
    pub samples: Map<u32, Seq<char>>,
    pub images: Map<u32, Seq<char>>,
    pub gifs: Map<u32, Seq<char>>,
    pub videos: Map<u32, Seq<char>>,
    pub votes: Map<u32, bool>,
    pub favorites: Set<u32>,
}

impl View for PostStoreData {
    type V = SnapshotView;

    open spec fn view(&self) -> SnapshotView {
        SnapshotView {
            posts: self.posts@.map_values(|p: Post| p@),
            thumbnails: self.thumbnails@.map_values(|t: String| t@),
            samples: self.samples@.map_values(|t: String| t@),
            images: self.images@.map_values(|t: String| t@),
            gifs: self.gifs@.map_values(|t: String| t@),
            videos: self.videos@.map_values(|t: String| t@),
            votes: self.votes@,
            favorites: self.favorites@,
        }
    }
}

impl PostStoreData {
    /// The record of a cache that holds nothing.
    pub fn new() -> (data: Self)
        ensures
            data@ == (SnapshotView {
                posts: Map::empty(),
                thumbnails: Map::empty(),
                samples: Map::empty(),
                images: Map::empty(),
                gifs: Map::empty(),
                videos: Map::empty(),
                votes: Map::empty(),
                favorites: Set::empty(),
            }),
    {
        let data = PostStoreData {
            posts: IdMap::new(),
            thumbnails: IdMap::new(),
            samples: IdMap::new(),
            images: IdMap::new(),
            gifs: IdMap::new(),
            videos: IdMap::new(),
            votes: IdMap::new(),
            favorites: IdSet::new(),
        };
        assert(data@.posts =~= Map::empty());
        assert(data@.thumbnails =~= Map::empty());
        assert(data@.samples =~= Map::empty());
        assert(data@.images =~= Map::empty());
        assert(data@.gifs =~= Map::empty());
        assert(data@.videos =~= Map::empty());
        data
    }
}

/// For each post of which `held` holds something, the file of `kind` in which
/// that lies.
pub open spec fn media_files<T>(cache_dir: Seq<char>, kind: MediaKind, held: Map<u32, T>) -> Map<
    u32,
    Seq<char>,
> {
    Map::new(|id: u32| held.contains_key(id), |id: u32| media_path(cache_dir, kind, id))
}

/// What is written to disk of `store`.
pub open spec fn snapshot_of<H, F>(store: StoreView<H, F>) -> SnapshotView {
    SnapshotView {
        posts: store.posts,
        thumbnails: media_files(store.cache_dir, MediaKind::Thumbnail, store.thumbnails),
        samples: media_files(store.cache_dir, MediaKind::Sample, store.samples),
        images: media_files(store.cache_dir, MediaKind::Image, store.images),
        gifs: media_files(store.cache_dir, MediaKind::Gif, store.gifs),
        videos: store.videos,
        votes: store.votes.map_values(|v: Vote| is_upvote(v)),
        favorites: store.favorites,
    }
}

/// What came of reading the file of one post.
pub struct MediaRead<T> {
    /// The post.
    pub id: u32,
    /// What the file held, or `None` where it was missing or could not be
    /// read.
    pub content: Option<T>,
}

/// What came of reading the media files that a record names.
pub struct LoadedMedia<H> {
    pub thumbnails: Vec<MediaRead<H>>,
    pub samples: Vec<MediaRead<H>>,
    pub images: Vec<MediaRead<H>>,
    pub gifs: Vec<MediaRead<Vec<u8>>>,
}

/// What is kept of `reads`: the content of each file that could be read and
/// that belongs to a post in `named`. A file that could not be read leaves
/// nothing. Where a post was read twice, the later read counts.
pub open spec fn loaded<T>(named: Set<u32>, reads: Seq<MediaRead<T>>) -> Map<u32, T>
    decreases reads.len(),
{
    if reads.len() == 0 {
        Map::empty()
    } else {
        let before = loaded(named, reads.drop_last());
        match reads.last().content {
            Some(content) if named.contains(reads.last().id) => before.insert(
                reads.last().id,
                content,
            ),
            _ => before,
        }
    }
}

/// The videos of a record that are kept: those whose URL parses, each under
/// the URL written out in full.
pub open spec fn parsed_videos(videos: Map<u32, Seq<char>>) -> Map<u32, Seq<char>> {
    Map::new(
        |id: u32| videos.contains_key(id) && url_normal_form(videos[id]) is Some,
        |id: u32| url_normal_form(videos[id]).unwrap(),
    )
}

/// The cache that a record gives back, with what could be read of the media
/// files that it names.
pub open spec fn restored<H, F>(
    cache_dir: Seq<char>,
    data: SnapshotView,
    thumbnails: Seq<MediaRead<H>>,
    samples: Seq<MediaRead<H>>,
    images: Seq<MediaRead<H>>,
    gifs: Seq<MediaRead<Vec<u8>>>,
) -> StoreView<H, F> {
    StoreView {
        cache_dir,
        posts: data.posts,
        thumbnails: loaded(data.thumbnails.dom(), thumbnails),
        samples: loaded(data.samples.dom(), samples),
        images: loaded(data.images.dom(), images),
        gifs: loaded(data.gifs.dom(), gifs).map_values(|g: Vec<u8>| g@),
        gif_frames: Map::empty(),
        videos: parsed_videos(data.videos),
        votes: data.votes.map_values(|up: bool| vote_of(up)),
        favorites: data.favorites,
        comments: Map::empty(),
        results: Map::empty(),
    }
}

/// For each post of which `held` holds something, the file of `kind` in which
/// that lies.
fn files_of<T>(cache_dir: &str, kind: MediaKind, held: &IdMap<T>) -> (files: IdMap<String>)
    ensures
        files@.map_values(|t: String| t@) == media_files(cache_dir@, kind, held@),
{
    let file_of = |id: u32, _held: &T| -> (file: Option<String>)
        ensures
            file is Some && file->0@ == media_path(cache_dir@, kind, id),
        {
            Some(media_file(cache_dir, kind, id))
        };
    let files = held.filter_map(file_of);
    assert(files@.map_values(|t: String| t@) =~= media_files(cache_dir@, kind, held@));
    files
}

/// What is kept of `reads`.
fn keep_loaded<T>(named: &IdMap<String>, reads: Vec<MediaRead<T>>) -> (kept: IdMap<T>)
    ensures
        kept@ == loaded(named@.dom(), reads@),
{
    let ghost all = reads@;
    let mut kept: IdMap<T> = IdMap::new();
    for read in it: reads.into_iter()
        invariant
            it.seq() == all,
            kept@ == loaded(named@.dom(), all.take(it.index())),
    {
        proof {
            assert(all.take(it.index() + 1).drop_last() =~= all.take(it.index()));
            assert(all.take(it.index() + 1).last() == read);
        }
        let id = read.id;
        match read.content {
            Some(content) => {
                if named.contains_key(id) {
                    kept.insert(id, content);
                }
            },
            None => {},
        }
    }
    assert(all.take(all.len() as int) =~= all);
    kept
}

/// A copy of `posts`.
fn copy_posts(posts: &IdMap<Post>) -> (copy: IdMap<Post>)
    ensures
        copy@.map_values(|p: Post| p@) == posts@.map_values(|p: Post| p@),
{
    let copy_of = |_id: u32, post: &Post| -> (copy: Option<Post>)
        ensures
            copy is Some && copy->0@ == post@,
        {
            Some(post.clone())
        };
    let copy = posts.filter_map(copy_of);
    assert(copy@.map_values(|p: Post| p@) =~= posts@.map_values(|p: Post| p@));
    copy
}

/// A copy of `urls`.
fn copy_urls(urls: &IdMap<String>) -> (copy: IdMap<String>)
    ensures
        copy@.map_values(|t: String| t@) == urls@.map_values(|u: String| u@),
{
    let copy_of = |_id: u32, url: &String| -> (copy: Option<String>)
        ensures
            copy is Some && copy->0@ == url@,
        {
            Some(url.clone())
        };
    let copy = urls.filter_map(copy_of);
    assert(copy@.map_values(|t: String| t@) =~= urls@.map_values(|u: String| u@));
    copy
}

/// The flags that stand for `votes`.
fn flags_of(votes: &IdMap<Vote>) -> (flags: IdMap<bool>)
    ensures
        flags@ == votes@.map_values(|v: Vote| is_upvote(v)),
{
    let flag_of = |_id: u32, vote: &Vote| -> (flag: Option<bool>)
        ensures
            flag == Some(is_upvote(*vote)),
        {
            Some(bool::from(*vote))
        };
    let flags = votes.filter_map(flag_of);
    assert(flags@ =~= votes@.map_values(|v: Vote| is_upvote(v)));
    flags
}

/// The votes that `flags` stand for.
fn votes_of(flags: &IdMap<bool>) -> (votes: IdMap<Vote>)
    ensures
        votes@ == flags@.map_values(|up: bool| vote_of(up)),
{
    let vote_for = |_id: u32, up: &bool| -> (vote: Option<Vote>)
        ensures
            vote == Some(vote_of(*up)),
        {
            Some(Vote::from(*up))
        };
    let votes = flags.filter_map(vote_for);
    assert(votes@ =~= flags@.map_values(|up: bool| vote_of(up)));
    votes
}

/// Those of `urls` that parse, each written out in full.
fn parse_urls(urls: &IdMap<String>) -> (parsed: IdMap<String>)
    ensures
        parsed@.map_values(|u: String| u@) == parsed_videos(urls@.map_values(|t: String| t@)),
{
    let parse = |_id: u32, url: &String| -> (normal: Option<String>)
        ensures
            normal.deep_view() == url_normal_form(url@),
        {
            normalize(url.as_str())
        };
    let parsed = urls.filter_map(parse);
    assert(parsed@.map_values(|u: String| u@) =~= parsed_videos(urls@.map_values(|t: String| t@)));
    parsed
}

/// Saving a cache and loading what was saved gives back its posts, its
/// favorites and its votes, whatever has become of the media files since.
pub proof fn lemma_save_load_round_trip<H, F>(
    store: StoreView<H, F>,
    cache_dir: Seq<char>,
    thumbnails: Seq<MediaRead<H>>,
    samples: Seq<MediaRead<H>>,
    images: Seq<MediaRead<H>>,
    gifs: Seq<MediaRead<Vec<u8>>>,
)
    ensures
        restored::<H, F>(cache_dir, snapshot_of(store), thumbnails, samples, images, gifs).posts
            == store.posts,
        restored::<H, F>(cache_dir, snapshot_of(store), thumbnails, samples, images, gifs).favorites
            == store.favorites,
        restored::<H, F>(cache_dir, snapshot_of(store), thumbnails, samples, images, gifs).votes
            == store.votes,
{
    let back = restored::<H, F>(cache_dir, snapshot_of(store), thumbnails, samples, images, gifs);
    assert(back.votes =~= store.votes);
}

/// Whether every URL of `videos` is written out in full: whether parsing it
/// and writing it out again gives the URL itself.
pub open spec fn urls_in_full(videos: Map<u32, Seq<char>>) -> bool {
    forall|id: u32|
        videos.contains_key(id) ==> url_normal_form(#[trigger] videos[id]) == Some(videos[id])
}

/// Saving a cache and loading what was saved gives back the places of its
/// videos, if each of them is a URL written out in full.
pub proof fn lemma_save_load_keeps_videos<H, F>(
    store: StoreView<H, F>,
    cache_dir: Seq<char>,
    thumbnails: Seq<MediaRead<H>>,
    samples: Seq<MediaRead<H>>,
    images: Seq<MediaRead<H>>,
    gifs: Seq<MediaRead<Vec<u8>>>,
)
    ensures
        urls_in_full(store.videos) ==> restored::<H, F>(
            cache_dir,
            snapshot_of(store),
            thumbnails,
            samples,
            images,
            gifs,
        ).videos == store.videos,
{
    if urls_in_full(store.videos) {
        assert(parsed_videos(store.videos) =~= store.videos);
    }
}

/// Loading keeps nothing for a post whose file was never read with success,
/// and nothing for a post that the record does not name.
pub proof fn lemma_loaded_skips_unread<T>(named: Set<u32>, reads: Seq<MediaRead<T>>, id: u32)
    requires
        !named.contains(id) || forall|i: int|
            0 <= i < reads.len() && (#[trigger] reads[i]).id == id ==> reads[i].content is None,
    ensures
        !loaded(named, reads).contains_key(id),
    decreases reads.len(),
{
    if reads.len() > 0 {
        let front = reads.drop_last();
        if named.contains(id) {
            assert forall|i: int| 0 <= i < front.len() && (#[trigger] front[i]).id == id implies front[i].content
                is None by {
                assert(front[i] == reads[i]);
            }
            assert(reads[reads.len() - 1].id == id ==> reads[reads.len() - 1].content is None);
        }
        lemma_loaded_skips_unread(named, front, id);
    }
}

/// Loading keeps what the last successful read of a post's file gave, if the
/// record names the post.
pub proof fn lemma_loaded_keeps_read<T>(named: Set<u32>, reads: Seq<MediaRead<T>>, at: int)
    requires
        0 <= at < reads.len(),
        named.contains(reads[at].id),
        reads[at].content is Some,
        forall|i: int|
            at < i < reads.len() && (#[trigger] reads[i]).id == reads[at].id
                ==> reads[i].content is None,
    ensures
        loaded(named, reads).contains_key(reads[at].id),
        Some(loaded(named, reads)[reads[at].id]) == reads[at].content,
    decreases reads.len(),
{
    let front = reads.drop_last();
    if at < reads.len() - 1 {
        assert(front[at] == reads[at]);
        assert forall|i: int|
            at < i < front.len() && (#[trigger] front[i]).id == reads[at].id implies front[i].content
            is None by {
            assert(front[i] == reads[i]);
        }
        lemma_loaded_keeps_read(named, front, at);
        let last = reads[reads.len() - 1];
        assert(last.id == reads[at].id ==> last.content is None);
    }
}

/// Loading does not fail over a media file that is gone: a post of the
/// record whose thumbnail could not be read is there after loading, without
/// a thumbnail.
pub proof fn lemma_load_tolerates_missing_files<H, F>(
    cache_dir: Seq<char>,
    data: SnapshotView,
    thumbnails: Seq<MediaRead<H>>,
    samples: Seq<MediaRead<H>>,
    images: Seq<MediaRead<H>>,
    gifs: Seq<MediaRead<Vec<u8>>>,
    id: u32,
)
    requires
        data.posts.contains_key(id),
        forall|i: int|
            0 <= i < thumbnails.len() && (#[trigger] thumbnails[i]).id == id
                ==> thumbnails[i].content is None,
    ensures
        restored::<H, F>(cache_dir, data, thumbnails, samples, images, gifs).posts.contains_key(id),
        restored::<H, F>(cache_dir, data, thumbnails, samples, images, gifs).posts[id]
            == data.posts[id],
        !restored::<H, F>(cache_dir, data, thumbnails, samples, images, gifs).thumbnails.contains_key(
            id,
        ),
        restored::<H, F>(cache_dir, data, thumbnails, samples, images, gifs).favorites.contains(id)
            == data.favorites.contains(id),
{
    lemma_loaded_skips_unread(data.thumbnails.dom(), thumbnails, id);
}

/// What was saved of a cache names a media file exactly for the posts of
/// which the cache held that kind of media, and names the file of the layout.
pub proof fn lemma_snapshot_names_held_media<H, F>(store: StoreView<H, F>, id: u32)
    ensures
        snapshot_of(store).thumbnails.contains_key(id) == store.thumbnails.contains_key(id),
        snapshot_of(store).samples.contains_key(id) == store.samples.contains_key(id),
        snapshot_of(store).images.contains_key(id) == store.images.contains_key(id),
        snapshot_of(store).gifs.contains_key(id) == store.gifs.contains_key(id),
        store.thumbnails.contains_key(id) ==> snapshot_of(store).thumbnails[id] == media_path(
            store.cache_dir,
            MediaKind::Thumbnail,
            id,
        ),
{
}

impl<H, F> PostStore<H, F> {
    /// What is written to disk of the cache: its posts, votes, favorites and
    /// video URLs, and for each image or GIF that it holds the file in which
    /// that lies. Comments, results and decoded frames are not written.
    pub fn save_to(&self) -> (data: PostStoreData)
        ensures
            data@ == snapshot_of(self@),
    {
        let cache_dir = self.cache_dir.as_str();
        let data = PostStoreData {
            posts: copy_posts(&self.posts),
            thumbnails: files_of(cache_dir, MediaKind::Thumbnail, &self.thumbnails),
            samples: files_of(cache_dir, MediaKind::Sample, &self.samples),
            images: files_of(cache_dir, MediaKind::Image, &self.images),
            gifs: files_of(cache_dir, MediaKind::Gif, &self.gifs),
            videos: copy_urls(&self.videos),
            votes: flags_of(&self.votes),
            favorites: self.favorites.duplicate(),
        };
        proof {
            assert(data@.gifs =~= snapshot_of(self@).gifs);
            assert(data@.votes =~= snapshot_of(self@).votes);
        }
        data
    }

    /// The cache that `data` gives back, for the files below `cache_dir`.
    ///
    /// Posts and favorites are those of `data`; each vote is the one that its
    /// flag stands for; each video is kept if its URL parses. Of the media,
    /// `media` says what reading the files gave: what could be read is kept,
    /// and a file that was missing or could not be read leaves its post
    /// without that image, and is no error. Comments and results start empty.
    pub fn load_from(cache_dir: String, data: PostStoreData, media: LoadedMedia<H>) -> (store: Self)
        ensures
            store@ == restored::<H, F>(
                cache_dir@,
                data@,
                media.thumbnails@,
                media.samples@,
                media.images@,
                media.gifs@,
            ),
    {
        proof {
            assert(data@.thumbnails.dom() =~= data.thumbnails@.dom());
            assert(data@.samples.dom() =~= data.samples@.dom());
            assert(data@.images.dom() =~= data.images@.dom());
            assert(data@.gifs.dom() =~= data.gifs@.dom());
        }
        let store = PostStore {
            cache_dir,
            thumbnails: keep_loaded(&data.thumbnails, media.thumbnails),
            samples: keep_loaded(&data.samples, media.samples),
            images: keep_loaded(&data.images, media.images),
            gifs: keep_loaded(&data.gifs, media.gifs),
            gif_frames: IdMap::new(),
            videos: parse_urls(&data.videos),
            votes: votes_of(&data.votes),
            posts: data.posts,
            favorites: data.favorites,
            comments: IdMap::new(),
            results: empty_results(),
        };
        proof {
            assert(store@.comments =~= Map::empty());
        }
        store
    }

    /// The cache to start with: the one that was loaded, or a fresh one over
    /// `cache_dir` where loading failed.
    pub fn loaded_or_new(loaded: Option<Self>, cache_dir: String) -> (store: Self)
        ensures
            match loaded {
                Some(found) => store == found,
                None => store@ == crate::store::empty_store::<H, F>(cache_dir@),
            },
    {
        match loaded {
            Some(found) => found,
            None => PostStore::new(cache_dir),
        }
    }
}

} // verus!
