//! The cache of posts and of what was fetched for them.

use crate::ids::IdMap;
use crate::ids::IdSet;
use crate::media::media_file;
use crate::media::media_path;
use crate::media::MediaKind;
use crate::model::Comment;
use crate::model::CommentView;
use crate::model::Post;
use crate::model::PostView;
use crate::model::Vote;
use crate::results::empty_results;
use crate::results::result_table;
use rustc_hash::FxHashMap;
use vstd::prelude::*;

verus! {

/// Holds the posts that were fetched, and their media.
///
/// `H` is a decoded image as the screen takes it, `F` the decoded frames of a
/// GIF. The cache keeps both without looking inside.
pub struct PostStore<H, F> {
    /// The directory below which the cached files lie.
    pub cache_dir: String,
    /// The posts, by id.
    pub posts: IdMap<Post>,
    /// The thumbnails of posts.
    pub thumbnails: IdMap<H>,
    /// The sample images of posts: full images at a lower resolution.
    pub samples: IdMap<H>,
    /// The full images of posts.
    pub images: IdMap<H>,
    /// The GIFs of posts, as they were downloaded.
    pub gifs: IdMap<Vec<u8>>,
    /// The GIFs of posts, decoded.
    pub gif_frames: IdMap<F>,
    /// The videos of posts: for each, the URL of its file on disk.
    pub videos: IdMap<String>,
    /// The votes that were cast from here. The board does not tell those
    /// that were cast elsewhere.
    pub votes: IdMap<Vote>,
    /// The ids of the posts that are favorites.
    pub favorites: IdSet,
    /// The comments on posts. They last as long as the cache itself.
    pub comments: IdMap<Vec<Comment>>,
    /// For each query, the ids of the posts it found, in the order in which
    /// they are shown. They last as long as the cache itself.
    pub results: FxHashMap<String, Vec<u32>>,
}

/// What a `PostStore` holds.
pub struct StoreView<H, F> {
    pub cache_dir: Seq<char>,
    pub posts: Map<u32, PostView>,
    pub thumbnails: Map<u32, H>,
    pub samples: Map<u32, H>,
    pub images: Map<u32, H>,
    pub gifs: Map<u32, Seq<u8>>,
    pub gif_frames: Map<u32, F>,
    pub videos: Map<u32, Seq<char>>,
    pub votes: Map<u32, Vote>,
    pub favorites: Set<u32>,
    pub comments: Map<u32, Seq<CommentView>>,
    pub results: Map<Seq<char>, Seq<u32>>,
}

/// What the comments in `comments` hold.
pub open spec fn comment_views(comments: Seq<Comment>) -> Seq<CommentView> {
    comments.map_values(|c: Comment| c@)
}

/// What the posts of `posts` hold, by id.
pub open spec fn posts_held(posts: Map<u32, Post>) -> Map<u32, PostView> {
    posts.map_values(|p: Post| p@)
}

impl<H, F> View for PostStore<H, F> {
    type V = StoreView<H, F>;

    open spec fn view(&self) -> StoreView<H, F> {
        StoreView {
            cache_dir: self.cache_dir@,
            posts: posts_held(self.posts@),
            thumbnails: self.thumbnails@,
            samples: self.samples@,
            images: self.images@,
            gifs: self.gifs@.map_values(|g: Vec<u8>| g@),
            gif_frames: self.gif_frames@,
            videos: self.videos@.map_values(|u: String| u@),
            votes: self.votes@,
            favorites: self.favorites@,
            comments: self.comments@.map_values(|c: Vec<Comment>| comment_views(c@)),
            results: result_table(self.results),
        }
    }
}

/// The cache that holds nothing, over `cache_dir`.
pub open spec fn empty_store<H, F>(cache_dir: Seq<char>) -> StoreView<H, F> {
    StoreView {
        cache_dir,
        posts: Map::empty(),
        thumbnails: Map::empty(),
        samples: Map::empty(),
        images: Map::empty(),
        gifs: Map::empty(),
        gif_frames: Map::empty(),
        videos: Map::empty(),
        votes: Map::empty(),
        favorites: Set::empty(),
        comments: Map::empty(),
        results: Map::empty(),
    }
}

/// `favorites` after the post `id` was declared a favorite, or not one.
pub open spec fn with_favorite(favorites: Set<u32>, id: u32, favorited: bool) -> Set<u32> {
    if favorited {
        favorites.insert(id)
    } else {
        favorites.remove(id)
    }
}

/// `store` after `post` was put into it: the post takes the place of any
/// earlier post with its id, and is a favorite exactly if it says so.
pub open spec fn with_post<H, F>(store: StoreView<H, F>, post: PostView) -> StoreView<H, F> {
    StoreView {
        posts: store.posts.insert(post.id, post),
        favorites: with_favorite(store.favorites, post.id, post.is_favorited),
        ..store
    }
}

/// `store` after each of `posts` was put into it, the first one first.
pub open spec fn with_posts<H, F>(store: StoreView<H, F>, posts: Seq<PostView>) -> StoreView<H, F>
    decreases posts.len(),
{
    if posts.len() == 0 {
        store
    } else {
        with_post(with_posts(store, posts.drop_last()), posts.last())
    }
}

/// What the posts in `posts` hold.
pub open spec fn post_views(posts: Seq<Post>) -> Seq<PostView> {
    posts.map_values(|p: Post| p@)
}

/// `store` after `comment` was added: it comes after the comments that its
/// post already has.
pub open spec fn with_comment<H, F>(store: StoreView<H, F>, comment: CommentView) -> StoreView<
    H,
    F,
> {
    let earlier = if store.comments.contains_key(comment.post_id) {
        store.comments[comment.post_id]
    } else {
        Seq::empty()
    };
    StoreView { comments: store.comments.insert(comment.post_id, earlier.push(comment)), ..store }
}

/// `store` after each of `comments` was added, the first one first.
pub open spec fn with_comments<H, F>(
    store: StoreView<H, F>,
    comments: Seq<CommentView>,
) -> StoreView<H, F>
    decreases comments.len(),
{
    if comments.len() == 0 {
        store
    } else {
        with_comment(with_comments(store, comments.drop_last()), comments.last())
    }
}

impl<H, F> PostStore<H, F> {
    /// A cache that holds nothing yet, for the files below `cache_dir`.
    pub fn new(cache_dir: String) -> (store: Self)
        ensures
            store@ == empty_store::<H, F>(cache_dir@),
    {
        let store = PostStore {
            cache_dir,
            posts: IdMap::new(),
            thumbnails: IdMap::new(),
            samples: IdMap::new(),
            images: IdMap::new(),
            gifs: IdMap::new(),
            gif_frames: IdMap::new(),
            videos: IdMap::new(),
            votes: IdMap::new(),
            favorites: IdSet::new(),
            comments: IdMap::new(),
            results: empty_results(),
        };
        assert(store@.posts =~= Map::empty());
        assert(store@.gifs =~= Map::empty());
        assert(store@.videos =~= Map::empty());
        assert(store@.comments =~= Map::empty());
        store
    }

    // --- Posts ---

    /// Puts `post` into the cache, in place of any earlier post with its id,
    /// and makes it a favorite exactly if it says that it is one.
    pub fn insert_post(&mut self, post: Post)
        ensures
            final(self)@ == with_post(old(self)@, post@),
            final(self)@.favorites.contains(post.id) == post.is_favorited,
    {
        self.set_favorite(post.id, post.is_favorited);
        let id = post.id;
        self.posts.insert(id, post);
        assert(final(self)@.posts =~= old(self)@.posts.insert(id, post@));
    }

    /// Puts each of `posts` into the cache, the first one first.
    pub fn insert_posts(&mut self, posts: Vec<Post>)
        ensures
            final(self)@ == with_posts(old(self)@, post_views(posts@)),
    {
        let ghost all = posts@;
        for post in it: posts.into_iter()
            invariant
                it.seq() == all,
                self@ == with_posts(old(self)@, post_views(all.take(it.index()))),
        {
            proof {
                let done = all.take(it.index());
                let next = all.take(it.index() + 1);
                assert(post_views(next).drop_last() =~= post_views(done));
                assert(post_views(next).last() == post@);
            }
            self.insert_post(post);
        }
        assert(all.take(all.len() as int) =~= all);
    }

    /// The post `id`, if the cache holds it.
    pub fn get_post(&self, id: u32) -> (found: Option<&Post>)
        ensures
            found is Some == self@.posts.contains_key(id),
            found matches Some(post) ==> post@ == self@.posts[id],
    {
        self.posts.get(id)
    }

    /// The post `id` for a change, if the cache holds it: what is made of the
    /// post that is handed out is what the cache holds afterwards. The
    /// favorites stay as they are, whatever the post is made to say.
    pub fn get_post_mut(&mut self, id: u32) -> (found: Option<&mut Post>)
        ensures
            found is Some == old(self)@.posts.contains_key(id),
            found is Some ==> (*found->0)@ == old(self)@.posts[id] && final(self)@ == (StoreView {
                posts: old(self)@.posts.insert(id, (*final(found->0))@),
                ..old(self)@
            }),
            found is None ==> final(self)@ == old(self)@,
    {
        proof {
            let held = self.posts@;
            assert forall|post: Post| #[trigger]
                posts_held(held.insert(id, post)) == posts_held(held).insert(id, post@) by {
                assert(posts_held(held.insert(id, post)) =~= posts_held(held).insert(id, post@));
            }
        }
        self.posts.get_mut(id)
    }

    // --- Favorites ---

    /// Whether the post `id` is a favorite.
    pub fn is_favorited(&self, id: u32) -> (favorited: bool)
        ensures
            favorited == self@.favorites.contains(id),
    {
        self.favorites.contains(id)
    }

    /// Makes the post `id` a favorite, or no longer one.
    pub fn set_favorite(&mut self, id: u32, favorited: bool)
        ensures
            final(self)@ == (StoreView {
                favorites: with_favorite(old(self)@.favorites, id, favorited),
                ..old(self)@
            }),
    {
        if favorited {
            self.favorites.insert(id);
        } else {
            self.favorites.remove(id);
        }
    }

    // --- Votes ---

    /// Records the vote on the post `post_id`; `None` takes the vote back.
    pub fn set_vote(&mut self, post_id: u32, vote: Option<Vote>)
        ensures
            final(self)@ == (StoreView {
                votes: match vote {
                    Some(v) => old(self)@.votes.insert(post_id, v),
                    None => old(self)@.votes.remove(post_id),
                },
                ..old(self)@
            }),
    {
        match vote {
            Some(v) => {
                self.votes.insert(post_id, v);
            },
            None => {
                self.votes.remove(post_id);
            },
        }
    }

    /// The vote that was cast on the post `post_id`, if any.
    pub fn vote_for(&self, post_id: u32) -> (vote: Option<Vote>)
        ensures
            vote == self@.votes.get(post_id),
    {
        match self.votes.get(post_id) {
            Some(v) => Some(*v),
            None => None,
        }
    }

    // --- Comments ---

    /// Adds `comment` after the comments that its post already has. A comment
    /// that is added twice is held twice.
    pub fn insert_comment(&mut self, comment: Comment)
        ensures
            final(self)@ == with_comment(old(self)@, comment@),
    {
        let post_id = comment.post_id;
        let mut list = match self.comments.remove(post_id) {
            Some(list) => list,
            None => Vec::new(),
        };
        list.push(comment);
        self.comments.insert(post_id, list);
        proof {
            let before = old(self)@.comments;
            let earlier = if before.contains_key(post_id) {
                before[post_id]
            } else {
                Seq::empty()
            };
            assert(comment_views(list@) =~= earlier.push(comment@));
            assert(final(self)@.comments =~= before.insert(post_id, earlier.push(comment@)));
        }
    }

    /// Adds each of `comments`, the first one first.
    pub fn insert_comments(&mut self, comments: Vec<Comment>)
        ensures
            final(self)@ == with_comments(old(self)@, comment_views(comments@)),
    {
        let ghost all = comments@;
        for comment in it: comments.into_iter()
            invariant
                it.seq() == all,
                self@ == with_comments(old(self)@, comment_views(all.take(it.index()))),
        {
            proof {
                let done = all.take(it.index());
                let next = all.take(it.index() + 1);
                assert(comment_views(next).drop_last() =~= comment_views(done));
                assert(comment_views(next).last() == comment@);
            }
            self.insert_comment(comment);
        }
        assert(all.take(all.len() as int) =~= all);
    }

    /// The comments on the post `id`, in the order in which they were added,
    /// if there are any.
    pub fn get_comments(&self, id: u32) -> (found: Option<&Vec<Comment>>)
        ensures
            found is Some == self@.comments.contains_key(id),
            found matches Some(list) ==> comment_views(list@) == self@.comments[id],
    {
        self.comments.get(id)
    }

    // --- Thumbnails ---

    /// Keeps `handle` as the thumbnail of the post `id`, in place of any
    /// earlier one.
    pub fn insert_thumbnail(&mut self, id: u32, handle: H)
        ensures
            final(self)@ == (StoreView {
                thumbnails: old(self)@.thumbnails.insert(id, handle),
                ..old(self)@
            }),
    {
        self.thumbnails.insert(id, handle);
    }

    /// The thumbnail of the post `id`, if the cache holds one.
    pub fn get_thumbnail(&self, id: u32) -> (found: Option<&H>)
        ensures
            found == (if self@.thumbnails.contains_key(id) {
                Some(&self@.thumbnails[id])
            } else {
                None
            }),
    {
        self.thumbnails.get(id)
    }

    /// The file in which the thumbnail of the post `id` lies on disk, whether
    /// or not it exists.
    pub fn get_thumbnail_path(&self, id: u32) -> (path: String)
        ensures
            path@ == media_path(self@.cache_dir, MediaKind::Thumbnail, id),
    {
        media_file(self.cache_dir.as_str(), MediaKind::Thumbnail, id)
    }

    /// Whether the cache holds a thumbnail of the post `id`.
    pub fn has_thumbnail(&self, id: u32) -> (present: bool)
        ensures
            present == self@.thumbnails.contains_key(id),
    {
        self.thumbnails.contains_key(id)
    }

    // --- Samples ---

    /// Keeps `handle` as the sample image of the post `id`, in place of any
    /// earlier one.
    pub fn insert_sample(&mut self, id: u32, handle: H)
        ensures
            final(self)@ == (StoreView {
                samples: old(self)@.samples.insert(id, handle),
                ..old(self)@
            }),
    {
        self.samples.insert(id, handle);
    }

    /// The sample image of the post `id`, if the cache holds one.
    pub fn get_sample(&self, id: u32) -> (found: Option<&H>)
        ensures
            found == (if self@.samples.contains_key(id) {
                Some(&self@.samples[id])
            } else {
                None
            }),
    {
        self.samples.get(id)
    }

    /// The file in which the sample image of the post `id` lies on disk,
    /// whether or not it exists.
    pub fn get_sample_path(&self, id: u32) -> (path: String)
        ensures
            path@ == media_path(self@.cache_dir, MediaKind::Sample, id),
    {
        media_file(self.cache_dir.as_str(), MediaKind::Sample, id)
    }

    /// Whether the cache holds a sample image of the post `id`.
    pub fn has_sample(&self, id: u32) -> (present: bool)
        ensures
            present == self@.samples.contains_key(id),
    {
        self.samples.contains_key(id)
    }

    // --- Images ---

    /// Keeps `handle` as the full image of the post `id`, in place of any
    /// earlier one.
    pub fn insert_image(&mut self, id: u32, handle: H)
        ensures
            final(self)@ == (StoreView {
                images: old(self)@.images.insert(id, handle),
                ..old(self)@
            }),
    {
        self.images.insert(id, handle);
    }

    /// The full image of the post `id`, if the cache holds one.
    pub fn get_image(&self, id: u32) -> (found: Option<&H>)
        ensures
            found == (if self@.images.contains_key(id) {
                Some(&self@.images[id])
            } else {
                None
            }),
    {
        self.images.get(id)
    }

    /// The file in which the full image of the post `id` lies on disk, whether
    /// or not it exists.
    pub fn get_image_path(&self, id: u32) -> (path: String)
        ensures
            path@ == media_path(self@.cache_dir, MediaKind::Image, id),
    {
        media_file(self.cache_dir.as_str(), MediaKind::Image, id)
    }

    /// Whether the cache holds a full image of the post `id`.
    pub fn has_image(&self, id: u32) -> (present: bool)
        ensures
            present == self@.images.contains_key(id),
    {
        self.images.contains_key(id)
    }

    // --- GIFs ---

    /// Keeps `gif` as the GIF of the post `id`, in place of any earlier one.
    /// Frames that were decoded from an earlier GIF are dropped: they are no
    /// longer those of the GIF that is kept.
    pub fn insert_gif(&mut self, id: u32, gif: Vec<u8>)
        ensures
            final(self)@ == (StoreView {
                gifs: old(self)@.gifs.insert(id, gif@),
                gif_frames: old(self)@.gif_frames.remove(id),
                ..old(self)@
            }),
    {
        self.gif_frames.remove(id);
        self.gifs.insert(id, gif);
        assert(final(self)@.gifs =~= old(self)@.gifs.insert(id, gif@));
    }

    /// The GIF of the post `id`, if the cache holds one.
    pub fn get_gif(&self, id: u32) -> (found: Option<&Vec<u8>>)
        ensures
            found is Some == self@.gifs.contains_key(id),
            found matches Some(gif) ==> gif@ == self@.gifs[id],
    {
        self.gifs.get(id)
    }

    /// The file in which the GIF of the post `id` lies on disk, whether or
    /// not it exists.
    pub fn get_gif_path(&self, id: u32) -> (path: String)
        ensures
            path@ == media_path(self@.cache_dir, MediaKind::Gif, id),
    {
        media_file(self.cache_dir.as_str(), MediaKind::Gif, id)
    }

    /// Whether the cache holds a GIF of the post `id`.
    pub fn has_gif(&self, id: u32) -> (present: bool)
        ensures
            present == self@.gifs.contains_key(id),
    {
        self.gifs.contains_key(id)
    }

    /// Keeps the GIF of the post `id` together with what decoding it gave:
    /// its frames, or `None` where it could not be decoded. The GIF is kept
    /// either way; without frames it can be shown again once it decodes.
    pub fn insert_decoded_gif(&mut self, id: u32, gif: Vec<u8>, frames: Option<F>)
        ensures
            final(self)@ == (StoreView {
                gifs: old(self)@.gifs.insert(id, gif@),
                gif_frames: match frames {
                    Some(f) => old(self)@.gif_frames.insert(id, f),
                    None => old(self)@.gif_frames.remove(id),
                },
                ..old(self)@
            }),
    {
        self.insert_gif(id, gif);
        match frames {
            Some(f) => {
                self.gif_frames.insert(id, f);
                assert(final(self)@.gif_frames =~= old(self)@.gif_frames.insert(id, f));
            },
            None => {},
        }
    }

    /// The decoded frames of the GIF of the post `id`, if the cache holds
    /// them.
    pub fn get_gif_frames(&self, id: u32) -> (found: Option<&F>)
        ensures
            found == (if self@.gif_frames.contains_key(id) {
                Some(&self@.gif_frames[id])
            } else {
                None
            }),
    {
        self.gif_frames.get(id)
    }

    // --- Videos ---

    /// Keeps `url` as the place of the video of the post `id`, in place of
    /// any earlier one.
    pub fn insert_video(&mut self, id: u32, url: String)
        ensures
            final(self)@ == (StoreView {
                videos: old(self)@.videos.insert(id, url@),
                ..old(self)@
            }),
    {
        self.videos.insert(id, url);
        assert(final(self)@.videos =~= old(self)@.videos.insert(id, url@));
    }

    /// The place of the video of the post `id`, if the cache holds one.
    pub fn get_video(&self, id: u32) -> (found: Option<&String>)
        ensures
            found is Some == self@.videos.contains_key(id),
            found matches Some(url) ==> url@ == self@.videos[id],
    {
        self.videos.get(id)
    }

    /// Whether the cache holds a video of the post `id`.
    pub fn has_video(&self, id: u32) -> (present: bool)
        ensures
            present == self@.videos.contains_key(id),
    {
        self.videos.contains_key(id)
    }
}

/// Putting posts into the cache changes its posts and its favorites, and
/// nothing else.
pub proof fn lemma_with_posts_keeps_the_rest<H, F>(store: StoreView<H, F>, posts: Seq<PostView>)
    ensures
        with_posts(store, posts) == (StoreView {
            posts: with_posts(store, posts).posts,
            favorites: with_posts(store, posts).favorites,
            ..store
        }),
    decreases posts.len(),
{
    if posts.len() > 0 {
        lemma_with_posts_keeps_the_rest(store, posts.drop_last());
    }
}

/// A post that was just put into the cache is a favorite there exactly if it
/// says that it is one.
pub proof fn lemma_insert_post_syncs_favorite<H, F>(store: StoreView<H, F>, post: PostView)
    ensures
        with_post(store, post).favorites.contains(post.id) == post.is_favorited,
        with_post(store, post).posts.contains_key(post.id),
        with_post(store, post).posts[post.id] == post,
{
}

} // verus!
