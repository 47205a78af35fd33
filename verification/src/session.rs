//! What the program decides when something happens: what to ask of the
//! board next, and what to keep of its answers.

use crate::blacklist::blacklisted;
use crate::blacklist::is_blacklisted;
use crate::blacklist::Blacklist;
use crate::location::local_file;
use crate::media::media_file;
use crate::media::media_path;
use crate::media::MediaKind;
use crate::config::ViewConfig;
use crate::model::post_type_of;
use crate::model::File;
use crate::model::FileView;
use crate::model::Post;
use crate::model::PostType;
use crate::model::PostView;
use crate::model::Sample;
use crate::model::SampleView;
use crate::model::Vote;
use crate::results::with_update;
use crate::state::SearchState;
use crate::store::lemma_with_posts_keeps_the_rest;
use crate::store::post_views;
use crate::store::with_posts;
use crate::store::PostStore;
use crate::store::StoreView;
use std::collections::VecDeque;
use std::path::PathBuf;
use vstd::prelude::*;

verus! {

/// Something to fetch for a post.
#[derive(Debug)]
pub enum Request {
    /// The thumbnail, from `url`.
    Preview { id: u32, url: String },
    /// The GIF, from `url`.
    Gif { id: u32, url: String },
    /// The video with the extension `ext`, from `url`.
    Video { id: u32, url: String, ext: String },
    /// The sample image.
    Sample { id: u32, sample: Sample },
    /// The full image.
    Image { id: u32, file: File },
    /// The first page of the comments.
    Comments { id: u32 },
}

/// What a `Request` holds.
pub enum RequestView {
    Preview { id: u32, url: Seq<char> },
    Gif { id: u32, url: Seq<char> },
    Video { id: u32, url: Seq<char>, ext: Seq<char> },
    Sample { id: u32, sample: SampleView },
    Image { id: u32, file: FileView },
    Comments { id: u32 },
}

impl View for Request {
    type V = RequestView;

    open spec fn view(&self) -> RequestView {
        match self {
            Request::Preview { id, url } => RequestView::Preview { id: *id, url: url@ },
            Request::Gif { id, url } => RequestView::Gif { id: *id, url: url@ },
            Request::Video { id, url, ext } => RequestView::Video { id: *id, url: url@, ext: ext@ },
            Request::Sample { id, sample } => RequestView::Sample { id: *id, sample: sample@ },
            Request::Image { id, file } => RequestView::Image { id: *id, file: file@ },
            Request::Comments { id } => RequestView::Comments { id: *id },
        }
    }
}

/// What `request` holds, where there is one.
pub open spec fn optional_view(request: Option<Request>) -> Option<RequestView> {
    match request {
        Some(r) => Some(r@),
        None => None,
    }
}

/// What the requests in `requests` hold.
pub open spec fn request_views(requests: Seq<Request>) -> Seq<RequestView> {
    requests.map_values(|r: Request| r@)
}

/// The media to fetch when `post` is shown as the post `id`.
///
/// A GIF is fetched unless the cache holds it. A video is fetched again each
/// time, from the board if the cache does not know it and else from where
/// the cache knows it. Flash is not fetched. Of anything else, unless the
/// cache holds the full image, the sample and the full image are fetched,
/// each if the settings ask for it.
pub open spec fn media_wanted<H, F>(
    store: StoreView<H, F>,
    id: u32,
    post: PostView,
    view: ViewConfig,
) -> Seq<RequestView> {
    match post_type_of(post.file.ext) {
        Some(PostType::Gif) => if store.gifs.contains_key(id) {
            Seq::empty()
        } else {
            seq![RequestView::Gif { id, url: post.file.url->0 }]
        },
        Some(PostType::Video) => seq![
            RequestView::Video {
                id,
                url: if store.videos.contains_key(id) {
                    store.videos[id]
                } else {
                    post.file.url->0
                },
                ext: post.file.ext->0,
            },
        ],
        Some(PostType::Flash) => Seq::empty(),
        _ => if store.images.contains_key(id) {
            Seq::empty()
        } else {
            (if view.download_sample {
                seq![RequestView::Sample { id, sample: post.sample }]
            } else {
                Seq::empty()
            }) + (if view.download_fullsize {
                seq![RequestView::Image { id, file: post.file }]
            } else {
                Seq::empty()
            })
        },
    }
}

/// What to fetch when the post `id` is shown: its media, then its comments.
/// For a post that the cache does not hold, nothing.
pub open spec fn wanted<H, F>(store: StoreView<H, F>, id: u32, view: ViewConfig) -> Seq<
    RequestView,
> {
    if store.posts.contains_key(id) {
        media_wanted(store, id, store.posts[id], view) + seq![RequestView::Comments { id }]
    } else {
        Seq::empty()
    }
}

/// Whether the post `id` can be shown: if something of it has to be fetched
/// from the board, the post says where from.
pub open spec fn can_view<H, F>(store: StoreView<H, F>, id: u32) -> bool {
    store.posts.contains_key(id) ==> {
        let post = store.posts[id];
        match post_type_of(post.file.ext) {
            Some(PostType::Gif) => store.gifs.contains_key(id) || post.file.url is Some,
            Some(PostType::Video) => store.videos.contains_key(id) || post.file.url is Some,
            _ => true,
        }
    }
}

/// What to fetch when the post `id` is shown.
pub fn view_requests<H, F>(store: &PostStore<H, F>, id: u32, view: &ViewConfig) -> (requests: Vec<
    Request,
>)
    requires
        can_view(store@, id),
    ensures
        request_views(requests@) == wanted(store@, id, *view),
{
    let mut requests: Vec<Request> = Vec::new();
    match store.get_post(id) {
        None => {
            assert(request_views(requests@) =~= wanted(store@, id, *view));
        },
        Some(post) => {
            match post.get_type() {
                Some(PostType::Gif) => {
                    if !store.has_gif(id) {
                        match &post.file.url {
                            Some(url) => {
                                requests.push(Request::Gif { id, url: url.clone() });
                            },
                            None => {},
                        }
                    }
                },
                Some(PostType::Video) => {
                    let url = match store.get_video(id) {
                        Some(url) => Some(url.clone()),
                        None => match &post.file.url {
                            Some(url) => Some(url.clone()),
                            None => None,
                        },
                    };
                    match (url, &post.file.ext) {
                        (Some(url), Some(ext)) => {
                            requests.push(Request::Video { id, url, ext: ext.clone() });
                        },
                        _ => {},
                    }
                },
                Some(PostType::Flash) => {},
                _ => {
                    if !store.has_image(id) {
                        if view.download_sample {
                            requests.push(Request::Sample { id, sample: post.sample.clone() });
                        }
                        if view.download_fullsize {
                            requests.push(Request::Image { id, file: post.file.clone() });
                        }
                    }
                },
            }
            let ghost media = requests@;
            assert(request_views(media) =~= media_wanted(store@, id, post@, *view));
            requests.push(Request::Comments { id });
            assert(request_views(requests@) =~= request_views(media).push(
                RequestView::Comments { id },
            ));
            assert(request_views(requests@) =~= wanted(store@, id, *view));
        },
    }
    requests
}

/// The vote to ask the board for when the button of `pressed` is pressed
/// while `current` stands: pressing the vote that stands takes it back.
pub fn next_vote(current: Option<Vote>, pressed: Vote) -> (vote: Option<Vote>)
    ensures
        vote == (if current == Some(pressed) {
            None
        } else {
            Some(pressed)
        }),
{
    match current {
        Some(stands) => if stands == pressed {
            None
        } else {
            Some(pressed)
        },
        None => Some(pressed),
    }
}

/// Whether to ask the board to make the post `id` a favorite (`true`) or to
/// stop it being one (`false`), when the favorite button is pressed.
pub fn next_favorite<H, F>(store: &PostStore<H, F>, id: u32) -> (favorite: bool)
    ensures
        favorite == !store@.favorites.contains(id),
{
    !store.is_favorited(id)
}

/// The thumbnail to fetch next: that of the post at the head of the queue,
/// if the cache holds the post and the post has one. The head leaves the
/// queue either way.
pub fn tick<H, F>(store: &PostStore<H, F>, queue: &mut VecDeque<u32>) -> (request: Option<Request>)
    ensures
        old(queue)@.len() == 0 ==> request is None && final(queue)@ == old(queue)@,
        old(queue)@.len() > 0 ==> final(queue)@ == old(queue)@.drop_first() && optional_view(
            request,
        ) == ({
            let id = old(queue)@[0];
            if store@.posts.contains_key(id) && store@.posts[id].preview is Some {
                Some(RequestView::Preview { id, url: store@.posts[id].preview->0 })
            } else {
                None
            }
        }),
{
    match queue.pop_front() {
        None => None,
        Some(id) => {
            assert(final(queue)@ =~= old(queue)@.drop_first());
            match store.get_post(id) {
                None => None,
                Some(post) => match &post.preview.url {
                    Some(url) => Some(Request::Preview { id, url: url.clone() }),
                    None => None,
                },
            }
        },
    }
}

/// The ids of `posts`, in their order.
pub open spec fn ids_of(posts: Seq<PostView>) -> Seq<u32> {
    posts.map_values(|p: PostView| p.id)
}

/// Those of `posts` that are shown: those that no rule of `rules` hides.
pub open spec fn visible(posts: Seq<PostView>, rules: Seq<Seq<char>>) -> Seq<PostView>
    decreases posts.len(),
{
    if posts.len() == 0 {
        posts
    } else {
        let before = visible(posts.drop_last(), rules);
        if blacklisted(posts.last().tags, rules) {
            before
        } else {
            before.push(posts.last())
        }
    }
}

/// `favorites` with the ids of those of `posts` that say that they are
/// favorites.
pub open spec fn with_favorites_of(favorites: Set<u32>, posts: Seq<PostView>) -> Set<u32>
    decreases posts.len(),
{
    if posts.len() == 0 {
        favorites
    } else {
        let before = with_favorites_of(favorites, posts.drop_last());
        if posts.last().is_favorited {
            before.insert(posts.last().id)
        } else {
            before
        }
    }
}

/// `queue` with, after what it holds, the ids of those of `posts` that have
/// a thumbnail on the board and none among `held`, in their order.
pub open spec fn queued(queue: Seq<u32>, held: Set<u32>, posts: Seq<PostView>) -> Seq<u32>
    decreases posts.len(),
{
    if posts.len() == 0 {
        queue
    } else {
        let before = queued(queue, held, posts.drop_last());
        if posts.last().preview is Some && !held.contains(posts.last().id) {
            before.push(posts.last().id)
        } else {
            before
        }
    }
}

/// Those of `posts` whose id is not among `seen`, in their order.
pub open spec fn unseen(posts: Seq<PostView>, seen: Seq<u32>) -> Seq<PostView>
    decreases posts.len(),
{
    if posts.len() == 0 {
        posts
    } else {
        let before = unseen(posts.drop_last(), seen);
        if seen.contains(posts.last().id) {
            before
        } else {
            before.push(posts.last())
        }
    }
}

/// `store` after the posts `found` came in for `query`: the posts are in
/// the cache, those that say so are favorites, and the result of the query
/// has their ids.
pub open spec fn with_found<H, F>(
    store: StoreView<H, F>,
    query: Seq<char>,
    found: Seq<PostView>,
) -> StoreView<H, F> {
    let kept = with_posts(store, found);
    with_update(
        StoreView { favorites: with_favorites_of(kept.favorites, found), ..kept },
        query,
        ids_of(found),
    )
}

/// Those of `posts` that are shown.
pub fn keep_visible(posts: Vec<Post>, blacklist: &Blacklist) -> (kept: Vec<Post>)
    ensures
        post_views(kept@) == visible(post_views(posts@), blacklist.rules.deep_view()),
{
    let ghost all = posts@;
    let mut kept: Vec<Post> = Vec::new();
    for post in it: posts.into_iter()
        invariant
            it.seq() == all,
            post_views(kept@) == visible(
                post_views(all.take(it.index())),
                blacklist.rules.deep_view(),
            ),
    {
        proof {
            let next = post_views(all.take(it.index() + 1));
            assert(next.drop_last() =~= post_views(all.take(it.index())));
            assert(next.last() == post@);
        }
        if !is_blacklisted(&post, blacklist) {
            let ghost before = kept@;
            kept.push(post);
            assert(post_views(kept@) =~= post_views(before).push(post@));
        }
    }
    assert(all.take(all.len() as int) =~= all);
    kept
}

/// A copy of `posts`.
pub fn copy_posts(posts: &Vec<Post>) -> (copy: Vec<Post>)
    ensures
        post_views(copy@) == post_views(posts@),
{
    let mut copy: Vec<Post> = Vec::new();
    let mut i: usize = 0;
    while i < posts.len()
        invariant
            i <= posts.len(),
            post_views(copy@) == post_views(posts@).take(i as int),
        decreases posts.len() - i,
    {
        let ghost before = copy@;
        copy.push(posts[i].clone());
        assert(post_views(copy@) =~= post_views(before).push(posts@[i as int]@));
        assert(post_views(copy@) =~= post_views(posts@).take(i as int + 1));
        i += 1;
    }
    assert(post_views(posts@).take(posts.len() as int) =~= post_views(posts@));
    copy
}

/// Whether one of the first `count` posts of `posts` has the id `id`.
fn shows(posts: &Vec<Post>, count: usize, id: u32) -> (found: bool)
    requires
        count <= posts.len(),
    ensures
        found == ids_of(post_views(posts@)).take(count as int).contains(id),
{
    let ghost ids = ids_of(post_views(posts@)).take(count as int);
    let mut i: usize = 0;
    while i < count
        invariant
            i <= count,
            count <= posts.len(),
            ids == ids_of(post_views(posts@)).take(count as int),
            forall|j: int| 0 <= j < i ==> ids[j] != id,
        decreases count - i,
    {
        if posts[i].id == id {
            assert(ids[i as int] == id);
            return true;
        }
        i += 1;
    }
    false
}

/// Takes in the posts that the board found for the query that is shown.
///
/// Those that the blacklist hides are dropped. The others are put into the
/// cache and made the result of the query, after what it already held; a
/// post that says that it is a favorite is one. Each post that has a
/// thumbnail on the board and none in the cache is queued for it. Each post
/// that the grid does not show yet is added to it.
pub fn posts_loaded<H, F>(
    store: &mut PostStore<H, F>,
    search: &mut SearchState,
    grid: &mut Vec<Post>,
    blacklist: &Blacklist,
    loaded: Vec<Post>,
)
    ensures
        final(store)@ == with_found(
            old(store)@,
            old(search).query@,
            visible(post_views(loaded@), blacklist.rules.deep_view()),
        ),
        final(search).thumbnail_queue@ == queued(
            old(search).thumbnail_queue@,
            old(store)@.thumbnails.dom(),
            visible(post_views(loaded@), blacklist.rules.deep_view()),
        ),
        final(search).input == old(search).input,
        final(search).query == old(search).query,
        post_views(final(grid)@) == post_views(old(grid)@) + unseen(
            visible(post_views(loaded@), blacklist.rules.deep_view()),
            ids_of(post_views(old(grid)@)),
        ),
{
    let found = keep_visible(loaded, blacklist);
    let ghost shown = post_views(found@);
    store.insert_posts(copy_posts(&found));
    let ghost kept = store@;
    proof {
        lemma_with_posts_keeps_the_rest(old(store)@, shown);
    }

    let mut ids: Vec<u32> = Vec::new();
    let mut i: usize = 0;
    while i < found.len()
        invariant
            i <= found.len(),
            shown == post_views(found@),
            ids@ == ids_of(shown.take(i as int)),
            store@ == (StoreView {
                favorites: with_favorites_of(kept.favorites, shown.take(i as int)),
                ..kept
            }),
            kept.thumbnails == old(store)@.thumbnails,
            search.thumbnail_queue@ == queued(
                old(search).thumbnail_queue@,
                old(store)@.thumbnails.dom(),
                shown.take(i as int),
            ),
            search.input == old(search).input,
            search.query == old(search).query,
        decreases found.len() - i,
    {
        let post = &found[i];
        proof {
            assert(shown.take(i as int + 1).drop_last() =~= shown.take(i as int));
            assert(shown.take(i as int + 1).last() == post@);
        }
        ids.push(post.id);
        assert(ids@ =~= ids_of(shown.take(i as int + 1)));
        if post.is_favorited {
            store.set_favorite(post.id, true);
        }
        if post.preview.url.is_some() && !store.has_thumbnail(post.id) {
            search.thumbnail_queue.push_back(post.id);
        }
        i += 1;
    }
    assert(shown.take(found.len() as int) =~= shown);
    store.update_results(search.query.as_str(), ids.as_slice());

    let seen = grid.len();
    let ghost earlier = grid@;
    for post in it: found.into_iter()
        invariant
            it.seq() == found@,
            shown == post_views(found@),
            seen == earlier.len(),
            seen <= grid.len(),
            post_views(grid@) == post_views(earlier) + unseen(
                shown.take(it.index()),
                ids_of(post_views(earlier)),
            ),
    {
        proof {
            assert(shown.take(it.index() + 1).drop_last() =~= shown.take(it.index()));
            assert(shown.take(it.index() + 1).last() == post@);
            assert(ids_of(post_views(grid@)).take(seen as int) =~= ids_of(post_views(earlier)));
        }
        if !shows(grid, seen, post.id) {
            let ghost before = grid@;
            grid.push(post);
            assert(post_views(grid@) =~= post_views(before).push(post@));
        }
    }
    assert(shown.take(shown.len() as int) =~= shown);
}

/// `store` after the posts `found` came in for a followed tag: those that
/// are shown are in the cache.
pub open spec fn with_updates<H, F>(
    store: StoreView<H, F>,
    found: Seq<PostView>,
    rules: Seq<Seq<char>>,
) -> StoreView<H, F> {
    with_posts(store, visible(found, rules))
}

/// Takes in the posts that the board found for a followed tag: those that
/// the blacklist does not hide are put into the cache, and each of them
/// that has a thumbnail on the board and none in the cache is queued for it.
pub fn updates_received<H, F>(
    store: &mut PostStore<H, F>,
    queue: &mut VecDeque<u32>,
    blacklist: &Blacklist,
    posts: &Vec<Post>,
)
    ensures
        final(store)@ == with_updates(
            old(store)@,
            post_views(posts@),
            blacklist.rules.deep_view(),
        ),
        final(queue)@ == queued(
            old(queue)@,
            old(store)@.thumbnails.dom(),
            visible(post_views(posts@), blacklist.rules.deep_view()),
        ),
{
    let ghost all = post_views(posts@);
    let ghost rules = blacklist.rules.deep_view();
    let mut i: usize = 0;
    while i < posts.len()
        invariant
            i <= posts.len(),
            all == post_views(posts@),
            rules == blacklist.rules.deep_view(),
            store@ == with_posts(old(store)@, visible(all.take(i as int), rules)),
            store@.thumbnails == old(store)@.thumbnails,
            queue@ == queued(
                old(queue)@,
                old(store)@.thumbnails.dom(),
                visible(all.take(i as int), rules),
            ),
        decreases posts.len() - i,
    {
        let post = &posts[i];
        proof {
            assert(all.take(i as int + 1).drop_last() =~= all.take(i as int));
            assert(all.take(i as int + 1).last() == post@);
            let more = visible(all.take(i as int), rules).push(post@);
            assert(more.drop_last() =~= visible(all.take(i as int), rules));
            lemma_with_posts_keeps_the_rest(old(store)@, visible(all.take(i as int), rules));
            lemma_with_posts_keeps_the_rest(old(store)@, more);
        }
        if !is_blacklisted(post, blacklist) {
            store.insert_post(post.clone());
            if post.preview.url.is_some() && !store.has_thumbnail(post.id) {
                queue.push_back(post.id);
            }
        }
        i += 1;
    }
    assert(all.take(posts.len() as int) =~= all);
}

/// `store` after the post `id` was opened: the post is marked as a
/// favorite if it is one.
pub open spec fn opened<H, F>(store: StoreView<H, F>, id: u32) -> StoreView<H, F> {
    if store.favorites.contains(id) && store.posts.contains_key(id) {
        StoreView {
            posts: store.posts.insert(id, PostView { is_favorited: true, ..store.posts[id] }),
            ..store
        }
    } else {
        store
    }
}

/// Opens the post `id`: marks it as a favorite if it is one, and says what
/// to fetch for it.
pub fn view_post<H, F>(store: &mut PostStore<H, F>, id: u32, view: &ViewConfig) -> (requests: Vec<
    Request,
>)
    requires
        can_view(old(store)@, id),
        old(store)@.favorites.contains(id) ==> old(store)@.posts.contains_key(id),
    ensures
        final(store)@ == opened(old(store)@, id),
        request_views(requests@) == wanted(final(store)@, id, *view),
{
    if store.is_favorited(id) {
        match store.get_post_mut(id) {
            Some(post) => {
                post.is_favorited = true;
            },
            None => {},
        }
    }
    view_requests(store, id, view)
}

/// What to try when the media of a post is to be opened outside the
/// program.
#[derive(Debug)]
pub struct Openable {
    /// The files in the cache directory to try, the first one first.
    pub files: Vec<String>,
    /// The file of the video, where the post is a video whose place names a
    /// file on this machine. It is tried after the others.
    pub video: Option<PathBuf>,
}

/// What an `Openable` holds.
pub struct OpenableView {
    pub files: Seq<Seq<char>>,
    pub video: Option<PathBuf>,
}

impl View for Openable {
    type V = OpenableView;

    open spec fn view(&self) -> OpenableView {
        OpenableView { files: self.files.deep_view(), video: self.video }
    }
}

/// The files in the cache directory to try when the media of the post `id`
/// of kind `kind` is to be opened outside the program, the first one first:
/// of an image, the full image and then the sample, each if the settings
/// have it fetched; of a GIF, the GIF.
pub open spec fn files_to_open(
    cache_dir: Seq<char>,
    id: u32,
    kind: Option<PostType>,
    view: ViewConfig,
) -> Seq<Seq<char>> {
    match kind {
        Some(PostType::Image) => (if view.download_fullsize {
            seq![media_path(cache_dir, MediaKind::Image, id)]
        } else {
            Seq::empty()
        }) + (if view.download_sample {
            seq![media_path(cache_dir, MediaKind::Sample, id)]
        } else {
            Seq::empty()
        }),
        Some(PostType::Gif) => seq![media_path(cache_dir, MediaKind::Gif, id)],
        _ => Seq::empty(),
    }
}

/// What to try when the media of the post `id` of kind `kind` is to be
/// opened outside the program, where the place of a video names the file
/// `video`.
pub open spec fn to_open(
    cache_dir: Seq<char>,
    id: u32,
    kind: Option<PostType>,
    view: ViewConfig,
    video: Option<PathBuf>,
) -> OpenableView {
    OpenableView {
        files: files_to_open(cache_dir, id, kind, view),
        video: if kind == Some(PostType::Video) {
            video
        } else {
            None
        },
    }
}

/// What to try when the media of the post `id` of kind `kind` is to be
/// opened outside the program, where the place of a video names the file
/// `video`.
pub fn open_files(
    cache_dir: &str,
    id: u32,
    kind: Option<PostType>,
    view: &ViewConfig,
    video: Option<PathBuf>,
) -> (found: Openable)
    ensures
        found@ == to_open(cache_dir@, id, kind, *view, video),
{
    let mut files: Vec<String> = Vec::new();
    let mut file: Option<PathBuf> = None;
    match kind {
        Some(PostType::Image) => {
            if view.download_fullsize {
                files.push(media_file(cache_dir, MediaKind::Image, id));
            }
            if view.download_sample {
                files.push(media_file(cache_dir, MediaKind::Sample, id));
            }
        },
        Some(PostType::Gif) => {
            files.push(media_file(cache_dir, MediaKind::Gif, id));
        },
        Some(PostType::Video) => {
            file = video;
        },
        _ => {},
    }
    assert(files.deep_view() =~= files_to_open(cache_dir@, id, kind, *view));
    Openable { files, video: file }
}

/// What to try when the media of the post `id` is to be opened outside the
/// program. The first file that exists is the one to open.
///
/// The file of a video is the one that its URL names on this machine; where
/// the cache does not know the video, or the URL names no file, there is
/// none. For a post that the cache does not hold there is nothing to try.
pub fn open_candidates<H, F>(store: &PostStore<H, F>, id: u32, view: &ViewConfig) -> (found:
    Openable)
    ensures
        !store@.posts.contains_key(id) ==> found@ == (OpenableView {
            files: Seq::empty(),
            video: None,
        }),
        store@.posts.contains_key(id) ==> found@.files == files_to_open(
            store@.cache_dir,
            id,
            post_type_of(store@.posts[id].file.ext),
            *view,
        ),
        found@.video is Some ==> store@.posts.contains_key(id) && post_type_of(
            store@.posts[id].file.ext,
        ) == Some(PostType::Video) && store@.videos.contains_key(id),
{
    match store.get_post(id) {
        None => {
            let found = Openable { files: Vec::new(), video: None };
            assert(found@.files =~= Seq::empty());
            found
        },
        Some(post) => {
            let kind = post.get_type();
            let video = match kind {
                Some(PostType::Video) => match store.get_video(id) {
                    Some(url) => local_file(url.as_str()),
                    None => None,
                },
                _ => None,
            };
            open_files(store.cache_dir.as_str(), id, kind, view, video)
        },
    }
}

/// The posts of `store` that `ids` name, in the order of `ids`; an id
/// without a post is passed over.
pub open spec fn posts_named<H, F>(store: StoreView<H, F>, ids: Seq<u32>) -> Seq<PostView>
    decreases ids.len(),
{
    if ids.len() == 0 {
        Seq::empty()
    } else {
        let before = posts_named(store, ids.drop_last());
        if store.posts.contains_key(ids.last()) {
            before.push(store.posts[ids.last()])
        } else {
            before
        }
    }
}

/// What the posts in `posts` hold.
pub open spec fn borrowed_views(posts: Seq<&Post>) -> Seq<PostView> {
    posts.map_values(|p: &Post| p@)
}

/// The posts that the grid shows for `query`: those of its result that the
/// cache holds, in the order of the result. A query without a result shows
/// nothing.
pub fn result_posts<'a, H, F>(store: &'a PostStore<H, F>, query: &str) -> (posts: Vec<&'a Post>)
    ensures
        borrowed_views(posts@) == (if store@.results.contains_key(query@) {
            posts_named(store@, store@.results[query@])
        } else {
            Seq::empty()
        }),
{
    let mut posts: Vec<&'a Post> = Vec::new();
    match store.get_results(query) {
        None => {
            assert(borrowed_views(posts@) =~= Seq::empty());
        },
        Some(ids) => {
            let mut i: usize = 0;
            assert(borrowed_views(posts@) =~= Seq::empty());
            while i < ids.len()
                invariant
                    i <= ids.len(),
                    borrowed_views(posts@) == posts_named(store@, ids@.take(i as int)),
                decreases ids.len() - i,
            {
                proof {
                    assert(ids@.take(i as int + 1).drop_last() =~= ids@.take(i as int));
                    assert(ids@.take(i as int + 1).last() == ids@[i as int]);
                }
                match store.get_post(ids[i]) {
                    Some(post) => {
                        let ghost before = posts@;
                        posts.push(post);
                        assert(borrowed_views(posts@) =~= borrowed_views(before).push(post@));
                    },
                    None => {},
                }
                i += 1;
            }
            assert(ids@.take(ids.len() as int) =~= ids@);
        },
    }
    posts
}

/// What the detail view shows of the media of a post.
#[derive(Clone, Copy, Debug, PartialEq, Eq, Structural)]
pub enum MediaShown {
    /// The full image.
    FullImage,
    /// The sample image, while the full image is not there.
    SampleImage,
    /// A note that the image is being fetched.
    ImageLoading,
    /// The GIF, playing.
    GifFrames,
    /// A note that the GIF could not be decoded.
    GifUndecoded,
    /// A note that the GIF is being fetched.
    GifLoading,
    /// The video player.
    Video,
    /// A note that the video is being fetched.
    VideoLoading,
    /// A note that media of this kind cannot be shown.
    Unsupported,
}

/// What the detail view shows of the media of `post`, given what the cache
/// holds for it and whether a video player is open.
pub open spec fn media_to_show<H, F>(
    store: StoreView<H, F>,
    post: PostView,
    player_open: bool,
) -> MediaShown {
    match post_type_of(post.file.ext) {
        Some(PostType::Image) => if store.images.contains_key(post.id) {
            MediaShown::FullImage
        } else if store.samples.contains_key(post.id) {
            MediaShown::SampleImage
        } else {
            MediaShown::ImageLoading
        },
        Some(PostType::Gif) => if !store.gifs.contains_key(post.id) {
            MediaShown::GifLoading
        } else if store.gif_frames.contains_key(post.id) {
            MediaShown::GifFrames
        } else {
            MediaShown::GifUndecoded
        },
        Some(PostType::Video) => if player_open {
            MediaShown::Video
        } else {
            MediaShown::VideoLoading
        },
        _ => MediaShown::Unsupported,
    }
}

/// What the detail view shows of the media of `post`.
pub fn media_shown<H, F>(store: &PostStore<H, F>, post: &Post, player_open: bool) -> (shown:
    MediaShown)
    ensures
        shown == media_to_show(store@, post@, player_open),
{
    match post.get_type() {
        Some(PostType::Image) => {
            if store.has_image(post.id) {
                MediaShown::FullImage
            } else if store.has_sample(post.id) {
                MediaShown::SampleImage
            } else {
                MediaShown::ImageLoading
            }
        },
        Some(PostType::Gif) => {
            if !store.has_gif(post.id) {
                MediaShown::GifLoading
            } else if store.get_gif_frames(post.id).is_some() {
                MediaShown::GifFrames
            } else {
                MediaShown::GifUndecoded
            }
        },
        Some(PostType::Video) => {
            if player_open {
                MediaShown::Video
            } else {
                MediaShown::VideoLoading
            }
        },
        _ => MediaShown::Unsupported,
    }
}

/// How many tiles a row of the grid holds: as many as fit into the window,
/// but no more than the settings allow.
pub fn tiles_per_row(window_width: usize, posts_per_row: usize, tile_width: usize) -> (tiles: usize)
    requires
        tile_width > 0,
    ensures
        tiles == (if window_width / tile_width < posts_per_row {
            window_width / tile_width
        } else {
            posts_per_row
        }),
{
    let fit = window_width / tile_width;
    if fit < posts_per_row {
        fit
    } else {
        posts_per_row
    }
}

} // verus!
