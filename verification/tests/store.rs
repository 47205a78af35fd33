use msg_store::model::{File, Post, Preview, Rating, Sample, Score, Tags, Timestamp, Vote};
use msg_store::snapshot::{LoadedMedia, MediaRead};
use msg_store::store::PostStore;
use std::path::PathBuf;

type Store = PostStore<Vec<u8>, u32>;

fn post(id: u32, ext: Option<&str>, is_favorited: bool) -> Post {
    Post {
        id,
        created_at: Timestamp { secs: 1_700_000_000, nanos: 0 },
        updated_at: Timestamp { secs: 1_700_000_100, nanos: 500 },
        file: File {
            ext: ext.map(String::from),
            url: Some(format!("https://static.example/{id}")),
        },
        preview: Preview { url: Some(format!("https://static.example/{id}/preview")) },
        sample: Sample { has: false, url: None },
        score: Score { total: 3 },
        tags: Tags {
            general: vec!["outside".to_string(), "tree".to_string()],
            artist: vec!["someone".to_string()],
            copyright: vec![],
            character: vec![],
            species: vec!["cat".to_string()],
            invalid: vec![],
            meta: vec![],
            lore: vec![],
        },
        rating: Rating::Safe,
        is_favorited,
        fav_count: 7,
        description: "a cat in a tree".to_string(),
    }
}

fn no_media() -> LoadedMedia<Vec<u8>> {
    LoadedMedia { thumbnails: vec![], samples: vec![], images: vec![], gifs: vec![] }
}

#[test]
fn new_store_is_empty() {
    let store = Store::new("/cache".to_string());
    assert!(store.get_post(1).is_none());
    assert!(!store.is_favorited(1));
    assert_eq!(store.vote_for(1), None);
    assert!(!store.has_thumbnail(1));
    assert!(!store.has_sample(1));
    assert!(!store.has_image(1));
    assert!(!store.has_gif(1));
    assert!(!store.has_video(1));
    assert!(store.get_comments(1).is_none());
    assert!(store.get_results("cat").is_none());
    assert_eq!(store.cache_dir, "/cache");
}

#[test]
fn insert_post_is_an_upsert() {
    let mut store = Store::new("/cache".to_string());
    store.insert_post(post(9, Some("png"), false));
    let mut again = post(9, Some("png"), false);
    again.description = "changed".to_string();
    store.insert_post(again);
    assert_eq!(store.posts.len(), 1);
    assert_eq!(store.get_post(9).unwrap().description, "changed");
}

#[test]
fn insert_post_syncs_favorite() {
    let mut store = Store::new("/cache".to_string());
    store.insert_post(post(1, Some("png"), true));
    assert!(store.is_favorited(1));
    store.insert_post(post(1, Some("png"), false));
    assert!(!store.is_favorited(1));
    store.set_favorite(2, true);
    store.insert_post(post(2, Some("png"), false));
    assert!(!store.is_favorited(2));
    store.insert_post(post(3, Some("png"), false));
    assert!(!store.is_favorited(3));
}

#[test]
fn insert_posts_takes_them_in_order() {
    let mut store = Store::new("/cache".to_string());
    store.insert_posts(vec![
        post(1, Some("png"), true),
        post(2, Some("gif"), false),
        post(1, Some("jpg"), false),
    ]);
    assert_eq!(store.posts.len(), 2);
    assert_eq!(store.get_post(1).unwrap().file.ext.as_deref(), Some("jpg"));
    assert!(!store.is_favorited(1));
    assert!(store.get_post(2).is_some());
}

#[test]
fn favorites_are_set_and_cleared() {
    let mut store = Store::new("/cache".to_string());
    store.set_favorite(5, true);
    store.set_favorite(5, true);
    assert!(store.is_favorited(5));
    assert_eq!(store.favorites.len(), 1);
    store.set_favorite(5, false);
    assert!(!store.is_favorited(5));
    store.set_favorite(6, false);
    assert!(!store.is_favorited(6));
}

#[test]
fn votes_are_set_and_taken_back() {
    let mut store = Store::new("/cache".to_string());
    store.set_vote(5, Some(Vote::Upvote));
    assert_eq!(store.vote_for(5), Some(Vote::Upvote));
    store.set_vote(5, Some(Vote::Downvote));
    assert_eq!(store.vote_for(5), Some(Vote::Downvote));
    store.set_vote(5, None);
    assert_eq!(store.vote_for(5), None);
    store.set_vote(6, None);
    assert_eq!(store.vote_for(6), None);
    assert!(!store.is_favorited(5));
}

#[test]
fn artifacts_overwrite_their_slot() {
    let mut store = Store::new("/cache".to_string());
    store.insert_thumbnail(1, vec![1]);
    store.insert_thumbnail(1, vec![2]);
    store.insert_sample(1, vec![3]);
    store.insert_image(1, vec![4]);
    store.insert_gif(1, vec![5]);
    store.insert_video(1, "file:///cache/video/1.webm".to_string());
    assert_eq!(store.get_thumbnail(1), Some(&vec![2]));
    assert_eq!(store.get_sample(1), Some(&vec![3]));
    assert_eq!(store.get_image(1), Some(&vec![4]));
    assert_eq!(store.get_gif(1), Some(&vec![5]));
    assert_eq!(store.get_video(1).map(String::as_str), Some("file:///cache/video/1.webm"));
    assert!(store.has_thumbnail(1) && store.has_sample(1) && store.has_image(1));
    assert!(store.has_gif(1) && store.has_video(1));
    assert!(!store.has_thumbnail(2));
    assert_eq!(store.get_thumbnail(2), None);
}

#[test]
fn a_new_gif_drops_the_old_frames() {
    let mut store = Store::new("/cache".to_string());
    store.insert_decoded_gif(1, vec![1, 2, 3], Some(12));
    assert_eq!(store.get_gif_frames(1), Some(&12));
    assert_eq!(store.get_gif(1), Some(&vec![1, 2, 3]));
    store.insert_gif(1, vec![4, 5]);
    assert_eq!(store.get_gif_frames(1), None);
    assert_eq!(store.get_gif(1), Some(&vec![4, 5]));
}

#[test]
fn a_gif_that_does_not_decode_is_kept() {
    let mut store = Store::new("/cache".to_string());
    store.insert_decoded_gif(1, vec![9, 9], None);
    assert!(store.has_gif(1));
    assert_eq!(store.get_gif(1), Some(&vec![9, 9]));
    assert_eq!(store.get_gif_frames(1), None);
}

#[test]
fn paths_follow_the_layout() {
    let store = Store::new("/home/me/.cache/msg".to_string());
    assert_eq!(store.get_thumbnail_path(42), "/home/me/.cache/msg/thumbnails/42.jpg");
    assert_eq!(store.get_sample_path(42), "/home/me/.cache/msg/sample/42.jpg");
    assert_eq!(store.get_image_path(42), "/home/me/.cache/msg/resized/42.png");
    assert_eq!(store.get_gif_path(42), "/home/me/.cache/msg/gifs/42.gif");
    assert_eq!(store.get_thumbnail_path(0), "/home/me/.cache/msg/thumbnails/0.jpg");
    assert_eq!(
        store.get_thumbnail_path(u32::MAX),
        "/home/me/.cache/msg/thumbnails/4294967295.jpg"
    );
}

#[test]
fn tolerant_load() {
    let mut store = Store::new("/cache".to_string());
    store.insert_post(post(42, Some("png"), true));
    store.insert_thumbnail(42, vec![1, 2, 3]);
    let data = store.save_to();
    assert_eq!(data.thumbnails.get(42).map(String::as_str), Some("/cache/thumbnails/42.jpg"));
    // The thumbnail's file is gone by the time the record is loaded.
    let media = LoadedMedia {
        thumbnails: vec![MediaRead { id: 42, content: None }],
        samples: vec![],
        images: vec![],
        gifs: vec![],
    };
    let loaded = Store::load_from("/cache".to_string(), data, media);
    assert!(loaded.get_post(42).is_some());
    assert_eq!(loaded.get_post(42).unwrap().description, "a cat in a tree");
    assert_eq!(loaded.get_thumbnail(42), None);
    assert!(loaded.is_favorited(42));
}

#[test]
fn save_load_round_trip() {
    let mut store = Store::new("/cache".to_string());
    store.insert_post(post(1, Some("png"), true));
    store.insert_post(post(2, Some("gif"), false));
    store.insert_post(post(3, None, false));
    store.set_favorite(77, true);
    store.set_vote(1, Some(Vote::Upvote));
    store.set_vote(2, Some(Vote::Downvote));
    store.insert_thumbnail(1, vec![1]);
    store.insert_sample(1, vec![2]);
    store.insert_image(1, vec![3]);
    store.insert_gif(2, vec![4]);
    store.insert_results("cat", &[1, 2]);
    let data = store.save_to();
    assert_eq!(data.posts.len(), 3);
    assert_eq!(data.samples.get(1).map(String::as_str), Some("/cache/sample/1.jpg"));
    assert_eq!(data.images.get(1).map(String::as_str), Some("/cache/resized/1.png"));
    assert_eq!(data.gifs.get(2).map(String::as_str), Some("/cache/gifs/2.gif"));
    assert_eq!(data.gifs.get(1), None);
    assert_eq!(data.votes.get(1), Some(&true));
    assert_eq!(data.votes.get(2), Some(&false));
    assert_eq!(data.votes.get(3), None);

    let media = LoadedMedia {
        thumbnails: vec![MediaRead { id: 1, content: Some(vec![1]) }],
        samples: vec![MediaRead { id: 1, content: Some(vec![2]) }],
        images: vec![MediaRead { id: 1, content: None }],
        gifs: vec![MediaRead { id: 2, content: Some(vec![4]) }],
    };
    let loaded = Store::load_from("/cache".to_string(), data, media);
    for id in [1u32, 2, 3] {
        let before = store.get_post(id).unwrap();
        let after = loaded.get_post(id).unwrap();
        assert_eq!(before.id, after.id);
        assert_eq!(before.file.ext, after.file.ext);
        assert_eq!(before.file.url, after.file.url);
        assert_eq!(before.preview.url, after.preview.url);
        assert_eq!(before.tags.general, after.tags.general);
        assert_eq!(before.tags.species, after.tags.species);
        assert_eq!(before.created_at, after.created_at);
        assert_eq!(before.updated_at, after.updated_at);
        assert_eq!(before.is_favorited, after.is_favorited);
        assert_eq!(before.description, after.description);
        assert_eq!(store.is_favorited(id), loaded.is_favorited(id));
        assert_eq!(store.vote_for(id), loaded.vote_for(id));
    }
    assert_eq!(loaded.posts.len(), 3);
    assert!(loaded.is_favorited(77));
    assert_eq!(loaded.favorites.len(), 2);
    assert_eq!(loaded.get_thumbnail(1), Some(&vec![1]));
    assert_eq!(loaded.get_sample(1), Some(&vec![2]));
    assert_eq!(loaded.get_image(1), None);
    assert_eq!(loaded.get_gif(2), Some(&vec![4]));
    // Results and comments do not outlast the cache.
    assert!(loaded.get_results("cat").is_none());
}

#[test]
fn load_ignores_files_the_record_does_not_name() {
    let mut store = Store::new("/cache".to_string());
    store.insert_post(post(1, Some("png"), false));
    store.insert_thumbnail(1, vec![1]);
    let media = LoadedMedia {
        thumbnails: vec![
            MediaRead { id: 1, content: Some(vec![1]) },
            MediaRead { id: 2, content: Some(vec![2]) },
            MediaRead { id: 1, content: Some(vec![3]) },
        ],
        samples: vec![MediaRead { id: 1, content: Some(vec![4]) }],
        images: vec![],
        gifs: vec![],
    };
    let loaded = Store::load_from("/cache".to_string(), store.save_to(), media);
    assert_eq!(loaded.get_thumbnail(1), Some(&vec![3]));
    assert_eq!(loaded.get_thumbnail(2), None);
    assert_eq!(loaded.get_sample(1), None);
}

#[test]
fn load_keeps_the_videos_whose_url_parses() {
    let mut store = Store::new("/cache".to_string());
    store.insert_video(1, "file:///cache/video/1.webm".to_string());
    store.insert_video(2, "HTTP://Example.COM/a b".to_string());
    store.insert_video(3, "not a url".to_string());
    let data = store.save_to();
    assert_eq!(data.videos.get(2).map(String::as_str), Some("HTTP://Example.COM/a b"));
    let loaded = Store::load_from("/cache".to_string(), data, no_media());
    assert_eq!(loaded.get_video(1).map(String::as_str), Some("file:///cache/video/1.webm"));
    assert_eq!(loaded.get_video(2).map(String::as_str), Some("http://example.com/a%20b"));
    assert_eq!(loaded.get_video(3), None);
    assert!(!loaded.has_video(3));
}

#[test]
fn purge_removes_all_when_nothing_is_favorited() {
    let mut store = Store::new("/cache".to_string());
    for id in 1..=5u32 {
        store.insert_post(post(id, Some("png"), false));
        store.insert_thumbnail(id, vec![id as u8]);
    }
    let plan = store.purge_plan();
    assert_eq!(plan.len(), 5);
    let mut ids: Vec<u32> = plan.iter().map(|e| e.id).collect();
    ids.sort();
    assert_eq!(ids, vec![1, 2, 3, 4, 5]);
    for entry in &plan {
        assert_eq!(entry.files[0].path, format!("/cache/thumbnails/{}.jpg", entry.id));
        assert!(entry.files[0].must_exist);
    }
    assert_eq!(store.purge(), 5);
    assert_eq!(store.posts.len(), 0);
    assert_eq!(store.thumbnails.len(), 0);
    for id in 1..=5u32 {
        assert!(store.get_post(id).is_none());
        assert!(!store.has_thumbnail(id));
    }
}

#[test]
fn purge_spares_favorites() {
    let mut store = Store::new("/cache".to_string());
    store.insert_post(post(1, Some("png"), true));
    store.insert_post(post(2, Some("png"), false));
    store.insert_post(post(3, Some("gif"), false));
    store.set_favorite(3, true);
    for id in 1..=3u32 {
        store.insert_thumbnail(id, vec![id as u8]);
        store.insert_image(id, vec![10 + id as u8]);
        store.insert_sample(id, vec![20 + id as u8]);
    }
    store.insert_gif(3, vec![7]);
    store.insert_thumbnail(99, vec![99]);
    store.set_vote(2, Some(Vote::Upvote));
    store.insert_results("cat", &[1, 2, 3]);

    let plan = store.purge_plan();
    assert_eq!(plan.len(), 1);
    assert_eq!(plan[0].id, 2);
    let paths: Vec<(&str, bool)> =
        plan[0].files.iter().map(|r| (r.path.as_str(), r.must_exist)).collect();
    assert_eq!(
        paths,
        vec![
            ("/cache/thumbnails/2.jpg", true),
            ("/cache/resized/2.png", false),
            ("/cache/sample/2.jpg", false),
        ]
    );

    assert_eq!(store.purge(), 1);
    assert!(store.get_post(2).is_none());
    assert!(!store.has_thumbnail(2) && !store.has_image(2) && !store.has_sample(2));
    for id in [1u32, 3] {
        assert!(store.get_post(id).is_some());
        assert!(store.is_favorited(id));
        assert_eq!(store.get_thumbnail(id), Some(&vec![id as u8]));
        assert_eq!(store.get_image(id), Some(&vec![10 + id as u8]));
        assert_eq!(store.get_sample(id), Some(&vec![20 + id as u8]));
    }
    assert_eq!(store.get_gif(3), Some(&vec![7]));
    // What belongs to no post of the cache is not touched.
    assert_eq!(store.get_thumbnail(99), Some(&vec![99]));
    assert_eq!(store.vote_for(2), Some(Vote::Upvote));
    assert_eq!(store.get_results("cat"), Some(&vec![1, 2, 3]));
    // A second eviction finds nothing left to take.
    assert_eq!(store.purge_plan().len(), 0);
    assert_eq!(store.purge(), 0);
}

#[test]
fn purge_plan_goes_by_the_kind_of_post() {
    let mut store = Store::new("/cache".to_string());
    store.insert_post(post(1, Some("gif"), false));
    store.insert_post(post(2, Some("webm"), false));
    store.insert_post(post(3, Some("mp4"), false));
    store.insert_post(post(4, Some("swf"), false));
    store.insert_post(post(5, None, false));
    store.insert_post(post(6, Some("jpg"), false));
    store.insert_video(2, "file:///cache/video/2.webm".to_string());
    store.insert_video(6, "file:///cache/video/6.webm".to_string());
    let plan = store.purge_plan();
    assert_eq!(plan.len(), 6);
    for entry in &plan {
        let rest: Vec<(&str, bool)> =
            entry.files[1..].iter().map(|r| (r.path.as_str(), r.must_exist)).collect();
        assert_eq!(entry.files[0].path, format!("/cache/thumbnails/{}.jpg", entry.id));
        assert!(entry.files[0].must_exist);
        match entry.id {
            1 => assert_eq!(rest, vec![("/cache/gifs/1.gif", false)]),
            2 | 3 | 4 | 5 => assert!(rest.is_empty()),
            6 => {
                assert_eq!(rest, vec![("/cache/resized/6.png", false), ("/cache/sample/6.jpg", false)])
            }
            other => panic!("unexpected post {other}"),
        }
        match entry.id {
            2 => assert_eq!(entry.video, Some(PathBuf::from("/cache/video/2.webm"))),
            _ => assert_eq!(entry.video, None),
        }
    }
}

#[test]
fn a_cache_that_does_not_load_starts_fresh() {
    let mut saved = Store::new("/old".to_string());
    saved.insert_post(post(1, Some("png"), true));
    let store = Store::loaded_or_new(Some(saved), "/new".to_string());
    assert!(store.get_post(1).is_some());
    assert_eq!(store.cache_dir, "/old");
    let store = Store::loaded_or_new(None, "/new".to_string());
    assert_eq!(store.posts.len(), 0);
    assert_eq!(store.cache_dir, "/new");
    assert_eq!(store.get_thumbnail_path(3), "/new/thumbnails/3.jpg");
}

#[test]
fn the_file_of_a_video_goes_with_its_post_only() {
    let plan = |kind, video: Option<&str>| {
        msg_store::eviction::post_eviction("/c", 8, kind, video.map(PathBuf::from))
    };
    let entry = plan(Some(msg_store::model::PostType::Video), Some("/elsewhere/8.webm"));
    assert_eq!(entry.id, 8);
    assert_eq!(entry.files.len(), 1);
    assert_eq!(entry.files[0].path, "/c/thumbnails/8.jpg");
    assert_eq!(entry.video, Some(PathBuf::from("/elsewhere/8.webm")));
    assert_eq!(plan(Some(msg_store::model::PostType::Video), None).video, None);
    let entry = plan(Some(msg_store::model::PostType::Image), Some("/elsewhere/8.webm"));
    assert_eq!(entry.files.len(), 3);
    assert_eq!(entry.video, None);
    assert_eq!(plan(None, Some("/x")).video, None);
}

#[test]
fn the_posts_to_evict_are_those_that_are_no_favorites() {
    let mut store = Store::new("/cache".to_string());
    store.insert_post(post(1, Some("png"), true));
    store.insert_post(post(2, Some("png"), false));
    store.insert_post(post(3, Some("png"), false));
    store.set_favorite(9, true);
    let mut ids = store.evictable_ids();
    ids.sort();
    assert_eq!(ids, vec![2, 3]);
}
