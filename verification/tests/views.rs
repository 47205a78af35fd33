use msg_store::media::{exceeds_texture, TEXTURE_SIZE};
use msg_store::model::{File, Post, Preview, Rating, Sample, Score, Tags, Timestamp};
use msg_store::session::{media_shown, result_posts, tiles_per_row, MediaShown};
use msg_store::store::PostStore;
use msg_store::time_ago::timestamp;

type Store = PostStore<Vec<u8>, u32>;

fn post(id: u32, ext: Option<&str>) -> Post {
    Post {
        id,
        created_at: Timestamp { secs: 0, nanos: 0 },
        updated_at: Timestamp { secs: 0, nanos: 0 },
        file: File { ext: ext.map(String::from), url: None },
        preview: Preview { url: None },
        sample: Sample { has: false, url: None },
        score: Score { total: 0 },
        tags: Tags {
            general: vec![],
            artist: vec![],
            copyright: vec![],
            character: vec![],
            species: vec![],
            invalid: vec![],
            meta: vec![],
            lore: vec![],
        },
        rating: Rating::Safe,
        is_favorited: false,
        fav_count: 0,
        description: String::new(),
    }
}

#[test]
fn large_images_are_scaled_down() {
    assert_eq!(TEXTURE_SIZE, 4096);
    assert!(!exceeds_texture(0, 0));
    assert!(!exceeds_texture(4096, 4096));
    assert!(exceeds_texture(4097, 1));
    assert!(exceeds_texture(1, 4097));
    assert!(exceeds_texture(u32::MAX, u32::MAX));
}

#[test]
fn video_positions() {
    assert_eq!(timestamp(0), "0:00");
    assert_eq!(timestamp(9), "0:09");
    assert_eq!(timestamp(10), "0:10");
    assert_eq!(timestamp(59), "0:59");
    assert_eq!(timestamp(60), "1:00");
    assert_eq!(timestamp(61), "1:01");
    assert_eq!(timestamp(3725), "62:05");
}

#[test]
fn ratings_in_words() {
    assert_eq!(Rating::Safe.label(), "Rating: Safe");
    assert_eq!(Rating::Questionable.label(), "Rating: Questionable");
    assert_eq!(Rating::Explicit.label(), "Rating: Explicit");
    assert_eq!(Rating::Safe.letter(), "S");
    assert_eq!(Rating::Questionable.letter(), "Q");
    assert_eq!(Rating::Explicit.letter(), "E");
}

#[test]
fn rows_hold_what_fits() {
    assert_eq!(tiles_per_row(480, 5, 180), 2);
    assert_eq!(tiles_per_row(1800, 5, 180), 5);
    assert_eq!(tiles_per_row(900, 5, 180), 5);
    assert_eq!(tiles_per_row(899, 5, 180), 4);
    assert_eq!(tiles_per_row(100, 5, 180), 0);
    assert_eq!(tiles_per_row(100, 0, 1), 0);
}

#[test]
fn the_grid_shows_the_result_of_its_query() {
    let mut store = Store::new("/c".to_string());
    store.insert_post(post(1, None));
    store.insert_post(post(2, None));
    store.insert_post(post(3, None));
    store.insert_results("cat", &[3, 9, 1, 3]);
    let ids = |query: &str| result_posts(&store, query).iter().map(|p| p.id).collect::<Vec<_>>();
    assert_eq!(ids("cat"), vec![3, 1, 3]);
    assert_eq!(ids("dog"), Vec::<u32>::new());
}

#[test]
fn the_detail_view_shows_what_is_there() {
    let mut store = Store::new("/c".to_string());
    let image = post(1, Some("png"));
    let gif = post(2, Some("gif"));
    let video = post(3, Some("webm"));
    let flash = post(4, Some("swf"));
    let unknown = post(5, None);

    assert_eq!(media_shown(&store, &image, false), MediaShown::ImageLoading);
    store.insert_sample(1, vec![1]);
    assert_eq!(media_shown(&store, &image, false), MediaShown::SampleImage);
    store.insert_image(1, vec![2]);
    assert_eq!(media_shown(&store, &image, true), MediaShown::FullImage);

    assert_eq!(media_shown(&store, &gif, false), MediaShown::GifLoading);
    store.insert_decoded_gif(2, vec![1], None);
    assert_eq!(media_shown(&store, &gif, false), MediaShown::GifUndecoded);
    store.insert_decoded_gif(2, vec![1], Some(3));
    assert_eq!(media_shown(&store, &gif, false), MediaShown::GifFrames);

    assert_eq!(media_shown(&store, &video, false), MediaShown::VideoLoading);
    assert_eq!(media_shown(&store, &video, true), MediaShown::Video);
    assert_eq!(media_shown(&store, &flash, true), MediaShown::Unsupported);
    assert_eq!(media_shown(&store, &unknown, true), MediaShown::Unsupported);
}
