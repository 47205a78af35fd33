use msg_store::media::{
    gif_dir, image_dir, media_dir, media_file, original_dir, original_path, sample_dir,
    thumbnail_dir, video_dir, video_path, MediaKind,
};
use msg_store::model::{
    Comment, File, Post, PostType, Preview, Rating, Sample, Score, Tags, Timestamp, Vote,
    _default_0u32,
};
use msg_store::text::{
    blank, copy_text, copy_texts, decimal_string, push_decimal, push_signed_decimal,
};

fn tags() -> Tags {
    Tags {
        general: vec!["g1".to_string(), "g2".to_string()],
        artist: vec!["a".to_string()],
        copyright: vec!["c".to_string()],
        character: vec![],
        species: vec!["s".to_string()],
        invalid: vec!["i".to_string()],
        meta: vec!["m".to_string()],
        lore: vec!["l".to_string()],
    }
}

fn post_with_ext(ext: Option<&str>) -> Post {
    Post {
        id: 12,
        created_at: Timestamp { secs: 1, nanos: 2 },
        updated_at: Timestamp { secs: 3, nanos: 4 },
        file: File { ext: ext.map(String::from), url: None },
        preview: Preview { url: None },
        sample: Sample { has: true, url: Some("https://static.example/s".to_string()) },
        score: Score { total: -4 },
        tags: tags(),
        rating: Rating::Explicit,
        is_favorited: false,
        fav_count: _default_0u32(),
        description: String::new(),
    }
}

#[test]
fn decimal_of_small_and_large_numbers() {
    assert_eq!(decimal_string(0), "0");
    assert_eq!(decimal_string(7), "7");
    assert_eq!(decimal_string(10), "10");
    assert_eq!(decimal_string(1005), "1005");
    assert_eq!(decimal_string(u32::MAX as u64), "4294967295");
    assert_eq!(decimal_string(u64::MAX), "18446744073709551615");
}

#[test]
fn decimal_is_written_at_the_end() {
    let mut text = String::from("id=");
    push_decimal(&mut text, 42);
    assert_eq!(text, "id=42");
    push_signed_decimal(&mut text, -17);
    assert_eq!(text, "id=42-17");
    let mut text = String::new();
    push_signed_decimal(&mut text, i64::MIN);
    assert_eq!(text, "-9223372036854775808");
    let mut text = String::new();
    push_signed_decimal(&mut text, i64::MAX);
    assert_eq!(text, "9223372036854775807");
    let mut text = String::new();
    push_signed_decimal(&mut text, 0);
    assert_eq!(text, "0");
}

#[test]
fn decimal_tells_numbers_apart() {
    let mut seen = std::collections::HashSet::new();
    for n in 0..2000u64 {
        assert!(seen.insert(decimal_string(n)));
    }
}

#[test]
fn texts_are_copied() {
    assert_eq!(copy_text(&None), None);
    assert_eq!(copy_text(&Some("x".to_string())), Some("x".to_string()));
    let texts = vec!["a".to_string(), String::new(), "c d".to_string()];
    assert_eq!(copy_texts(&texts), texts);
    assert_eq!(copy_texts(&Vec::new()), Vec::<String>::new());
}

#[test]
fn post_type_goes_by_extension() {
    assert_eq!(post_with_ext(Some("gif")).get_type(), Some(PostType::Gif));
    assert_eq!(post_with_ext(Some("webm")).get_type(), Some(PostType::Video));
    assert_eq!(post_with_ext(Some("mp4")).get_type(), Some(PostType::Video));
    assert_eq!(post_with_ext(Some("swf")).get_type(), Some(PostType::Flash));
    assert_eq!(post_with_ext(Some("png")).get_type(), Some(PostType::Image));
    assert_eq!(post_with_ext(Some("jpg")).get_type(), Some(PostType::Image));
    assert_eq!(post_with_ext(Some("GIF")).get_type(), Some(PostType::Image));
    assert_eq!(post_with_ext(Some("")).get_type(), Some(PostType::Image));
    assert_eq!(post_with_ext(None).get_type(), None);
}

#[test]
fn post_is_named_by_its_id() {
    assert_eq!(post_with_ext(None).to_string(), "post #12");
}

#[test]
fn post_clone_keeps_everything() {
    let post = post_with_ext(Some("png"));
    let copy = post.clone();
    assert_eq!(copy.id, 12);
    assert_eq!(copy.created_at, Timestamp { secs: 1, nanos: 2 });
    assert_eq!(copy.updated_at, Timestamp { secs: 3, nanos: 4 });
    assert_eq!(copy.file.ext.as_deref(), Some("png"));
    assert_eq!(copy.sample.has, true);
    assert_eq!(copy.sample.url, post.sample.url);
    assert_eq!(copy.score, Score { total: -4 });
    assert_eq!(copy.tags.general, post.tags.general);
    assert_eq!(copy.tags.lore, post.tags.lore);
    assert_eq!(copy.rating, Rating::Explicit);
    assert_eq!(copy.fav_count, 0);
}

#[test]
fn tags_are_listed_by_group() {
    let tags = tags();
    let groups = tags.iter();
    let names: Vec<&str> = groups.iter().map(|(name, _)| *name).collect();
    assert_eq!(
        names,
        vec!["artist", "copyright", "character", "species", "general", "invalid", "meta", "lore"]
    );
    assert_eq!(groups[0].1, &vec!["a".to_string()]);
    assert_eq!(groups[2].1, &Vec::<String>::new());
    assert_eq!(groups[4].1, &vec!["g1".to_string(), "g2".to_string()]);
    assert_eq!(groups[7].1, &vec!["l".to_string()]);
}

#[test]
fn votes_stand_for_flags() {
    assert_eq!(bool::from(Vote::Upvote), true);
    assert_eq!(bool::from(Vote::Downvote), false);
    assert_eq!(Vote::from(true), Vote::Upvote);
    assert_eq!(Vote::from(false), Vote::Downvote);
    assert_eq!(Vote::Upvote.score(), 1);
    assert_eq!(Vote::Downvote.score(), -1);
}

#[test]
fn comments_are_the_same_by_id() {
    let a = Comment {
        id: 1,
        post_id: 2,
        creator_name: "x".to_string(),
        body: "first".to_string(),
        score: 0,
        created_at: Timestamp { secs: 0, nanos: 0 },
        updated_at: Timestamp { secs: 0, nanos: 0 },
    };
    let mut b = a.clone();
    b.body = "edited".to_string();
    assert!(a == b);
    b.id = 3;
    assert!(a != b);
}

#[test]
fn directories_follow_the_layout() {
    assert_eq!(thumbnail_dir("/c"), "/c/thumbnails");
    assert_eq!(sample_dir("/c"), "/c/sample");
    assert_eq!(image_dir("/c"), "/c/resized");
    assert_eq!(gif_dir("/c"), "/c/gifs");
    assert_eq!(video_dir("/c"), "/c/video");
    assert_eq!(original_dir("/c"), "/c/original");
    assert_eq!(media_dir("/c", MediaKind::Thumbnail), "/c/thumbnails");
    assert_eq!(media_dir("/c", MediaKind::Sample), "/c/sample");
    assert_eq!(media_dir("/c", MediaKind::Image), "/c/resized");
    assert_eq!(media_dir("/c", MediaKind::Gif), "/c/gifs");
}

#[test]
fn files_follow_the_layout() {
    assert_eq!(media_file("/c", MediaKind::Thumbnail, 5), "/c/thumbnails/5.jpg");
    assert_eq!(media_file("/c", MediaKind::Sample, 5), "/c/sample/5.jpg");
    assert_eq!(media_file("/c", MediaKind::Image, 5), "/c/resized/5.png");
    assert_eq!(media_file("/c", MediaKind::Gif, 5), "/c/gifs/5.gif");
    assert_eq!(video_path("/c", 5, "webm"), "/c/video/5.webm");
    assert_eq!(video_path("/c", 5, "mp4"), "/c/video/5.mp4");
    assert_eq!(original_path("/c", 5, "jpg"), "/c/original/5.jpg");
    assert_eq!(media_file("", MediaKind::Gif, 0), "/gifs/0.gif");
}

#[test]
fn no_two_files_of_the_layout_coincide() {
    let kinds = [MediaKind::Thumbnail, MediaKind::Sample, MediaKind::Image, MediaKind::Gif];
    let mut seen = std::collections::HashSet::new();
    for kind in kinds {
        for id in [0u32, 1, 10, 11, 100, 101, u32::MAX] {
            assert!(seen.insert(media_file("/c", kind, id)));
        }
    }
}

#[test]
fn white_space_is_unicode_white_space() {
    assert!(blank(' ') && blank('\t') && blank('\n') && blank('\r') && blank('\u{3000}'));
    assert!(!blank('a') && !blank('-') && !blank('_') && !blank('\u{200b}'));
    for code in 0..=0x10ffffu32 {
        if let Some(c) = char::from_u32(code) {
            assert_eq!(blank(c), c.is_whitespace(), "U+{code:04X}");
        }
    }
}
