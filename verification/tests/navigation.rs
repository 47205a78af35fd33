use msg_store::blacklist::Blacklist;
use msg_store::config::ViewConfig;
use msg_store::followed::{add_tag, compose_hashmap, follow_tag, mark_seen, remove_tag, FollowedTag};
use msg_store::model::{File, Post, PostType, Preview, Rating, Sample, Score, Tags, Timestamp};
use msg_store::navigation::{
    add_tag_to_search, back, favorites_query, forward, home_view, leave_settings, load_posts,
    negate_tag_from_search, show, show_without_proceed, submit, window_resized, Step,
};
use msg_store::session::{open_candidates, open_files, view_post};
use msg_store::state::{SearchState, UiState, ViewHistory, ViewMode};
use msg_store::store::PostStore;
use msg_store::text::trimmed;
use std::collections::VecDeque;
use std::path::PathBuf;

type Store = PostStore<Vec<u8>, u32>;

fn post(id: u32, ext: Option<&str>) -> Post {
    Post {
        id,
        created_at: Timestamp { secs: 0, nanos: 0 },
        updated_at: Timestamp { secs: 0, nanos: 0 },
        file: File { ext: ext.map(String::from), url: Some(format!("https://b.example/{id}")) },
        preview: Preview { url: None },
        sample: Sample { has: false, url: None },
        score: Score { total: 0 },
        tags: Tags {
            general: vec![],
            artist: vec![],
            copyright: vec![],
            character: vec![],
            species: vec![],
            invalid: vec![],
            meta: vec![],
            lore: vec![],
        },
        rating: Rating::Safe,
        is_favorited: false,
        fav_count: 0,
        description: String::new(),
    }
}

fn ui(view_mode: ViewMode) -> UiState {
    UiState { view_mode, window_width: 480, window_height: 640, history: ViewHistory::default() }
}

fn search(query: &str) -> SearchState {
    SearchState {
        input: query.to_string(),
        query: query.to_string(),
        thumbnail_queue: [7u32].into_iter().collect::<VecDeque<_>>(),
    }
}

fn grid(query: &str) -> ViewMode {
    ViewMode::Grid(query.to_string())
}

#[test]
fn trimming() {
    assert_eq!(trimmed(""), "");
    assert_eq!(trimmed("   "), "");
    assert_eq!(trimmed("a"), "a");
    assert_eq!(trimmed("  a b \t c\n"), "a b \t c");
    assert_eq!(trimmed("\u{3000}x\u{a0}"), "x");
    for text in ["", " ", "x ", " x", " a  b ", "\t\n", "é è"] {
        assert_eq!(trimmed(text), text.trim());
    }
}

#[test]
fn blacklist_from_and_to_text() {
    let rules = |text: &str| Blacklist::from_text(text).rules;
    assert_eq!(rules(""), Vec::<String>::new());
    assert_eq!(rules("\n\n  \n"), Vec::<String>::new());
    assert_eq!(rules("cat"), vec!["cat"]);
    assert_eq!(rules("cat dog\n  -tree  \r\n\n last"), vec!["cat dog", "-tree", "last"]);
    assert_eq!(rules("a\nb\n"), vec!["a", "b"]);
    let list = Blacklist { rules: vec!["a b".to_string(), "c".to_string(), "-d".to_string()] };
    assert_eq!(list.to_text(), "a b\nc\n-d");
    assert_eq!(Blacklist::from_text(&list.to_text()), list);
    assert_eq!(Blacklist { rules: vec![] }.to_text(), "");
    assert_eq!(Blacklist { rules: vec!["x".to_string()] }.to_text(), "x");
    assert_eq!(Blacklist { rules: vec![String::new(), "x".to_string()] }.to_text(), "\nx");
    assert!(list.clone() == list);
}

#[test]
fn show_remembers_and_enters() {
    let mut u = ui(grid("cat"));
    let mut s = search("cat");
    let mut selected = Some(3);

    let turn = show(&mut u, &mut s, &mut selected, ViewMode::Detail(5));
    assert!(matches!(turn.step, Step::ViewPost(5)));
    assert!(!turn.close_player);
    assert_eq!(u.view_mode, grid("cat"));
    assert_eq!(u.history.backwards, vec![grid("cat")]);
    assert_eq!(selected, Some(3));

    let turn = show(&mut u, &mut s, &mut selected, ViewMode::Settings);
    assert!(matches!(turn.step, Step::Nothing));
    assert!(turn.close_player);
    assert_eq!(u.view_mode, ViewMode::Settings);
    assert_eq!(u.history.backwards, vec![grid("cat"), grid("cat")]);
    assert_eq!(selected, None);

    selected = Some(4);
    let turn = show(&mut u, &mut s, &mut selected, grid("dog"));
    match turn.step {
        Step::LoadPosts(query) => assert_eq!(query, "dog"),
        other => panic!("unexpected {other:?}"),
    }
    assert!(turn.close_player);
    assert_eq!(u.view_mode, grid("dog"));
    assert_eq!((s.query.as_str(), s.input.as_str()), ("dog", "dog"));
    assert_eq!(selected, None);
    assert_eq!(u.history.backwards, vec![grid("cat"), grid("cat"), ViewMode::Settings]);
    assert!(u.history.forwards.is_empty());
    assert_eq!(s.thumbnail_queue.len(), 1);
    assert_eq!((u.window_width, u.window_height), (480, 640));
}

#[test]
fn show_without_proceed_leaves_the_history() {
    let mut u = ui(ViewMode::Followed);
    let mut s = search("cat");
    let mut selected = Some(3);
    let turn = show_without_proceed(&mut u, &mut s, &mut selected, grid("dog"));
    assert!(matches!(turn.step, Step::LoadPosts(_)));
    assert!(!turn.close_player);
    assert_eq!(selected, Some(3));
    assert_eq!(u.view_mode, grid("dog"));
    assert_eq!(s.query, "dog");
    assert!(u.history.backwards.is_empty());
    let turn = show_without_proceed(&mut u, &mut s, &mut selected, ViewMode::Followed);
    assert!(matches!(turn.step, Step::Nothing));
    assert!(turn.close_player);
    assert_eq!(selected, None);
    let turn = show_without_proceed(&mut u, &mut s, &mut selected, ViewMode::Detail(1));
    assert!(matches!(turn.step, Step::ViewPost(1)));
    assert_eq!(u.view_mode, ViewMode::Followed);
}

#[test]
fn back_and_forward() {
    let mut u = ui(grid("cat"));
    let mut s = search("typed");
    let turn = back(&mut u, &mut s);
    assert!(matches!(turn.step, Step::Nothing));
    assert!(!turn.close_player);
    assert_eq!(s.query, "typed");
    let turn = forward(&mut u, &mut s);
    assert!(matches!(turn.step, Step::Nothing));

    u.history.proceed(ViewMode::Detail(9));
    u.history.proceed(grid("dog"));
    let turn = back(&mut u, &mut s);
    match turn.step {
        Step::ShowWithoutProceed(mode) => assert_eq!(mode, grid("dog")),
        other => panic!("unexpected {other:?}"),
    }
    assert!(turn.close_player);
    assert_eq!((s.query.as_str(), s.input.as_str()), ("cat", "cat"));
    assert_eq!(u.history.backwards, vec![ViewMode::Detail(9)]);
    assert_eq!(u.history.forwards, vec![grid("cat")]);

    u.view_mode = ViewMode::Settings;
    let turn = back(&mut u, &mut s);
    assert!(matches!(turn.step, Step::SaveSettings));
    assert!(turn.close_player);
    assert_eq!(u.history.backwards, vec![ViewMode::Detail(9)]);

    let turn = forward(&mut u, &mut s);
    match turn.step {
        Step::ShowWithoutProceed(mode) => assert_eq!(mode, grid("cat")),
        other => panic!("unexpected {other:?}"),
    }
    assert_eq!(u.history.backwards, vec![ViewMode::Detail(9), ViewMode::Settings]);
    assert!(u.history.forwards.is_empty());

    u.view_mode = ViewMode::Followed;
    u.history.forwards.push(ViewMode::Detail(2));
    let turn = forward(&mut u, &mut s);
    assert!(matches!(turn.step, Step::ViewPost(2)));
    assert_eq!(u.history.backwards.last(), Some(&ViewMode::Followed));
}

#[test]
fn leaving_the_settings() {
    let mut u = ui(ViewMode::Settings);
    assert_eq!(leave_settings(&mut u), grid("order:id_desc"));
    assert_eq!(home_view(), grid("order:id_desc"));
    assert!(u.history.forwards.is_empty());
    u.history.proceed(ViewMode::Followed);
    assert_eq!(leave_settings(&mut u), ViewMode::Followed);
    assert_eq!(u.history.forwards, vec![ViewMode::Settings]);
    window_resized(&mut u, 1, 2);
    assert_eq!((u.window_width, u.window_height), (1, 2));
}

#[test]
fn the_query_is_edited() {
    let mut s = search("cat");
    assert_eq!(add_tag_to_search(&mut s, "tree"), "cat tree");
    assert_eq!(negate_tag_from_search(&mut s, "dog"), "cat tree -dog");
    assert_eq!((s.query.as_str(), s.input.as_str()), ("cat tree -dog", "cat tree -dog"));
    assert_eq!(favorites_query("dingus"), "fav:dingus");

    let mut u = ui(ViewMode::Followed);
    s.input = "  cat  tree ".to_string();
    assert_eq!(submit(&mut u, &mut s), Some("cat  tree".to_string()));
    assert_eq!(s.query, "cat  tree");
    assert_eq!(s.input, "  cat  tree ");
    assert_eq!(u.view_mode, grid("cat  tree"));
    assert_eq!(u.history.backwards, vec![ViewMode::Followed]);
    s.input = "   ".to_string();
    assert_eq!(submit(&mut u, &mut s), None);
    assert_eq!(u.view_mode, grid(""));
    assert_eq!(s.query, "");
}

#[test]
fn loading_posts_resets_the_grid_for_a_new_query() {
    let mut u = ui(ViewMode::Followed);
    let mut s = search("cat");
    let mut selected = Some(1);
    let mut shown = vec![post(1, None)];
    load_posts(&mut u, &mut s, &mut selected, &mut shown, "cat");
    assert_eq!(shown.len(), 1);
    assert_eq!(selected, None);
    assert_eq!(u.view_mode, grid("cat"));
    load_posts(&mut u, &mut s, &mut selected, &mut shown, "dog");
    assert!(shown.is_empty());
    assert_eq!((s.query.as_str(), s.input.as_str()), ("dog", "dog"));
}

#[test]
fn followed_tags_are_added_and_removed() {
    let mut table = compose_hashmap(vec![FollowedTag { tag: "cat".to_string(), last_seen: Some(3) }]);
    assert!(!add_tag(&mut table, "  "));
    assert!(!add_tag(&mut table, " cat "));
    assert_eq!(table.get("cat"), Some(&Some(3)));
    assert!(add_tag(&mut table, " dog\n"));
    assert_eq!(table.get("dog"), Some(&None));
    assert_eq!(table.len(), 2);
    follow_tag(&mut table, "cat");
    assert_eq!(table.get("cat"), Some(&None));
    remove_tag(&mut table, "dog");
    remove_tag(&mut table, "bird");
    assert_eq!(table.len(), 1);
    assert!(!table.contains_key("dog"));
}

#[test]
fn seen_posts_are_marked() {
    let mut table = compose_hashmap(vec![
        FollowedTag { tag: "cat".to_string(), last_seen: Some(3) },
        FollowedTag { tag: "dog".to_string(), last_seen: None },
    ]);
    let updates = vec![
        ("cat".to_string(), vec![post(9, None), post(8, None)]),
        ("dog".to_string(), vec![]),
        ("bird".to_string(), vec![post(5, None)]),
        ("cat".to_string(), vec![post(11, None)]),
    ];
    mark_seen(&mut table, &updates);
    assert_eq!(table.get("cat"), Some(&Some(11)));
    assert_eq!(table.get("dog"), Some(&None));
    assert_eq!(table.get("bird"), None);
}

#[test]
fn opening_a_post_marks_a_favorite() {
    let mut store = Store::new("/cache".to_string());
    store.insert_post(post(1, Some("swf")));
    store.insert_post(post(2, Some("swf")));
    store.set_favorite(1, true);
    let requests = view_post(&mut store, 1, &ViewConfig::default());
    assert_eq!(requests.len(), 1);
    assert!(store.get_post(1).unwrap().is_favorited);
    view_post(&mut store, 2, &ViewConfig::default());
    assert!(!store.get_post(2).unwrap().is_favorited);
    assert!(view_post(&mut store, 3, &ViewConfig::default()).is_empty());
    store.get_post_mut(2).unwrap().is_favorited = true;
    assert!(store.get_post(2).unwrap().is_favorited);
    assert!(!store.is_favorited(2));
    store.get_post_mut(2).unwrap().description.push_str("edited");
    assert_eq!(store.get_post(2).unwrap().description, "edited");
    assert!(store.get_post_mut(77).is_none());
    assert!(store.get_post(77).is_none());
    assert_eq!(store.posts.len(), 2);
}

#[test]
fn files_to_open_go_by_kind() {
    let both = ViewConfig { download_sample: true, ..ViewConfig::default() };
    let none = ViewConfig { download_fullsize: false, ..ViewConfig::default() };
    let elsewhere = || Some(PathBuf::from("/x/4.webm"));
    let found = open_files("/c", 4, Some(PostType::Image), &both, elsewhere());
    assert_eq!(found.files, vec!["/c/resized/4.png", "/c/sample/4.jpg"]);
    assert_eq!(found.video, None);
    let found = open_files("/c", 4, Some(PostType::Image), &ViewConfig::default(), None);
    assert_eq!(found.files, vec!["/c/resized/4.png"]);
    assert!(open_files("/c", 4, Some(PostType::Image), &none, None).files.is_empty());
    assert_eq!(open_files("/c", 4, Some(PostType::Gif), &none, None).files, vec!["/c/gifs/4.gif"]);
    let found = open_files("/c", 4, Some(PostType::Video), &none, elsewhere());
    assert!(found.files.is_empty());
    assert_eq!(found.video, elsewhere());
    let found = open_files("/c", 4, Some(PostType::Video), &both, None);
    assert!(found.files.is_empty() && found.video.is_none());
    let found = open_files("/c", 4, Some(PostType::Flash), &both, elsewhere());
    assert!(found.files.is_empty() && found.video.is_none());
    let found = open_files("/c", 4, None, &both, elsewhere());
    assert!(found.files.is_empty() && found.video.is_none());

    let mut store = Store::new("/c".to_string());
    store.insert_post(post(1, Some("png")));
    store.insert_post(post(2, Some("webm")));
    store.insert_post(post(3, Some("mp4")));
    store.insert_video(2, "file:///c/video/2.webm".to_string());
    store.insert_video(3, "https://b.example/3.mp4".to_string());
    let found = open_candidates(&store, 1, &both);
    assert_eq!(found.files, vec!["/c/resized/1.png", "/c/sample/1.jpg"]);
    assert_eq!(found.video, None);
    let found = open_candidates(&store, 2, &both);
    assert!(found.files.is_empty());
    assert_eq!(found.video, Some(PathBuf::from("/c/video/2.webm")));
    let found = open_candidates(&store, 3, &both);
    assert!(found.files.is_empty() && found.video.is_none());
    let found = open_candidates(&store, 9, &both);
    assert!(found.files.is_empty() && found.video.is_none());
}
