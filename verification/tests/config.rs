use msg_store::blacklist::Blacklist;
use msg_store::config::{
    config_path, default_ppr, default_tile_width, Auth, Config, ConfigError, MsgTheme, ViewConfig,
    _default_false, _default_true,
};
use msg_store::dirs::{log_path, poststore_path};
use msg_store::followed::FollowedTag;
use msg_store::state::{title, MSGui, ViewHistory, ViewMode};
use msg_store::time_ago::relative_time_ago;

#[test]
fn defaults() {
    assert!(_default_true());
    assert!(!_default_false());
    assert_eq!(default_ppr(), 5);
    assert_eq!(default_tile_width(), 180);
    assert_eq!(MsgTheme::default(), MsgTheme::Dark);
    assert_eq!(
        ViewConfig::default(),
        ViewConfig {
            theme: MsgTheme::Dark,
            posts_per_row: 5,
            tile_width: 180,
            download_sample: false,
            download_fullsize: true,
        }
    );
    let config = Config::default();
    assert!(config.auth.is_none());
    assert!(config.blacklist.rules.is_empty());
    assert!(config.followed_tags.is_empty());
    assert_eq!(config.view, ViewConfig::default());
    assert!(Blacklist::default().rules.is_empty());
    assert_eq!(Auth::default().username, "");
    assert_eq!(Auth::default().api_key, "");
}

#[test]
fn config_new_falls_back_to_defaults() {
    let loaded = Config {
        auth: Some(Auth { username: "dingus".to_owned(), api_key: "SECRET-REDACTED".to_owned() }),
        blacklist: Blacklist { rules: vec!["bad".to_owned(), "things".to_owned()] },
        followed_tags: vec![
            FollowedTag { tag: "brand_new".to_owned(), last_seen: None },
            FollowedTag { tag: "old_one".to_owned(), last_seen: Some(1) },
        ],
        view: ViewConfig { posts_per_row: 3, ..Default::default() },
    };
    let config = Config::new(Ok(loaded));
    assert_eq!(config.auth.as_ref().map(|a| a.username.as_str()), Some("dingus"));
    assert_eq!(config.blacklist.rules, vec!["bad", "things"]);
    assert_eq!(config.followed_tags.len(), 2);
    assert_eq!(config.view.posts_per_row, 3);
    for error in [
        ConfigError::LoadPathError,
        ConfigError::IOError,
        ConfigError::TomlDeError,
        ConfigError::TomlSerError,
    ] {
        assert!(Config::new(Err(error)) == Config::default());
    }
}

#[test]
fn config_errors_in_words() {
    assert_eq!(ConfigError::LoadPathError.to_string(), "couldn't get config path");
    assert_eq!(ConfigError::IOError.to_string(), "IO error");
    assert_eq!(ConfigError::TomlDeError.to_string(), "TOML deserialize error");
    assert_eq!(ConfigError::TomlSerError.to_string(), "TOML serialize error");
}

#[test]
fn theme_names() {
    assert_eq!(MsgTheme::Dark.to_string(), "Dark");
    assert_eq!(MsgTheme::Light.to_string(), "Light");
}

#[test]
fn auth_hides_the_key() {
    let auth = Auth { username: "dingus".to_owned(), api_key: "hunter2".to_owned() };
    assert_eq!(auth.redacted(), "Auth { username: \"dingus\", api_key: \"<redacted>\" }");
    assert!(auth.clone() == auth);
}

#[test]
fn config_paths() {
    assert_eq!(config_path(Some("/home/me/.config/msg".to_string())), Ok("/home/me/.config/msg".to_string()));
    assert_eq!(config_path(None), Err(ConfigError::LoadPathError));
    assert_eq!(Config::file_in("/home/me/.config/msg"), "/home/me/.config/msg/config.toml");
}

#[test]
fn store_path_is_resolved() {
    let path = poststore_path(Some("/home/me/.local/share/msg")).expect("should resolve");
    assert!(path.ends_with("store.mpk"));
    assert_eq!(path, "/home/me/.local/share/msg/store.mpk");
    assert_eq!(poststore_path(None), None);
}

#[test]
fn tracing_path_is_resolved() {
    let path = log_path(Some("/home/me/.local/share/msg")).expect("should resolve");
    assert!(path.ends_with("msg.log"));
    assert_eq!(path, "/home/me/.local/share/msg/msg.log");
    assert_eq!(log_path(None), None);
}

#[test]
fn history_goes_back_and_forward() {
    let mut history = ViewHistory::default();
    assert_eq!(history.previous(ViewMode::Settings), None);
    assert_eq!(history.next(ViewMode::Settings), None);
    assert!(history.backwards.is_empty() && history.forwards.is_empty());

    history.proceed(ViewMode::Grid("cat".to_string()));
    history.proceed(ViewMode::Detail(5));
    assert_eq!(history.backwards, vec![ViewMode::Grid("cat".to_string()), ViewMode::Detail(5)]);

    assert_eq!(history.previous(ViewMode::Settings), Some(ViewMode::Detail(5)));
    assert_eq!(history.backwards, vec![ViewMode::Grid("cat".to_string())]);
    assert_eq!(history.forwards, vec![ViewMode::Settings]);

    assert_eq!(history.next(ViewMode::Detail(5)), Some(ViewMode::Settings));
    assert_eq!(history.backwards, vec![ViewMode::Grid("cat".to_string()), ViewMode::Detail(5)]);
    assert!(history.forwards.is_empty());

    assert_eq!(history.previous(ViewMode::Settings), Some(ViewMode::Detail(5)));
    history.proceed(ViewMode::Followed);
    assert!(history.forwards.is_empty());
    assert_eq!(history.backwards, vec![ViewMode::Grid("cat".to_string()), ViewMode::Followed]);
}

#[test]
fn titles() {
    assert_eq!(MSGui.title(), "MSG");
    assert_eq!(title(&ViewMode::Grid("cat tree".to_string()), "msg", "0.3.1"), "cat tree | msg v0.3.1");
    assert_eq!(title(&ViewMode::Detail(77), "msg", "0.3.1"), "Post #77 | msg v0.3.1");
    assert_eq!(title(&ViewMode::Settings, "msg", "1"), "Settings | msg v1");
    assert_eq!(title(&ViewMode::Followed, "", ""), "Followed tags |  v");
    assert_eq!(ViewMode::Detail(3).clone(), ViewMode::Detail(3));
}

#[test]
fn time_ago_in_words() {
    let minute = 60i64;
    let hour = 3600i64;
    let day = 86400i64;
    assert_eq!(relative_time_ago(0), "0 minutes ago");
    assert_eq!(relative_time_ago(59), "0 minutes ago");
    assert_eq!(relative_time_ago(5 * minute + 3), "5 minutes ago");
    assert_eq!(relative_time_ago(hour - 1), "59 minutes ago");
    assert_eq!(relative_time_ago(hour), "1 hours ago");
    assert_eq!(relative_time_ago(23 * hour + 59 * minute), "23 hours ago");
    assert_eq!(relative_time_ago(day), "1 days ago");
    assert_eq!(relative_time_ago(6 * day + 23 * hour), "6 days ago");
    assert_eq!(relative_time_ago(7 * day), "1 week ago");
    assert_eq!(relative_time_ago(13 * day), "1 week ago");
    assert_eq!(relative_time_ago(14 * day), "2 weeks ago");
    assert_eq!(relative_time_ago(27 * day), "3 weeks ago");
    assert_eq!(relative_time_ago(28 * day), "1 month ago");
    assert_eq!(relative_time_ago(45 * day), "1 month ago");
    assert_eq!(relative_time_ago(46 * day), "1 months ago");
    assert_eq!(relative_time_ago(364 * day), "12 months ago");
    assert_eq!(relative_time_ago(365 * day), "1 years ago");
    assert_eq!(relative_time_ago(800 * day), "2 years ago");
    assert_eq!(relative_time_ago(-30), "0 minutes ago");
    assert_eq!(relative_time_ago(-5 * minute), "-5 minutes ago");
    assert_eq!(relative_time_ago(-2 * hour), "-2 hours ago");
    assert_eq!(relative_time_ago(-3 * day), "0 years ago");
    assert_eq!(relative_time_ago(-400 * day), "-1 years ago");
    assert_eq!(relative_time_ago(i64::MAX), "292471208677 years ago");
    assert_eq!(relative_time_ago(i64::MIN), "-292471208677 years ago");
}
