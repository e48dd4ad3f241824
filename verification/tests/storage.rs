use ruffle_ios::options::{StageQuality, TimeSpan};
use ruffle_ios::storage::{
    cached_name_for, content_kind, content_summary, playing_content, movie_from_url, BundleOpening, ContentKind, ContentSummary, Movie, MovieData,
    MovieStorageBackend, StoreChange,
};

fn movie(link: &str) -> Movie {
    Movie {
        link: link.to_string(),
        cached_name: "name".to_string(),
        user_options_data: Vec::new(),
        movie_data: Vec::new(),
    }
}

fn backend() -> MovieStorageBackend {
    MovieStorageBackend { movie: movie("file:///a.swf") }
}

#[test]
fn read_gives_back_what_was_written() {
    let mut store = backend();
    assert_eq!(store.get("score"), None);
    assert_eq!(store.put("score", &[1, 2, 3]), StoreChange::Inserted);
    assert_eq!(store.get("score"), Some(vec![1, 2, 3]));
    assert_eq!(store.put("score", &[9]), StoreChange::Updated { index: 0 });
    assert_eq!(store.get("score"), Some(vec![9]));
    assert_eq!(store.movie.movie_data.len(), 1);
}

#[test]
fn writes_keep_other_keys() {
    let mut store = backend();
    store.put("a", &[1]);
    store.put("b", &[2]);
    store.put("a", &[3]);
    assert_eq!(store.get("b"), Some(vec![2]));
    assert_eq!(store.get("a"), Some(vec![3]));
}

#[test]
fn removed_key_reads_nothing_and_others_stay() {
    let mut store = backend();
    store.put("a", &[1]);
    store.put("b", &[2]);
    assert_eq!(store.remove_key("a"), StoreChange::Deleted { index: 0 });
    assert_eq!(store.get("a"), None);
    assert_eq!(store.get("b"), Some(vec![2]));
    assert_eq!(store.remove_key("a"), StoreChange::Unchanged);
}

#[test]
fn empty_value_and_empty_key_are_stored() {
    let mut store = backend();
    store.put("", &[]);
    assert_eq!(store.get(""), Some(Vec::new()));
}

#[test]
fn first_of_duplicate_keys_is_read_and_written() {
    let mut store = backend();
    store.movie.movie_data = vec![
        MovieData { key: "k".to_string(), value: vec![1] },
        MovieData { key: "k".to_string(), value: vec![2] },
    ];
    assert_eq!(store.get("k"), Some(vec![1]));
    assert_eq!(store.put("k", &[5]), StoreChange::Updated { index: 0 });
    assert_eq!(store.movie.movie_data[1].value, vec![2]);
}

#[test]
fn store_keeps_the_rest_of_the_movie() {
    let mut store = backend();
    store.put("x", &[1]);
    store.remove_key("x");
    assert_eq!(store.movie.link, "file:///a.swf");
    assert_eq!(store.movie.cached_name, "name");
}

#[test]
fn user_options_are_unset_when_none_were_stored() {
    let mut m = movie("https://example.com/game.swf");
    m.user_options_data = b"{}".to_vec();
    let options = m.user_options();
    assert!(options.parameters.is_empty());
    assert!(options.quality.is_none() && options.base.is_none() && options.cookie.is_none());
    let empty = movie("https://example.com/game.swf");
    assert!(empty.user_options().quality.is_none());
}

#[test]
fn user_options_read_back_what_was_set() {
    let mut m = movie("https://example.com/game.swf");
    let mut options = m.user_options();
    options.quality = Some(StageQuality::Best);
    options.base = Some("https://example.com/".to_string());
    options.parameters.push(("level".to_string(), "3".to_string()));
    options.max_execution_duration = Some(TimeSpan { secs: 15, subsec_nanos: 500 });
    m.set_user_options(&options);
    assert_eq!(m.link, "https://example.com/game.swf");
    assert_eq!(m.cached_name, "name");
    let read = m.user_options();
    assert_eq!(read.quality, Some(StageQuality::Best));
    assert_eq!(read.base.as_deref(), Some("https://example.com/"));
    assert_eq!(read.parameters, vec![("level".to_string(), "3".to_string())]);
    assert_eq!(read.max_execution_duration, Some(TimeSpan { secs: 15, subsec_nanos: 500 }));
    assert!(read.cookie.is_none() && read.scale.is_none());
}

#[test]
fn movie_is_found_by_its_link() {
    let movies = vec![movie("a"), movie("b"), movie("b")];
    assert_eq!(movie_from_url(&movies, "b"), Some(1));
    assert_eq!(movie_from_url(&movies, "a"), Some(0));
    assert_eq!(movie_from_url(&movies, "c"), None);
    assert_eq!(movie_from_url(&Vec::new(), "a"), None);
}

#[test]
fn cached_name_prefers_bundle_name_then_file_stem_then_host() {
    assert_eq!(cached_name_for(&ContentSummary::Bundle { name: "My Game".to_string() }), "My Game");
    assert_eq!(
        cached_name_for(&ContentSummary::DirectFile {
            path: "/movies/game.swf".to_string(),
            host: Some("example.com".to_string()),
        }),
        "game"
    );
    assert_eq!(
        cached_name_for(&ContentSummary::DirectFile { path: "/".to_string(), host: Some("example.com".to_string()) }),
        "example.com"
    );
    assert_eq!(cached_name_for(&ContentSummary::DirectFile { path: "/".to_string(), host: None }), "unknown");
    assert_eq!(
        cached_name_for(&ContentSummary::DirectFile { path: "/dir/archive.tar.gz".to_string(), host: None }),
        "archive.tar"
    );
}

#[test]
fn opening_decides_how_content_plays() {
    assert_eq!(content_kind(BundleOpening::Opened), Some(ContentKind::Bundle));
    assert_eq!(content_kind(BundleOpening::DoesntExist), Some(ContentKind::DirectFile));
    assert_eq!(content_kind(BundleOpening::UnknownSource), Some(ContentKind::DirectFile));
    assert_eq!(content_kind(BundleOpening::Failed), None);
}

#[test]
fn a_web_link_plays_as_a_single_swf_from_its_parsed_url() {
    let (kind, url) =
        playing_content(false, "HTTPS://Example.com/a/game.swf", "", BundleOpening::Failed).unwrap();
    assert_eq!(kind, ContentKind::DirectFile);
    assert_eq!(url.serialization, "https://example.com/a/game.swf");
    assert_eq!(url.path, "/a/game.swf");
    assert_eq!(url.host.as_deref(), Some("example.com"));
    assert!(playing_content(false, "not a url", "", BundleOpening::Opened).is_none());
}

#[test]
fn a_file_link_plays_as_its_bundle_opening_decides() {
    let file = "file:///movies/pack.ruf";
    let (kind, url) = playing_content(true, "ignored", file, BundleOpening::Opened).unwrap();
    assert_eq!(kind, ContentKind::Bundle);
    assert_eq!(url.serialization, file);
    assert_eq!(url.path, "/movies/pack.ruf");
    let (kind, _) = playing_content(true, "ignored", file, BundleOpening::DoesntExist).unwrap();
    assert_eq!(kind, ContentKind::DirectFile);
    let (kind, _) = playing_content(true, "ignored", file, BundleOpening::UnknownSource).unwrap();
    assert_eq!(kind, ContentKind::DirectFile);
    assert!(playing_content(true, "ignored", file, BundleOpening::Failed).is_none());
    assert!(playing_content(true, "ignored", "::", BundleOpening::Opened).is_none());
}

#[test]
fn a_new_movie_is_named_from_what_it_plays() {
    let (kind, url) =
        playing_content(false, "https://example.com/games/rocket.swf", "", BundleOpening::Failed).unwrap();
    let summary = content_summary(kind, &url, "unused");
    assert_eq!(cached_name_for(&summary), "rocket");
    let (kind, url) = playing_content(false, "https://example.com/", "", BundleOpening::Failed).unwrap();
    assert_eq!(cached_name_for(&content_summary(kind, &url, "unused")), "example.com");
    let (kind, url) =
        playing_content(true, "", "file:///movies/pack.ruf", BundleOpening::Opened).unwrap();
    assert_eq!(cached_name_for(&content_summary(kind, &url, "My Bundle")), "My Bundle");
}
