use audio_deck::paths::cover_candidates;
use audio_deck::paths::filename_of;
use audio_deck::paths::first_present;

fn candidates_for(path: &str) -> Vec<String> {
    cover_candidates(path).expect("path should yield candidates")
}

#[test]
fn filename_extraction() {
    assert_eq!(filename_of("music/track.mp3"), "track.mp3");
    assert_eq!(filename_of("/a/b/c/track.mp3"), "track.mp3");
    assert_eq!(filename_of("track.mp3"), "track.mp3");
    // A backslash is an ordinary character, not a separator.
    assert_eq!(filename_of("C:\\music\\song.mp3"), "C:\\music\\song.mp3");
}

#[test]
fn filename_ignores_trailing_separators_and_dot_components() {
    assert_eq!(filename_of("a/b/"), "b");
    assert_eq!(filename_of("music/"), "music");
    assert_eq!(filename_of("/usr/lib/"), "lib");
    assert_eq!(filename_of("foo.txt/."), "foo.txt");
    assert_eq!(filename_of("foo.txt/.//"), "foo.txt");
}

#[test]
fn filename_fallback() {
    assert_eq!(filename_of(""), "Unknown");
    assert_eq!(filename_of("/"), "Unknown");
    assert_eq!(filename_of("."), "Unknown");
    assert_eq!(filename_of(".."), "Unknown");
    assert_eq!(filename_of("foo.txt/.."), "Unknown");
    assert_eq!(filename_of("/.."), "Unknown");
}

#[test]
fn candidates_follow_the_probe_order() {
    let v = candidates_for("music/track.mp3");
    assert_eq!(
        v,
        vec![
            "music/track.jpg".to_string(),
            "music/track.jpeg".to_string(),
            "music/track.png".to_string(),
            "music/track.webp".to_string(),
            "music/track.gif".to_string(),
            "music/track.bmp".to_string(),
        ]
    );
}

#[test]
fn candidates_for_bare_file_name() {
    let v = candidates_for("track.flac");
    assert_eq!(v[0], "track.jpg");
    assert_eq!(v[5], "track.bmp");
}

#[test]
fn candidates_ignore_trailing_separators() {
    let v = candidates_for("a/b/");
    assert_eq!(v[0], "a/b.jpg");
    let v = candidates_for("music/");
    assert_eq!(v[0], "music.jpg");
}

#[test]
fn candidates_keep_a_hidden_file_name_whole() {
    let v = candidates_for(".hidden");
    assert_eq!(v[0], ".hidden.jpg");
}

#[test]
fn candidates_without_extension() {
    let v = candidates_for("music/track");
    assert_eq!(v[0], "music/track.jpg");
}

#[test]
fn no_candidates_without_a_file_name() {
    assert!(cover_candidates("").is_none());
    assert!(cover_candidates("/").is_none());
    assert!(cover_candidates(".").is_none());
    assert!(cover_candidates("..").is_none());
    assert!(cover_candidates("a/..").is_none());
}

#[test]
fn earliest_match_wins() {
    // Both track.jpg and track.png exist: jpg precedes png in the probe
    // order, so the jpg path is the answer.
    let cands = candidates_for("music/track.mp3");
    let present = vec![true, false, true, false, false, false];
    assert_eq!(first_present(&cands, &present), Some("music/track.jpg".to_string()));
}

#[test]
fn later_match_found_when_earlier_ones_are_absent() {
    let cands = candidates_for("music/track.mp3");
    let present = vec![false, false, true, false, false, true];
    assert_eq!(first_present(&cands, &present), Some("music/track.png".to_string()));
}

#[test]
fn no_match_when_nothing_is_present() {
    let cands = candidates_for("music/track.mp3");
    let present = vec![false; 6];
    assert_eq!(first_present(&cands, &present), None);
}
