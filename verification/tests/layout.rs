use opensi::layout::{
    child_path, content_document_path, entry_target, package_root_path, CONTENT_DOCUMENT,
};

fn segments(parts: &[&str]) -> Vec<String> {
    parts.iter().map(|part| part.to_string()).collect()
}

#[test]
fn a_child_is_joined_with_a_slash() {
    assert_eq!(child_path("/tmp", "quiz.siq"), "/tmp/quiz.siq");
    assert_eq!(child_path("", "a"), "/a");
    assert_eq!(child_path("a", ""), "a/");
}

#[test]
fn a_package_is_unpacked_under_its_own_name() {
    assert_eq!(package_root_path("/tmp", "quiz.siq"), "/tmp/quiz.siq");
}

#[test]
fn the_content_document_lies_at_the_package_root() {
    assert_eq!(CONTENT_DOCUMENT, "content.xml");
    assert_eq!(content_document_path("/tmp", "quiz.siq"), "/tmp/quiz.siq/content.xml");
}

#[test]
fn an_entry_at_the_root_goes_to_the_package_root() {
    let target = entry_target("/tmp", "quiz.siq", &segments(&["content.xml"])).unwrap();
    assert_eq!(target.directory, "/tmp/quiz.siq");
    assert_eq!(target.file, "/tmp/quiz.siq/content.xml");
}

#[test]
fn the_content_document_entry_goes_where_it_is_expected() {
    let target = entry_target("/tmp", "quiz.siq", &segments(&[CONTENT_DOCUMENT])).unwrap();
    assert_eq!(target.file, content_document_path("/tmp", "quiz.siq"));
}

#[test]
fn only_the_file_name_of_an_entry_is_encoded() {
    let entry = segments(&["My Images", "photo 1.png"]);
    let target = entry_target("/tmp", "quiz.siq", &entry).unwrap();
    assert_eq!(target.directory, "/tmp/quiz.siq/My Images");
    assert_eq!(target.file, "/tmp/quiz.siq/My Images/photo%201.png");
}

#[test]
fn the_sentinel_of_an_entry_name_is_dropped() {
    let target = entry_target("/tmp", "quiz.siq", &segments(&["Audio", "@song.mp3"])).unwrap();
    assert_eq!(target.directory, "/tmp/quiz.siq/Audio");
    assert_eq!(target.file, "/tmp/quiz.siq/Audio/song.mp3");
}

#[test]
fn the_sentinel_of_a_directory_is_kept() {
    let target = entry_target("/tmp", "quiz.siq", &segments(&["@dir", "a"])).unwrap();
    assert_eq!(target.directory, "/tmp/quiz.siq/@dir");
    assert_eq!(target.file, "/tmp/quiz.siq/@dir/a");
}

#[test]
fn directories_are_kept_in_order() {
    let target = entry_target("out", "p", &segments(&["a", "b", "c", "d e"])).unwrap();
    assert_eq!(target.directory, "out/p/a/b/c");
    assert_eq!(target.file, "out/p/a/b/c/d%20e");
}

#[test]
fn an_entry_without_segments_has_no_target() {
    assert!(entry_target("/tmp", "quiz.siq", &Vec::new()).is_none());
}

#[test]
fn the_same_entry_always_has_the_same_target() {
    let entry = segments(&["Images", "photo 1.png"]);
    let first = entry_target("/tmp", "quiz.siq", &entry).unwrap();
    let second = entry_target("/tmp", "quiz.siq", &entry).unwrap();
    assert_eq!(first.directory, second.directory);
    assert_eq!(first.file, second.file);
}

#[test]
fn a_space_and_its_escape_share_a_target() {
    let plain = entry_target("/tmp", "quiz.siq", &segments(&["Images", "a b.png"])).unwrap();
    let escaped = entry_target("/tmp", "quiz.siq", &segments(&["Images", "a%20b.png"])).unwrap();
    assert_eq!(plain.file, escaped.file);
}

#[test]
fn different_plain_names_have_different_targets() {
    let first = entry_target("/tmp", "quiz.siq", &segments(&["Images", "a b.png"])).unwrap();
    let second = entry_target("/tmp", "quiz.siq", &segments(&["Images", "a\tb.png"])).unwrap();
    assert_ne!(first.file, second.file);
}

#[test]
fn the_last_segment_of_a_media_entry_loses_its_sentinel_unescaped() {
    let target = entry_target("/tmp", "quiz.siq", &segments(&["Images", "@photo 1.png"])).unwrap();
    assert_eq!(target.file, "/tmp/quiz.siq/Images/photo%201.png");
}
