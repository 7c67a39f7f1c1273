use opensi::layout::entry_target;
use opensi::resource::{
    resolve, resolve_in_package, resolve_under, resource_file_name, same_text, MediaKind,
};

#[test]
fn an_image_reference_resolves_into_the_images_folder() {
    let resource = resolve("/tmp", "quiz.siq", "@photo 1.png", "image").unwrap();
    assert_eq!(resource.kind, MediaKind::Image);
    assert_eq!(resource.path, "/tmp/quiz.siq/Images/photo%201.png");
}

#[test]
fn a_package_is_found_under_the_last_component_of_its_path() {
    let resource = resolve("/tmp", "/home/me/packs/quiz.siq", "@photo 1.png", "image").unwrap();
    assert_eq!(resource.path, "/tmp/quiz.siq/Images/photo%201.png");
}

#[test]
fn a_path_without_a_file_name_names_no_package() {
    assert!(resolve("/tmp", "", "@photo.png", "image").is_none());
    assert!(resolve("/tmp", "..", "@photo.png", "image").is_none());
}

#[test]
fn a_voice_reference_resolves_into_the_audio_folder() {
    let resource = resolve_in_package("/tmp", "quiz.siq", "@song.mp3", "voice").unwrap();
    assert_eq!(resource.kind, MediaKind::Audio);
    assert_eq!(resource.path, "/tmp/quiz.siq/Audio/song.mp3");
}

#[test]
fn a_video_reference_resolves_into_the_video_folder() {
    let resource = resolve_in_package("/tmp", "quiz.siq", "@clip.avi", "video").unwrap();
    assert_eq!(resource.kind, MediaKind::Video);
    assert_eq!(resource.path, "/tmp/quiz.siq/Video/clip.avi");
}

#[test]
fn other_labels_name_no_media() {
    assert!(resolve_in_package("/tmp", "quiz.siq", "@photo.png", "").is_none());
    assert!(resolve_in_package("/tmp", "quiz.siq", "@photo.png", "marker").is_none());
    assert!(resolve_in_package("/tmp", "quiz.siq", "@photo.png", "say").is_none());
    assert!(resolve_in_package("/tmp", "quiz.siq", "@photo.png", "Image").is_none());
    assert!(resolve_in_package("/tmp", "quiz.siq", "@photo.png", "images").is_none());
    assert!(resolve("/tmp", "quiz.siq", "@photo.png", "text").is_none());
}

#[test]
fn labels_map_to_kinds_and_folders() {
    assert_eq!(MediaKind::from_label("voice"), Some(MediaKind::Audio));
    assert_eq!(MediaKind::from_label("image"), Some(MediaKind::Image));
    assert_eq!(MediaKind::from_label("video"), Some(MediaKind::Video));
    assert_eq!(MediaKind::from_label("audio"), None);
    assert_eq!(MediaKind::Audio.folder(), "Audio");
    assert_eq!(MediaKind::Image.folder(), "Images");
    assert_eq!(MediaKind::Video.folder(), "Video");
}

#[test]
fn the_first_character_of_the_encoded_body_is_dropped() {
    assert_eq!(resource_file_name("@photo 1.png"), "photo%201.png");
    assert_eq!(resource_file_name("photo.png"), "hoto.png");
    assert_eq!(resource_file_name("@"), "");
    assert_eq!(resource_file_name(""), "");
}

#[test]
fn an_escaped_first_character_loses_its_percent_sign_only() {
    assert_eq!(resource_file_name(" a"), "20a");
}

#[test]
fn a_reference_finds_the_file_that_extraction_wrote() {
    let with_sentinel = vec!["Images".to_string(), "@photo 1.png".to_string()];
    let without_sentinel = vec!["Images".to_string(), "photo 1.png".to_string()];
    let resolved = resolve_in_package("/tmp", "quiz.siq", "@photo 1.png", "image").unwrap();
    assert_eq!(entry_target("/tmp", "quiz.siq", &with_sentinel).unwrap().file, resolved.path);
    assert_eq!(entry_target("/tmp", "quiz.siq", &without_sentinel).unwrap().file, resolved.path);
}

#[test]
fn texts_are_compared_character_by_character() {
    assert!(same_text("", ""));
    assert!(same_text("voice", "voice"));
    assert!(!same_text("voice", "voicE"));
    assert!(!same_text("voice", "voic"));
    assert!(!same_text("\u{e9}", "e"));
}

#[test]
fn a_package_with_a_final_component_is_resolved_under_it() {
    let resource = resolve_under("/tmp", Some("quiz.siq"), "@photo 1.png", "image").unwrap();
    assert_eq!(resource.kind, MediaKind::Image);
    assert_eq!(resource.path, "/tmp/quiz.siq/Images/photo%201.png");
}

#[test]
fn without_a_final_component_nothing_is_resolved() {
    assert!(resolve_under("/tmp", None, "@photo 1.png", "image").is_none());
    assert!(resolve_under("/tmp", None, "@photo 1.png", "say").is_none());
}

#[test]
fn under_a_final_component_other_labels_name_no_media() {
    assert!(resolve_under("/tmp", Some("quiz.siq"), "@photo 1.png", "marker").is_none());
    assert!(resolve_under("/tmp", Some("quiz.siq"), "@photo 1.png", "").is_none());
}

#[test]
fn a_trailing_separator_does_not_hide_the_package_name() {
    let resource = resolve("/tmp", "packs/quiz.siq/", "@song.mp3", "voice").unwrap();
    assert_eq!(resource.path, "/tmp/quiz.siq/Audio/song.mp3");
}
