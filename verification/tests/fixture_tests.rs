use glance_mind_agent::fixtures::{FixtureGenerator, FixtureLoader};

#[test]
fn test_safe_filename() {
    assert_eq!(FixtureLoader::safe_filename("hello world"), "hello_world");
    assert_eq!(FixtureLoader::safe_filename("test/path"), "test_path");
    assert_eq!(
        FixtureLoader::safe_filename("normal-text_123"),
        "normal-text_123"
    );
}

#[test]
fn safe_filename_keeps_unicode_letters() {
    assert_eq!(FixtureLoader::safe_filename("café ñ"), "café_ñ");
    assert_eq!(FixtureGenerator::safe_filename("a.b"), "a_b");
}

#[test]
fn fixture_file_names() {
    assert_eq!(
        FixtureLoader::search_fixture_filename("ai video", "US"),
        "search_ai_video_us.json"
    );
    assert_eq!(FixtureLoader::comments_fixture_filename("7123"), "comments_7123.json");
    assert_eq!(
        FixtureGenerator::user_videos_fixture_filename("tiktok"),
        "user_videos_tiktok.json"
    );
}

#[test]
fn loader_and_generator_directories() {
    let loader = FixtureLoader::with_dir("/tmp/fx");
    assert_eq!(loader.base_dir(), "/tmp/fx");
    let loader = FixtureLoader::for_manifest_dir(None);
    assert_eq!(loader.base_dir(), "./tests/fixtures/tiktok");
    let generator = FixtureGenerator::with_default_dir();
    assert_eq!(generator.output_dir(), "tests/fixtures/tiktok");
}

#[test]
fn fixture_file_detection() {
    assert!(FixtureLoader::is_fixture_file("search_x_us.json"));
    assert!(!FixtureLoader::is_fixture_file("notes.txt"));
    assert!(!FixtureLoader::is_fixture_file("json"));
}
