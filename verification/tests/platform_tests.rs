use rusty_player::platform::{config_path, separates, Platform};
use rusty_player::text::{characters, contains, same_text};

#[test]
fn platform_is_told_from_the_os_name() {
    assert_eq!(Platform::from_os_name("windows"), Platform::Windows);
    assert_eq!(Platform::from_os_name("linux"), Platform::Unix);
    assert_eq!(Platform::from_os_name("macos"), Platform::Unix);
    assert_eq!(Platform::from_os_name("freebsd"), Platform::Unknown);
    assert_eq!(Platform::from_os_name(""), Platform::Unknown);
    assert_eq!(Platform::from_os_name("Linux"), Platform::Unknown);
    assert_eq!(Platform::from_os_name("linux "), Platform::Unknown);
}

#[test]
fn installed_executable_reads_the_file_beside_it() {
    assert_eq!(config_path("/opt/player/rusty-player", Platform::Unix), "/opt/player/config.json");
    assert_eq!(
        config_path("C:\\Tools\\rusty-player.exe", Platform::Windows),
        "C:\\Tools\\config.json"
    );
    assert_eq!(config_path("/rusty-player", Platform::Unix), "/config.json");
}

#[test]
fn renamed_executable_reads_the_file_beside_it() {
    assert_eq!(config_path("/opt/rp/player", Platform::Unix), "/opt/rp/config.json");
    assert_eq!(config_path("/opt/rp/p", Platform::Unix), "/opt/rp/config.json");
    assert_eq!(
        config_path("/opt/rp/a-much-longer-name-than-usual.bin", Platform::Unix),
        "/opt/rp/config.json"
    );
    assert_eq!(config_path("D:\\apps\\music.exe", Platform::Windows), "D:\\apps\\config.json");
    assert_eq!(config_path("/müsik/spieler", Platform::Unix), "/müsik/config.json");
    assert_eq!(config_path("/opt/äöü/äöüäöüäöüäöü", Platform::Unix), "/opt/äöü/config.json");
}

#[test]
fn development_build_reads_from_the_working_directory() {
    assert_eq!(config_path("/home/me/player/target/debug/rusty-player", Platform::Unix), "config.json");
    assert_eq!(
        config_path("C:\\src\\player\\target\\debug\\rusty-player.exe", Platform::Windows),
        "config.json"
    );
    assert_eq!(config_path("/x/target/debug", Platform::Unknown), "config.json");
    assert_eq!(config_path("/x/target/debugger/rusty-player", Platform::Unix), "config.json");
}

#[test]
fn release_build_directory_is_no_development_build() {
    assert_eq!(
        config_path("/home/me/player/target/release/rusty-player", Platform::Unix),
        "/home/me/player/target/release/config.json"
    );
}

#[test]
fn path_without_a_separator_leaves_the_file_name_alone() {
    assert_eq!(config_path("player", Platform::Unix), "config.json");
    assert_eq!(config_path("", Platform::Unix), "config.json");
    assert_eq!(config_path("a.exe", Platform::Windows), "config.json");
    assert_eq!(config_path("", Platform::Unknown), "config.json");
}

#[test]
fn path_that_ends_in_a_separator_is_its_own_directory() {
    assert_eq!(config_path("/opt/rp/", Platform::Unix), "/opt/rp/config.json");
    assert_eq!(config_path("/", Platform::Unix), "/config.json");
    assert_eq!(config_path("C:\\", Platform::Windows), "C:\\config.json");
}

#[test]
fn last_separator_decides() {
    assert_eq!(config_path("/a/b/c/d", Platform::Unix), "/a/b/c/config.json");
    assert_eq!(config_path("a/b", Platform::Unix), "a/config.json");
    assert_eq!(config_path("./player", Platform::Unix), "./config.json");
    assert_eq!(config_path("C:/Tools\\bin/player.exe", Platform::Windows), "C:/Tools\\bin/config.json");
    assert_eq!(config_path("C:/Tools/bin\\player.exe", Platform::Windows), "C:/Tools/bin\\config.json");
}

#[test]
fn backslash_is_part_of_a_name_on_unix() {
    assert_eq!(config_path("/opt/rp/odd\\name", Platform::Unix), "/opt/rp/config.json");
    assert_eq!(config_path("odd\\name", Platform::Unix), "config.json");
    assert_eq!(config_path("/opt/rp/odd\\name", Platform::Windows), "/opt/rp/odd\\config.json");
}

#[test]
fn unknown_platform_takes_either_separator() {
    assert_eq!(config_path("/opt/player/rusty-player", Platform::Unknown), "/opt/player/config.json");
    assert_eq!(config_path("C:\\Tools\\player.exe", Platform::Unknown), "C:\\Tools\\config.json");
}

#[test]
fn separators_by_platform() {
    for platform in [Platform::Windows, Platform::Unix, Platform::Unknown] {
        assert!(separates(platform, '/'));
        assert!(!separates(platform, ':'));
        assert!(!separates(platform, 'a'));
    }
    assert!(separates(Platform::Windows, '\\'));
    assert!(separates(Platform::Unknown, '\\'));
    assert!(!separates(Platform::Unix, '\\'));
}

#[test]
fn contains_finds_a_pattern_anywhere() {
    assert!(contains("abcdef", "abc"));
    assert!(contains("abcdef", "cde"));
    assert!(contains("abcdef", "def"));
    assert!(contains("abcdef", "abcdef"));
    assert!(contains("abcdef", ""));
    assert!(contains("", ""));
    assert!(contains("aaab", "aab"));
    assert!(contains("grüße", "üß"));
}

#[test]
fn contains_rejects_what_is_not_there() {
    assert!(!contains("abcdef", "abd"));
    assert!(!contains("abcdef", "abcdefg"));
    assert!(!contains("", "a"));
    assert!(!contains("abcdef", "fe"));
    assert!(!contains("aaa", "aaaa"));
    assert!(!contains("grusse", "ü"));
}

#[test]
fn same_text_compares_whole_texts() {
    assert!(same_text("", ""));
    assert!(same_text("linux", "linux"));
    assert!(!same_text("linux", "linus"));
    assert!(!same_text("linux", "linu"));
    assert!(!same_text("linu", "linux"));
    assert!(same_text("größe", "größe"));
}

#[test]
fn characters_are_the_chars_of_the_text() {
    assert_eq!(characters("aß९"), vec!['a', 'ß', '९']);
    assert_eq!(characters(""), Vec::<char>::new());
}
