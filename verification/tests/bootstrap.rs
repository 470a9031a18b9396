use cmd_compressor::bootstrap::{contains_bytes, needs_install, startup, Startup};

#[test]
fn build_tool_alone_decides_the_start() {
    assert_eq!(startup(true, true), Startup::Install);
    assert_eq!(startup(false, true), Startup::Install);
    assert_eq!(startup(true, false), Startup::Abort);
    assert_eq!(startup(false, false), Startup::Abort);
}

#[test]
fn word_is_found_wherever_it_stands() {
    assert!(contains_bytes(b"clap image", b"clap"));
    assert!(contains_bytes(b"clap image", b"image"));
    assert!(contains_bytes(b"clap image", b"p i"));
    assert!(contains_bytes(b"aab", b"ab"));
    assert!(contains_bytes(b"abc", b"abc"));
}

#[test]
fn absent_word_is_not_found() {
    assert!(!contains_bytes(b"clap image", b"rfd"));
    assert!(!contains_bytes(b"clap image", b"images"));
    assert!(!contains_bytes(b"ab", b"abc"));
    assert!(!contains_bytes(b"", b"a"));
    assert!(!contains_bytes(b"aaa", b"ab"));
}

#[test]
fn empty_word_is_found_everywhere() {
    assert!(contains_bytes(b"abc", b""));
    assert!(contains_bytes(b"", b""));
}

#[test]
fn search_agrees_with_the_standard_library() {
    let texts = ["", "a", "ab", "aab", "abab", "name = \"clap\"\nname = \"image\"", "ééé"];
    let words = ["", "a", "b", "ab", "ba", "clap", "image\"", "é", "éé", "e"];
    for text in texts {
        for word in words {
            assert_eq!(contains_bytes(text.as_bytes(), word.as_bytes()), text.contains(word));
        }
    }
}

#[test]
fn dependency_missing_from_the_lock_file_is_installed() {
    let lock = "[[package]]\nname = \"clap\"\nversion = \"4.5.0\"\n";
    assert!(needs_install(Some(lock), "image"));
    assert!(needs_install(Some(""), "clap"));
}

#[test]
fn dependency_named_in_the_lock_file_is_not_installed() {
    let lock = "[[package]]\nname = \"clap\"\nversion = \"4.5.0\"\n";
    assert!(!needs_install(Some(lock), "clap"));
}

#[test]
fn nothing_is_installed_without_a_lock_file() {
    assert!(!needs_install(None, "clap"));
}
