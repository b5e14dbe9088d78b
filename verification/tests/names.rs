use std::path::Path;
use xp3_audio_speedup::names::{
    archive_file_name, backup_file_name, entry_name, replace_extension, ARCHIVE_EXTENSION,
    BACKUP_EXTENSION,
};

#[test]
fn forward_slashes_are_kept() {
    assert_eq!(entry_name("bgm/theme.ogg"), "bgm/theme.ogg");
}

#[test]
fn backslashes_become_forward_slashes() {
    assert_eq!(entry_name("bgm\\theme.ogg"), "bgm/theme.ogg");
    assert_eq!(entry_name("a\\b\\c\\d.txt"), "a/b/c/d.txt");
}

#[test]
fn mixed_separators_are_normalized() {
    assert_eq!(entry_name("a\\b/c\\d"), "a/b/c/d");
}

#[test]
fn plain_name_is_unchanged() {
    assert_eq!(entry_name("main.txt"), "main.txt");
    assert_eq!(entry_name(""), "");
}

#[test]
fn consecutive_and_edge_backslashes() {
    assert_eq!(entry_name("\\"), "/");
    assert_eq!(entry_name("\\\\"), "//");
    assert_eq!(entry_name("\\a\\"), "/a/");
}

#[test]
fn other_characters_are_untouched() {
    assert_eq!(entry_name("音楽\\テーマ.ogg"), "音楽/テーマ.ogg");
    assert_eq!(entry_name("a b\\c.d-e_f"), "a b/c.d-e_f");
}

#[test]
fn entry_name_agrees_with_replace() {
    let samples = ["", "x", "\\", "a\\b", "a/b", "dir\\sub\\file.bin", "no separators", "é\\ü"];
    for sample in samples {
        assert_eq!(entry_name(sample), sample.replace("\\", "/"));
    }
}

#[test]
fn entry_name_has_no_backslash() {
    assert!(!entry_name("a\\b\\c").contains('\\'));
}

#[test]
fn extensions_are_those_of_the_format() {
    assert_eq!(ARCHIVE_EXTENSION, "xp3");
    assert_eq!(BACKUP_EXTENSION, "xp3.bak");
}

#[test]
fn archive_is_backed_up_under_its_own_name() {
    assert_eq!(backup_file_name("game.xp3"), "game.xp3.bak");
    assert_eq!(backup_file_name("data.XP3"), "data.xp3.bak");
    assert_eq!(backup_file_name("voice"), "voice.xp3.bak");
}

#[test]
fn new_archive_takes_the_input_name() {
    assert_eq!(archive_file_name("game.xp3"), "game.xp3");
    assert_eq!(archive_file_name("game"), "game.xp3");
    assert_eq!(archive_file_name("game.dir"), "game.xp3");
    assert_eq!(archive_file_name("patch.v2.bin"), "patch.v2.xp3");
}

#[test]
fn extension_is_what_follows_the_last_dot() {
    assert_eq!(replace_extension("a.b.c", "x"), "a.b.x");
    assert_eq!(replace_extension("a.", "x"), "a.x");
    assert_eq!(replace_extension("a..", "x"), "a..x");
}

#[test]
fn leading_dot_opens_no_extension() {
    assert_eq!(replace_extension(".hidden", "x"), ".hidden.x");
    assert_eq!(replace_extension(".hidden.txt", "x"), ".hidden.x");
}

#[test]
fn empty_extension_removes_the_old_one() {
    assert_eq!(replace_extension("game.xp3", ""), "game");
    assert_eq!(replace_extension("game", ""), "game");
    assert_eq!(replace_extension(".hidden", ""), ".hidden");
}

#[test]
fn replace_extension_handles_wide_characters() {
    assert_eq!(replace_extension("音楽.ogg", "xp3"), "音楽.xp3");
    assert_eq!(replace_extension("é.ü.ö", "xp3.bak"), "é.ü.xp3.bak");
}

#[test]
fn replace_extension_agrees_with_the_path_rules() {
    let names = [
        "game.xp3", "game", ".hidden", ".hidden.txt", "a.b.c", "foo.", "...", "a..b", "x.y.",
        "音楽.ogg", "no dots at all", ".a.", "a",
    ];
    let extensions = ["", "xp3", "xp3.bak", "tar.gz", "x"];
    for name in names {
        for extension in extensions {
            let expected = Path::new(name).with_extension(extension);
            assert_eq!(
                replace_extension(name, extension),
                expected.to_str().unwrap(),
                "{:?} with {:?}",
                name,
                extension
            );
        }
    }
}
